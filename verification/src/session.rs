//! Bounded ownership of sessions and their resumable connections.

use crate::encoding;
use crate::outside::{encode_url_base64, instant_now, nanos_since, random_identity};
use crate::span;
use crate::span::Span;
use crate::stats;
use crate::stats::{FrameStats, FrameWindow, SessionCounts, SessionPlayerStats};
use crate::text;
use crate::text::{decimal_text, owned, same_text};
use crate::text_map::TextMap;
use vstd::prelude::*;
use vstd::string::*;

verus! {

/// How long a session may be resumed where its client did not say.
pub const DEFAULT_RESUME_TIMEOUT_SECONDS: i64 = 60;

/// What tells the time since some fixed moment.
pub trait SessionClock {
    fn now(&self) -> Span;
}

/// A player as its session sees it.
pub trait SessionPlayer {
    fn guild_id(&self) -> String;

    fn wants_periodic_updates(&self) -> bool;

    fn stats(&self) -> SessionPlayerStats;

    /// The message that shows the player's state.
    fn snapshot(&self) -> String;
}

#[derive(Clone, Copy, Debug, PartialEq, Eq, Structural)]
pub struct SessionSettings {
    pub resuming: bool,
    pub timeout_seconds: i64,
}

#[derive(Clone, Copy, Debug, PartialEq, Eq, Structural)]
pub struct SessionSettingsUpdate {
    pub resuming: Option<bool>,
    pub timeout_seconds: Option<i64>,
}

impl Default for SessionSettingsUpdate {
    fn default() -> (r: SessionSettingsUpdate)
        ensures
            r == (SessionSettingsUpdate { resuming: None, timeout_seconds: None }),
    {
        SessionSettingsUpdate { resuming: None, timeout_seconds: None }
    }
}

#[derive(Clone, Copy, Debug, PartialEq, Eq, Structural)]
pub enum PrepareError {
    Full,
    ResumeOverloaded,
    IdentityGeneration,
    ShuttingDown,
}

#[derive(Clone, Copy, Debug, PartialEq, Eq, Structural)]
pub struct AttachError;

#[derive(Clone, Copy, Debug, PartialEq, Eq, Structural)]
pub enum UpdateError {
    NotFound,
}

/// Why a message was not taken; the message comes back.
#[derive(Debug, PartialEq, Eq)]
pub enum PublishError {
    Full(String),
    Disconnected(String),
}

#[derive(Clone, Copy, Debug, PartialEq, Eq, Structural)]
pub enum PlayerAdmissionError {
    SessionNotFound,
    Full,
    SessionFull,
}

#[derive(Clone, Copy, Debug, PartialEq, Eq, Structural)]
pub enum SessionLifecycle {
    /// A handshake is under way; of a resumed session the deadline that it had.
    Connecting { previous_deadline: Option<Span> },
    Connected,
    DisconnectedResumable { deadline: Span },
    Expired,
}

/// A message that must not be lost, and the mark that its sender waits for.
pub struct CriticalMessage {
    pub payload: String,
    pub delivered: Option<u64>,
}

/// The outgoing side of a live connection.
pub struct ConnectionOutput {
    pub queue: Vec<CriticalMessage>,
    /// Whether the connection was told to end.
    pub cancelled: bool,
    /// Whether its reader is gone.
    pub closed: bool,
}

pub struct Session<P> {
    pub serial: u64,
    pub id: String,
    pub user_id: String,
    pub client_name: Option<String>,
    pub generation: u64,
    pub lifecycle: SessionLifecycle,
    pub settings: SessionSettings,
    pub output: Option<ConnectionOutput>,
    pub critical_backlog: Vec<String>,
    pub player_updates: TextMap<String>,
    pub stats: Option<String>,
    pub players: TextMap<P>,
    pub frame_window: FrameWindow,
}

/// What the owner of the registry has yet to carry out.
pub enum Effect<P> {
    /// The connection of a session that is gone ends.
    EndConnection { serial: u64 },
    /// A player that no session holds any longer shuts down.
    ShutDownPlayer(P),
}

/// A resume under way.
#[derive(Clone, Copy, Debug, PartialEq, Eq, Structural)]
pub struct ResumePermit {
    pub serial: u64,
    pub generation: u64,
}

pub struct SessionRegistry<P> {
    pub max_sessions: usize,
    pub max_players: usize,
    pub max_players_per_session: usize,
    pub max_concurrent_resumes: usize,
    pub critical_capacity: usize,
    pub resume_permits: Vec<ResumePermit>,
    pub player_count: usize,
    pub shutting_down: bool,
    pub next_serial: u64,
    pub sessions: Vec<Session<P>>,
    pub effects: Vec<Effect<P>>,
}

impl<P> Session<P> {
    pub open spec fn wf(&self, critical_capacity: usize, max_players: usize) -> bool {
        &&& self.players.wf()
        &&& self.player_updates.wf()
        &&& self.frame_window.wf()
        &&& self.players.entries@.len() <= max_players
        &&& self.critical_backlog@.len() <= critical_capacity
        &&& self.output is Some <==> self.lifecycle is Connected
        &&& self.output matches Some(output) ==> output.queue@.len() <= critical_capacity
        &&& forall|guild: Seq<char>|
            #![trigger self.player_updates@.dom().contains(guild)]
            self.player_updates@.dom().contains(guild) ==> self.players@.dom().contains(guild)
    }

    /// Whether the session is gone at the time.
    pub open spec fn expired_at(&self, now: Span) -> bool {
        match self.lifecycle {
            SessionLifecycle::DisconnectedResumable { deadline } => deadline.nanos <= now.nanos,
            SessionLifecycle::Expired => true,
            _ => false,
        }
    }

    pub fn is_expired(&self, now: Span) -> (r: bool)
        ensures
            r == self.expired_at(now),
    {
        match self.lifecycle {
            SessionLifecycle::DisconnectedResumable { deadline } => deadline.nanos <= now.nanos,
            SessionLifecycle::Expired => true,
            _ => false,
        }
    }

    /// What is to be done where the session goes: its connection ends, then its
    /// players shut down in the order of their guilds.
    pub open spec fn parting(&self) -> Seq<Effect<P>> {
        let players = self.players.ordered().map_values(|player: P| Effect::ShutDownPlayer(player));
        if self.output is Some {
            seq![Effect::<P>::EndConnection { serial: self.serial }] + players
        } else {
            players
        }
    }

    /// The updates that wait in the order of their guilds, then the statistics.
    pub open spec fn coalesced(&self) -> Seq<String> {
        match self.stats {
            Some(stats) => self.player_updates.ordered().push(stats),
            None => self.player_updates.ordered(),
        }
    }

    /// Whether messages are refused.
    pub open spec fn gone(&self) -> bool {
        self.lifecycle is Expired
    }
}

/// The sessions that the time leaves, in order.
pub open spec fn kept_at<P>(sessions: Seq<Session<P>>, now: Span) -> Seq<Session<P>>
    decreases sessions.len(),
{
    if sessions.len() == 0 {
        Seq::empty()
    } else if sessions.last().expired_at(now) {
        kept_at(sessions.drop_last(), now)
    } else {
        kept_at(sessions.drop_last(), now).push(sessions.last())
    }
}

/// What is to be done for the sessions that the time takes, in order.
pub open spec fn partings_at<P>(sessions: Seq<Session<P>>, now: Span) -> Seq<Effect<P>>
    decreases sessions.len(),
{
    if sessions.len() == 0 {
        Seq::empty()
    } else if sessions.last().expired_at(now) {
        partings_at(sessions.drop_last(), now) + sessions.last().parting()
    } else {
        partings_at(sessions.drop_last(), now)
    }
}

/// What is to be done where all sessions go.
pub open spec fn all_partings<P>(sessions: Seq<Session<P>>) -> Seq<Effect<P>>
    decreases sessions.len(),
{
    if sessions.len() == 0 {
        Seq::empty()
    } else {
        all_partings(sessions.drop_last()) + sessions.last().parting()
    }
}

/// The players of all sessions together.
pub open spec fn total_players<P>(sessions: Seq<Session<P>>) -> nat
    decreases sessions.len(),
{
    if sessions.len() == 0 {
        0
    } else {
        total_players(sessions.drop_last()) + sessions.last().players.entries@.len()
    }
}

pub open spec fn sessions_distinct<P>(sessions: Seq<Session<P>>) -> bool {
    forall|i: int, j: int|
        0 <= i < j < sessions.len() ==> (#[trigger] sessions[i]).id@ != (#[trigger] sessions[j]).id@
            && sessions[i].serial != sessions[j].serial
}

pub open spec fn has_id<P>(sessions: Seq<Session<P>>, id: Seq<char>) -> bool {
    exists|i: int| 0 <= i < sessions.len() && (#[trigger] sessions[i]).id@ == id
}

pub open spec fn index_of_id<P>(sessions: Seq<Session<P>>, id: Seq<char>) -> int {
    choose|i: int| 0 <= i < sessions.len() && (#[trigger] sessions[i]).id@ == id
}

pub open spec fn has_serial<P>(sessions: Seq<Session<P>>, serial: u64) -> bool {
    exists|i: int| 0 <= i < sessions.len() && (#[trigger] sessions[i]).serial == serial
}

pub open spec fn index_of_serial<P>(sessions: Seq<Session<P>>, serial: u64) -> int {
    choose|i: int| 0 <= i < sessions.len() && (#[trigger] sessions[i]).serial == serial
}

proof fn lemma_total_update<P>(sessions: Seq<Session<P>>, i: int, session: Session<P>)
    requires
        0 <= i < sessions.len(),
    ensures
        total_players(sessions.update(i, session)) == total_players(sessions)
            - sessions[i].players.entries@.len() + session.players.entries@.len(),
        total_players(sessions) >= sessions[i].players.entries@.len(),
    decreases sessions.len(),
{
    let after = sessions.update(i, session);
    if i == sessions.len() - 1 {
        assert(after.drop_last() =~= sessions.drop_last());
    } else {
        lemma_total_update(sessions.drop_last(), i, session);
        assert(after.drop_last() =~= sessions.drop_last().update(i, session));
    }
}

proof fn lemma_total_remove<P>(sessions: Seq<Session<P>>, i: int)
    requires
        0 <= i < sessions.len(),
    ensures
        total_players(sessions.remove(i)) == total_players(sessions)
            - sessions[i].players.entries@.len(),
        total_players(sessions) >= sessions[i].players.entries@.len(),
    decreases sessions.len(),
{
    let after = sessions.remove(i);
    if i == sessions.len() - 1 {
        assert(after =~= sessions.drop_last());
    } else {
        lemma_total_remove(sessions.drop_last(), i);
        assert(after.drop_last() =~= sessions.drop_last().remove(i));
        assert(after.last() == sessions.last());
    }
}

proof fn lemma_total_push<P>(sessions: Seq<Session<P>>, session: Session<P>)
    ensures
        total_players(sessions.push(session)) == total_players(sessions)
            + session.players.entries@.len(),
{
    assert(sessions.push(session).drop_last() =~= sessions);
}

/// What the time leaves was there, and nothing that it leaves is expired.
pub proof fn kept_are_unexpired<P>(sessions: Seq<Session<P>>, now: Span)
    ensures
        kept_at(sessions, now).len() <= sessions.len(),
        forall|i: int|
            0 <= i < kept_at(sessions, now).len() ==> !(#[trigger] kept_at(
                sessions,
                now,
            )[i]).expired_at(now) && sessions.contains(kept_at(sessions, now)[i]),
    decreases sessions.len(),
{
    if sessions.len() > 0 {
        kept_are_unexpired(sessions.drop_last(), now);
        assert forall|i: int| 0 <= i < kept_at(sessions, now).len() implies !(#[trigger] kept_at(
            sessions,
            now,
        )[i]).expired_at(now) && sessions.contains(kept_at(sessions, now)[i]) by {
            let earlier = kept_at(sessions.drop_last(), now);
            if i < earlier.len() {
                assert(kept_at(sessions, now)[i] == earlier[i]);
                assert(sessions.drop_last().contains(earlier[i]));
                let k = choose|k: int|
                    0 <= k < sessions.drop_last().len() && sessions.drop_last()[k] == earlier[i];
                assert(sessions[k] == earlier[i]);
            } else {
                assert(sessions[sessions.len() - 1] == kept_at(sessions, now)[i]);
            }
        }
    }
}

/// A session that has not expired is kept.
pub proof fn unexpired_are_kept<P>(sessions: Seq<Session<P>>, now: Span, i: int)
    requires
        0 <= i < sessions.len(),
        !sessions[i].expired_at(now),
    ensures
        kept_at(sessions, now).contains(sessions[i]),
    decreases sessions.len(),
{
    let kept = kept_at(sessions, now);
    if i == sessions.len() - 1 {
        assert(kept.last() == sessions[i]);
        assert(kept[kept.len() - 1] == sessions[i]);
    } else {
        unexpired_are_kept(sessions.drop_last(), now, i);
        let earlier = kept_at(sessions.drop_last(), now);
        let k = choose|k: int| 0 <= k < earlier.len() && earlier[k] == sessions[i];
        assert(kept[k] == sessions[i]);
    }
}

/// How sessions that waited too long are ended.
pub open spec fn cleaned_up<P>(
    before: SessionRegistry<P>,
    after: SessionRegistry<P>,
    now: Span,
) -> bool {
    &&& after.wf()
    &&& after.same_limits(&before)
    &&& after.resume_permits@ == before.resume_permits@
    &&& after.shutting_down == before.shutting_down
    &&& after.next_serial == before.next_serial
    &&& after.sessions@ == kept_at(before.sessions@, now)
    &&& after.effects@ == before.effects@ + partings_at(before.sessions@, now)
}

impl<P> SessionRegistry<P> {
    /// The registry's invariant: every bound holds, identities are distinct,
    /// the player count is exact, and nothing is left after shutdown.
    pub open spec fn wf(&self) -> bool {
        &&& 0 < self.max_sessions && 0 < self.max_players && 0 < self.max_players_per_session
        &&& 0 < self.max_concurrent_resumes && 0 < self.critical_capacity
        &&& self.sessions@.len() <= self.max_sessions
        &&& sessions_distinct(self.sessions@)
        &&& forall|i: int|
            0 <= i < self.sessions@.len() ==> (#[trigger] self.sessions@[i]).wf(
                self.critical_capacity,
                self.max_players_per_session,
            ) && self.sessions@[i].serial < self.next_serial
        &&& self.player_count == total_players(self.sessions@)
        &&& self.player_count <= self.max_players
        &&& self.resume_permits@.len() <= self.max_concurrent_resumes
        &&& self.shutting_down ==> self.sessions@.len() == 0
    }

    pub open spec fn same_limits(&self, other: &Self) -> bool {
        &&& self.max_sessions == other.max_sessions
        &&& self.max_players == other.max_players
        &&& self.max_players_per_session == other.max_players_per_session
        &&& self.max_concurrent_resumes == other.max_concurrent_resumes
        &&& self.critical_capacity == other.critical_capacity
    }

    /// All but the sessions stands as it was.
    pub open spec fn same_but_sessions(&self, other: &Self) -> bool {
        &&& self.same_limits(other)
        &&& self.resume_permits@ == other.resume_permits@
        &&& self.shutting_down == other.shutting_down
        &&& self.next_serial == other.next_serial
        &&& self.effects@ == other.effects@
    }

    pub fn new(
        max_sessions: usize,
        max_players: usize,
        max_players_per_session: usize,
        max_concurrent_resumes: usize,
        critical_capacity: usize,
    ) -> (r: SessionRegistry<P>)
        requires
            max_sessions > 0,
            max_players > 0,
            max_players_per_session > 0,
            max_concurrent_resumes > 0,
            critical_capacity > 0,
        ensures
            r.wf(),
            r.max_sessions == max_sessions,
            r.max_players == max_players,
            r.max_players_per_session == max_players_per_session,
            r.max_concurrent_resumes == max_concurrent_resumes,
            r.critical_capacity == critical_capacity,
            r.sessions@.len() == 0,
            r.resume_permits@.len() == 0,
            r.effects@.len() == 0,
            r.player_count == 0 && r.next_serial == 0,
            !r.shutting_down,
    {
        SessionRegistry {
            max_sessions,
            max_players,
            max_players_per_session,
            max_concurrent_resumes,
            critical_capacity,
            resume_permits: Vec::new(),
            player_count: 0,
            shutting_down: false,
            next_serial: 0,
            sessions: Vec::new(),
            effects: Vec::new(),
        }
    }

    fn find_id(&self, id: &str) -> (r: Option<usize>)
        requires
            self.wf(),
        ensures
            r is Some <==> has_id(self.sessions@, id@),
            r matches Some(i) ==> i < self.sessions@.len() && self.sessions@[i as int].id@ == id@
                && i == index_of_id(self.sessions@, id@),
    {
        let mut i: usize = 0;
        while i < self.sessions.len()
            invariant
                self.wf(),
                i <= self.sessions@.len(),
                forall|k: int| 0 <= k < i ==> (#[trigger] self.sessions@[k]).id@ != id@,
            decreases self.sessions@.len() - i,
        {
            if same_text(self.sessions[i].id.as_str(), id) {
                assert(self.sessions@[i as int].id@ == id@);
                assert(i == index_of_id(self.sessions@, id@));
                return Some(i);
            }
            i = i + 1;
        }
        None
    }

    fn find_serial(&self, serial: u64) -> (r: Option<usize>)
        requires
            self.wf(),
        ensures
            r is Some <==> has_serial(self.sessions@, serial),
            r matches Some(i) ==> i < self.sessions@.len() && self.sessions@[i as int].serial
                == serial && i == index_of_serial(self.sessions@, serial),
    {
        let mut i: usize = 0;
        while i < self.sessions.len()
            invariant
                self.wf(),
                i <= self.sessions@.len(),
                forall|k: int| 0 <= k < i ==> (#[trigger] self.sessions@[k]).serial != serial,
            decreases self.sessions@.len() - i,
        {
            if self.sessions[i].serial == serial {
                assert(self.sessions@[i as int].serial == serial);
                assert(i == index_of_serial(self.sessions@, serial));
                return Some(i);
            }
            i = i + 1;
        }
        None
    }

    /// Takes a session out of the registry.
    fn retire(&mut self, i: usize)
        requires
            old(self).wf(),
            i < old(self).sessions@.len(),
        ensures
            final(self).wf(),
            final(self).same_limits(old(self)),
            final(self).resume_permits@ == old(self).resume_permits@,
            final(self).shutting_down == old(self).shutting_down,
            final(self).next_serial == old(self).next_serial,
            final(self).sessions@ == old(self).sessions@.remove(i as int),
            final(self).effects@ == old(self).effects@ + old(self).sessions@[i as int].parting(),
    {
        let ghost before = self.sessions@;
        let mut session: Session<P> = self.sessions.remove(i);
        proof {
            lemma_total_remove(before, i as int);
        }
        let freed: usize = session.players.len();
        self.player_count = self.player_count - freed;
        let ghost parting = session.parting();
        let ghost kept_effects = self.effects@;
        if session.output.is_some() {
            self.effects.push(Effect::EndConnection { serial: session.serial });
        }
        let ghost start = self.effects@;
        let mut players: Vec<P> = session.players.drain();
        let ghost all = players@;
        while players.len() > 0
            invariant
                self.same_limits(old(self)),
                self.resume_permits@ == old(self).resume_permits@,
                self.shutting_down == old(self).shutting_down,
                self.next_serial == old(self).next_serial,
                self.sessions@ == before.remove(i as int),
                before == old(self).sessions@,
                self.player_count == total_players(before.remove(i as int)),
                self.player_count <= old(self).player_count,
                players@.len() <= all.len(),
                players@ =~= all.skip(all.len() - players@.len()),
                self.effects@ =~= start + all.take(all.len() - players@.len()).map_values(
                    |player: P| Effect::ShutDownPlayer(player),
                ),
            decreases players@.len(),
        {
            let ghost done = all.len() - players@.len();
            let player: P = players.remove(0);
            self.effects.push(Effect::ShutDownPlayer(player));
            proof {
                assert(all.take(done + 1) =~= all.take(done).push(player));
                assert(all.take(done + 1).map_values(|player: P| Effect::ShutDownPlayer(player))
                    =~= all.take(done).map_values(|player: P| Effect::ShutDownPlayer(player)).push(
                    Effect::ShutDownPlayer(player),
                ));
            }
        }
        proof {
            assert(all.take(all.len() as int) =~= all);
            assert(self.effects@ =~= kept_effects + parting);
            assert(self.wf()) by {
                let after = before.remove(i as int);
                assert forall|a: int, b: int| 0 <= a < b < after.len() implies (
                #[trigger] after[a]).id@ != (#[trigger] after[b]).id@ && after[a].serial
                    != after[b].serial by {
                    let pa = if a < i { a } else { a + 1 };
                    let pb = if b < i { b } else { b + 1 };
                    assert(after[a] == before[pa]);
                    assert(after[b] == before[pb]);
                }
                assert forall|a: int| 0 <= a < after.len() implies (#[trigger] after[a]).wf(
                    self.critical_capacity,
                    self.max_players_per_session,
                ) && after[a].serial < self.next_serial by {
                    let pa = if a < i { a } else { a + 1 };
                    assert(after[a] == before[pa]);
                }
            }
        }
    }

    /// Takes out every session that the time took.
    pub fn cleanup_expired(&mut self, now: Span)
        requires
            old(self).wf(),
        ensures
            cleaned_up(*old(self), *final(self), now),
    {
        let ghost before = self.sessions@;
        let ghost effects = self.effects@;
        let mut i: usize = 0;
        let ghost mut seen: int = 0;
        assert(before.take(0) =~= Seq::<Session<P>>::empty());
        assert(before.skip(0) =~= before);
        assert(effects + Seq::<Effect<P>>::empty() =~= effects);
        while i < self.sessions.len()
            invariant
                self.wf(),
                self.same_limits(old(self)),
                self.resume_permits@ == old(self).resume_permits@,
                self.shutting_down == old(self).shutting_down,
                self.next_serial == old(self).next_serial,
                before == old(self).sessions@,
                effects == old(self).effects@,
                0 <= seen <= before.len(),
                i == kept_at(before.take(seen), now).len(),
                self.sessions@ =~= kept_at(before.take(seen), now) + before.skip(seen),
                self.effects@ == effects + partings_at(before.take(seen), now),
            decreases self.sessions@.len() - i,
        {
            proof {
                assert(self.sessions@[i as int] == before[seen]);
                assert(before.take(seen + 1).drop_last() =~= before.take(seen));
                assert(before.take(seen + 1).last() == before[seen]);
            }
            if self.sessions[i].is_expired(now) {
                let ghost earlier = self.effects@;
                self.retire(i);
                proof {
                    assert(self.sessions@ =~= kept_at(before.take(seen + 1), now) + before.skip(
                        seen + 1,
                    ));
                    assert(self.effects@ =~= effects + partings_at(before.take(seen + 1), now));
                }
            } else {
                i = i + 1;
                proof {
                    assert(self.sessions@ =~= kept_at(before.take(seen + 1), now) + before.skip(
                        seen + 1,
                    ));
                }
            }
            proof {
                seen = seen + 1;
            }
        }
        proof {
            assert(seen == before.len());
            assert(before.take(seen) =~= before);
            assert(self.sessions@ =~= kept_at(before, now));
        }
    }

    /// Ends every session and takes no more.
    pub fn shutdown(&mut self)
        requires
            old(self).wf(),
        ensures
            final(self).wf(),
            final(self).same_limits(old(self)),
            final(self).resume_permits@ == old(self).resume_permits@,
            final(self).next_serial == old(self).next_serial,
            final(self).shutting_down,
            final(self).sessions@.len() == 0,
            final(self).player_count == 0,
            final(self).effects@ == old(self).effects@ + all_partings(old(self).sessions@),
    {
        let ghost before = self.sessions@;
        let ghost effects = self.effects@;
        let ghost mut seen: int = 0;
        assert(before.take(0) =~= Seq::<Session<P>>::empty());
        assert(effects + Seq::<Effect<P>>::empty() =~= effects);
        while self.sessions.len() > 0
            invariant
                self.wf(),
                self.same_limits(old(self)),
                self.resume_permits@ == old(self).resume_permits@,
                self.next_serial == old(self).next_serial,
                before == old(self).sessions@,
                effects == old(self).effects@,
                0 <= seen <= before.len(),
                self.sessions@ =~= before.skip(seen),
                self.effects@ == effects + all_partings(before.take(seen)),
            decreases self.sessions@.len(),
        {
            proof {
                assert(before.take(seen + 1).drop_last() =~= before.take(seen));
                assert(before.take(seen + 1).last() == before[seen]);
            }
            self.retire(0);
            proof {
                assert(self.effects@ =~= effects + all_partings(before.take(seen + 1)));
                seen = seen + 1;
            }
        }
        proof {
            assert(before.take(seen) =~= before);
        }
        self.shutting_down = true;
    }

    /// Hands out what is to be carried out.
    pub fn take_effects(&mut self) -> (r: Vec<Effect<P>>)
        requires
            old(self).wf(),
        ensures
            final(self).wf(),
            final(self).same_limits(old(self)),
            final(self).sessions@ == old(self).sessions@,
            final(self).resume_permits@ == old(self).resume_permits@,
            final(self).shutting_down == old(self).shutting_down,
            final(self).next_serial == old(self).next_serial,
            final(self).effects@.len() == 0,
            r@ == old(self).effects@,
    {
        let mut out: Vec<Effect<P>> = Vec::new();
        std::mem::swap(&mut out, &mut self.effects);
        out
    }
}

/// The time since the clock was made, as the system counts it.
pub struct SystemSessionClock {
    origin: std::time::Instant,
}

/// Whether the clock counts from what the system gave as the present moment.
pub closed spec fn made_now(clock: SystemSessionClock) -> bool {
    call_ensures(instant_now, (), clock.origin)
}

/// Whether the nanoseconds are what the system gave as the time since the clock
/// was made.
pub closed spec fn reading_of(clock: SystemSessionClock, nanos: u128) -> bool {
    call_ensures(nanos_since, (&clock.origin,), nanos)
}

impl SystemSessionClock {
    pub fn new() -> (r: SystemSessionClock)
        ensures
            made_now(r),
    {
        SystemSessionClock { origin: instant_now() }
    }
}

impl Default for SystemSessionClock {
    fn default() -> (r: SystemSessionClock)
        ensures
            made_now(r),
    {
        SystemSessionClock::new()
    }
}

impl SessionClock for SystemSessionClock {
    fn now(&self) -> (r: Span)
        ensures
            reading_of(*self, r.nanos),
            r.valid(),
    {
        Span { nanos: nanos_since(&self.origin) }
    }
}

/// A session as a mathematical value.
#[verifier::ext_equal]
pub struct SessionModel<P> {
    pub serial: u64,
    pub id: Seq<char>,
    pub user: Seq<char>,
    pub client: Option<Seq<char>>,
    pub generation: u64,
    pub lifecycle: SessionLifecycle,
    pub settings: SessionSettings,
    pub output: Option<OutputModel>,
    pub backlog: Seq<String>,
    pub updates: Map<Seq<char>, String>,
    pub stats: Option<String>,
    pub players: Map<Seq<char>, P>,
    pub window: Map<Seq<char>, SessionPlayerStats>,
}

#[verifier::ext_equal]
pub struct OutputModel {
    pub queue: Seq<CriticalMessage>,
    pub cancelled: bool,
    pub closed: bool,
}

impl View for ConnectionOutput {
    type V = OutputModel;

    open spec fn view(&self) -> OutputModel {
        OutputModel { queue: self.queue@, cancelled: self.cancelled, closed: self.closed }
    }
}

pub open spec fn optional_text(value: Option<String>) -> Option<Seq<char>> {
    match value {
        Some(value) => Some(value@),
        None => None,
    }
}

pub open spec fn optional_str(value: Option<&str>) -> Option<Seq<char>> {
    match value {
        Some(value) => Some(value@),
        None => None,
    }
}

impl<P> View for Session<P> {
    type V = SessionModel<P>;

    open spec fn view(&self) -> SessionModel<P> {
        SessionModel {
            serial: self.serial,
            id: self.id@,
            user: self.user_id@,
            client: optional_text(self.client_name),
            generation: self.generation,
            lifecycle: self.lifecycle,
            settings: self.settings,
            output: match self.output {
                Some(output) => Some(output@),
                None => None,
            },
            backlog: self.critical_backlog@,
            updates: self.player_updates@,
            stats: self.stats,
            players: self.players@,
            window: self.frame_window.previous@,
        }
    }
}

/// A message of which only the latest counts.
pub enum Publication {
    Update { guild: Seq<char>, payload: String },
    Stats(String),
}

/// Whether a session takes such a message.
pub open spec fn accepts<P>(m: SessionModel<P>, publication: Publication) -> bool {
    &&& !(m.lifecycle is Expired)
    &&& publication matches Publication::Update { guild, .. } ==> m.players.dom().contains(guild)
}

/// The session once it took the message: one that waited in its place is gone.
pub open spec fn after_publication<P>(m: SessionModel<P>, publication: Publication) -> SessionModel<
    P,
> {
    match publication {
        Publication::Update { guild, payload } => SessionModel {
            updates: m.updates.insert(guild, payload),
            ..m
        },
        Publication::Stats(payload) => SessionModel { stats: Some(payload), ..m },
    }
}

/// The session once what waited was handed out.
pub open spec fn emptied<P>(m: SessionModel<P>) -> SessionModel<P> {
    SessionModel { updates: Map::empty(), stats: None, ..m }
}

/// A session as it is made for a new connection.
pub open spec fn fresh_session<P>(
    serial: u64,
    id: Seq<char>,
    user: Seq<char>,
    client: Option<Seq<char>>,
) -> SessionModel<P> {
    SessionModel {
        serial,
        id,
        user,
        client,
        generation: 1,
        lifecycle: SessionLifecycle::Connecting { previous_deadline: None },
        settings: SessionSettings {
            resuming: false,
            timeout_seconds: DEFAULT_RESUME_TIMEOUT_SECONDS,
        },
        output: None,
        backlog: Seq::empty(),
        updates: Map::empty(),
        stats: None,
        players: Map::empty(),
        window: Map::empty(),
    }
}

pub open spec fn next_generation(generation: u64) -> u64 {
    if generation == u64::MAX {
        0
    } else {
        (generation + 1) as u64
    }
}

/// Whether the user may take the session up again at the time.
pub open spec fn resumable_by<P>(session: Session<P>, user: Seq<char>, now: Span) -> bool {
    session.user_id@ == user && (session.lifecycle matches SessionLifecycle::DisconnectedResumable {
        deadline,
    } && deadline.nanos > now.nanos)
}

/// The session that a request resumes.
pub open spec fn resume_index<P>(
    sessions: Seq<Session<P>>,
    user: Seq<char>,
    requested: Option<Seq<char>>,
    now: Span,
) -> Option<int> {
    match requested {
        Some(id) => if has_id(sessions, id) && resumable_by(
            sessions[index_of_id(sessions, id)],
            user,
            now,
        ) {
            Some(index_of_id(sessions, id))
        } else {
            None
        },
        None => None,
    }
}

/// A session under resumption.
pub open spec fn resuming_session<P>(session: Session<P>) -> Session<P> {
    Session {
        generation: next_generation(session.generation),
        lifecycle: SessionLifecycle::Connecting {
            previous_deadline: Some(session.lifecycle->deadline),
        },
        ..session
    }
}

/// A session whose handshake is not complete yet.
pub struct PreparedSession {
    pub serial: u64,
    pub id: String,
    pub generation: u64,
    pub resumed: bool,
}

/// What became of a candidate for a session's identity.
pub enum IdentityStep {
    Failed,
    Taken,
    Free(String),
}

/// How many identities are drawn for a session at most.
pub const MAX_IDENTITY_DRAWS: usize = 16;

/// What follows a draw of an identity.
pub enum IdentityDraw {
    Found(String),
    Failed,
    Again,
}

/// Whether a draw is what the random source gave.
pub closed spec fn was_drawn(draw: Option<[u8; 12]>) -> bool {
    call_ensures(random_identity, (), draw)
}

/// Whether what was drawn is the identity of a session.
pub open spec fn is_taken<P>(sessions: Seq<Session<P>>, draw: Option<[u8; 12]>) -> bool {
    draw matches Some(bytes) && has_id(sessions, encoding::url_base64_text(bytes@))
}

/// Whether a search for an identity that made these draws gives the result: the
/// random source gave them all, each but the last was taken, and the last is
/// free, or failed, or is the last that is allowed.
pub open spec fn search_gives<P>(
    sessions: Seq<Session<P>>,
    draws: Seq<Option<[u8; 12]>>,
    r: Result<String, PrepareError>,
) -> bool {
    &&& 0 < draws.len() <= MAX_IDENTITY_DRAWS
    &&& forall|k: int| 0 <= k < draws.len() ==> was_drawn(#[trigger] draws[k])
    &&& forall|k: int| 0 <= k < draws.len() - 1 ==> is_taken(sessions, #[trigger] draws[k])
    &&& match r {
        Ok(id) => !is_taken(sessions, draws.last()) && (draws.last() matches Some(bytes) && id@
            == encoding::url_base64_text(bytes@)),
        Err(error) => error == PrepareError::IdentityGeneration && (draws.last() is None || (
        is_taken(sessions, draws.last()) && draws.len() == MAX_IDENTITY_DRAWS)),
    }
}

/// How a connection is admitted.
pub open spec fn prepared<P>(
    before: SessionRegistry<P>,
    after: SessionRegistry<P>,
    now: Span,
    user_id: Seq<char>,
    client_name: Option<Seq<char>>,
    requested_session_id: Option<Seq<char>>,
    r: Result<PreparedSession, PrepareError>,
) -> bool {
    &&& after.wf()
    &&& after.same_limits(&before)
    &&& after.shutting_down == before.shutting_down
    &&& after.effects@ == before.effects@ + partings_at(before.sessions@, now)
    &&& ({
                let kept = kept_at(before.sessions@, now);
                let target = resume_index(kept, user_id, requested_session_id, now);
                let untouched = after.sessions@ == kept && after.resume_permits@
                    == before.resume_permits@ && after.next_serial
                    == before.next_serial;
                if before.shutting_down {
                    &&& r == Err::<PreparedSession, PrepareError>(PrepareError::ShuttingDown)
                    &&& untouched
                } else if target is Some {
                    let session = kept[target->0];
                    if before.resume_permits@.len() >= before.max_concurrent_resumes {
                        &&& r == Err::<PreparedSession, PrepareError>(
                            PrepareError::ResumeOverloaded,
                        )
                        &&& untouched
                    } else {
                        &&& r matches Ok(prepared) && prepared.resumed && prepared.serial
                            == session.serial && prepared.id == session.id && prepared.generation
                            == next_generation(session.generation)
                        &&& after.sessions@ == kept.update(
                            target->0,
                            resuming_session(session),
                        )
                        &&& after.resume_permits@ == before.resume_permits@.push(
                            ResumePermit {
                                serial: session.serial,
                                generation: next_generation(session.generation),
                            },
                        )
                        &&& after.next_serial == before.next_serial
                    }
                } else if kept.len() >= before.max_sessions {
                    &&& r == Err::<PreparedSession, PrepareError>(PrepareError::Full)
                    &&& untouched
                } else {
                    match r {
                        Ok(prepared) => {
                            &&& !prepared.resumed
                            &&& prepared.generation == 1
                            &&& prepared.serial == before.next_serial
                            &&& exists|draws: Seq<Option<[u8; 12]>>| #[trigger]
                                search_gives(kept, draws, Ok(prepared.id))
                            &&& after.sessions@.len() == kept.len() + 1
                            &&& after.sessions@.drop_last() == kept
                            &&& after.sessions@.last()@ == fresh_session::<P>(
                                prepared.serial,
                                prepared.id@,
                                user_id,
                                client_name,
                            )
                            &&& after.resume_permits@ == before.resume_permits@
                            &&& after.next_serial == before.next_serial + 1
                        },
                        Err(error) => error == PrepareError::IdentityGeneration && untouched && (
                        before.next_serial == u64::MAX || exists|draws: Seq<Option<[u8; 12]>>|
                            #[trigger] search_gives(
                                kept,
                                draws,
                                Err(PrepareError::IdentityGeneration),
                            )),
                    }
                }
            })
}

impl<P> SessionRegistry<P> {
    /// Turns drawn bytes into an identity and tells whether it is free.
    pub fn candidate_id(&self, draw: Option<[u8; 12]>) -> (r: IdentityStep)
        requires
            self.wf(),
        ensures
            match draw {
                None => r is Failed,
                Some(bytes) => if has_id(self.sessions@, encoding::url_base64_text(bytes@)) {
                    r is Taken
                } else {
                    r matches IdentityStep::Free(id) && id@ == encoding::url_base64_text(bytes@)
                },
            },
    {
        match draw {
            None => IdentityStep::Failed,
            Some(bytes) => {
                let id: String = encode_url_base64(&bytes);
                if self.find_id(id.as_str()).is_some() {
                    IdentityStep::Taken
                } else {
                    IdentityStep::Free(id)
                }
            },
        }
    }

    /// What follows a draw of an identity, where `tries` draws were made before
    /// it: one that is free is taken up, and a taken one is drawn again unless it
    /// was the last that is allowed.
    pub fn draw_identity(&self, tries: usize, draw: Option<[u8; 12]>) -> (r: IdentityDraw)
        requires
            self.wf(),
            tries < MAX_IDENTITY_DRAWS,
        ensures
            match draw {
                None => r is Failed,
                Some(bytes) => if !is_taken(self.sessions@, draw) {
                    r matches IdentityDraw::Found(id) && id@ == encoding::url_base64_text(bytes@)
                } else if tries + 1 == MAX_IDENTITY_DRAWS {
                    r is Failed
                } else {
                    r is Again
                },
            },
    {
        match self.candidate_id(draw) {
            IdentityStep::Failed => IdentityDraw::Failed,
            IdentityStep::Free(id) => IdentityDraw::Found(id),
            IdentityStep::Taken => if tries + 1 == MAX_IDENTITY_DRAWS {
                IdentityDraw::Failed
            } else {
                IdentityDraw::Again
            },
        }
    }

    /// An identity that no session has, drawn at random: the first of the draws
    /// that is free. It fails where the random source does, and where as many
    /// draws as are allowed were taken.
    pub fn unique_session_id(&self) -> (r: Result<String, PrepareError>)
        requires
            self.wf(),
        ensures
            exists|draws: Seq<Option<[u8; 12]>>| #[trigger] search_gives(self.sessions@, draws, r),
    {
        let mut tries: usize = 0;
        let ghost mut draws: Seq<Option<[u8; 12]>> = Seq::empty();
        loop
            invariant
                self.wf(),
                tries < MAX_IDENTITY_DRAWS,
                draws.len() == tries,
                forall|k: int| 0 <= k < draws.len() ==> was_drawn(#[trigger] draws[k]),
                forall|k: int| 0 <= k < draws.len() ==> is_taken(self.sessions@, #[trigger] draws[k]),
            decreases MAX_IDENTITY_DRAWS - tries,
        {
            let draw: Option<[u8; 12]> = random_identity();
            proof {
                draws = draws.push(draw);
                assert(draws.last() == draw);
            }
            match self.draw_identity(tries, draw) {
                IdentityDraw::Found(id) => {
                    let r: Result<String, PrepareError> = Ok(id);
                    assert(search_gives(self.sessions@, draws, r));
                    return r;
                },
                IdentityDraw::Failed => {
                    let r: Result<String, PrepareError> = Err(PrepareError::IdentityGeneration);
                    assert(search_gives(self.sessions@, draws, r));
                    return r;
                },
                IdentityDraw::Again => {},
            }
            tries = tries + 1;
        }
    }

    /// Takes a session up again, where a resume is still free.
    fn resume(&mut self, i: usize) -> (r: Result<PreparedSession, PrepareError>)
        requires
            old(self).wf(),
            i < old(self).sessions@.len(),
            old(self).sessions@[i as int].lifecycle is DisconnectedResumable,
        ensures
            final(self).wf(),
            final(self).same_limits(old(self)),
            final(self).shutting_down == old(self).shutting_down,
            final(self).next_serial == old(self).next_serial,
            final(self).effects@ == old(self).effects@,
            ({
                let session = old(self).sessions@[i as int];
                if old(self).resume_permits@.len() >= old(self).max_concurrent_resumes {
                    &&& r == Err::<PreparedSession, PrepareError>(PrepareError::ResumeOverloaded)
                    &&& final(self).sessions@ == old(self).sessions@
                    &&& final(self).resume_permits@ == old(self).resume_permits@
                } else {
                    &&& r matches Ok(prepared) && prepared.resumed && prepared.serial
                        == session.serial && prepared.id == session.id && prepared.generation
                        == next_generation(session.generation)
                    &&& final(self).sessions@ == old(self).sessions@.update(
                        i as int,
                        resuming_session(session),
                    )
                    &&& final(self).resume_permits@ == old(self).resume_permits@.push(
                        ResumePermit {
                            serial: session.serial,
                            generation: next_generation(session.generation),
                        },
                    )
                }
            }),
    {
        if self.resume_permits.len() >= self.max_concurrent_resumes {
            return Err(PrepareError::ResumeOverloaded);
        }
        let ghost before = self.sessions@;
        let deadline: Span = match self.sessions[i].lifecycle {
            SessionLifecycle::DisconnectedResumable { deadline } => deadline,
            _ => Span { nanos: 0 },
        };
        let generation: u64 = self.sessions[i].generation.wrapping_add(1);
        self.sessions[i].generation = generation;
        self.sessions[i].lifecycle = SessionLifecycle::Connecting {
            previous_deadline: Some(deadline),
        };
        let serial: u64 = self.sessions[i].serial;
        self.resume_permits.push(ResumePermit { serial, generation });
        proof {
            assert(self.sessions@ =~= before.update(i as int, resuming_session(before[i as int])));
            lemma_total_update(before, i as int, resuming_session(before[i as int]));
        }
        Ok(
            PreparedSession {
                serial,
                id: self.sessions[i].id.clone(),
                generation,
                resumed: true,
            },
        )
    }

    /// Makes a session under a free identity.
    fn create(&mut self, id: String, user_id: &str, client_name: Option<&str>) -> (r:
        PreparedSession)
        requires
            old(self).wf(),
            !old(self).shutting_down,
            old(self).sessions@.len() < old(self).max_sessions,
            old(self).next_serial < u64::MAX,
            !has_id(old(self).sessions@, id@),
        ensures
            final(self).wf(),
            final(self).same_limits(old(self)),
            final(self).shutting_down == old(self).shutting_down,
            final(self).next_serial == old(self).next_serial + 1,
            final(self).effects@ == old(self).effects@,
            final(self).resume_permits@ == old(self).resume_permits@,
            r.serial == old(self).next_serial,
            r.id@ == id@,
            r.generation == 1,
            !r.resumed,
            final(self).sessions@.len() == old(self).sessions@.len() + 1,
            final(self).sessions@.drop_last() == old(self).sessions@,
            final(self).sessions@.last()@ == fresh_session::<P>(
                r.serial,
                id@,
                user_id@,
                optional_str(client_name),
            ),
    {
        let ghost before = self.sessions@;
        let serial: u64 = self.next_serial;
        let kept: String = id.clone();
        let session: Session<P> = Session {
            serial,
            id,
            user_id: owned(user_id),
            client_name: match client_name {
                Some(name) => Some(owned(name)),
                None => None,
            },
            generation: 1,
            lifecycle: SessionLifecycle::Connecting { previous_deadline: None },
            settings: SessionSettings {
                resuming: false,
                timeout_seconds: DEFAULT_RESUME_TIMEOUT_SECONDS,
            },
            output: None,
            critical_backlog: Vec::new(),
            player_updates: TextMap::new(),
            stats: None,
            players: TextMap::new(),
            frame_window: FrameWindow::new(),
        };
        self.sessions.push(session);
        self.next_serial = serial + 1;
        proof {
            lemma_total_push(before, session);
            assert(self.sessions@.drop_last() =~= before);
            assert(session@ =~= fresh_session::<P>(
                serial,
                kept@,
                user_id@,
                optional_str(client_name),
            ));
            assert forall|k: int| 0 <= k < before.len() implies (#[trigger] before[k]).id@
                != kept@ by {
                if before[k].id@ == kept@ {
                    assert(has_id(before, kept@));
                }
            }
        }
        PreparedSession { serial, id: kept, generation: 1, resumed: false }
    }

    /// Admits a connection: the session that its user asks for where it can be
    /// resumed, a new one otherwise.
    pub fn prepare(
        &mut self,
        now: Span,
        user_id: &str,
        client_name: Option<&str>,
        requested_session_id: Option<&str>,
    ) -> (r: Result<PreparedSession, PrepareError>)
        requires
            old(self).wf(),
        ensures
            prepared(*old(self), *final(self), now, user_id@, optional_str(client_name), optional_str(requested_session_id), r),
    {
        self.cleanup_expired(now);
        if self.shutting_down {
            return Err(PrepareError::ShuttingDown);
        }
        if let Some(requested) = requested_session_id {
            if let Some(i) = self.find_id(requested) {
                let owner: bool = same_text(self.sessions[i].user_id.as_str(), user_id);
                let open: bool = match self.sessions[i].lifecycle {
                    SessionLifecycle::DisconnectedResumable { deadline } => deadline.nanos
                        > now.nanos,
                    _ => false,
                };
                if owner && open {
                    return self.resume(i);
                }
            }
        }
        if self.sessions.len() >= self.max_sessions {
            return Err(PrepareError::Full);
        }
        if self.next_serial == u64::MAX {
            return Err(PrepareError::IdentityGeneration);
        }
        match self.unique_session_id() {
            Ok(id) => {
                let ghost kept = self.sessions@;
                let ghost draws = choose|draws: Seq<Option<[u8; 12]>>| #[trigger]
                    search_gives(kept, draws, Ok(id));
                let prepared: PreparedSession = self.create(id, user_id, client_name);
                assert(search_gives(kept, draws, Ok(prepared.id)));
                Ok(prepared)
            },
            Err(error) => Err(error),
        }
    }
}

/// The permits without the first that equals the given one.
pub open spec fn without_permit(permits: Seq<ResumePermit>, permit: ResumePermit) -> Seq<
    ResumePermit,
>
    decreases permits.len(),
{
    if permits.len() == 0 {
        permits
    } else if permits[0] == permit {
        permits.drop_first()
    } else {
        seq![permits[0]] + without_permit(permits.drop_first(), permit)
    }
}

/// The session of a handshake, where the handshake still stands.
pub open spec fn handshake_stands<P>(
    sessions: Seq<Session<P>>,
    serial: u64,
    generation: u64,
) -> bool {
    has_serial(sessions, serial) && sessions[index_of_serial(sessions, serial)].generation
        == generation && sessions[index_of_serial(sessions, serial)].lifecycle is Connecting
}

/// The session of a connection, where the connection is its current one.
pub open spec fn connection_stands<P>(
    sessions: Seq<Session<P>>,
    serial: u64,
    generation: u64,
) -> bool {
    has_serial(sessions, serial) && sessions[index_of_serial(sessions, serial)].generation
        == generation && sessions[index_of_serial(sessions, serial)].lifecycle is Connected
}

/// How long a disconnected session stays, by its settings.
pub open spec fn resume_window(settings: SessionSettings) -> Span {
    Span {
        nanos: if settings.timeout_seconds < 0 {
            0
        } else {
            (settings.timeout_seconds * span::NANOS_PER_SECOND) as u128
        },
    }
}

/// A connected session, and the messages that waited for its connection.
pub struct AttachedSession {
    pub serial: u64,
    pub id: String,
    pub generation: u64,
    pub resumed: bool,
    pub initial_critical: Vec<String>,
    pub initial_state: Vec<String>,
}

/// A session as its users hold it.
pub struct SessionHandle {
    pub serial: u64,
    pub id: String,
    pub user_id: String,
    pub client_name: Option<String>,
}

/// All but one session stands as it was, and that one's players stand too.
pub open spec fn only_session_changed<P>(
    before: SessionRegistry<P>,
    after: SessionRegistry<P>,
    i: int,
) -> bool {
    &&& after.same_limits(&before)
    &&& after.shutting_down == before.shutting_down
    &&& after.next_serial == before.next_serial
    &&& after.sessions@.len() == before.sessions@.len()
    &&& after.sessions@ == before.sessions@.update(i, after.sessions@[i])
}

/// How the settings of a session are changed.
pub open spec fn settings_updated<P>(
    before: SessionRegistry<P>,
    after: SessionRegistry<P>,
    now: Span,
    session_id: Seq<char>,
    update: SessionSettingsUpdate,
    r: Result<SessionSettings, UpdateError>,
) -> bool {
    &&& after.wf()
    &&& after.same_limits(&before)
    &&& after.resume_permits@ == before.resume_permits@
    &&& after.shutting_down == before.shutting_down
    &&& after.next_serial == before.next_serial
    &&& after.effects@ == before.effects@ + partings_at(before.sessions@, now)
    &&& ({
                let kept = kept_at(before.sessions@, now);
                let i = index_of_id(kept, session_id);
                if has_id(kept, session_id) && kept[i].lifecycle is Connected {
                    let settings = SessionSettings {
                        resuming: match update.resuming {
                            Some(resuming) => resuming,
                            None => kept[i].settings.resuming,
                        },
                        timeout_seconds: match update.timeout_seconds {
                            Some(seconds) => seconds,
                            None => kept[i].settings.timeout_seconds,
                        },
                    };
                    &&& r == Ok::<SessionSettings, UpdateError>(settings)
                    &&& after.sessions@ == kept.update(i, Session { settings, ..kept[i] })
                } else {
                    &&& r == Err::<SessionSettings, UpdateError>(UpdateError::NotFound)
                    &&& after.sessions@ == kept
                }
            })
}

/// How a player is admitted.
pub open spec fn player_admitted<P>(
    before: SessionRegistry<P>,
    after: SessionRegistry<P>,
    session_id: Seq<char>,
    guild_id: Seq<char>,
    player: P,
    r: Result<bool, PlayerAdmissionError>,
) -> bool {
    &&& after.wf()
    &&& after.same_limits(&before)
    &&& after.resume_permits@ == before.resume_permits@
    &&& after.shutting_down == before.shutting_down
    &&& after.next_serial == before.next_serial
    &&& after.effects@ == before.effects@
    &&& ({
                let held = before.sessions@;
                let i = index_of_id(held, session_id);
                if !has_id(held, session_id) || held[i].lifecycle !is Connected {
                    &&& r == Err::<bool, PlayerAdmissionError>(
                        PlayerAdmissionError::SessionNotFound,
                    )
                    &&& after.sessions@ == held
                } else if held[i].players@.dom().contains(guild_id) {
                    &&& r == Ok::<bool, PlayerAdmissionError>(false)
                    &&& after.sessions@ == held
                } else if held[i].players.entries@.len() >= before.max_players_per_session {
                    &&& r == Err::<bool, PlayerAdmissionError>(PlayerAdmissionError::SessionFull)
                    &&& after.sessions@ == held
                } else if before.player_count >= before.max_players {
                    &&& r == Err::<bool, PlayerAdmissionError>(PlayerAdmissionError::Full)
                    &&& after.sessions@ == held
                } else {
                    &&& r == Ok::<bool, PlayerAdmissionError>(true)
                    &&& after.player_count == before.player_count + 1
                    &&& only_session_changed(before, after, i)
                    &&& after.sessions@[i]@ == (SessionModel {
                        players: held[i]@.players.insert(guild_id, player),
                        ..held[i]@
                    })
                }
            })
}

/// Whether the guilds are those of the session's players, in order.
pub open spec fn are_guilds_of<P>(guilds: Seq<String>, session: Session<P>) -> bool {
    &&& guilds.len() == session.players.entries@.len()
    &&& forall|i: int|
        0 <= i < guilds.len() ==> #[trigger] guilds[i] == session.players.entries@[i].key
}

/// How a player is taken out.
pub open spec fn player_removed<P>(
    before: SessionRegistry<P>,
    after: SessionRegistry<P>,
    session_id: Seq<char>,
    guild_id: Seq<char>,
    r: Result<(), PlayerAdmissionError>,
) -> bool {
    &&& after.wf()
    &&& after.same_limits(&before)
    &&& after.resume_permits@ == before.resume_permits@
    &&& after.shutting_down == before.shutting_down
    &&& after.next_serial == before.next_serial
    &&& ({
                let held = before.sessions@;
                let i = index_of_id(held, session_id);
                if !has_id(held, session_id) || held[i].lifecycle !is Connected {
                    &&& r == Err::<(), PlayerAdmissionError>(PlayerAdmissionError::SessionNotFound)
                    &&& after.sessions@ == held
                    &&& after.effects@ == before.effects@
                } else {
                    &&& r == Ok::<(), PlayerAdmissionError>(())
                    &&& only_session_changed(before, after, i)
                    &&& after.sessions@[i]@ == (SessionModel {
                        players: held[i]@.players.remove(guild_id),
                        updates: held[i]@.updates.remove(guild_id),
                        ..held[i]@
                    })
                    &&& after.effects@ == if held[i].players@.dom().contains(guild_id) {
                        before.effects@.push(
                            Effect::ShutDownPlayer(held[i].players@[guild_id]),
                        )
                    } else {
                        before.effects@
                    }
                }
            })
}

impl<P> SessionRegistry<P> {
    fn release_permit(&mut self, permit: ResumePermit)
        requires
            old(self).wf(),
        ensures
            final(self).wf(),
            final(self).same_limits(old(self)),
            final(self).shutting_down == old(self).shutting_down,
            final(self).next_serial == old(self).next_serial,
            final(self).effects@ == old(self).effects@,
            final(self).sessions@ == old(self).sessions@,
            final(self).resume_permits@ == without_permit(old(self).resume_permits@, permit),
    {
        let ghost before = self.resume_permits@;
        let mut i: usize = 0;
        assert(before.skip(0) =~= before);
        assert(before.take(0) + without_permit(before.skip(0), permit) =~= without_permit(
            before,
            permit,
        ));
        while i < self.resume_permits.len()
            invariant
                self.wf(),
                *self == *old(self),
                before == self.resume_permits@,
                i <= before.len(),
                without_permit(before, permit) == before.take(i as int) + without_permit(
                    before.skip(i as int),
                    permit,
                ),
            decreases before.len() - i,
        {
            proof {
                assert(before.skip(i as int)[0] == before[i as int]);
                assert(before.skip(i as int).drop_first() =~= before.skip(i + 1));
            }
            let found: ResumePermit = self.resume_permits[i];
            if found.serial == permit.serial && found.generation == permit.generation {
                self.resume_permits.remove(i);
                proof {
                    assert(self.resume_permits@ =~= before.take(i as int) + before.skip(i + 1));
                }
                return;
            }
            proof {
                assert(before.take(i + 1) =~= before.take(i as int).push(before[i as int]));
                assert(before.take(i as int) + (seq![before[i as int]] + without_permit(
                    before.skip(i + 1),
                    permit,
                )) =~= before.take(i + 1) + without_permit(before.skip(i + 1), permit));
            }
            i = i + 1;
        }
        proof {
            assert(before.skip(i as int).len() == 0);
            assert(before.take(i as int) + before.skip(i as int) =~= before);
        }
    }

    /// The session with the identity, as its users hold it.
    pub fn session(&self, session_id: &str) -> (r: Option<SessionHandle>)
        requires
            self.wf(),
        ensures
            r is Some <==> has_id(self.sessions@, session_id@),
            r matches Some(handle) ==> ({
                let session = self.sessions@[index_of_id(self.sessions@, session_id@)];
                handle.serial == session.serial && handle.id@ == session_id@ && handle.user_id@
                    == session.user_id@ && optional_text(handle.client_name) == optional_text(
                    session.client_name,
                )
            }),
    {
        match self.find_id(session_id) {
            Some(i) => Some(self.handle_at(i)),
            None => None,
        }
    }

    fn handle_at(&self, i: usize) -> (r: SessionHandle)
        requires
            i < self.sessions@.len(),
        ensures
            r.serial == self.sessions@[i as int].serial,
            r.id@ == self.sessions@[i as int].id@,
            r.user_id@ == self.sessions@[i as int].user_id@,
            optional_text(r.client_name) == optional_text(self.sessions@[i as int].client_name),
    {
        SessionHandle {
            serial: self.sessions[i].serial,
            id: self.sessions[i].id.clone(),
            user_id: self.sessions[i].user_id.clone(),
            client_name: match &self.sessions[i].client_name {
                Some(name) => Some(name.clone()),
                None => None,
            },
        }
    }

    /// Changes the settings of a connected session.
    pub fn update_settings(
        &mut self,
        now: Span,
        session_id: &str,
        update: SessionSettingsUpdate,
    ) -> (r: Result<SessionSettings, UpdateError>)
        requires
            old(self).wf(),
        ensures
            settings_updated(*old(self), *final(self), now, session_id@, update, r),
    {
        self.cleanup_expired(now);
        let ghost kept = self.sessions@;
        match self.find_id(session_id) {
            None => Err(UpdateError::NotFound),
            Some(i) => {
                let connected: bool = match self.sessions[i].lifecycle {
                    SessionLifecycle::Connected => true,
                    _ => false,
                };
                if !connected {
                    return Err(UpdateError::NotFound);
                }
                let mut settings: SessionSettings = self.sessions[i].settings;
                if let Some(resuming) = update.resuming {
                    settings.resuming = resuming;
                }
                if let Some(timeout_seconds) = update.timeout_seconds {
                    settings.timeout_seconds = timeout_seconds;
                }
                self.sessions[i].settings = settings;
                proof {
                    let changed = Session { settings, ..kept[i as int] };
                    assert(self.sessions@ =~= kept.update(i as int, changed));
                    lemma_total_update(kept, i as int, changed);
                }
                Ok(settings)
            },
        }
    }

    /// The player of a guild in a connected session: the one that is there, or
    /// the given one where there is room for it.
    pub fn get_or_add_player(&mut self, session_id: &str, guild_id: &str, player: P) -> (r: Result<
        bool,
        PlayerAdmissionError,
    >)
        requires
            old(self).wf(),
        ensures
            player_admitted(*old(self), *final(self), session_id@, guild_id@, player, r),
    {
        match self.find_id(session_id) {
            None => Err(PlayerAdmissionError::SessionNotFound),
            Some(i) => {
                let connected: bool = match self.sessions[i].lifecycle {
                    SessionLifecycle::Connected => true,
                    _ => false,
                };
                if !connected {
                    return Err(PlayerAdmissionError::SessionNotFound);
                }
                if self.sessions[i].players.contains_key(guild_id) {
                    return Ok(false);
                }
                if self.sessions[i].players.len() >= self.max_players_per_session {
                    return Err(PlayerAdmissionError::SessionFull);
                }
                if self.player_count >= self.max_players {
                    return Err(PlayerAdmissionError::Full);
                }
                let ghost before = self.sessions@;
                self.player_count = self.player_count + 1;
                self.sessions[i].players.insert(owned(guild_id), player);
                proof {
                    let changed = self.sessions@[i as int];
                    assert(self.sessions@ =~= before.update(i as int, changed));
                    lemma_total_update(before, i as int, changed);
                    assert(changed@ =~= (SessionModel {
                        players: before[i as int]@.players.insert(guild_id@, player),
                        ..before[i as int]@
                    }));
                }
                Ok(true)
            },
        }
    }

    /// Takes a player out of a connected session, with the update that waits
    /// for its guild.
    pub fn remove_player(&mut self, session_id: &str, guild_id: &str) -> (r: Result<
        (),
        PlayerAdmissionError,
    >)
        requires
            old(self).wf(),
        ensures
            player_removed(*old(self), *final(self), session_id@, guild_id@, r),
    {
        match self.find_id(session_id) {
            None => Err(PlayerAdmissionError::SessionNotFound),
            Some(i) => {
                let connected: bool = match self.sessions[i].lifecycle {
                    SessionLifecycle::Connected => true,
                    _ => false,
                };
                if !connected {
                    return Err(PlayerAdmissionError::SessionNotFound);
                }
                let ghost before = self.sessions@;
                self.sessions[i].player_updates.remove(guild_id);
                let removed: Option<P> = self.sessions[i].players.remove(guild_id);
                proof {
                    let changed = self.sessions@[i as int];
                    assert(self.sessions@ =~= before.update(i as int, changed));
                    lemma_total_update(before, i as int, changed);
                    assert(changed@ =~= (SessionModel {
                        players: before[i as int]@.players.remove(guild_id@),
                        updates: before[i as int]@.updates.remove(guild_id@),
                        ..before[i as int]@
                    }));
                }
                if let Some(player) = removed {
                    self.player_count = self.player_count - 1;
                    self.effects.push(Effect::ShutDownPlayer(player));
                }
                Ok(())
            },
        }
    }

    /// The guilds of a session's players, in order.
    pub fn guilds(&self, session_id: &str) -> (r: Vec<String>)
        requires
            self.wf(),
            has_id(self.sessions@, session_id@),
        ensures
            are_guilds_of(r@, self.sessions@[index_of_id(self.sessions@, session_id@)]),
    {
        let mut out: Vec<String> = Vec::new();
        match self.find_id(session_id) {
            Some(at) => {
                let mut i: usize = 0;
                while i < self.sessions[at].players.entries.len()
                    invariant
                        at < self.sessions@.len(),
                        i <= self.sessions@[at as int].players.entries@.len(),
                        out@.len() == i,
                        forall|k: int|
                            0 <= k < i ==> #[trigger] out@[k]
                                == self.sessions@[at as int].players.entries@[k].key,
                    decreases self.sessions@[at as int].players.entries@.len() - i,
                {
                    out.push(self.sessions[at].players.entries[i].key.clone());
                    i = i + 1;
                }
            },
            None => {},
        }
        out
    }

    /// Whether a session has a player for a guild.
    pub fn has_player(&self, session_id: &str, guild_id: &str) -> (r: bool)
        requires
            self.wf(),
            has_id(self.sessions@, session_id@),
        ensures
            r == self.sessions@[index_of_id(
                self.sessions@,
                session_id@,
            )].players@.dom().contains(guild_id@),
    {
        match self.find_id(session_id) {
            Some(at) => self.sessions[at].players.contains_key(guild_id),
            None => false,
        }
    }

    /// The player of a guild.
    pub fn player(&self, handle: &SessionHandle, guild_id: &str) -> (r: Option<&P>)
        requires
            self.wf(),
        ensures
            ({
                let i = index_of_serial(self.sessions@, handle.serial);
                &&& r is Some <==> has_serial(self.sessions@, handle.serial)
                    && self.sessions@[i].players@.dom().contains(guild_id@)
                &&& r matches Some(player) ==> *player == self.sessions@[i].players@[guild_id@]
            }),
    {
        match self.find_serial(handle.serial) {
            Some(i) => self.sessions[i].players.get(guild_id),
            None => None,
        }
    }
}

/// How many sessions have a connection or one under way.
pub open spec fn connected_in<P>(sessions: Seq<Session<P>>) -> nat
    decreases sessions.len(),
{
    if sessions.len() == 0 {
        0
    } else {
        connected_in(sessions.drop_last()) + if sessions.last().lifecycle is Connected
            || sessions.last().lifecycle is Connecting {
            1nat
        } else {
            0
        }
    }
}

/// How many sessions wait to be resumed.
pub open spec fn resumable_in<P>(sessions: Seq<Session<P>>) -> nat
    decreases sessions.len(),
{
    if sessions.len() == 0 {
        0
    } else {
        resumable_in(sessions.drop_last()) + if sessions.last().lifecycle is DisconnectedResumable {
            1nat
        } else {
            0
        }
    }
}

/// The players of all sessions, session by session, in the order of their
/// guilds.
pub open spec fn players_in<P>(sessions: Seq<Session<P>>) -> Seq<P>
    decreases sessions.len(),
{
    if sessions.len() == 0 {
        Seq::empty()
    } else {
        players_in(sessions.drop_last()) + sessions.last().players.ordered()
    }
}

impl<P> SessionRegistry<P> {
    pub fn counts(&mut self, now: Span) -> (r: SessionCounts)
        requires
            old(self).wf(),
        ensures
            final(self).wf(),
            final(self).same_limits(old(self)),
            final(self).resume_permits@ == old(self).resume_permits@,
            final(self).shutting_down == old(self).shutting_down,
            final(self).next_serial == old(self).next_serial,
            final(self).effects@ == old(self).effects@ + partings_at(old(self).sessions@, now),
            final(self).sessions@ == kept_at(old(self).sessions@, now),
            r.connected == connected_in(final(self).sessions@),
            r.resumable == resumable_in(final(self).sessions@),
            r.players == total_players(final(self).sessions@),
    {
        self.cleanup_expired(now);
        let ghost all = self.sessions@;
        let mut connected: usize = 0;
        let mut resumable: usize = 0;
        let mut i: usize = 0;
        assert(all.take(0) =~= Seq::<Session<P>>::empty());
        while i < self.sessions.len()
            invariant
                all == self.sessions@,
                i <= all.len(),
                connected <= i,
                resumable <= i,
                connected == connected_in(all.take(i as int)),
                resumable == resumable_in(all.take(i as int)),
            decreases all.len() - i,
        {
            assert(all.take(i + 1).drop_last() =~= all.take(i as int));
            assert(all.take(i + 1).last() == all[i as int]);
            match self.sessions[i].lifecycle {
                SessionLifecycle::Connected => {
                    connected = connected + 1;
                },
                SessionLifecycle::Connecting { .. } => {
                    connected = connected + 1;
                },
                SessionLifecycle::DisconnectedResumable { .. } => {
                    resumable = resumable + 1;
                },
                SessionLifecycle::Expired => {},
            }
            i = i + 1;
        }
        assert(all.take(i as int) =~= all);
        SessionCounts { connected, resumable, players: self.player_count }
    }

    /// The registry's name and counts; no identity is shown.
    pub fn debug_text(&mut self, now: Span) -> (r: String)
        requires
            old(self).wf(),
        ensures
            cleaned_up(*old(self), *final(self), now),
            ({
                let kept = kept_at(old(self).sessions@, now);
                r@ == "SessionRegistry { counts: SessionCounts { connected: "@ + text::decimal(
                    connected_in(kept),
                ) + ", resumable: "@ + text::decimal(resumable_in(kept)) + ", players: "@
                    + text::decimal(total_players(kept)) + " }, .. }"@
            }),
    {
        let counts: SessionCounts = self.counts(now);
        let mut out: String = owned("SessionRegistry { counts: SessionCounts { connected: ");
        out.append(decimal_text(counts.connected as u64).as_str());
        out.append(", resumable: ");
        out.append(decimal_text(counts.resumable as u64).as_str());
        out.append(", players: ");
        out.append(decimal_text(counts.players as u64).as_str());
        out.append(" }, .. }");
        out
    }
}

impl<P: SessionPlayer> SessionRegistry<P> {
    /// The counters of every player.
    pub fn player_stats(&mut self, now: Span) -> (r: Vec<SessionPlayerStats>)
        requires
            old(self).wf(),
        ensures
            final(self).wf(),
            final(self).same_limits(old(self)),
            final(self).resume_permits@ == old(self).resume_permits@,
            final(self).shutting_down == old(self).shutting_down,
            final(self).next_serial == old(self).next_serial,
            final(self).effects@ == old(self).effects@ + partings_at(old(self).sessions@, now),
            final(self).sessions@ == kept_at(old(self).sessions@, now),
            ({
                let players = players_in(final(self).sessions@);
                &&& r@.len() == players.len()
                &&& forall|k: int|
                    0 <= k < players.len() ==> call_ensures(
                        P::stats,
                        (&#[trigger] players[k],),
                        r@[k],
                    )
            }),
    {
        self.cleanup_expired(now);
        let ghost all = self.sessions@;
        let mut out: Vec<SessionPlayerStats> = Vec::new();
        let mut i: usize = 0;
        assert(all.take(0) =~= Seq::<Session<P>>::empty());
        while i < self.sessions.len()
            invariant
                all == self.sessions@,
                i <= all.len(),
                out@.len() == players_in(all.take(i as int)).len(),
                forall|k: int|
                    0 <= k < out@.len() ==> call_ensures(
                        P::stats,
                        (&#[trigger] players_in(all.take(i as int))[k],),
                        out@[k],
                    ),
            decreases all.len() - i,
        {
            let ghost before = players_in(all.take(i as int));
            let ghost mine = all[i as int].players.ordered();
            proof {
                assert(all.take(i + 1).drop_last() =~= all.take(i as int));
                assert(all.take(i + 1).last() == all[i as int]);
                assert(players_in(all.take(i + 1)) == before + mine);
            }
            let mut k: usize = 0;
            while k < self.sessions[i].players.entries.len()
                invariant
                    all == self.sessions@,
                    i < all.len(),
                    mine == all[i as int].players.ordered(),
                    k <= mine.len(),
                    mine.len() == self.sessions@[i as int].players.entries@.len(),
                    out@.len() == before.len() + k,
                    forall|j: int|
                        0 <= j < out@.len() ==> call_ensures(
                            P::stats,
                            (&#[trigger] (before + mine)[j],),
                            out@[j],
                        ),
                decreases mine.len() - k,
            {
                let stats: SessionPlayerStats = self.sessions[i].players.entries[k].value.stats();
                out.push(stats);
                assert((before + mine)[before.len() + k]
                    == self.sessions@[i as int].players.entries@[k as int].value);
                k = k + 1;
            }
            i = i + 1;
        }
        assert(all.take(i as int) =~= all);
        out
    }
}

impl PreparedSession {
    pub fn id(&self) -> (r: &str)
        ensures
            r@ == self.id@,
    {
        self.id.as_str()
    }

    pub fn resumed(&self) -> (r: bool)
        ensures
            r == self.resumed,
    {
        self.resumed
    }

    /// The name and whether it resumed; the identity is not shown.
    pub fn debug_text(&self) -> (r: String)
        ensures
            r@ == "PreparedSession { resumed: "@ + bool_text(self.resumed) + ", .. }"@,
    {
        resumed_text("PreparedSession { resumed: ", self.resumed)
    }
}

impl AttachedSession {
    pub fn id(&self) -> (r: &str)
        ensures
            r@ == self.id@,
    {
        self.id.as_str()
    }

    pub fn resumed(&self) -> (r: bool)
        ensures
            r == self.resumed,
    {
        self.resumed
    }

    /// Hands out the messages that waited and must not be lost.
    pub fn take_initial_critical(&mut self) -> (r: Vec<String>)
        ensures
            r@ == old(self).initial_critical@,
            final(self).initial_critical@.len() == 0,
            final(self).initial_state == old(self).initial_state,
            final(self).serial == old(self).serial,
            final(self).id == old(self).id,
            final(self).generation == old(self).generation,
            final(self).resumed == old(self).resumed,
    {
        let mut out: Vec<String> = Vec::new();
        std::mem::swap(&mut out, &mut self.initial_critical);
        out
    }

    /// Hands out the messages that show the state at the start.
    pub fn take_initial_state(&mut self) -> (r: Vec<String>)
        ensures
            r@ == old(self).initial_state@,
            final(self).initial_state@.len() == 0,
            final(self).initial_critical == old(self).initial_critical,
            final(self).serial == old(self).serial,
            final(self).id == old(self).id,
            final(self).generation == old(self).generation,
            final(self).resumed == old(self).resumed,
    {
        let mut out: Vec<String> = Vec::new();
        std::mem::swap(&mut out, &mut self.initial_state);
        out
    }

    /// The name and whether it resumed; the identity is not shown.
    pub fn debug_text(&self) -> (r: String)
        ensures
            r@ == "AttachedSession { resumed: "@ + bool_text(self.resumed) + ", .. }"@,
    {
        resumed_text("AttachedSession { resumed: ", self.resumed)
    }
}

impl SessionHandle {
    pub fn id(&self) -> (r: &str)
        ensures
            r@ == self.id@,
    {
        self.id.as_str()
    }

    pub fn user_id(&self) -> (r: &str)
        ensures
            r@ == self.user_id@,
    {
        self.user_id.as_str()
    }

    pub fn client_name(&self) -> (r: Option<&str>)
        ensures
            optional_str(r) == optional_text(self.client_name),
    {
        match &self.client_name {
            Some(name) => Some(name.as_str()),
            None => None,
        }
    }

    /// The name alone; the identity is not shown.
    pub fn debug_text(&self) -> (r: String)
        ensures
            r@ == "SessionHandle { .. }"@,
    {
        owned("SessionHandle { .. }")
    }
}

/// A truth value as it is written.
pub open spec fn bool_text(value: bool) -> Seq<char> {
    if value {
        "true"@
    } else {
        "false"@
    }
}

fn resumed_text(head: &str, resumed: bool) -> (r: String)
    ensures
        r@ == head@ + bool_text(resumed) + ", .. }"@,
{
    let mut out: String = owned(head);
    if resumed {
        out.append("true");
    } else {
        out.append("false");
    }
    out.append(", .. }");
    out
}

/// A session whose handshake is complete.
pub open spec fn attached_model<P>(before: SessionModel<P>) -> SessionModel<P> {
    SessionModel {
        lifecycle: SessionLifecycle::Connected,
        output: Some(OutputModel { queue: Seq::empty(), cancelled: false, closed: false }),
        backlog: Seq::empty(),
        updates: Map::empty(),
        stats: None,
        ..before
    }
}

/// Whether the messages show the state of a session at the start of its
/// connection: of a resumed session each player's own snapshot in the order of
/// the guilds, otherwise the updates that waited; the statistics come last.
pub open spec fn shows_state<P: SessionPlayer>(
    state: Seq<String>,
    session: Session<P>,
    resumed: bool,
) -> bool {
    let players = session.players.ordered();
    let updates = session.player_updates.ordered();
    let shown = if resumed {
        players.len()
    } else {
        updates.len()
    };
    &&& state.len() == shown + (if session.stats is Some {
        1nat
    } else {
        0
    })
    &&& resumed ==> forall|k: int|
        0 <= k < shown ==> call_ensures(P::snapshot, (&#[trigger] players[k],), state[k])
    &&& !resumed ==> state.take(shown as int) == updates
    &&& session.stats is Some ==> state.last() == session.stats->0
}

impl<P: SessionPlayer> SessionRegistry<P> {
    /// Completes a handshake. What waited for the connection is handed to it.
    pub fn attach(&mut self, prepared: PreparedSession) -> (r: Result<AttachedSession, AttachError>)
        requires
            old(self).wf(),
        ensures
            final(self).wf(),
            final(self).same_limits(old(self)),
            final(self).shutting_down == old(self).shutting_down,
            final(self).next_serial == old(self).next_serial,
            final(self).effects@ == old(self).effects@,
            final(self).resume_permits@ == if prepared.resumed {
                without_permit(
                    old(self).resume_permits@,
                    ResumePermit { serial: prepared.serial, generation: prepared.generation },
                )
            } else {
                old(self).resume_permits@
            },
            ({
                let before = old(self).sessions@;
                let i = index_of_serial(before, prepared.serial);
                if handshake_stands(before, prepared.serial, prepared.generation) {
                    &&& r matches Ok(attached) && attached.serial == prepared.serial
                        && attached.id@ == before[i].id@ && attached.generation
                        == prepared.generation && attached.resumed == prepared.resumed
                        && attached.initial_critical@ == before[i].critical_backlog@
                        && shows_state(attached.initial_state@, before[i], prepared.resumed)
                    &&& only_session_changed(*old(self), *final(self), i)
                    &&& final(self).sessions@[i]@ == attached_model(before[i]@)
                } else {
                    &&& r is Err
                    &&& final(self).sessions@ == before
                }
            }),
    {
        if prepared.resumed {
            self.release_permit(
                ResumePermit { serial: prepared.serial, generation: prepared.generation },
            );
        }
        let i: usize = match self.find_serial(prepared.serial) {
            Some(i) => i,
            None => {
                return Err(AttachError);
            },
        };
        let connecting: bool = match self.sessions[i].lifecycle {
            SessionLifecycle::Connecting { .. } => true,
            _ => false,
        };
        if self.sessions[i].generation != prepared.generation || !connecting {
            return Err(AttachError);
        }
        let ghost before = self.sessions@;
        let ghost session = before[i as int];
        self.sessions[i].lifecycle = SessionLifecycle::Connected;
        self.sessions[i].output = Some(
            ConnectionOutput { queue: Vec::new(), cancelled: false, closed: false },
        );
        let mut initial_critical: Vec<String> = Vec::new();
        std::mem::swap(&mut initial_critical, &mut self.sessions[i].critical_backlog);
        let updates: Vec<String> = self.sessions[i].player_updates.drain();
        let mut initial_state: Vec<String> = updates;
        if prepared.resumed {
            initial_state = Vec::new();
            let mut k: usize = 0;
            while k < self.sessions[i].players.entries.len()
                invariant
                    i < self.sessions@.len(),
                    k <= self.sessions@[i as int].players.entries@.len(),
                    initial_state@.len() == k,
                    forall|j: int|
                        0 <= j < k ==> call_ensures(
                            P::snapshot,
                            (&#[trigger] self.sessions@[i as int].players.ordered()[j],),
                            initial_state@[j],
                        ),
                decreases self.sessions@[i as int].players.entries@.len() - k,
            {
                let shown: String = self.sessions[i].players.entries[k].value.snapshot();
                initial_state.push(shown);
                k = k + 1;
            }
        }
        let ghost first = initial_state@;
        match self.sessions[i].stats.take() {
            Some(stats) => {
                initial_state.push(stats);
            },
            None => {},
        }
        proof {
            let changed = self.sessions@[i as int];
            assert(self.sessions@ =~= before.update(i as int, changed));
            lemma_total_update(before, i as int, changed);
            assert(changed@ =~= attached_model(session@));
            if !prepared.resumed {
                assert(initial_state@.take(first.len() as int) =~= first);
            }
            assert(shows_state(initial_state@, session, prepared.resumed));
        }
        Ok(
            AttachedSession {
                serial: prepared.serial,
                id: self.sessions[i].id.clone(),
                generation: prepared.generation,
                resumed: prepared.resumed,
                initial_critical,
                initial_state,
            },
        )
    }
}

/// A session that is removed with its connection already let go.
pub open spec fn let_go<P>(session: Session<P>) -> Session<P> {
    Session { lifecycle: SessionLifecycle::Expired, output: None, ..session }
}

/// What becomes of a session whose connection ended at the time.
pub open spec fn disconnected<P>(session: Session<P>, now: Span) -> Session<P> {
    Session {
        lifecycle: SessionLifecycle::DisconnectedResumable {
            deadline: span::span_sum(now, resume_window(session.settings)),
        },
        output: None,
        ..session
    }
}

/// How a registry changes where a connection ends at the time.
pub open spec fn disconnects<P>(
    registry: SessionRegistry<P>,
    after: SessionRegistry<P>,
    now: Span,
    attached: AttachedSession,
) -> bool {
    let before = registry.sessions@;
    let i = index_of_serial(before, attached.serial);
    &&& after.wf()
    &&& after.same_limits(&registry)
    &&& after.resume_permits@ == registry.resume_permits@
    &&& after.shutting_down == registry.shutting_down
    &&& after.next_serial == registry.next_serial
    &&& if !connection_stands(before, attached.serial, attached.generation) {
        &&& after.sessions@ == before
        &&& after.effects@ == registry.effects@
    } else if before[i].settings.resuming {
        &&& after.sessions@ == before.update(i, disconnected(before[i], now))
        &&& after.effects@ == registry.effects@
    } else {
        &&& after.sessions@ == before.remove(i)
        &&& after.effects@ == registry.effects@ + let_go(before[i]).parting()
    }
}

/// How a registry changes where a handshake is given up at the time.
pub open spec fn gives_up<P>(
    registry: SessionRegistry<P>,
    after: SessionRegistry<P>,
    now: Span,
    prepared: PreparedSession,
) -> bool {
    let before = registry.sessions@;
    let i = index_of_serial(before, prepared.serial);
    &&& after.wf()
    &&& after.same_limits(&registry)
    &&& after.shutting_down == registry.shutting_down
    &&& after.next_serial == registry.next_serial
    &&& after.resume_permits@ == if prepared.resumed {
        without_permit(
            registry.resume_permits@,
            ResumePermit { serial: prepared.serial, generation: prepared.generation },
        )
    } else {
        registry.resume_permits@
    }
    &&& if !handshake_stands(before, prepared.serial, prepared.generation) {
        &&& after.sessions@ == before
        &&& after.effects@ == registry.effects@
    } else if falls_back(before[i], now) {
        &&& after.sessions@ == before.update(i, fallen_back(before[i]))
        &&& after.effects@ == registry.effects@
    } else {
        &&& after.sessions@ == before.remove(i)
        &&& after.effects@ == registry.effects@ + let_go(before[i]).parting()
    }
}

/// Whether an abandoned handshake leaves its session resumable at the time.
pub open spec fn falls_back<P>(session: Session<P>, now: Span) -> bool {
    session.lifecycle matches SessionLifecycle::Connecting { previous_deadline }
        && previous_deadline matches Some(deadline) && deadline.nanos > now.nanos
}

/// The session as it was before the handshake, with the deadline that it had.
pub open spec fn fallen_back<P>(session: Session<P>) -> Session<P> {
    Session {
        lifecycle: SessionLifecycle::DisconnectedResumable {
            deadline: session.lifecycle->previous_deadline->0,
        },
        ..session
    }
}

impl<P> SessionRegistry<P> {
    /// Takes a session out whose connection is already let go.
    fn remove_let_go(&mut self, i: usize)
        requires
            old(self).wf(),
            i < old(self).sessions@.len(),
        ensures
            final(self).wf(),
            final(self).same_limits(old(self)),
            final(self).resume_permits@ == old(self).resume_permits@,
            final(self).shutting_down == old(self).shutting_down,
            final(self).next_serial == old(self).next_serial,
            final(self).sessions@ == old(self).sessions@.remove(i as int),
            final(self).effects@ == old(self).effects@ + let_go(
                old(self).sessions@[i as int],
            ).parting(),
    {
        let ghost before = self.sessions@;
        self.sessions[i].lifecycle = SessionLifecycle::Expired;
        self.sessions[i].output = None;
        proof {
            assert(self.sessions@ =~= before.update(i as int, let_go(before[i as int])));
            lemma_total_update(before, i as int, let_go(before[i as int]));
        }
        self.retire(i);
        assert(self.sessions@ =~= before.remove(i as int));
    }

    /// A connection ended. Its session waits to be resumed where its settings
    /// say so, and is removed otherwise. A connection that is no longer the
    /// current one changes nothing.
    pub fn disconnect(&mut self, now: Span, attached: AttachedSession)
        requires
            old(self).wf(),
        ensures
            disconnects(*old(self), *final(self), now, attached),
    {
        let i: usize = match self.find_serial(attached.serial) {
            Some(i) => i,
            None => {
                return;
            },
        };
        let connected: bool = match self.sessions[i].lifecycle {
            SessionLifecycle::Connected => true,
            _ => false,
        };
        if self.sessions[i].generation != attached.generation || !connected {
            return;
        }
        if self.sessions[i].settings.resuming {
            let ghost before = self.sessions@;
            let seconds: i64 = self.sessions[i].settings.timeout_seconds;
            let window: Span = if seconds < 0 {
                Span::zero()
            } else {
                Span::from_secs(seconds as u64)
            };
            self.sessions[i].output = None;
            self.sessions[i].lifecycle = SessionLifecycle::DisconnectedResumable {
                deadline: now.saturating_add(window),
            };
            proof {
                let changed = disconnected(before[i as int], now);
                assert(window == resume_window(before[i as int].settings));
                assert(self.sessions@ =~= before.update(i as int, changed));
                lemma_total_update(before, i as int, changed);
            }
        } else {
            self.remove_let_go(i);
        }
    }

    /// A handshake was given up. A session that it was to resume falls back to
    /// waiting where its deadline still lies ahead; any other is removed. A
    /// handshake that no longer stands changes no session.
    pub fn abandon(&mut self, now: Span, prepared: PreparedSession)
        requires
            old(self).wf(),
        ensures
            gives_up(*old(self), *final(self), now, prepared),
    {
        if prepared.resumed {
            self.release_permit(
                ResumePermit { serial: prepared.serial, generation: prepared.generation },
            );
        }
        let i: usize = match self.find_serial(prepared.serial) {
            Some(i) => i,
            None => {
                return;
            },
        };
        if self.sessions[i].generation != prepared.generation {
            return;
        }
        let previous_deadline: Option<Span> = match self.sessions[i].lifecycle {
            SessionLifecycle::Connecting { previous_deadline } => previous_deadline,
            _ => {
                return;
            },
        };
        let ghost before = self.sessions@;
        match previous_deadline {
            Some(deadline) => {
                if deadline.nanos > now.nanos {
                    self.sessions[i].lifecycle = SessionLifecycle::DisconnectedResumable {
                        deadline,
                    };
                    proof {
                        let changed = fallen_back(before[i as int]);
                        assert(self.sessions@ =~= before.update(i as int, changed));
                        lemma_total_update(before, i as int, changed);
                    }
                    return;
                }
            },
            None => {},
        }
        self.remove_let_go(i);
    }
}

/// The session after the message was offered: queued for a live connection,
/// which is told to end where its queue is full; kept back for one to come,
/// where the session expires if too many are kept back.
pub open spec fn after_critical<P>(
    before: SessionModel<P>,
    capacity: usize,
    message: CriticalMessage,
) -> SessionModel<P> {
    match before.lifecycle {
        SessionLifecycle::Connected => {
            let output = before.output->0;
            if output.closed {
                before
            } else if output.queue.len() >= capacity {
                SessionModel { output: Some(OutputModel { cancelled: true, ..output }), ..before }
            } else {
                SessionModel {
                    output: Some(OutputModel { queue: output.queue.push(message), ..output }),
                    ..before
                }
            }
        },
        SessionLifecycle::Expired => before,
        _ => if before.backlog.len() >= capacity {
            SessionModel { lifecycle: SessionLifecycle::Expired, ..before }
        } else {
            SessionModel { backlog: before.backlog.push(message.payload), ..before }
        },
    }
}

/// What the publisher hears: whether the message is on its way, or kept back,
/// or why it was not taken.
pub open spec fn critical_reply<P>(
    before: SessionModel<P>,
    capacity: usize,
    payload: String,
) -> Result<bool, PublishError> {
    match before.lifecycle {
        SessionLifecycle::Connected => {
            let output = before.output->0;
            if output.closed {
                Err(PublishError::Disconnected(payload))
            } else if output.queue.len() >= capacity {
                Err(PublishError::Full(payload))
            } else {
                Ok(true)
            }
        },
        SessionLifecycle::Expired => Err(PublishError::Disconnected(payload)),
        _ => if before.backlog.len() >= capacity {
            Err(PublishError::Full(payload))
        } else {
            Ok(false)
        },
    }
}

/// All but the sessions stands as it was, and of them only one changed.
pub open spec fn one_session_changed<P>(
    before: SessionRegistry<P>,
    after: SessionRegistry<P>,
    i: int,
) -> bool {
    &&& only_session_changed(before, after, i)
    &&& after.same_but_sessions(&before)
}

pub open spec fn unchanged<P>(before: SessionRegistry<P>, after: SessionRegistry<P>) -> bool {
    &&& after.sessions@ == before.sessions@
    &&& after.same_but_sessions(&before)
}

impl<P> SessionRegistry<P> {
    /// Offers a message that must not be lost. Its sender may leave a mark,
    /// by which it hears of the delivery.
    pub fn publish_critical_message(
        &mut self,
        handle: &SessionHandle,
        payload: String,
        delivered: Option<u64>,
    ) -> (r: Result<bool, PublishError>)
        requires
            old(self).wf(),
        ensures
            final(self).wf(),
            ({
                let before = old(self).sessions@;
                let i = index_of_serial(before, handle.serial);
                if !has_serial(before, handle.serial) {
                    &&& r == Err::<bool, PublishError>(PublishError::Disconnected(payload))
                    &&& unchanged(*old(self), *final(self))
                } else {
                    &&& r == critical_reply(before[i]@, old(self).critical_capacity, payload)
                    &&& one_session_changed(*old(self), *final(self), i)
                    &&& final(self).sessions@[i]@ == after_critical(
                        before[i]@,
                        old(self).critical_capacity,
                        CriticalMessage { payload, delivered },
                    )
                }
            }),
    {
        let i: usize = match self.find_serial(handle.serial) {
            Some(i) => i,
            None => {
                return Err(PublishError::Disconnected(payload));
            },
        };
        let ghost before = self.sessions@;
        let ghost session = before[i as int];
        let ghost message = CriticalMessage { payload, delivered };
        let capacity: usize = self.critical_capacity;
        let r: Result<bool, PublishError>;
        match self.sessions[i].lifecycle {
            SessionLifecycle::Connected => {
                let mut taken: Option<ConnectionOutput> = self.sessions[i].output.take();
                match taken {
                    Some(mut output) => {
                        if output.closed {
                            r = Err(PublishError::Disconnected(payload));
                        } else if output.queue.len() >= capacity {
                            output.cancelled = true;
                            r = Err(PublishError::Full(payload));
                        } else {
                            output.queue.push(CriticalMessage { payload, delivered });
                            r = Ok(true);
                        }
                        self.sessions[i].output = Some(output);
                    },
                    None => {
                        r = Err(PublishError::Disconnected(payload));
                    },
                }
            },
            SessionLifecycle::Expired => {
                r = Err(PublishError::Disconnected(payload));
            },
            _ => {
                if self.sessions[i].critical_backlog.len() >= capacity {
                    self.sessions[i].lifecycle = SessionLifecycle::Expired;
                    r = Err(PublishError::Full(payload));
                } else {
                    self.sessions[i].critical_backlog.push(payload);
                    r = Ok(false);
                }
            },
        }
        proof {
            let changed = self.sessions@[i as int];
            assert(self.sessions@ =~= before.update(i as int, changed));
            lemma_total_update(before, i as int, changed);
            assert(changed@ =~= after_critical(session@, capacity, message));
        }
        r
    }

    /// Offers a message that must not be lost.
    pub fn publish_critical(&mut self, handle: &SessionHandle, payload: String) -> (r: Result<
        (),
        PublishError,
    >)
        requires
            old(self).wf(),
        ensures
            final(self).wf(),
            ({
                let before = old(self).sessions@;
                let i = index_of_serial(before, handle.serial);
                if !has_serial(before, handle.serial) {
                    &&& r == Err::<(), PublishError>(PublishError::Disconnected(payload))
                    &&& unchanged(*old(self), *final(self))
                } else {
                    &&& match critical_reply(before[i]@, old(self).critical_capacity, payload) {
                        Ok(_) => r is Ok,
                        Err(error) => r == Err::<(), PublishError>(error),
                    }
                    &&& one_session_changed(*old(self), *final(self), i)
                    &&& final(self).sessions@[i]@ == after_critical(
                        before[i]@,
                        old(self).critical_capacity,
                        CriticalMessage { payload, delivered: None },
                    )
                }
            }),
    {
        match self.publish_critical_message(handle, payload, None) {
            Ok(_) => Ok(()),
            Err(error) => Err(error),
        }
    }

    /// Hands the connection its next message, in the order of their arrival.
    pub fn next_critical(&mut self, attached: &AttachedSession) -> (r: Option<CriticalMessage>)
        requires
            old(self).wf(),
        ensures
            final(self).wf(),
            ({
                let before = old(self).sessions@;
                let i = index_of_serial(before, attached.serial);
                if connection_stands(before, attached.serial, attached.generation)
                    && before[i].output->0.queue@.len() > 0 {
                    let output = before[i]@.output->0;
                    &&& r == Some(output.queue[0])
                    &&& one_session_changed(*old(self), *final(self), i)
                    &&& final(self).sessions@[i]@ == (SessionModel {
                        output: Some(OutputModel { queue: output.queue.drop_first(), ..output }),
                        ..before[i]@
                    })
                } else {
                    &&& r is None
                    &&& unchanged(*old(self), *final(self))
                }
            }),
    {
        let i: usize = match self.find_serial(attached.serial) {
            Some(i) => i,
            None => {
                return None;
            },
        };
        let connected: bool = match self.sessions[i].lifecycle {
            SessionLifecycle::Connected => true,
            _ => false,
        };
        if self.sessions[i].generation != attached.generation || !connected {
            return None;
        }
        let ghost before = self.sessions@;
        let mut next: Option<CriticalMessage> = None;
        match self.sessions[i].output.take() {
            Some(mut output) => {
                if output.queue.len() > 0 {
                    let ghost shown = output.queue@;
                    next = Some(output.queue.remove(0));
                    assert(output.queue@ =~= shown.drop_first());
                }
                self.sessions[i].output = Some(output);
            },
            None => {},
        }
        proof {
            let changed = self.sessions@[i as int];
            assert(self.sessions@ =~= before.update(i as int, changed));
            lemma_total_update(before, i as int, changed);
            if next is None {
                assert(changed == before[i as int]);
                assert(self.sessions@ =~= before);
            } else {
                let output = before[i as int]@.output->0;
                assert(changed@ =~= (SessionModel {
                    output: Some(OutputModel { queue: output.queue.drop_first(), ..output }),
                    ..before[i as int]@
                }));
            }
        }
        next
    }

    /// The reader of a connection is gone; later messages are refused.
    pub fn close_output(&mut self, attached: &AttachedSession)
        requires
            old(self).wf(),
        ensures
            final(self).wf(),
            ({
                let before = old(self).sessions@;
                let i = index_of_serial(before, attached.serial);
                if connection_stands(before, attached.serial, attached.generation) {
                    &&& one_session_changed(*old(self), *final(self), i)
                    &&& final(self).sessions@[i]@ == (SessionModel {
                        output: Some(OutputModel { closed: true, ..before[i]@.output->0 }),
                        ..before[i]@
                    })
                } else {
                    unchanged(*old(self), *final(self))
                }
            }),
    {
        let i: usize = match self.find_serial(attached.serial) {
            Some(i) => i,
            None => {
                return;
            },
        };
        let connected: bool = match self.sessions[i].lifecycle {
            SessionLifecycle::Connected => true,
            _ => false,
        };
        if self.sessions[i].generation != attached.generation || !connected {
            return;
        }
        let ghost before = self.sessions@;
        match self.sessions[i].output.take() {
            Some(mut output) => {
                output.closed = true;
                self.sessions[i].output = Some(output);
            },
            None => {},
        }
        proof {
            let changed = self.sessions@[i as int];
            assert(self.sessions@ =~= before.update(i as int, changed));
            lemma_total_update(before, i as int, changed);
            assert(changed@ =~= (SessionModel {
                output: Some(OutputModel { closed: true, ..before[i as int]@.output->0 }),
                ..before[i as int]@
            }));
        }
    }

    /// Whether the connection was told to end, or its session is gone.
    pub fn connection_ended(&self, attached: &AttachedSession) -> (r: bool)
        requires
            self.wf(),
        ensures
            r == !(connection_stands(self.sessions@, attached.serial, attached.generation)
                && !self.sessions@[index_of_serial(
                self.sessions@,
                attached.serial,
            )].output->0.cancelled),
    {
        match self.find_serial(attached.serial) {
            None => true,
            Some(i) => match &self.sessions[i].output {
                None => true,
                Some(output) => self.sessions[i].generation != attached.generation
                    || output.cancelled,
            },
        }
    }

    /// Leaves the latest update of a player for the connection; an update that
    /// still waits is replaced.
    pub fn publish_player_update(
        &mut self,
        handle: &SessionHandle,
        guild_id: &str,
        payload: String,
    ) -> (r: Result<bool, PublishError>)
        requires
            old(self).wf(),
        ensures
            final(self).wf(),
            ({
                let before = old(self).sessions@;
                let i = index_of_serial(before, handle.serial);
                let update = Publication::Update { guild: guild_id@, payload };
                if !has_serial(before, handle.serial) || !accepts(before[i]@, update) {
                    &&& r == Err::<bool, PublishError>(PublishError::Disconnected(payload))
                    &&& unchanged(*old(self), *final(self))
                } else {
                    &&& r == Ok::<bool, PublishError>(
                        before[i].player_updates@.dom().contains(guild_id@),
                    )
                    &&& one_session_changed(*old(self), *final(self), i)
                    &&& final(self).sessions@[i]@ == after_publication(before[i]@, update)
                }
            }),
    {
        let i: usize = match self.find_serial(handle.serial) {
            Some(i) => i,
            None => {
                return Err(PublishError::Disconnected(payload));
            },
        };
        let expired: bool = match self.sessions[i].lifecycle {
            SessionLifecycle::Expired => true,
            _ => false,
        };
        if expired || !self.sessions[i].players.contains_key(guild_id) {
            return Err(PublishError::Disconnected(payload));
        }
        let ghost before = self.sessions@;
        let replaced: Option<String> = self.sessions[i].player_updates.insert(
            owned(guild_id),
            payload,
        );
        proof {
            let changed = self.sessions@[i as int];
            assert(self.sessions@ =~= before.update(i as int, changed));
            lemma_total_update(before, i as int, changed);
            assert(changed@ =~= (SessionModel {
                updates: before[i as int]@.updates.insert(guild_id@, payload),
                ..before[i as int]@
            }));
        }
        Ok(replaced.is_some())
    }

    /// Leaves the latest statistics for the connection.
    pub fn publish_stats(&mut self, handle: &SessionHandle, payload: String) -> (r: Result<
        bool,
        PublishError,
    >)
        requires
            old(self).wf(),
        ensures
            final(self).wf(),
            ({
                let before = old(self).sessions@;
                let i = index_of_serial(before, handle.serial);
                let stats = Publication::Stats(payload);
                if !has_serial(before, handle.serial) || !accepts(before[i]@, stats) {
                    &&& r == Err::<bool, PublishError>(PublishError::Disconnected(payload))
                    &&& unchanged(*old(self), *final(self))
                } else {
                    &&& r == Ok::<bool, PublishError>(before[i].stats is Some)
                    &&& one_session_changed(*old(self), *final(self), i)
                    &&& final(self).sessions@[i]@ == after_publication(before[i]@, stats)
                }
            }),
    {
        let i: usize = match self.find_serial(handle.serial) {
            Some(i) => i,
            None => {
                return Err(PublishError::Disconnected(payload));
            },
        };
        let expired: bool = match self.sessions[i].lifecycle {
            SessionLifecycle::Expired => true,
            _ => false,
        };
        if expired {
            return Err(PublishError::Disconnected(payload));
        }
        let ghost before = self.sessions@;
        let replaced: bool = self.sessions[i].stats.is_some();
        self.sessions[i].stats = Some(payload);
        proof {
            let changed = self.sessions@[i as int];
            assert(self.sessions@ =~= before.update(i as int, changed));
            lemma_total_update(before, i as int, changed);
            assert(changed@ =~= (SessionModel { stats: Some(payload), ..before[i as int]@ }));
        }
        Ok(replaced)
    }

    /// Hands out the updates that wait, in the order of their guilds, then the
    /// statistics.
    pub fn take_coalesced(&mut self, handle: &SessionHandle) -> (r: Vec<String>)
        requires
            old(self).wf(),
        ensures
            final(self).wf(),
            ({
                let before = old(self).sessions@;
                let i = index_of_serial(before, handle.serial);
                if !has_serial(before, handle.serial) {
                    &&& r@.len() == 0
                    &&& unchanged(*old(self), *final(self))
                } else {
                    &&& r@ == before[i].coalesced()
                    &&& one_session_changed(*old(self), *final(self), i)
                    &&& final(self).sessions@[i]@ == emptied(before[i]@)
                }
            }),
    {
        let i: usize = match self.find_serial(handle.serial) {
            Some(i) => i,
            None => {
                return Vec::new();
            },
        };
        let ghost before = self.sessions@;
        let mut out: Vec<String> = self.sessions[i].player_updates.drain();
        match self.sessions[i].stats.take() {
            Some(stats) => {
                out.push(stats);
            },
            None => {},
        }
        proof {
            let changed = self.sessions@[i as int];
            assert(self.sessions@ =~= before.update(i as int, changed));
            lemma_total_update(before, i as int, changed);
            assert(changed@ =~= (SessionModel {
                updates: Map::empty(),
                stats: None,
                ..before[i as int]@
            }));
        }
        out
    }

    /// The session of a connection, as its users hold it.
    pub fn handle(&self, attached: &AttachedSession) -> (r: Option<SessionHandle>)
        requires
            self.wf(),
        ensures
            r is Some <==> has_serial(self.sessions@, attached.serial),
            r matches Some(handle) ==> ({
                let session = self.sessions@[index_of_serial(self.sessions@, attached.serial)];
                handle.serial == attached.serial && handle.id@ == session.id@ && handle.user_id@
                    == session.user_id@ && optional_text(handle.client_name) == optional_text(
                    session.client_name,
                )
            }),
    {
        match self.find_serial(attached.serial) {
            Some(i) => Some(self.handle_at(i)),
            None => None,
        }
    }
}

/// Whether the list shows each player's guild and counters, in the order of the
/// guilds.
pub open spec fn lists_players<P: SessionPlayer>(
    list: Seq<(String, SessionPlayerStats)>,
    players: Seq<P>,
) -> bool {
    &&& list.len() == players.len()
    &&& forall|k: int|
        #![trigger players[k]]
        0 <= k < players.len() ==> call_ensures(P::guild_id, (&players[k],), list[k].0)
            && call_ensures(P::stats, (&players[k],), list[k].1)
}

impl<P: SessionPlayer> SessionRegistry<P> {
    /// The guild and the counters of each player of a session.
    pub fn session_player_stats(&self, handle: &SessionHandle) -> (r: Vec<
        (String, SessionPlayerStats),
    >)
        requires
            self.wf(),
        ensures
            ({
                let i = index_of_serial(self.sessions@, handle.serial);
                if has_serial(self.sessions@, handle.serial) {
                    lists_players(r@, self.sessions@[i].players.ordered())
                } else {
                    r@.len() == 0
                }
            }),
    {
        let mut out: Vec<(String, SessionPlayerStats)> = Vec::new();
        let i: usize = match self.find_serial(handle.serial) {
            Some(i) => i,
            None => {
                return out;
            },
        };
        let ghost players = self.sessions@[i as int].players.ordered();
        let mut k: usize = 0;
        while k < self.sessions[i].players.entries.len()
            invariant
                i < self.sessions@.len(),
                players == self.sessions@[i as int].players.ordered(),
                players.len() == self.sessions@[i as int].players.entries@.len(),
                k <= players.len(),
                out@.len() == k,
                forall|j: int|
                    #![trigger players[j]]
                    0 <= j < k ==> call_ensures(P::guild_id, (&players[j],), out@[j].0)
                        && call_ensures(P::stats, (&players[j],), out@[j].1),
            decreases players.len() - k,
        {
            let guild: String = self.sessions[i].players.entries[k].value.guild_id();
            let counters: SessionPlayerStats = self.sessions[i].players.entries[k].value.stats();
            assert(players[k as int] == self.sessions@[i as int].players.entries@[k as int].value);
            out.push((guild, counters));
            k = k + 1;
        }
        out
    }

    /// What the players of a session sent since the last time this was asked.
    pub fn frame_stats(&mut self, handle: &SessionHandle) -> (r: Option<FrameStats>)
        requires
            old(self).wf(),
        ensures
            final(self).wf(),
            ({
                let before = old(self).sessions@;
                let i = index_of_serial(before, handle.serial);
                if !has_serial(before, handle.serial) {
                    &&& r is None
                    &&& unchanged(*old(self), *final(self))
                } else {
                    let after = final(self).sessions@[i];
                    &&& one_session_changed(*old(self), *final(self), i)
                    &&& after@ == (SessionModel { window: after@.window, ..before[i]@ })
                    &&& stats::window_shows(
                        r,
                        after.frame_window.previous.entries@,
                        before[i]@.window,
                    )
                    &&& exists|list: Seq<(String, SessionPlayerStats)>| #[trigger]
                        lists_players(list, before[i].players.ordered()) && after@.window
                            == stats::by_guild(list)
                }
            }),
    {
        let list: Vec<(String, SessionPlayerStats)> = self.session_player_stats(handle);
        let i: usize = match self.find_serial(handle.serial) {
            Some(i) => i,
            None => {
                return None;
            },
        };
        let ghost before = self.sessions@;
        let ghost shown = list@;
        let r: Option<FrameStats> = self.sessions[i].frame_window.update(list);
        proof {
            let changed = self.sessions@[i as int];
            assert(self.sessions@ =~= before.update(i as int, changed));
            lemma_total_update(before, i as int, changed);
            assert(lists_players(shown, before[i as int].players.ordered()));
            assert(changed@ =~= (SessionModel { window: changed@.window, ..before[i as int]@ }));
        }
        r
    }
}

} // verus!
