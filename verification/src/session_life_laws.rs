//! The life of a session from its first connection to its end, told in seconds.

use crate::session;
use crate::session::{
    AttachedSession, CriticalMessage, Effect, PlayerAdmissionError, PreparedSession, PublishError, Session,
    SessionLifecycle, SessionModel, SessionRegistry, SessionSettings, SessionSettingsUpdate,
    UpdateError,
};
use crate::span::Span;
use vstd::prelude::*;

verus! {

/// The moment, in nanoseconds, at which a session whose connection ended is
/// gone: so many seconds later, but no later than the clock can tell. A
/// negative number of seconds is none.
pub open spec fn end_of_wait(ended: Span, timeout_seconds: i64) -> int {
    let seconds = if timeout_seconds < 0 {
        0
    } else {
        timeout_seconds as int
    };
    let end = ended.nanos + seconds * 1_000_000_000;
    if end <= 18_446_744_073_709_551_615_999_999_999 {
        end
    } else {
        18_446_744_073_709_551_615_999_999_999
    }
}

/// A session whose connection ended is there for exactly as many seconds as its
/// settings say.
pub proof fn a_session_waits_for_its_timeout<P>(session: Session<P>, ended: Span, now: Span)
    ensures
        session::disconnected(session, ended).expired_at(now) <==> now.nanos >= end_of_wait(
            ended,
            session.settings.timeout_seconds,
        ),
{
    let seconds = session.settings.timeout_seconds;
    if seconds >= 0 {
        assert(seconds * 1_000_000_000 <= 9_223_372_036_854_775_807 * 1_000_000_000);
    }
}

/// The longer of two timeouts never ends a session earlier.
pub proof fn a_longer_timeout_waits_longer<P>(
    session: Session<P>,
    longer: Session<P>,
    ended: Span,
    now: Span,
)
    requires
        session.settings.timeout_seconds <= longer.settings.timeout_seconds,
        session::disconnected(longer, ended).expired_at(now),
    ensures
        session::disconnected(session, ended).expired_at(now),
{
    a_session_waits_for_its_timeout(session, ended, now);
    a_session_waits_for_its_timeout(longer, ended, now);
}

/// The end of a connection: a session that may be resumed stays with all that it
/// has, and nothing is ended for it; any other goes, and its players are shut
/// down. No other session is touched, and a connection that is not the session's
/// own changes nothing.
pub proof fn a_resumable_session_outlives_its_connection<P>(
    before: SessionRegistry<P>,
    after: SessionRegistry<P>,
    now: Span,
    attached: AttachedSession,
    i: int,
)
    requires
        before.wf(),
        session::disconnects(before, after, now, attached),
        0 <= i < before.sessions@.len(),
    ensures
        ({
            let session = before.sessions@[i];
            let own = session.serial == attached.serial && session.generation == attached.generation
                && session.lifecycle is Connected;
            &&& own && session.settings.resuming ==> {
                let kept = after.sessions@[i];
                &&& after.sessions@.len() == before.sessions@.len()
                &&& kept.lifecycle is DisconnectedResumable && kept.output is None
                &&& kept.id == session.id && kept.user_id == session.user_id
                &&& kept.players == session.players && kept.settings == session.settings
                &&& kept.critical_backlog == session.critical_backlog && kept.player_updates
                    == session.player_updates && kept.stats == session.stats
                &&& after.effects@ == before.effects@
                &&& forall|later: Span|
                    kept.expired_at(later) <==> later.nanos >= end_of_wait(
                        now,
                        session.settings.timeout_seconds,
                    )
            }
            &&& own && !session.settings.resuming ==> {
                &&& after.sessions@.len() == before.sessions@.len() - 1
                &&& !session::has_serial(after.sessions@, session.serial)
                &&& after.effects@.len() == before.effects@.len()
                    + session.players.entries@.len()
                &&& forall|k: int|
                    0 <= k < session.players.entries@.len() ==> #[trigger] after.effects@[before.effects@.len()
                        + k] == Effect::ShutDownPlayer(session.players.entries@[k].value)
            }
            &&& !own && session.serial == attached.serial ==> after.sessions@ == before.sessions@
                && after.effects@ == before.effects@
        }),
{
    let session = before.sessions@[i];
    if session.serial == attached.serial {
        let k = session::index_of_serial(before.sessions@, attached.serial);
        assert(session::has_serial(before.sessions@, attached.serial));
        assert(0 <= k < before.sessions@.len() && before.sessions@[k].serial == attached.serial);
        if k != i {
            assert(before.sessions@[k].serial == before.sessions@[i].serial);
        }
        assert forall|later: Span|
            session::disconnected(session, now).expired_at(later) <==> later.nanos >= end_of_wait(
                now,
                session.settings.timeout_seconds,
            ) by {
            a_session_waits_for_its_timeout(session, now, later);
        }
        if session.lifecycle is Connected && session.generation == attached.generation
            && !session.settings.resuming {
            let rest = before.sessions@.remove(i);
            if session::has_serial(rest, session.serial) {
                let j = choose|j: int|
                    0 <= j < rest.len() && (#[trigger] rest[j]).serial == session.serial;
                if j < i {
                    assert(rest[j] == before.sessions@[j]);
                } else {
                    assert(rest[j] == before.sessions@[j + 1]);
                }
            }
            let parting = session::let_go(session).parting();
            assert forall|n: int| 0 <= n < session.players.entries@.len() implies #[trigger] after.effects@[before.effects@.len()
                + n] == Effect::ShutDownPlayer(session.players.entries@[n].value) by {
                assert(after.effects@[before.effects@.len() + n] == parting[n]);
                assert(session.players.ordered()[n] == session.players.entries@[n].value);
            }
        }
    }
}

/// A disconnected session is resumed by the user that made it, who names it,
/// exactly as long as its timeout has not gone by.
pub proof fn a_session_is_resumed_within_its_timeout<P>(
    sessions: Seq<Session<P>>,
    i: int,
    session: Session<P>,
    user: Seq<char>,
    ended: Span,
    now: Span,
)
    requires
        session::sessions_distinct(sessions),
        0 <= i < sessions.len(),
        sessions[i] == session::disconnected(session, ended),
    ensures
        session::resume_index(sessions, user, Some(session.id@), now) == (if user == session.user_id@
            && now.nanos < end_of_wait(ended, session.settings.timeout_seconds) {
            Some(i)
        } else {
            None
        }),
        session::resume_index(sessions, user, None, now) is None,
{
    a_session_waits_for_its_timeout(session, ended, now);
    assert(sessions[i].id@ == session.id@);
    assert(session::has_id(sessions, session.id@));
    let k = session::index_of_id(sessions, session.id@);
    assert(0 <= k < sessions.len() && sessions[k].id@ == session.id@);
    if k != i {
        assert(sessions[k].id@ == sessions[i].id@);
    }
}

/// A resumed session keeps its identity, its user, its players, its settings and
/// what was kept back for it; only its count of connections goes on.
pub proof fn a_resumed_session_keeps_what_it_has<P>(session: Session<P>)
    ensures
        ({
            let resumed = session::resuming_session(session);
            &&& resumed.id == session.id && resumed.user_id == session.user_id && resumed.client_name
                == session.client_name && resumed.serial == session.serial
            &&& resumed.players == session.players && resumed.settings == session.settings
            &&& resumed.critical_backlog == session.critical_backlog && resumed.player_updates
                == session.player_updates && resumed.stats == session.stats
            &&& resumed.lifecycle is Connecting && resumed.generation != session.generation
        }),
{
}

/// A new session belongs to its user, is not resumable until its client says so,
/// would then wait a minute, and has nothing.
pub proof fn a_new_session_is_not_resumable<P>(
    serial: u64,
    id: Seq<char>,
    user: Seq<char>,
    client: Option<Seq<char>>,
)
    ensures
        ({
            let session = session::fresh_session::<P>(serial, id, user, client);
            &&& session.id == id && session.user == user && session.client == client
                && session.serial == serial
            &&& session.settings == (SessionSettings { resuming: false, timeout_seconds: 60 })
            &&& session.lifecycle is Connecting && session.generation == 1 && session.output is None
            &&& session.players.dom().finite() && session.players.len() == 0
            &&& session.backlog.len() == 0 && session.updates.len() == 0 && session.stats is None
            &&& session.window.len() == 0
        }),
{
}

/// An update of a connected session's settings changes what it gives and leaves
/// what it leaves out, and answers with what holds from then on. A session that
/// is not there, or not connected, is not found.
pub proof fn settings_are_changed_as_given<P>(
    before: SessionRegistry<P>,
    after: SessionRegistry<P>,
    now: Span,
    session_id: Seq<char>,
    update: SessionSettingsUpdate,
    r: Result<SessionSettings, UpdateError>,
)
    requires
        session::settings_updated(before, after, now, session_id, update, r),
    ensures
        ({
            let kept = session::kept_at(before.sessions@, now);
            let i = session::index_of_id(kept, session_id);
            if session::has_id(kept, session_id) && kept[i].lifecycle is Connected {
                &&& r is Ok && after.sessions@[i].settings == r->Ok_0
                &&& update.resuming matches Some(resuming) ==> r->Ok_0.resuming == resuming
                &&& update.resuming is None ==> r->Ok_0.resuming == kept[i].settings.resuming
                &&& update.timeout_seconds matches Some(seconds) ==> r->Ok_0.timeout_seconds
                    == seconds
                &&& update.timeout_seconds is None ==> r->Ok_0.timeout_seconds
                    == kept[i].settings.timeout_seconds
                &&& after.sessions@[i].players == kept[i].players && after.sessions@[i].lifecycle
                    == kept[i].lifecycle
            } else {
                r is Err && after.sessions@ == kept
            }
        }),
{
    let kept = session::kept_at(before.sessions@, now);
    if session::has_id(kept, session_id) {
        let i = session::index_of_id(kept, session_id);
        assert(0 <= i < kept.len() && kept[i].id@ == session_id);
    }
}

/// A player is admitted to a connected session once: a guild that has a player
/// keeps it, and neither a session nor the server takes more players than it may
/// have.
pub proof fn players_are_admitted_up_to_the_limits<P>(
    before: SessionRegistry<P>,
    after: SessionRegistry<P>,
    session_id: Seq<char>,
    guild_id: Seq<char>,
    player: P,
    r: Result<bool, PlayerAdmissionError>,
)
    requires
        before.wf(),
        session::player_admitted(before, after, session_id, guild_id, player, r),
    ensures
        r matches Ok(added) ==> ({
            let i = session::index_of_id(before.sessions@, session_id);
            let held = before.sessions@[i]@.players;
            let now = after.sessions@[i]@.players;
            &&& session::has_id(before.sessions@, session_id) && before.sessions@[i].lifecycle
                is Connected
            &&& added == !held.dom().contains(guild_id)
            &&& now.dom().contains(guild_id)
            &&& !added ==> now == held && after.player_count == before.player_count
            &&& added ==> now[guild_id] == player && after.player_count == before.player_count + 1
                && before.sessions@[i].players.entries@.len() < before.max_players_per_session
                && before.player_count < before.max_players
            &&& forall|other: Seq<char>|
                other != guild_id ==> (now.dom().contains(other) <==> held.dom().contains(other))
                    && (held.dom().contains(other) ==> now[other] == #[trigger] held[other])
        }),
        r is Err ==> after.sessions@ == before.sessions@,
        r == Err::<bool, PlayerAdmissionError>(PlayerAdmissionError::Full) ==> before.player_count
            >= before.max_players,
        r == Err::<bool, PlayerAdmissionError>(PlayerAdmissionError::SessionFull)
            ==> before.sessions@[session::index_of_id(before.sessions@, session_id)].players.entries@.len()
            >= before.max_players_per_session,
{
    if session::has_id(before.sessions@, session_id) {
        let i = session::index_of_id(before.sessions@, session_id);
        assert(0 <= i < before.sessions@.len() && before.sessions@[i].id@ == session_id);
    }
}

/// A player that is taken out is shut down, once, and nothing of it waits any
/// longer; the other players stay.
pub proof fn a_removed_player_is_shut_down<P>(
    before: SessionRegistry<P>,
    after: SessionRegistry<P>,
    session_id: Seq<char>,
    guild_id: Seq<char>,
)
    requires
        before.wf(),
        session::player_removed(before, after, session_id, guild_id, Ok(())),
    ensures
        ({
            let i = session::index_of_id(before.sessions@, session_id);
            let held = before.sessions@[i]@;
            let now = after.sessions@[i]@;
            &&& !now.players.dom().contains(guild_id) && !now.updates.dom().contains(guild_id)
            &&& held.players.dom().contains(guild_id) ==> after.effects@ == before.effects@.push(
                Effect::ShutDownPlayer(held.players[guild_id]),
            )
            &&& !held.players.dom().contains(guild_id) ==> after.effects@ == before.effects@
            &&& forall|other: Seq<char>|
                other != guild_id ==> (now.players.dom().contains(other)
                    <==> held.players.dom().contains(other)) && (held.players.dom().contains(other)
                    ==> now.players[other] == #[trigger] held.players[other])
        }),
{
}

/// A connection that is there at last takes up what was kept back, and nothing
/// waits any longer.
pub proof fn an_attached_session_is_connected<P>(before: SessionModel<P>)
    ensures
        ({
            let after = session::attached_model(before);
            &&& after.lifecycle is Connected
            &&& after.output matches Some(output) && output.queue.len() == 0 && !output.cancelled
                && !output.closed
            &&& after.backlog.len() == 0 && after.updates.len() == 0 && after.stats is None
            &&& after.players == before.players && after.settings == before.settings && after.id
                == before.id && after.user == before.user && after.generation == before.generation
        }),
{
}

/// Every session counts once, as connected, as resumable, or not at all where it
/// is gone.
pub proof fn each_session_counts_once<P>(sessions: Seq<Session<P>>)
    ensures
        session::connected_in(sessions) == sessions.filter(
            |s: Session<P>| s.lifecycle is Connected || s.lifecycle is Connecting,
        ).len(),
        session::resumable_in(sessions) == sessions.filter(
            |s: Session<P>| s.lifecycle is DisconnectedResumable,
        ).len(),
        session::connected_in(sessions) + session::resumable_in(sessions) <= sessions.len(),
    decreases sessions.len(),
{
    reveal(Seq::filter);
    if sessions.len() > 0 {
        each_session_counts_once(sessions.drop_last());
    }
}

/// Who publishes to a session hears the truth: on its way exactly where a
/// connection took it, kept back exactly where it waits for one, and otherwise
/// why not.
pub proof fn publishers_hear_what_became_of_a_message<P>(
    before: SessionModel<P>,
    capacity: usize,
    message: CriticalMessage,
)
    requires
        before.lifecycle is Connected ==> before.output is Some,
    ensures
        ({
            let after = session::after_critical(before, capacity, message);
            match session::critical_reply(before, capacity, message.payload) {
                Ok(true) => before.lifecycle is Connected && after.output->0.queue
                    == before.output->0.queue.push(message) && after.backlog == before.backlog,
                Ok(false) => !(before.lifecycle is Connected) && after.backlog
                    == before.backlog.push(message.payload) && after.output == before.output,
                Err(PublishError::Full(payload)) => payload == message.payload && (
                if before.lifecycle is Connected {
                    before.output->0.queue.len() >= capacity && after.output->0.cancelled
                } else {
                    before.backlog.len() >= capacity && after.lifecycle is Expired
                }),
                Err(PublishError::Disconnected(payload)) => payload == message.payload && after
                    == before && (before.lifecycle is Expired || before.output->0.closed),
            }
        }),
{
}

/// A clean-up leaves exactly the sessions whose time is not over.
pub proof fn a_clean_up_leaves_the_living<P>(
    before: SessionRegistry<P>,
    after: SessionRegistry<P>,
    now: Span,
    session: Session<P>,
)
    requires
        session::cleaned_up(before, after, now),
    ensures
        after.sessions@.contains(session) <==> before.sessions@.contains(session)
            && !session.expired_at(now),
        after.shutting_down == before.shutting_down,
{
    lemma_kept(before.sessions@, now, session);
}

proof fn lemma_kept<P>(sessions: Seq<Session<P>>, now: Span, session: Session<P>)
    ensures
        session::kept_at(sessions, now).contains(session) <==> sessions.contains(session)
            && !session.expired_at(now),
    decreases sessions.len(),
{
    if sessions.len() > 0 {
        let front = sessions.drop_last();
        lemma_kept(front, now, session);
        let before = session::kept_at(front, now);
        let all = session::kept_at(sessions, now);
        if front.contains(session) {
            let i = choose|i: int| 0 <= i < front.len() && front[i] == session;
            assert(sessions[i] == session);
        }
        if sessions.last() == session {
            assert(sessions[sessions.len() - 1] == session);
        }
        if sessions.contains(session) && sessions.last() != session {
            let i = choose|i: int| 0 <= i < sessions.len() && sessions[i] == session;
            assert(front[i] == session);
        }
        if !sessions.last().expired_at(now) {
            if before.contains(session) {
                let i = choose|i: int| 0 <= i < before.len() && before[i] == session;
                assert(all[i] == session);
            }
            if sessions.last() == session {
                assert(all[before.len() as int] == session);
            }
            if all.contains(session) && sessions.last() != session {
                let i = choose|i: int| 0 <= i < all.len() && all[i] == session;
                assert(before[i] == session);
            }
        }
    }
}

/// Only its own user resumes a session, and only before its time is over.
pub proof fn only_its_user_resumes_a_session<P>(session: Session<P>, user: Seq<char>, now: Span)
    ensures
        session::resumable_by(session, user, now) ==> session.user_id@ == user && !(
        session.lifecycle is Connected) && !(session.lifecycle is Expired),
        session.lifecycle matches SessionLifecycle::DisconnectedResumable { deadline } ==> (
        session::resumable_by(session, user, now) <==> session.user_id@ == user && now.nanos
            < deadline.nanos),
{
}

/// What a session leaves behind is shut down: its connection, where it has one,
/// and each of its players.
pub proof fn a_session_leaves_nothing_behind<P>(session: Session<P>, i: int)
    ensures
        session.output is Some <==> session.parting().len() == session.players.ordered().len() + 1,
        session.output is None <==> session.parting().len() == session.players.ordered().len(),
        session.output is Some ==> session.parting()[0] == (Effect::<P>::EndConnection {
            serial: session.serial,
        }),
        0 <= i < session.players.ordered().len() ==> session.parting().contains(
            Effect::ShutDownPlayer(session.players.ordered()[i]),
        ),
{
    if 0 <= i < session.players.ordered().len() {
        let k = if session.output is Some {
            i + 1
        } else {
            i
        };
        assert(session.parting()[k] == Effect::ShutDownPlayer(session.players.ordered()[i]));
    }
}

/// A handshake that is given up leaves a session that was resumed as it was, as
/// long as its time is not over; otherwise the session goes, and its players
/// with it. A handshake that was taken over by another changes nothing.
pub proof fn a_handshake_that_is_given_up<P>(
    registry: SessionRegistry<P>,
    after: SessionRegistry<P>,
    now: Span,
    prepared: PreparedSession,
)
    requires
        session::gives_up(registry, after, now, prepared),
    ensures
        ({
            let before = registry.sessions@;
            let i = session::index_of_serial(before, prepared.serial);
            let stands = session::handshake_stands(before, prepared.serial, prepared.generation);
            &&& !stands ==> after.sessions@ == before && after.effects@ == registry.effects@
            &&& stands && before[i].lifecycle is Connecting ==> {
                &&& before[i].lifecycle->previous_deadline matches Some(deadline) ==> (now.nanos
                    < deadline.nanos ==> {
                    &&& after.sessions@.len() == before.len()
                    &&& 0 <= i < before.len() ==> after.sessions@[i].lifecycle == (
                    SessionLifecycle::DisconnectedResumable { deadline })
                        && after.sessions@[i].players == before[i].players
                        && after.sessions@[i].settings == before[i].settings
                        && after.sessions@[i].user_id == before[i].user_id
                    &&& after.effects@ == registry.effects@
                })
                &&& before[i].lifecycle->previous_deadline is None ==> after.sessions@
                    == before.remove(i)
                &&& before[i].lifecycle->previous_deadline matches Some(deadline) ==> (now.nanos
                    >= deadline.nanos ==> after.sessions@ == before.remove(i))
            }
        }),
{
}

} // verus!
