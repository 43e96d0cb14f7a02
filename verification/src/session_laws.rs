//! What holds of sessions over several operations.

use crate::session;
use crate::session::{
    CriticalMessage, Effect, Publication, ResumePermit, Session, SessionModel, SessionRegistry,
};
use crate::span;
use crate::span::Span;
use crate::text;
use crate::text_map;
use crate::text_map::TextEntry;
use vstd::prelude::*;

verus! {

/// A session is resumed only by the user that made it, only while it is
/// disconnected, and only before its deadline.
pub proof fn only_the_owner_resumes<P>(
    sessions: Seq<Session<P>>,
    user: Seq<char>,
    requested: Option<Seq<char>>,
    now: Span,
)
    ensures
        session::resume_index(sessions, user, requested, now) matches Some(i) ==> 0 <= i
            < sessions.len() && sessions[i].user_id@ == user && requested == Some(sessions[i].id@)
            && sessions[i].lifecycle is DisconnectedResumable && !sessions[i].expired_at(now),
{
    if let Some(id) = requested {
        if session::has_id(sessions, id) {
            let i = session::index_of_id(sessions, id);
            assert(0 <= i < sessions.len() && sessions[i].id@ == id);
        }
    }
}

/// While one resume of a session is under way, a second request for it does not
/// resume it.
pub proof fn a_session_is_resumed_once<P>(
    sessions: Seq<Session<P>>,
    user: Seq<char>,
    other: Seq<char>,
    requested: Seq<char>,
    now: Span,
    later: Span,
)
    requires
        session::sessions_distinct(sessions),
        session::resume_index(sessions, user, Some(requested), now) is Some,
    ensures
        ({
            let i = session::resume_index(sessions, user, Some(requested), now)->0;
            session::resume_index(
                sessions.update(i, session::resuming_session(sessions[i])),
                other,
                Some(requested),
                later,
            ) is None
        }),
{
    only_the_owner_resumes(sessions, user, Some(requested), now);
    let i = session::resume_index(sessions, user, Some(requested), now)->0;
    let after = sessions.update(i, session::resuming_session(sessions[i]));
    if session::has_id(after, requested) {
        let k = session::index_of_id(after, requested);
        assert(0 <= k < after.len() && after[k].id@ == requested);
        if k != i {
            assert(sessions[k].id@ == sessions[i].id@);
        }
    }
}

/// Giving up a resume before the deadline leaves the session as it was, but for
/// the count of its connections.
pub proof fn abandoning_undoes_a_resume<P>(session: Session<P>, now: Span)
    requires
        session.lifecycle is DisconnectedResumable,
        !session.expired_at(now),
    ensures
        session::falls_back(session::resuming_session(session), now),
        session::fallen_back(session::resuming_session(session)) == (Session {
            generation: session::next_generation(session.generation),
            ..session
        }),
{
}

/// A resume that is given up behind the deadline takes the session with it.
pub proof fn a_late_abandon_does_not_fall_back<P>(session: Session<P>, now: Span)
    requires
        session.lifecycle is DisconnectedResumable,
        session.expired_at(now),
    ensures
        !session::falls_back(session::resuming_session(session), now),
{
}

/// Once a session is being resumed, neither its earlier connection nor an
/// earlier handshake stands any longer.
pub proof fn earlier_connections_lose_their_session<P>(
    sessions: Seq<Session<P>>,
    i: int,
    generation: u64,
)
    requires
        session::sessions_distinct(sessions),
        0 <= i < sessions.len(),
        sessions[i].lifecycle is DisconnectedResumable,
        generation != session::next_generation(sessions[i].generation),
    ensures
        ({
            let after = sessions.update(i, session::resuming_session(sessions[i]));
            &&& !session::connection_stands(after, sessions[i].serial, generation)
            &&& !session::handshake_stands(after, sessions[i].serial, generation)
        }),
{
    let after = sessions.update(i, session::resuming_session(sessions[i]));
    let serial = sessions[i].serial;
    assert(after[i].serial == serial);
    let k = session::index_of_serial(after, serial);
    assert(0 <= k < after.len() && after[k].serial == serial);
    if k != i {
        assert(sessions[k].serial == sessions[i].serial);
    }
}

/// The time that a disconnected session waits is the one that its settings
/// name, counted from the end of the connection; a negative one is none.
pub proof fn a_session_waits_as_long_as_its_settings_say<P>(
    session: Session<P>,
    ended: Span,
    now: Span,
)
    requires
        ended.valid(),
    ensures
        session::disconnected(session, ended).expired_at(now) <==> now.nanos >= span::span_sum(
            ended,
            session::resume_window(session.settings),
        ).nanos,
        session.settings.timeout_seconds <= 0 ==> session::disconnected(session, ended).expired_at(
            ended,
        ),
{
    let seconds = session.settings.timeout_seconds;
    if seconds >= 0 {
        assert(seconds * span::NANOS_PER_SECOND <= 9_223_372_036_854_775_807
            * span::NANOS_PER_SECOND);
    }
}

/// The session after each of the messages was offered in turn.
pub open spec fn after_all<P>(
    before: SessionModel<P>,
    capacity: usize,
    messages: Seq<CriticalMessage>,
) -> SessionModel<P>
    decreases messages.len(),
{
    if messages.len() == 0 {
        before
    } else {
        session::after_critical(
            after_all(before, capacity, messages.drop_last()),
            capacity,
            messages.last(),
        )
    }
}

pub open spec fn payloads(messages: Seq<CriticalMessage>) -> Seq<String> {
    messages.map_values(|message: CriticalMessage| message.payload)
}

/// What is published while a session has no connection is kept back in order
/// and whole, as long as there is room, so the next connection gets all of it.
pub proof fn kept_back_messages_stay_in_order<P>(
    before: SessionModel<P>,
    capacity: usize,
    messages: Seq<CriticalMessage>,
)
    requires
        before.lifecycle is DisconnectedResumable || before.lifecycle is Connecting,
        before.backlog.len() + messages.len() <= capacity,
    ensures
        after_all(before, capacity, messages) == (SessionModel {
            backlog: before.backlog + payloads(messages),
            ..before
        }),
    decreases messages.len(),
{
    if messages.len() == 0 {
        assert(before.backlog + payloads(messages) =~= before.backlog);
    } else {
        kept_back_messages_stay_in_order(before, capacity, messages.drop_last());
        assert(payloads(messages) =~= payloads(messages.drop_last()).push(messages.last().payload));
        assert((before.backlog + payloads(messages.drop_last())).push(messages.last().payload)
            =~= before.backlog + payloads(messages));
    }
}

/// What is published to a live connection is queued in order and whole, as long
/// as there is room.
pub proof fn queued_messages_stay_in_order<P>(
    before: SessionModel<P>,
    capacity: usize,
    messages: Seq<CriticalMessage>,
)
    requires
        before.lifecycle is Connected,
        before.output is Some,
        !before.output->0.closed,
        before.output->0.queue.len() + messages.len() <= capacity,
    ensures
        after_all(before, capacity, messages) == (SessionModel {
            output: Some(
                session::OutputModel {
                    queue: before.output->0.queue + messages,
                    ..before.output->0
                },
            ),
            ..before
        }),
    decreases messages.len(),
{
    if messages.len() == 0 {
        assert(before.output->0.queue + messages =~= before.output->0.queue);
    } else {
        queued_messages_stay_in_order(before, capacity, messages.drop_last());
        assert((before.output->0.queue + messages.drop_last()).push(messages.last())
            =~= before.output->0.queue + messages);
    }
}

/// A session without a connection expires with the first message that it has no
/// room for, and refuses every later one; it is then neither resumed nor
/// attached to.
pub proof fn an_overflowing_session_is_lost<P>(
    before: SessionModel<P>,
    capacity: usize,
    message: CriticalMessage,
    later: CriticalMessage,
)
    requires
        before.lifecycle is DisconnectedResumable || before.lifecycle is Connecting,
        before.backlog.len() >= capacity,
    ensures
        session::critical_reply(before, capacity, message.payload) == Err::<
            bool,
            session::PublishError,
        >(session::PublishError::Full(message.payload)),
        ({
            let after = session::after_critical(before, capacity, message);
            &&& after.lifecycle is Expired
            &&& session::critical_reply(after, capacity, later.payload) == Err::<
                bool,
                session::PublishError,
            >(session::PublishError::Disconnected(later.payload))
            &&& session::after_critical(after, capacity, later) == after
        }),
{
}

/// Of two updates of one guild only the later waits, and it takes no more room
/// than the first.
pub proof fn updates_of_a_guild_coalesce(
    updates: Map<Seq<char>, String>,
    guild: Seq<char>,
    first: String,
    second: String,
)
    ensures
        updates.insert(guild, first).insert(guild, second) == updates.insert(guild, second),
        updates.insert(guild, first).insert(guild, second).dom() == updates.insert(
            guild,
            first,
        ).dom(),
{
    assert(updates.insert(guild, first).insert(guild, second) =~= updates.insert(guild, second));
    assert(updates.insert(guild, first).insert(guild, second).dom() =~= updates.insert(
        guild,
        first,
    ).dom());
}

/// The session after each of the messages was published in turn; one that it
/// does not take changes nothing.
pub open spec fn after_publications<P>(
    before: SessionModel<P>,
    run: Seq<Publication>,
) -> SessionModel<P>
    decreases run.len(),
{
    if run.len() == 0 {
        before
    } else {
        let m = after_publications(before, run.drop_last());
        if session::accepts(m, run.last()) {
            session::after_publication(m, run.last())
        } else {
            m
        }
    }
}

/// The last update of a guild that a session took in a run.
pub open spec fn last_update<P>(
    before: SessionModel<P>,
    run: Seq<Publication>,
    guild: Seq<char>,
) -> Option<String>
    decreases run.len(),
{
    if run.len() == 0 {
        None
    } else {
        match run.last() {
            Publication::Update { guild: other, payload } => if other == guild && session::accepts(
                before,
                run.last(),
            ) {
                Some(payload)
            } else {
                last_update(before, run.drop_last(), guild)
            },
            Publication::Stats(_) => last_update(before, run.drop_last(), guild),
        }
    }
}

/// The last statistics that a session took in a run.
pub open spec fn last_stats<P>(before: SessionModel<P>, run: Seq<Publication>) -> Option<String>
    decreases run.len(),
{
    if run.len() == 0 {
        None
    } else {
        match run.last() {
            Publication::Stats(payload) => if session::accepts(before, run.last()) {
                Some(payload)
            } else {
                last_stats(before, run.drop_last())
            },
            Publication::Update { .. } => last_stats(before, run.drop_last()),
        }
    }
}

/// Publishing changes nothing but what waits.
proof fn lemma_publications<P>(before: SessionModel<P>, run: Seq<Publication>)
    requires
        before.updates == Map::<Seq<char>, String>::empty(),
        before.stats is None,
    ensures
        ({
            let m = after_publications(before, run);
            &&& m == SessionModel { updates: m.updates, stats: m.stats, ..before }
            &&& m.stats == last_stats(before, run)
            &&& forall|guild: Seq<char>|
                #![trigger m.updates.dom().contains(guild)]
                #![trigger last_update(before, run, guild)]
                (m.updates.dom().contains(guild) <==> last_update(before, run, guild) is Some) && (
                m.updates.dom().contains(guild) ==> last_update(before, run, guild) == Some(
                    m.updates[guild],
                ))
        }),
    decreases run.len(),
{
    if run.len() > 0 {
        lemma_publications(before, run.drop_last());
    }
}

/// The guilds whose updates wait in a session, in the order in which they are
/// handed out.
pub open spec fn waiting_guilds<P>(session: Session<P>) -> Seq<Seq<char>> {
    session.player_updates.entries@.map_values(|entry: TextEntry<String>| entry.key@)
}

/// After any run of updates and statistics, what is handed out is the last
/// payload of each guild of which the session took one, in the ascending order
/// of the guilds, then the last statistics that it took. What it had waiting was
/// handed out before, as at the start of a connection.
pub proof fn the_latest_of_a_run_is_handed_out<P>(
    before: SessionModel<P>,
    run: Seq<Publication>,
    session: Session<P>,
)
    requires
        before.updates == Map::<Seq<char>, String>::empty(),
        before.stats is None,
        session.player_updates.wf(),
        session@ == after_publications(before, run),
    ensures
        ({
            let guilds = waiting_guilds(session);
            let out = session.coalesced();
            &&& forall|i: int, j: int|
                0 <= i < j < guilds.len() ==> text::text_before(
                    #[trigger] guilds[i],
                    #[trigger] guilds[j],
                )
            &&& forall|guild: Seq<char>|
                #[trigger] guilds.contains(guild) <==> last_update(before, run, guild) is Some
            &&& forall|i: int|
                0 <= i < guilds.len() ==> Some(#[trigger] out[i]) == last_update(
                    before,
                    run,
                    guilds[i],
                )
            &&& match last_stats(before, run) {
                Some(stats) => out.len() == guilds.len() + 1 && out.last() == stats,
                None => out.len() == guilds.len(),
            }
        }),
{
    let entries = session.player_updates.entries@;
    let guilds = waiting_guilds(session);
    let updates = session@.updates;
    lemma_publications(before, run);
    assert forall|guild: Seq<char>| #[trigger] guilds.contains(guild) <==> last_update(
        before,
        run,
        guild,
    ) is Some by {
        assert(updates.dom().contains(guild) <==> text_map::holds_key(entries, guild));
        if guilds.contains(guild) {
            let i = choose|i: int| 0 <= i < guilds.len() && guilds[i] == guild;
            assert(entries[i].key@ == guild);
        }
        if text_map::holds_key(entries, guild) {
            let i = choose|i: int| 0 <= i < entries.len() && (#[trigger] entries[i]).key@ == guild;
            assert(guilds[i] == guild);
        }
    }
    assert forall|i: int| 0 <= i < guilds.len() implies Some(#[trigger] session.coalesced()[i])
        == last_update(before, run, guilds[i]) by {
        text_map::value_at_position(entries, i);
        assert(session.player_updates.ordered()[i] == entries[i].value);
        assert(updates.dom().contains(guilds[i]));
    }
}

/// Right after what waited was handed out, nothing is.
pub proof fn nothing_is_handed_out_twice<P>(before: SessionModel<P>, session: Session<P>)
    requires
        session@ == session::emptied(before),
    ensures
        session.coalesced() == Seq::<String>::empty(),
{
    let entries = session.player_updates.entries@;
    if entries.len() > 0 {
        assert(text_map::holds_key(entries, entries[0].key@));
        assert(session@.updates.dom().contains(entries[0].key@));
    }
    assert(session.coalesced() =~= Seq::<String>::empty());
}

/// A resume that was granted and then completed or given up frees exactly the
/// room that it took.
pub proof fn a_resume_permit_is_given_back(permits: Seq<ResumePermit>, permit: ResumePermit)
    requires
        !permits.contains(permit),
    ensures
        session::without_permit(permits.push(permit), permit) == permits,
    decreases permits.len(),
{
    let all = permits.push(permit);
    if permits.len() == 0 {
        assert(all.drop_first() =~= permits);
    } else {
        let rest = permits.drop_first();
        assert forall|k: int| 0 <= k < rest.len() implies rest[k] != permit by {
            assert(rest[k] == permits[k + 1]);
        }
        assert(permits[0] != permit);
        a_resume_permit_is_given_back(rest, permit);
        assert(all.drop_first() =~= rest.push(permit));
        assert(seq![permits[0]] + rest =~= permits);
    }
}

/// A registry that shut down holds no session and no player.
pub proof fn nothing_outlives_shutdown<P>(registry: SessionRegistry<P>)
    requires
        registry.wf(),
        registry.shutting_down,
    ensures
        session::connected_in(registry.sessions@) == 0,
        session::resumable_in(registry.sessions@) == 0,
        session::total_players(registry.sessions@) == 0,
        registry.player_count == 0,
{
}

/// Every player of a session that goes is told to shut down, once and in the
/// order of the guilds.
pub proof fn a_parting_session_shuts_its_players_down<P>(session: Session<P>, k: int)
    requires
        0 <= k < session.players.entries@.len(),
    ensures
        ({
            let first = if session.output is Some {
                1int
            } else {
                0
            };
            &&& session.parting().len() == first + session.players.entries@.len()
            &&& session.parting()[first + k] == Effect::ShutDownPlayer(
                session.players.ordered()[k],
            )
        }),
{
}

} // verus!
