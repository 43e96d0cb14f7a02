//! What becomes of a player when its source ends, its connection is lost or
//! ready, or it is destroyed.

use crate::commands;
use crate::commands::{ClosedRun, DestroyRun, DestroyStage, Step, TerminalRun};
use crate::media::{AdapterError, MediaEvent, PlayerError, PlayerSnapshot, TrackEndReason};
use crate::player;
use crate::player::{Player, PlayerState};
use crate::session::PublishError;
use crate::text;
use crate::update::{Need, Reply};
use crate::voice::{VoiceClose, VoiceError};
use crate::wire;
use crate::wire_laws;
use vstd::prelude::*;

verus! {

/// What a run needs next, where it needs anything.
pub open spec fn needs<R>(step: Step<R>, need: Need) -> bool {
    step matches Step::Ask(_, asked) && asked == need
}

/// A source of the audio that plays whose media is there is looked into: a
/// failed one is told as the failure of the track that plays, in its words.
pub proof fn a_failed_source_is_told(state: PlayerState, generation: u64, failure: Option<VoiceError>)
    requires
        !state.destroyed && !state.cancelled,
        state.audio_generation == generation,
        state.has_media,
    ensures
        ({
            let step = commands::terminal_started(state, generation, failure);
            &&& step is Ask
            &&& failure is Some && state.track is Some ==> needs(
                step,
                Need::PublishFailure {
                    track: state.track->0.media,
                    message: failure->0.message,
                    user_data: state.track->0.user_data,
                },
            )
            &&& failure is None || state.track is None ==> needs(step, Need::NextEvent)
            &&& step->Ask_0.generation == generation
            &&& step->Ask_0.failed <==> failure is Some
            &&& step->Ask_0.voice == state.voice_connection
            &&& state.track matches Some(track) ==> step->Ask_0.user_data == track.user_data
        }),
{
}

/// The source of a player that is gone or has no media is left alone.
pub proof fn nothing_is_told_of_a_gone_player(
    state: PlayerState,
    generation: u64,
    failure: Option<VoiceError>,
)
    requires
        state.destroyed || state.cancelled || !state.has_media,
    ensures
        commands::terminal_started(state, generation, failure) == Step::<TerminalRun>::Done(Ok(())),
{
}

/// After the failure was told the media stops, and then each event that waits is
/// told, with the data of the track; the end of a track whose source failed is
/// told as a failed load, and of another as it was.
pub proof fn the_end_of_a_source_is_told(run: TerminalRun, event: MediaEvent)
    ensures
        run.stage is Failure ==> needs(
            commands::terminal_moved(run, Reply::Published(Ok(()))),
            Need::StopMedia,
        ),
        run.stage is Stop ==> needs(commands::terminal_moved(run, Reply::Media(Ok(()))), Need::NextEvent),
        run.stage is Publish ==> needs(
            commands::terminal_moved(run, Reply::Published(Ok(()))),
            Need::NextEvent,
        ),
        run.stage is Drain ==> needs(
            commands::terminal_moved(run, Reply::Event(Ok(None))),
            Need::SnapshotMedia,
        ),
        run.stage is Drain ==> {
            let step = commands::terminal_moved(run, Reply::Event(Ok(Some(event))));
            &&& event matches MediaEvent::TrackEnd { track, reason } ==> {
                &&& run.failed ==> needs(
                    step,
                    Need::PublishEvent {
                        event: MediaEvent::TrackEnd { track, reason: TrackEndReason::LoadFailed },
                        user_data: run.user_data,
                    },
                )
                &&& !run.failed ==> needs(
                    step,
                    Need::PublishEvent {
                        event: MediaEvent::TrackEnd { track, reason },
                        user_data: run.user_data,
                    },
                )
            }
            &&& !(event is TrackEnd) ==> needs(
                step,
                Need::PublishEvent { event, user_data: run.user_data },
            )
        },
        run.stage is Update ==> commands::terminal_moved(run, Reply::Published(Ok(()))) == Step::<
            TerminalRun,
        >::Done(Ok(())),
{
}

/// Where something is not taken the end of a source is given up with that
/// failure.
pub proof fn the_end_of_a_source_fails_as_its_step_did(
    run: TerminalRun,
    refused: PublishError,
    failed: AdapterError,
)
    ensures
        run.stage is Failure || run.stage is Publish || run.stage is Update ==> (
        commands::terminal_moved(run, Reply::Published(Err(refused))) matches Step::Done(Err(error))
            && (refused is Full <==> error is Overloaded) && (refused is Disconnected <==> error
            is NotFound)),
        run.stage is Stop ==> commands::terminal_moved(run, Reply::Media(Err(failed))) matches
            Step::Done(Err(_)),
        run.stage is Drain ==> commands::terminal_moved(run, Reply::Event(Err(failed))) matches
            Step::Done(Err(_)),
{
}

/// The end of a source settles with what the media player tells; the player
/// takes it over as long as the source is that of its audio, and tells it.
pub proof fn the_end_of_a_source_settles(
    before: Player,
    after: Player,
    run: TerminalRun,
    media: PlayerSnapshot,
    time_ms: u64,
    r: Step<TerminalRun>,
)
    requires
        commands::terminal_goes_on(before, after, run, Reply::MediaSnapshot(Ok(media)), time_ms, r),
        run.stage is Media,
    ensures
        after.guild_id == before.guild_id,
        run.voice is None && !before.state.destroyed && !before.state.cancelled
            && before.state.audio_generation == run.generation ==> {
            &&& after.state.position_ms == media.position_ms
            &&& after.state.paused <==> media.status is Paused
            &&& media.track is None && media.status is Stopped ==> after.state.track is None
            &&& after.state.volume == before.state.volume
            &&& after.cache.periodic_updates <==> after.state.track is Some
            &&& needs(r, Need::PublishUpdate)
        },
        run.voice is None && before.state.audio_generation != run.generation ==> after == before
            && r == Step::<TerminalRun>::Done(Ok(())),
        run.voice matches Some(connection) ==> after == before && needs(
            r,
            Need::SnapshotVoice(connection),
        ),
{
}

/// A closed connection is told by its guild, its code, its reason and who
/// closed it.
pub proof fn a_close_is_told(guild_id: Seq<char>, close: VoiceClose)
    ensures
        ({
            let shown = commands::closed_json(guild_id, close);
            &&& wire_laws::tells(shown, "op"@, wire::json_quoted("event"@))
            &&& wire_laws::tells(shown, "type"@, wire::json_quoted("WebSocketClosedEvent"@))
            &&& wire_laws::tells(shown, "guildId"@, wire::json_quoted(guild_id))
            &&& wire_laws::tells(shown, "code"@, text::signed_decimal(close.code as int))
            &&& wire_laws::tells(shown, "reason"@, wire::json_quoted(close.reason@))
            &&& wire_laws::tells(
                shown,
                "byRemote"@,
                if close.by_remote {
                    "true"@
                } else {
                    "false"@
                },
            )
        }),
{
    broadcast use wire_laws::group_members;

}

/// A connection that is lost is forgotten, its watch stops, its audio stops, its
/// close is told as it was, and then where playback stands. The track and what
/// else the player has stays.
pub proof fn a_lost_connection_is_told(
    state: PlayerState,
    connection: u64,
    close: VoiceClose,
    before: Player,
    after: Player,
    reply: Reply,
    time_ms: u64,
    r: Step<ClosedRun>,
)
    ensures
        !state.destroyed && !state.cancelled && state.voice_connection == Some(connection)
            && state.audio_generation < u64::MAX ==> {
            let (lost, step) = commands::closed_started(state, connection, close);
            &&& step == Step::Ask(ClosedRun::Monitor { connection, close }, Need::StopMonitor)
            &&& lost.voice_connection is None
            &&& lost.audio_generation == state.audio_generation + 1
            &&& lost.track == state.track && lost.position_ms == state.position_ms
            &&& lost.volume == state.volume && lost.paused == state.paused
            &&& lost.has_media == state.has_media && lost.outbound == state.outbound
            &&& lost.filters == state.filters && lost.voice == state.voice
            &&& !lost.destroyed && !lost.cancelled
        },
        commands::closed_goes_on(
            before,
            after,
            ClosedRun::Monitor { connection, close },
            reply,
            time_ms,
            r,
        ) ==> r == Step::Ask(ClosedRun::Audio { close }, Need::StopAudio(connection)) && after.state
            == before.state && after.cache == before.cache,
        commands::closed_goes_on(before, after, ClosedRun::Audio { close }, reply, time_ms, r)
            ==> r == Step::Ask(ClosedRun::Closed, Need::PublishClosed(close)) && after.state
            == before.state && after.cache == before.cache,
        commands::closed_goes_on(
            before,
            after,
            ClosedRun::Closed,
            Reply::Published(Ok(())),
            time_ms,
            r,
        ) ==> r == Step::Ask(ClosedRun::Update, Need::PublishUpdate) && after.state == before.state
            && (after.cache.periodic_updates <==> before.state.track is Some),
        commands::closed_goes_on(
            before,
            after,
            ClosedRun::Update,
            Reply::Published(Ok(())),
            time_ms,
            r,
        ) ==> r == Step::<ClosedRun>::Done(Ok(())) && after.state == before.state,
{
}

/// Audio that had to wait starts, under a new generation, when its connection is
/// ready and a track plays that is not paused; otherwise it no longer waits.
pub proof fn waiting_audio_starts_when_ready(state: PlayerState, connection: u64)
    requires
        state.audio_generation < u64::MAX,
    ensures
        ({
            let (after, r) = commands::ready_started(state, connection);
            let starts = state.deferred_audio && !state.destroyed && !state.cancelled
                && state.voice_connection == Some(connection) && !state.paused && state.has_media
                && state.track is Some;
            &&& starts ==> r == Ok::<Option<u64>, PlayerError>(
                Some((state.audio_generation + 1) as u64),
            ) && after.audio_generation == state.audio_generation + 1
            &&& !starts ==> r == Ok::<Option<u64>, PlayerError>(None) && after.audio_generation
                == state.audio_generation
            &&& !after.deferred_audio
            &&& after.track == state.track && after.paused == state.paused
            &&& after.voice_connection == state.voice_connection
        }),
{
}

/// Audio that still has to wait goes on waiting; another failure is told.
pub proof fn audio_waits_until_it_can_start(
    before: Player,
    after: Player,
    result: Result<(), VoiceError>,
    r: Result<(), PlayerError>,
)
    requires
        commands::ready_ended(before, after, result, r),
    ensures
        result is Ok ==> r is Ok && after.state == before.state,
        result matches Err(error) ==> {
            &&& r is Ok <==> error.kind is NotReady
            &&& error.kind is NotReady ==> after.state.deferred_audio
            &&& !(error.kind is NotReady) ==> after.state == before.state
            &&& error.kind is Overloaded ==> r == Err::<(), PlayerError>(PlayerError::Overloaded)
            &&& error.kind is InvalidState ==> r == Err::<(), PlayerError>(
                PlayerError::Invalid(error.message),
            )
        },
        after.state.track == before.state.track,
        after.cache == before.cache,
{
}

/// A player that is destroyed has nothing left that plays, connects or counts,
/// and is found no more.
pub proof fn a_destroyed_player_is_gone(
    before: Player,
    after: Player,
    told: bool,
    r: Step<DestroyRun>,
)
    requires
        commands::destruction_began(before, after, told, r),
        !before.state.destroyed,
    ensures
        after.state.destroyed && after.state.cancelled,
        after.state.track is None && after.state.voice_connection is None,
        !after.state.has_media && !after.state.outbound,
        !after.cache.stats.playing,
        after.cache.stats.sent == before.cache.stats.sent,
        after.cache.stats.nulled == before.cache.stats.nulled,
        after.cache.stats.deficit == before.cache.stats.deficit,
        needs(r, Need::StopMonitor),
        r->Ask_0.voice == before.state.voice_connection,
        r->Ask_0.media == before.state.has_media,
{
}

/// A client is told of the track that ends with its player, once, as cleaned up,
/// with its data, where it is to be told.
pub proof fn the_track_of_a_destroyed_player_is_cleaned_up(state: PlayerState, told: bool, reply: Reply)
    requires
        !state.destroyed,
    ensures
        ({
            let first = commands::destroy_started(state, told);
            let second = commands::destroy_moved(first->Ask_0, reply);
            &&& first is Ask
            &&& state.track is Some && told ==> needs(
                second,
                Need::PublishEvent {
                    event: MediaEvent::TrackEnd {
                        track: state.track->0.media,
                        reason: TrackEndReason::Cleanup,
                    },
                    user_data: state.track->0.user_data,
                },
            )
            &&& state.track is None || !told ==> !(second matches Step::Ask(
                _,
                Need::PublishEvent { .. },
            ))
        }),
{
}

/// What a player had is shut down in turn, its connection before its media,
/// whatever came of telling its client, which is what the end reports.
pub proof fn a_destroyed_player_lets_go(run: DestroyRun, reply: Reply, result: Result<(), PublishError>)
    ensures
        run.stage == (DestroyStage::Monitor { cleanup: None }) ==> lets_go(
            commands::destroy_moved(run, reply),
            run.voice,
            run.media,
            run.result,
        ),
        run.stage is Publish ==> lets_go(
            commands::destroy_moved(run, Reply::Published(result)),
            run.voice,
            run.media,
            match result {
                Ok(()) => Ok(()),
                Err(PublishError::Full(_)) => Err(PlayerError::Overloaded),
                Err(PublishError::Disconnected(_)) => Err(PlayerError::NotFound),
            },
        ),
        run.stage is Voice ==> lets_go(
            commands::destroy_moved(run, Reply::Voice(Ok(()))),
            None,
            run.media,
            run.result,
        ),
        run.stage is Media ==> commands::destroy_moved(run, Reply::Media(Ok(()))) == Step::<
            DestroyRun,
        >::Done(run.result),
{
}

/// Whether what is left is shut down next: the connection, else the media, and
/// where nothing is left, the end with this result.
pub open spec fn lets_go(
    step: Step<DestroyRun>,
    voice: Option<u64>,
    media: bool,
    result: Result<(), PlayerError>,
) -> bool {
    match voice {
        Some(connection) => needs(step, Need::ShutdownVoice(connection)) && step->Ask_0.media
            == media && step->Ask_0.result == result && step->Ask_0.stage is Voice,
        None => if media {
            needs(step, Need::ShutdownMedia) && step->Ask_0.result == result && step->Ask_0.stage
                is Media
        } else {
            step == Step::<DestroyRun>::Done(result)
        },
    }
}

/// A message that is not taken tells why: no room, or nobody there; and a
/// player that was told to end takes no command.
pub proof fn refusals_name_their_cause(error: PublishError, cancelled: bool, full: bool, closed: bool)
    ensures
        player::publish_fault(error) is Overloaded <==> error is Full,
        player::publish_fault(error) is NotFound <==> error is Disconnected,
        player::send_fault(cancelled, full, closed) is None <==> !cancelled && !full && !closed,
        cancelled ==> player::send_fault(cancelled, full, closed) == Some(PlayerError::NotFound),
        !cancelled && full ==> player::send_fault(cancelled, full, closed) == Some(
            PlayerError::Overloaded,
        ),
        !cancelled && !full && closed ==> player::send_fault(cancelled, full, closed) == Some(
            PlayerError::NotFound,
        ),
{
}

} // verus!
