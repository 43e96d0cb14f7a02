//! What holds of every update, whatever the outside replies.

use crate::media::{PlayerError, PlayerSnapshot};
use crate::player::PlayerState;
use crate::update;
use crate::update::{AudioChange, Draining, Move, Need, Reply, Request, Stage, UpdateRun};
use crate::media::MediaTrack;
use vstd::prelude::*;

verus! {

/// How far an update has come.
pub open spec fn rank(stage: Stage) -> int {
    match stage {
        Stage::VoiceConnect => 0,
        Stage::VoiceUpdate { .. } => 0,
        Stage::Create => 1,
        Stage::Filters => 2,
        Stage::Pause { .. } => 3,
        Stage::Seek { .. } => 4,
        Stage::Stop => 5,
        Stage::Permit => 5,
        Stage::LoadPermit => 5,
        Stage::Decode => 6,
        Stage::Load => 6,
        Stage::Play { .. } => 7,
        Stage::PlaySeek { .. } => 8,
        Stage::PlayPause { .. } => 9,
        Stage::Drain { .. } => 10,
        Stage::Publish { .. } => 10,
        Stage::Monitor { .. } => 11,
        Stage::Audio => 12,
        Stage::MediaSnapshot => 13,
        Stage::VoiceSnapshot { .. } => 14,
        Stage::UpdatePublish { .. } => 15,
    }
}

/// Whether a stage waits for what is needed.
pub open spec fn pairs(stage: Stage, need: Need) -> bool {
    match need {
        Need::ConnectVoice(_) => stage is VoiceConnect,
        Need::UpdateVoice { .. } => stage is VoiceUpdate,
        Need::CreatePlayer => stage is Create,
        Need::SetFilters(_) => stage is Filters,
        Need::Pause(_) => stage is Pause || stage is PlayPause,
        Need::Seek(_) => stage is Seek || stage is PlaySeek,
        Need::StopMedia => stage is Stop,
        Need::PlayMedia(_) => stage is Play,
        Need::NextEvent => stage is Drain,
        Need::PublishEvent { .. } => stage is Publish,
        Need::AcquireOutbound => stage is Permit,
        Need::AcquireLoad => stage is LoadPermit,
        Need::Decode(_) => stage is Decode,
        Need::Load(_) => stage is Load,
        Need::StartMonitor(_) => stage is Monitor,
        Need::SetAudio { .. } => stage is Audio,
        Need::StopAudio(_) => stage is Audio,
        Need::SnapshotMedia => stage is MediaSnapshot,
        Need::SnapshotVoice(_) => stage is VoiceSnapshot,
        Need::PublishUpdate => stage is UpdatePublish,
        _ => false,
    }
}

/// Whether a move keeps what is asked for, waits for what it needs and has
/// come at least so far.
pub open spec fn sound(m: Move, request: Request, least: int) -> bool {
    match m {
        Move::Ask(next, need) => next.request == request && update::reachable(next) && pairs(
            next.stage,
            need,
        ) && rank(next.stage) >= least,
        Move::Finish(run, _, _) => run.request == request && request.change is Ok,
        Move::End(_) => true,
    }
}

proof fn sound_voice(run: UpdateRun, media: Option<PlayerSnapshot>)
    requires
        run.request.change is Ok,
    ensures
        sound(update::voice_next(run, media), run.request, 14),
{
}

proof fn sound_media(run: UpdateRun)
    requires
        run.request.change is Ok,
    ensures
        sound(update::media_next(run), run.request, 13),
{
    sound_voice(run, None);
}

proof fn sound_audio(run: UpdateRun, audio: Option<AudioChange>)
    requires
        run.request.change is Ok,
    ensures
        sound(update::audio_next(run, audio), run.request, 12),
{
    sound_media(run);
}

proof fn sound_refresh(state: PlayerState, run: UpdateRun)
    requires
        run.request.change is Ok,
    ensures
        sound(update::refresh(state, run).1, run.request, 11),
{
    let next = UpdateRun {
        snapshot_media: state.has_media,
        snapshot_voice: state.voice_connection,
        ..run
    };
    sound_audio(next, None);
    let state = PlayerState { audio_generation: (state.audio_generation + 1) as u64, ..state };
    sound_audio(next, update::audio_change(state));
}

proof fn sound_drained(state: PlayerState, run: UpdateRun)
    requires
        run.request.change is Ok,
    ensures
        sound(update::drained(state, run).1, run.request, 11),
{
    sound_refresh(
        PlayerState {
            outbound: state.outbound || update::starts_track(run.request),
            ..state
        },
        run,
    );
}

proof fn sound_drain(state: PlayerState, run: UpdateRun, draining: Draining)
    requires
        run.request.change is Ok,
    ensures
        sound(update::drain(state, run, draining).1, run.request, 10),
{
    sound_drained(state, run);
}

proof fn sound_played(state: PlayerState, run: UpdateRun, track: MediaTrack)
    requires
        run.request.change is Ok,
    ensures
        sound(update::played(state, run, track).1, run.request, 10),
{
    let draining = Draining {
        user_data: update::given_data(run.request),
        replaced: match state.track {
            Some(track) => Some(track.user_data),
            None => None,
        },
    };
    sound_drain(update::with_track(state, run.request, track), run, draining);
}

proof fn sound_after_play_seek(state: PlayerState, run: UpdateRun, track: MediaTrack)
    requires
        run.request.change is Ok,
    ensures
        sound(update::after_play_seek(state, run, track).1, run.request, 9),
{
    sound_played(state, run, track);
}

proof fn sound_after_play(state: PlayerState, run: UpdateRun, track: MediaTrack)
    requires
        run.request.change is Ok,
    ensures
        sound(update::after_play(state, run, track).1, run.request, 8),
{
    sound_after_play_seek(state, run, track);
}

proof fn sound_play(state: PlayerState, run: UpdateRun, track: MediaTrack)
    requires
        run.request.change is Ok,
    ensures
        sound(update::play(state, run, track).1, run.request, 7),
{
    sound_played(state, run, track);
}

proof fn sound_begin_track(state: PlayerState, run: UpdateRun)
    requires
        run.request.change is Ok,
    ensures
        sound(update::begin_track(state, run, update::change_of(run.request)).1, run.request, 5),
{
    let change = update::change_of(run.request);
    let allowed = update::replacing(change) && !(run.request.no_replace && state.track is Some);
    let next = UpdateRun {
        replace_allowed: allowed,
        publish: run.publish || (allowed && change.request !is Stop),
        ..run
    };
    sound_refresh(state, next);
    sound_refresh(update::stopped(state), next);
}

proof fn sound_after_seek(state: PlayerState, run: UpdateRun)
    requires
        run.request.change is Ok,
    ensures
        sound(update::after_seek(state, run, update::change_of(run.request)).1, run.request, 5),
{
    sound_begin_track(update::with_end(state, run.request, update::change_of(run.request)), run);
}

proof fn sound_after_pause(state: PlayerState, run: UpdateRun)
    requires
        run.request.change is Ok,
    ensures
        sound(update::after_pause(state, run, update::change_of(run.request)).1, run.request, 4),
{
    sound_after_seek(state, run);
    if let crate::protocol::PatchField::Value(position) = run.request.update.position {
        sound_after_seek(
            PlayerState { position_ms: update::not_below_zero(position), ..state },
            run,
        );
    }
}

proof fn sound_after_filters(state: PlayerState, run: UpdateRun)
    ensures
        sound(update::after_filters(state, run).1, run.request, 3),
{
    if run.request.change is Ok {
        let state = update::with_voice(state, run);
        let change = update::change_of(run.request);
        let next = UpdateRun {
            publish: run.request.update.filters is Value || (!update::replacing(change)
                && run.request.update.position is Value && state.track is Some),
            ..run
        };
        sound_begin_track(state, next);
        sound_after_pause(state, next);
        if let crate::protocol::PatchField::Value(paused) = run.request.update.paused {
            sound_after_pause(PlayerState { paused, ..state }, next);
        }
    }
}

proof fn sound_after_create(state: PlayerState, run: UpdateRun)
    ensures
        sound(update::after_create(state, run).1, run.request, 2),
{
    sound_after_filters(state, run);
    sound_after_filters(update::with_filters(state, run.request), run);
}

proof fn sound_after_voice(state: PlayerState, run: UpdateRun)
    ensures
        sound(update::after_voice(state, run).1, run.request, 1),
{
    sound_after_create(state, run);
}

/// Whatever is replied, an update keeps what it asks for, waits for what it
/// needs, and comes further, but for handing on one event after another.
pub proof fn updates_come_forward(state: PlayerState, run: UpdateRun, reply: Reply)
    requires
        update::answers(run.stage, reply),
        update::reachable(run),
    ensures
        sound(
            update::moved(state, run, reply).1,
            run.request,
            if run.stage is Drain || run.stage is Publish {
                10
            } else {
                rank(run.stage) + 1
            },
        ),
        run.stage is Publish || run.stage is Drain ==> {
            let m = update::moved(state, run, reply).1;
            m matches Move::Ask(next, _) ==> rank(next.stage) > 10 || (run.stage is Publish
                && next.stage is Drain) || (run.stage is Drain && next.stage is Publish)
        },
{
    let stage = run.stage;
    let rest = UpdateRun { stage: Stage::VoiceConnect, ..run };
    match (stage, reply) {
        (Stage::VoiceConnect, Reply::Connected(Ok(connection))) => {
            sound_after_voice(state, UpdateRun { voice: Some(connection), ..rest });
        },
        (Stage::VoiceUpdate { connection }, Reply::Voice(Ok(()))) => {
            sound_after_voice(state, UpdateRun { voice: Some(connection), ..rest });
        },
        (Stage::Create, Reply::Media(Ok(()))) => {
            sound_after_create(PlayerState { has_media: true, ..state }, rest);
        },
        (Stage::Filters, Reply::Media(Ok(()))) => {
            sound_after_filters(update::with_filters(state, run.request), rest);
        },
        (Stage::Pause { paused }, Reply::Media(Ok(()))) => {
            sound_after_pause(PlayerState { paused, ..state }, rest);
        },
        (Stage::Seek { position }, Reply::Media(Ok(()))) => {
            sound_after_seek(PlayerState { position_ms: position, ..state }, rest);
        },
        (Stage::Stop, Reply::Media(Ok(()))) => {
            sound_drain(
                update::stopped(state),
                rest,
                Draining { user_data: update::playing_data(state), replaced: None },
            );
        },
        (Stage::Decode, Reply::Decoded(Ok(track))) => {
            sound_play(state, rest, track);
        },
        (Stage::Load, Reply::Loaded(Ok(crate::media::LoadOutcome::Track(track)))) => {
            sound_play(state, rest, track);
        },
        (Stage::Play { track }, Reply::Media(Ok(()))) => {
            sound_after_play(state, rest, track);
        },
        (Stage::PlaySeek { track }, Reply::Media(Ok(()))) => {
            sound_after_play_seek(state, rest, track);
        },
        (Stage::PlayPause { track }, Reply::Media(Ok(()))) => {
            sound_played(state, rest, track);
        },
        (Stage::Drain { .. }, Reply::Event(Ok(None))) => {
            sound_drained(state, rest);
        },
        (Stage::Monitor { audio }, _) => {
            sound_audio(rest, audio);
        },
        (Stage::Audio, _) => {
            sound_media(rest);
        },
        (Stage::MediaSnapshot, Reply::MediaSnapshot(Ok(snapshot))) => {
            sound_voice(rest, Some(snapshot));
        },
        _ => {},
    }
}

/// An update begins by waiting for what it needs.
pub proof fn updates_begin_soundly(
    state: PlayerState,
    request: Request,
    has_voice: bool,
    guild_id: Seq<char>,
    user_id: Seq<char>,
)
    ensures
        sound(
            update::started(state, request, has_voice, guild_id, user_id).1,
            request,
            0,
        ),
{
    let run = update::fresh_run(request);
    sound_after_voice(state, run);
    sound_after_voice(state, UpdateRun { voice: state.voice_connection, ..run });
}

/// A player that is gone takes no update.
pub proof fn a_gone_player_takes_no_update(
    state: PlayerState,
    request: Request,
    has_voice: bool,
    guild_id: Seq<char>,
    user_id: Seq<char>,
)
    requires
        state.gone(),
    ensures
        update::started(state, request, has_voice, guild_id, user_id) == (
            state,
            Move::End(Err(PlayerError::NotFound)),
        ),
{
}

/// Where an update stands after so many replies: its first step, then one for
/// each reply, until it is over.
pub open spec fn ran(
    state: PlayerState,
    request: Request,
    has_voice: bool,
    guild_id: Seq<char>,
    user_id: Seq<char>,
    replies: Seq<Reply>,
) -> (PlayerState, Move)
    decreases replies.len(),
{
    if replies.len() == 0 {
        update::started(state, request, has_voice, guild_id, user_id)
    } else {
        let (before, m) = ran(state, request, has_voice, guild_id, user_id, replies.drop_last());
        match m {
            Move::Ask(run, _) => update::moved(before, run, replies.last()),
            _ => (before, m),
        }
    }
}

/// Whether the state has the same track, where it stands, whether it is paused
/// and when it ends, and the same hold on an outbound connection.
pub open spec fn same_playback(before: PlayerState, after: PlayerState) -> bool {
    &&& after.track == before.track
    &&& after.position_ms == before.position_ms
    &&& after.paused == before.paused
    &&& after.end_time_ms == before.end_time_ms
    &&& after.outbound == before.outbound
}

/// Whether nothing that is needed changes what plays, or prepares to.
pub open spec fn leaves_playback(need: Need) -> bool {
    !(need is Pause || need is Seek || need is StopMedia || need is PlayMedia || need is NextEvent
        || need is PublishEvent || need is AcquireOutbound || need is AcquireLoad || need is Decode
        || need is Load)
}

/// Whether an update that stands so has left what plays alone and goes on to.
spec fn leaves_alone(state: PlayerState, request: Request, outcome: (PlayerState, Move)) -> bool {
    &&& same_playback(state, outcome.0)
    &&& match outcome.1 {
        Move::Ask(next, need) => next.request == request && leaves_playback(need) && pairs(
            next.stage,
            need,
        ),
        _ => true,
    }
}

proof fn leaves_refresh(state: PlayerState, run: UpdateRun)
    ensures
        leaves_alone(state, run.request, update::refresh(state, run)),
{
}

proof fn leaves_after_filters(state: PlayerState, run: UpdateRun)
    requires
        run.request.no_replace,
        run.request.change matches Ok(change) ==> update::replacing(change),
        state.track is Some,
    ensures
        leaves_alone(state, run.request, update::after_filters(state, run)),
{
    if let Ok(change) = run.request.change {
        let voiced = update::with_voice(state, run);
        let next = UpdateRun {
            publish: run.request.update.filters is Value || (!update::replacing(change)
                && run.request.update.position is Value && voiced.track is Some),
            ..run
        };
        leaves_refresh(
            voiced,
            UpdateRun { replace_allowed: false, publish: next.publish, ..next },
        );
    }
}

proof fn leaves_after_create(state: PlayerState, run: UpdateRun)
    requires
        run.request.no_replace,
        run.request.change matches Ok(change) ==> update::replacing(change),
        state.track is Some,
    ensures
        leaves_alone(state, run.request, update::after_create(state, run)),
{
    leaves_after_filters(state, run);
    leaves_after_filters(update::with_filters(state, run.request), run);
}

proof fn leaves_moved(state: PlayerState, run: UpdateRun, need: Need, reply: Reply)
    requires
        run.request.no_replace,
        run.request.change matches Ok(change) ==> update::replacing(change),
        state.track is Some,
        leaves_playback(need),
        pairs(run.stage, need),
    ensures
        leaves_alone(state, run.request, update::moved(state, run, reply)),
{
    let rest = UpdateRun { stage: Stage::VoiceConnect, ..run };
    match (run.stage, reply) {
        (Stage::VoiceConnect, Reply::Connected(Ok(connection))) => {
            leaves_after_create(state, UpdateRun { voice: Some(connection), ..rest });
        },
        (Stage::VoiceUpdate { connection }, Reply::Voice(Ok(()))) => {
            leaves_after_create(state, UpdateRun { voice: Some(connection), ..rest });
        },
        (Stage::Create, Reply::Media(Ok(()))) => {
            leaves_after_create(PlayerState { has_media: true, ..state }, rest);
        },
        (Stage::Filters, Reply::Media(Ok(()))) => {
            leaves_after_filters(update::with_filters(state, run.request), rest);
        },
        _ => {},
    }
}

proof fn leaves_ran(
    state: PlayerState,
    request: Request,
    has_voice: bool,
    guild_id: Seq<char>,
    user_id: Seq<char>,
    replies: Seq<Reply>,
)
    requires
        request.no_replace,
        request.change matches Ok(change) ==> update::replacing(change),
        state.track is Some,
    ensures
        leaves_alone(
            state,
            request,
            ran(state, request, has_voice, guild_id, user_id, replies),
        ),
    decreases replies.len(),
{
    if replies.len() == 0 {
        let run = update::fresh_run(request);
        leaves_after_create(state, run);
        leaves_after_create(state, UpdateRun { voice: state.voice_connection, ..run });
    } else {
        leaves_ran(state, request, has_voice, guild_id, user_id, replies.drop_last());
        let (before, m) = ran(state, request, has_voice, guild_id, user_id, replies.drop_last());
        if let Move::Ask(run, need) = m {
            leaves_moved(before, run, need, replies.last());
        }
    }
}

/// With `noReplace` a playing track stays, over the whole update and whatever
/// is replied: where a track is asked for, or playback is to stop, the state
/// keeps the track, where it stands, whether it is paused and when it ends, and
/// nothing that is needed decodes, loads, plays, pauses, seeks or stops.
pub proof fn no_replace_keeps_the_track(
    state: PlayerState,
    request: Request,
    has_voice: bool,
    guild_id: Seq<char>,
    user_id: Seq<char>,
    replies: Seq<Reply>,
)
    requires
        request.no_replace,
        request.change matches Ok(change) ==> update::replacing(change),
        state.track is Some,
    ensures
        ({
            let (after, m) = ran(state, request, has_voice, guild_id, user_id, replies);
            &&& same_playback(state, after)
            &&& m matches Move::Ask(_, need) ==> leaves_playback(need)
        }),
{
    leaves_ran(state, request, has_voice, guild_id, user_id, replies);
}

/// Whatever the media player refuses, the state stays as it was.
pub proof fn a_refused_change_changes_nothing(
    state: PlayerState,
    run: UpdateRun,
    error: crate::media::AdapterError,
)
    requires
        update::answers(run.stage, Reply::Media(Err(error))),
    ensures
        update::moved(state, run, Reply::Media(Err(error))) == (
            state,
            Move::End(Err(crate::media::adapter_fault(error))),
        ),
{
}

/// Setting audio anew raises the generation by one and changes nothing else of
/// the state, so a source of an earlier generation is told apart from then on.
pub proof fn refreshed_audio_has_a_new_generation(state: PlayerState, run: UpdateRun)
    requires
        update::refreshes(run),
        state.audio_generation < u64::MAX,
    ensures
        update::refresh(state, run).0 == (PlayerState {
            audio_generation: (state.audio_generation + 1) as u64,
            ..state
        }),
{
}

/// A player holds on to an outbound connection once it started a track.
pub proof fn a_started_track_holds_an_outbound_connection(state: PlayerState, run: UpdateRun)
    requires
        update::starts_track(run.request),
    ensures
        update::drained(state, run).0.outbound,
{
}

} // verus!
