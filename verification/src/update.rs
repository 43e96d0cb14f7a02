//! How an update is carried out: each step says what is needed of the outside,
//! and the reply to it leads to the next step.

use crate::commands;
use crate::filters;
use crate::filters::{normalize_filters, FilterConfiguration, FilterTexts};
use crate::json;
use crate::json::JsonPolicy;
use crate::media;
use crate::media::{map_adapter_error, share_data, validate_media_track, AdapterError, LoadOutcome, MediaEvent, MediaTrack, PlayerError, PlayerSnapshot, TrackEndReason, UserData};
use crate::player;
use crate::player::{apply_mantle_snapshot, cache_update, map_publish_error, normalized_track, validate_update, ActiveTrack, Player, PlayerState, TrackChange, TrackRequest};
use crate::protocol::{PatchField, PlayerUpdate};
use crate::session::PublishError;
use crate::voice;
use crate::voice::{is_deferred_voice_audio_error, map_voice_error, voice_connection_info, VoiceClose, VoiceConnectionInfo, VoiceError, VoiceSnapshot};
use vstd::prelude::*;

verus! {

/// What a step needs done.
pub enum Need {
    ConnectVoice(VoiceConnectionInfo),
    UpdateVoice { connection: u64, info: VoiceConnectionInfo },
    CreatePlayer,
    SetFilters(FilterConfiguration),
    Pause(bool),
    Seek(u64),
    StopMedia,
    PlayMedia(MediaTrack),
    NextEvent,
    /// Hand an event to the client, with the data that goes with its track.
    PublishEvent { event: MediaEvent, user_data: UserData },
    AcquireOutbound,
    AcquireLoad,
    Decode(String),
    Load(String),
    StartMonitor(u64),
    SetAudio { connection: u64, generation: u64 },
    StopAudio(u64),
    SnapshotMedia,
    SnapshotVoice(u64),
    /// Hand the message that tells where playback stands to the client.
    PublishUpdate,
    /// Tell the client that a track failed while it played.
    PublishFailure { track: MediaTrack, message: &'static str, user_data: UserData },
    /// Tell the client that the voice connection closed.
    PublishClosed(VoiceClose),
    StopMonitor,
    ShutdownVoice(u64),
    ShutdownMedia,
}

/// How what a step needed came out.
pub enum Reply {
    Connected(Result<u64, VoiceError>),
    Voice(Result<(), VoiceError>),
    Media(Result<(), AdapterError>),
    Event(Result<Option<MediaEvent>, AdapterError>),
    Published(Result<(), PublishError>),
    Permit(bool),
    Decoded(Result<MediaTrack, AdapterError>),
    Loaded(Result<LoadOutcome, AdapterError>),
    Started,
    MediaSnapshot(Result<PlayerSnapshot, AdapterError>),
    VoiceSnapshot(Result<VoiceSnapshot, VoiceError>),
}

/// What events during a step belong to.
pub struct Draining {
    pub user_data: UserData,
    /// The data of the track that was replaced.
    pub replaced: Option<UserData>,
}

/// Whether audio starts or stops.
#[derive(Clone, Copy, Debug, PartialEq, Eq, Structural)]
pub enum AudioChange {
    Start { connection: u64, generation: u64 },
    Stop { connection: u64 },
}

/// Where an update stands: what it waits for.
pub enum Stage {
    VoiceConnect,
    VoiceUpdate { connection: u64 },
    Create,
    Filters,
    Pause { paused: bool },
    Seek { position: u64 },
    Stop,
    Permit,
    Decode,
    LoadPermit,
    Load,
    Play { track: MediaTrack },
    PlaySeek { track: MediaTrack },
    PlayPause { track: MediaTrack },
    Drain { draining: Draining },
    Publish { draining: Draining },
    Monitor { audio: Option<AudioChange> },
    Audio,
    MediaSnapshot,
    VoiceSnapshot { media: Option<PlayerSnapshot> },
    UpdatePublish { snapshot: Option<VoiceSnapshot> },
}

/// What an update asks for.
pub struct Request {
    pub update: PlayerUpdate,
    pub no_replace: bool,
    pub has_adapter: bool,
    pub policy: JsonPolicy,
    /// The filters as clients see them and as playback is told of them.
    pub normalized: Option<(String, FilterConfiguration)>,
    pub change: Result<TrackChange, PlayerError>,
}

/// An update under way.
pub struct UpdateRun {
    pub request: Request,
    pub stage: Stage,
    /// The connection that the update's voice state led to.
    pub voice: Option<u64>,
    /// Whether the client is told where playback stands.
    pub publish: bool,
    /// Whether the track is replaced.
    pub replace_allowed: bool,
    /// What is asked of itself at the end.
    pub snapshot_media: bool,
    pub snapshot_voice: Option<u64>,
}

/// What comes of a step: something is needed, or the update is over.
pub enum UpdateStep {
    Ask(UpdateRun, Need),
    Done(Result<Option<VoiceSnapshot>, PlayerError>),
}

/// What the state of a player leads to.
pub enum Move {
    Ask(UpdateRun, Need),
    End(Result<Option<VoiceSnapshot>, PlayerError>),
    /// Everything was asked; what others see is renewed.
    Finish(UpdateRun, Option<PlayerSnapshot>, Option<VoiceSnapshot>),
}

/// A step that ends the update with an error.
pub open spec fn failed(error: PlayerError) -> Move {
    Move::End(Err(error))
}

/// A step that waits for something.
pub open spec fn ask(run: UpdateRun, stage: Stage, need: Need) -> Move {
    Move::Ask(UpdateRun { stage, ..run }, need)
}

/// Zero in place of what is below it.
pub open spec fn not_below_zero(position: i64) -> u64 {
    if position >= 0 {
        position as u64
    } else {
        0
    }
}

fn held_at_zero(position: i64) -> (r: u64)
    ensures
        r == not_below_zero(position),
{
    if position >= 0 {
        position as u64
    } else {
        0
    }
}

/// The volume as playback is told of it.
pub open spec fn player_volume(volume: i32) -> u16 {
    if volume < 0 {
        0
    } else if volume > 1000 {
        1000
    } else {
        volume as u16
    }
}

/// The volume, the filters as clients see them and as playback is told of them
/// that an update leads to.
pub open spec fn filter_target(state: PlayerState, request: Request) -> (
    i32,
    String,
    FilterConfiguration,
) {
    let volume = match request.update.volume {
        PatchField::Value(volume) => volume,
        _ => state.volume,
    };
    let (wire, configuration) = match request.normalized {
        Some((wire, configuration)) => (wire, configuration),
        None => (state.filters, state.filter_configuration),
    };
    (
        volume,
        wire,
        FilterConfiguration { player_volume: Some(player_volume(volume)), ..configuration },
    )
}

fn target_of(state: &PlayerState, request: &Request) -> (r: (i32, String, FilterConfiguration))
    ensures
        r == filter_target(*state, *request),
{
    let volume: i32 = match &request.update.volume {
        PatchField::Value(volume) => *volume,
        _ => state.volume,
    };
    let (wire, mut configuration): (String, FilterConfiguration) = match &request.normalized {
        Some((wire, configuration)) => (wire.clone(), *configuration),
        None => (state.filters.clone(), state.filter_configuration),
    };
    let level: u16 = if volume < 0 {
        0
    } else if volume > 1000 {
        1000
    } else {
        volume as u16
    };
    configuration.player_volume = Some(level);
    (volume, wire, configuration)
}

/// The state once the filters were taken.
pub open spec fn with_filters(state: PlayerState, request: Request) -> PlayerState {
    let (volume, wire, configuration) = filter_target(state, request);
    PlayerState { filters: wire, filter_configuration: configuration, volume, ..state }
}

fn set_filters(state: &mut PlayerState, request: &Request)
    ensures
        *final(state) == with_filters(*old(state), *request),
{
    let (volume, wire, configuration): (i32, String, FilterConfiguration) = target_of(
        state,
        request,
    );
    state.filters = wire;
    state.filter_configuration = configuration;
    state.volume = volume;
}

/// The first step after the voice side.
pub open spec fn after_voice(state: PlayerState, run: UpdateRun) -> (PlayerState, Move) {
    if state.gone() {
        (state, failed(PlayerError::NotFound))
    } else if !state.has_media && run.request.has_adapter {
        (state, ask(run, Stage::Create, Need::CreatePlayer))
    } else {
        after_create(state, run)
    }
}

pub open spec fn changes_filters(request: Request) -> bool {
    request.update.volume is Value || request.update.filters is Value
}

/// The step after there is a media player, or none can be had.
pub open spec fn after_create(state: PlayerState, run: UpdateRun) -> (PlayerState, Move) {
    if changes_filters(run.request) {
        if state.has_media {
            (
                state,
                ask(run, Stage::Filters, Need::SetFilters(filter_target(state, run.request).2)),
            )
        } else {
            after_filters(with_filters(state, run.request), run)
        }
    } else {
        after_filters(state, run)
    }
}

/// The state once the update's voice state was taken.
pub open spec fn with_voice(state: PlayerState, run: UpdateRun) -> PlayerState {
    match run.request.update.voice {
        PatchField::Value(voice) => PlayerState { voice, voice_connection: run.voice, ..state },
        _ => state,
    }
}

/// Whether a track is asked for or to be stopped.
pub open spec fn replacing(change: TrackChange) -> bool {
    change.request !is Omitted
}

/// The step after the filters.
pub open spec fn after_filters(state: PlayerState, run: UpdateRun) -> (PlayerState, Move) {
    let state = with_voice(state, run);
    match run.request.change {
        Err(error) => (state, failed(error)),
        Ok(change) => {
            let run = UpdateRun {
                publish: run.request.update.filters is Value || (!replacing(change)
                    && run.request.update.position is Value && state.track is Some),
                ..run
            };
            if replacing(change) {
                begin_track(state, run, change)
            } else {
                match run.request.update.paused {
                    PatchField::Value(paused) => if state.has_media {
                        (state, ask(run, Stage::Pause { paused }, Need::Pause(paused)))
                    } else {
                        after_pause(PlayerState { paused, ..state }, run, change)
                    },
                    _ => after_pause(state, run, change),
                }
            }
        },
    }
}

/// The step after pausing.
pub open spec fn after_pause(state: PlayerState, run: UpdateRun, change: TrackChange) -> (
    PlayerState,
    Move,
) {
    match run.request.update.position {
        PatchField::Value(position) => if state.track is None {
            after_seek(state, run, change)
        } else if state.has_media {
            (
                state,
                ask(
                    run,
                    Stage::Seek { position: not_below_zero(position) },
                    Need::Seek(not_below_zero(position)),
                ),
            )
        } else {
            after_seek(
                PlayerState { position_ms: not_below_zero(position), ..state },
                run,
                change,
            )
        },
        _ => after_seek(state, run, change),
    }
}

/// The state with the data and the end that an update without a track gives to
/// the one that plays.
pub open spec fn with_end(state: PlayerState, request: Request, change: TrackChange) -> PlayerState {
    PlayerState {
        track: match state.track {
            Some(track) => Some(
                ActiveTrack {
                    media: track.media,
                    user_data: if change.user_data is Some {
                        change.user_data
                    } else {
                        track.user_data
                    },
                },
            ),
            None => None,
        },
        end_time_ms: match request.update.end_time {
            PatchField::Omitted => state.end_time_ms,
            PatchField::Null => None,
            PatchField::Value(end_time) => if state.track is Some {
                if end_time >= 0 {
                    Some(end_time as u64)
                } else {
                    None
                }
            } else {
                state.end_time_ms
            },
        },
        ..state
    }
}

/// The step after seeking.
pub open spec fn after_seek(state: PlayerState, run: UpdateRun, change: TrackChange) -> (
    PlayerState,
    Move,
) {
    begin_track(with_end(state, run.request, change), run, change)
}

/// The step at which the track is replaced, or left as it is.
pub open spec fn begin_track(state: PlayerState, run: UpdateRun, change: TrackChange) -> (
    PlayerState,
    Move,
) {
    let allowed = replacing(change) && !(run.request.no_replace && state.track is Some);
    let run = UpdateRun {
        replace_allowed: allowed,
        publish: run.publish || (allowed && change.request !is Stop),
        ..run
    };
    if !allowed {
        refresh(state, run)
    } else {
        match change.request {
            TrackRequest::Omitted => refresh(state, run),
            TrackRequest::Stop => if state.has_media {
                (state, ask(run, Stage::Stop, Need::StopMedia))
            } else {
                refresh(stopped(state), run)
            },
            TrackRequest::Encoded(encoded) => if !state.outbound {
                (state, ask(run, Stage::Permit, Need::AcquireOutbound))
            } else {
                (state, decode_next(run, encoded))
            },
            TrackRequest::Identifier(_) => if !run.request.has_adapter {
                (state, failed(PlayerError::Invalid("identifier loading is not configured")))
            } else {
                (state, ask(run, Stage::LoadPermit, Need::AcquireLoad))
            },
        }
    }
}

pub open spec fn decode_next(run: UpdateRun, encoded: String) -> Move {
    if !run.request.has_adapter {
        failed(PlayerError::Invalid("invalid encoded track"))
    } else {
        ask(run, Stage::Decode, Need::Decode(encoded))
    }
}

/// The state after playback was stopped.
pub open spec fn stopped(state: PlayerState) -> PlayerState {
    PlayerState {
        track: None,
        outbound: false,
        position_ms: 0,
        end_time_ms: None,
        paused: false,
        ..state
    }
}

/// The data that goes with the track that plays.
pub open spec fn playing_data(state: PlayerState) -> UserData {
    match state.track {
        Some(track) => track.user_data,
        None => None,
    }
}

pub open spec fn start_paused(request: Request) -> bool {
    request.update.paused matches PatchField::Value(paused) && paused
}

pub open spec fn start_position(request: Request) -> u64 {
    match request.update.position {
        PatchField::Value(position) => not_below_zero(position),
        _ => 0,
    }
}

/// The step that plays a track.
pub open spec fn play(state: PlayerState, run: UpdateRun, track: MediaTrack) -> (
    PlayerState,
    Move,
) {
    if !json::retainable(*track.plugin_info, run.request.policy) {
        (state, failed(PlayerError::Media("source pluginInfo exceeds resource limits")))
    } else if state.has_media {
        (state, ask(run, Stage::Play { track }, Need::PlayMedia(track)))
    } else {
        played(state, run, track)
    }
}

/// The step after a track began to play.
pub open spec fn after_play(state: PlayerState, run: UpdateRun, track: MediaTrack) -> (
    PlayerState,
    Move,
) {
    if start_position(run.request) > 0 {
        (state, ask(run, Stage::PlaySeek { track }, Need::Seek(start_position(run.request))))
    } else {
        after_play_seek(state, run, track)
    }
}

pub open spec fn after_play_seek(state: PlayerState, run: UpdateRun, track: MediaTrack) -> (
    PlayerState,
    Move,
) {
    if start_paused(run.request) {
        (state, ask(run, Stage::PlayPause { track }, Need::Pause(true)))
    } else {
        played(state, run, track)
    }
}

/// The data that an update gives for its track.
pub open spec fn given_data(request: Request) -> UserData {
    match request.change {
        Ok(change) => change.user_data,
        Err(_) => None,
    }
}

/// The state once a track plays.
pub open spec fn with_track(state: PlayerState, request: Request, track: MediaTrack) -> PlayerState {
    PlayerState {
        track: Some(ActiveTrack { media: track, user_data: given_data(request) }),
        paused: start_paused(request),
        position_ms: start_position(request),
        end_time_ms: match request.update.end_time {
            PatchField::Value(end_time) => if end_time >= 0 {
                Some(end_time as u64)
            } else {
                None
            },
            _ => None,
        },
        ..state
    }
}

/// The step once a track plays.
pub open spec fn played(state: PlayerState, run: UpdateRun, track: MediaTrack) -> (
    PlayerState,
    Move,
) {
    let draining = Draining {
        user_data: given_data(run.request),
        replaced: match state.track {
            Some(track) => Some(track.user_data),
            None => None,
        },
    };
    drain(with_track(state, run.request, track), run, draining)
}

/// The step that hands events on.
pub open spec fn drain(state: PlayerState, run: UpdateRun, draining: Draining) -> (
    PlayerState,
    Move,
) {
    if state.has_media {
        (state, ask(run, Stage::Drain { draining }, Need::NextEvent))
    } else {
        drained(state, run)
    }
}

/// Whether the update starts a track.
pub open spec fn starts_track(request: Request) -> bool {
    request.change matches Ok(change) && (change.request is Encoded || change.request is Identifier)
}

/// The step after the events: a player that started a track holds on to its
/// outbound connection.
pub open spec fn drained(state: PlayerState, run: UpdateRun) -> (PlayerState, Move) {
    refresh(
        PlayerState { outbound: state.outbound || starts_track(run.request), ..state },
        run,
    )
}

/// An event with the reason that is imposed on it, and the data that goes with
/// its track.
pub open spec fn drained_event(
    event: MediaEvent,
    imposed: Option<TrackEndReason>,
    draining: Draining,
) -> (MediaEvent, UserData) {
    let event = match (imposed, event) {
        (Some(reason), MediaEvent::TrackEnd { track, .. }) => MediaEvent::TrackEnd {
            track,
            reason,
        },
        _ => event,
    };
    let user_data = if event matches MediaEvent::TrackEnd { reason, .. } && reason is Replaced {
        match draining.replaced {
            Some(data) => data,
            None => draining.user_data,
        }
    } else {
        draining.user_data
    };
    (event, user_data)
}

pub fn drain_event(
    event: MediaEvent,
    imposed: Option<TrackEndReason>,
    draining: &Draining,
) -> (r: (MediaEvent, UserData))
    ensures
        r == drained_event(event, imposed, *draining),
{
    let event = match event {
        MediaEvent::TrackEnd { track, reason } => MediaEvent::TrackEnd {
            track,
            reason: match imposed {
                Some(imposed) => imposed,
                None => reason,
            },
        },
        other => other,
    };
    let replaced: bool = match &event {
        MediaEvent::TrackEnd { reason: TrackEndReason::Replaced, .. } => true,
        _ => false,
    };
    let user_data = if replaced {
        match &draining.replaced {
            Some(data) => share_data(data),
            None => share_data(&draining.user_data),
        }
    } else {
        share_data(&draining.user_data)
    };
    (event, user_data)
}

/// Whether audio has to be set anew.
pub open spec fn refreshes(run: UpdateRun) -> bool {
    let update = run.request.update;
    update.voice is Value || update.filters is Value || update.volume is Value
        || update.paused is Value || update.position is Value || run.replace_allowed
}

/// What becomes of audio.
pub open spec fn audio_change(state: PlayerState) -> Option<AudioChange> {
    match state.voice_connection {
        None => None,
        Some(connection) => if state.track is Some && !state.paused && state.has_media {
            Some(AudioChange::Start { connection, generation: state.audio_generation })
        } else {
            Some(AudioChange::Stop { connection })
        },
    }
}

/// The step that sets audio anew.
pub open spec fn refresh(state: PlayerState, run: UpdateRun) -> (PlayerState, Move) {
    let run = UpdateRun {
        snapshot_media: state.has_media,
        snapshot_voice: state.voice_connection,
        ..run
    };
    if !refreshes(run) {
        (state, audio_next(run, None))
    } else if state.audio_generation == u64::MAX {
        (state, failed(PlayerError::Media("audio source generation exhausted")))
    } else {
        let state = PlayerState { audio_generation: (state.audio_generation + 1) as u64, ..state };
        match (run.request.update.voice, state.voice_connection) {
            (PatchField::Value(_), Some(connection)) => (
                state,
                ask(
                    run,
                    Stage::Monitor { audio: audio_change(state) },
                    Need::StartMonitor(connection),
                ),
            ),
            _ => (state, audio_next(run, audio_change(state))),
        }
    }
}

/// The step that changes audio.
pub open spec fn audio_next(run: UpdateRun, audio: Option<AudioChange>) -> Move {
    match audio {
        Some(AudioChange::Start { connection, generation }) => ask(
            run,
            Stage::Audio,
            Need::SetAudio { connection, generation },
        ),
        Some(AudioChange::Stop { connection }) => ask(
            run,
            Stage::Audio,
            Need::StopAudio(connection),
        ),
        None => media_next(run),
    }
}

/// The step that asks the media player about itself.
pub open spec fn media_next(run: UpdateRun) -> Move {
    if run.snapshot_media {
        ask(run, Stage::MediaSnapshot, Need::SnapshotMedia)
    } else {
        voice_next(run, None)
    }
}

/// The step that asks the connection about itself.
pub open spec fn voice_next(run: UpdateRun, media: Option<PlayerSnapshot>) -> Move {
    match run.snapshot_voice {
        Some(connection) => ask(
            run,
            Stage::VoiceSnapshot { media },
            Need::SnapshotVoice(connection),
        ),
        None => Move::Finish(run, media, None),
    }
}

/// The change that an accepted update asks for.
pub open spec fn change_of(request: Request) -> TrackChange {
    request.change->Ok_0
}

/// Whether a reply is one to what a stage waits for.
pub open spec fn answers(stage: Stage, reply: Reply) -> bool {
    match stage {
        Stage::VoiceConnect => reply is Connected,
        Stage::VoiceUpdate { .. } => reply is Voice,
        Stage::Create => reply is Media,
        Stage::Filters => reply is Media,
        Stage::Pause { .. } => reply is Media,
        Stage::Seek { .. } => reply is Media,
        Stage::Stop => reply is Media,
        Stage::Permit => reply is Permit,
        Stage::Decode => reply is Decoded,
        Stage::LoadPermit => reply is Permit,
        Stage::Load => reply is Loaded,
        Stage::Play { .. } => reply is Media,
        Stage::PlaySeek { .. } => reply is Media,
        Stage::PlayPause { .. } => reply is Media,
        Stage::Drain { .. } => reply is Event,
        Stage::Publish { .. } => reply is Published,
        Stage::Monitor { .. } => reply is Started,
        Stage::Audio => reply is Voice,
        Stage::MediaSnapshot => reply is MediaSnapshot,
        Stage::VoiceSnapshot { .. } => reply is VoiceSnapshot,
        Stage::UpdatePublish { .. } => reply is Published,
    }
}

/// Whether a stage can be reached with what the update asks for.
pub open spec fn reachable(run: UpdateRun) -> bool {
    match run.stage {
        Stage::VoiceConnect => true,
        Stage::VoiceUpdate { .. } => true,
        Stage::Create => true,
        Stage::Filters => true,
        Stage::Permit => run.request.change matches Ok(change) && change.request is Encoded,
        Stage::LoadPermit => run.request.change matches Ok(change) && change.request is Identifier,
        _ => run.request.change is Ok,
    }
}

/// The state and the step that a reply leads to.
pub open spec fn moved(state: PlayerState, run: UpdateRun, reply: Reply) -> (PlayerState, Move) {
    let stage = run.stage;
    let run = UpdateRun { stage: Stage::VoiceConnect, ..run };
    match (stage, reply) {
        (Stage::VoiceConnect, Reply::Connected(Ok(connection))) => after_voice(
            state,
            UpdateRun { voice: Some(connection), ..run },
        ),
        (Stage::VoiceConnect, Reply::Connected(Err(error))) => (
            state,
            failed(voice::voice_fault(error)),
        ),
        (Stage::VoiceUpdate { connection }, Reply::Voice(Ok(()))) => after_voice(
            state,
            UpdateRun { voice: Some(connection), ..run },
        ),
        (Stage::VoiceUpdate { .. }, Reply::Voice(Err(error))) => (
            state,
            failed(voice::voice_fault(error)),
        ),
        (Stage::Create, Reply::Media(Ok(()))) => after_create(
            PlayerState { has_media: true, ..state },
            run,
        ),
        (Stage::Filters, Reply::Media(Ok(()))) => after_filters(
            with_filters(state, run.request),
            run,
        ),
        (Stage::Pause { paused }, Reply::Media(Ok(()))) => after_pause(
            PlayerState { paused, ..state },
            run,
            change_of(run.request),
        ),
        (Stage::Seek { position }, Reply::Media(Ok(()))) => after_seek(
            PlayerState { position_ms: position, ..state },
            run,
            change_of(run.request),
        ),
        (Stage::Stop, Reply::Media(Ok(()))) => drain(
            stopped(state),
            run,
            Draining { user_data: playing_data(state), replaced: None },
        ),
        (Stage::Permit, Reply::Permit(granted)) => (
            state,
            if granted {
                decode_next(run, change_of(run.request).request->Encoded_0)
            } else {
                failed(PlayerError::Overloaded)
            },
        ),
        (Stage::Decode, Reply::Decoded(Ok(track))) => play(state, run, track),
        (Stage::Decode, Reply::Decoded(Err(error))) => (
            state,
            failed(media::adapter_fault(error)),
        ),
        (Stage::LoadPermit, Reply::Permit(granted)) => (
            state,
            if granted {
                ask(
                    run,
                    Stage::Load,
                    Need::Load(change_of(run.request).request->Identifier_0),
                )
            } else {
                failed(PlayerError::Overloaded)
            },
        ),
        (Stage::Load, Reply::Loaded(Ok(LoadOutcome::Track(track)))) => play(state, run, track),
        (Stage::Load, Reply::Loaded(Ok(LoadOutcome::NoMatches))) => (
            state,
            failed(PlayerError::Invalid("No matches found for identifier")),
        ),
        (Stage::Load, Reply::Loaded(Ok(_))) => (
            state,
            failed(PlayerError::Invalid("Cannot play a playlist or search result")),
        ),
        (Stage::Load, Reply::Loaded(Err(error))) => (state, failed(media::adapter_fault(error))),
        (Stage::Play { track }, Reply::Media(Ok(()))) => after_play(state, run, track),
        (Stage::PlaySeek { track }, Reply::Media(Ok(()))) => after_play_seek(state, run, track),
        (Stage::PlayPause { track }, Reply::Media(Ok(()))) => played(state, run, track),
        (Stage::Drain { draining }, Reply::Event(Ok(Some(event)))) => {
            let (event, user_data) = drained_event(event, None, draining);
            (state, ask(run, Stage::Publish { draining }, Need::PublishEvent { event, user_data }))
        },
        (Stage::Drain { .. }, Reply::Event(Ok(None))) => drained(state, run),
        (Stage::Drain { .. }, Reply::Event(Err(error))) => (
            state,
            failed(media::adapter_fault(error)),
        ),
        (Stage::Publish { draining }, Reply::Published(Ok(()))) => (
            state,
            ask(run, Stage::Drain { draining }, Need::NextEvent),
        ),
        (Stage::Publish { .. }, Reply::Published(Err(error))) => (
            state,
            failed(player::publish_fault(error)),
        ),
        (Stage::Monitor { audio }, _) => (state, audio_next(run, audio)),
        (Stage::Audio, Reply::Voice(Ok(()))) => (state, media_next(run)),
        (Stage::Audio, Reply::Voice(Err(error))) => if voice::is_deferred(error) {
            (PlayerState { deferred_audio: true, ..state }, media_next(run))
        } else {
            (state, failed(voice::voice_fault(error)))
        },
        (Stage::MediaSnapshot, Reply::MediaSnapshot(Ok(snapshot))) => (
            state,
            voice_next(run, Some(snapshot)),
        ),
        (Stage::MediaSnapshot, Reply::MediaSnapshot(Err(error))) => (
            state,
            failed(media::adapter_fault(error)),
        ),
        (Stage::VoiceSnapshot { media }, Reply::VoiceSnapshot(Ok(snapshot))) => (
            state,
            Move::Finish(run, media, Some(snapshot)),
        ),
        (Stage::VoiceSnapshot { .. }, Reply::VoiceSnapshot(Err(error))) => (
            state,
            failed(voice::voice_fault(error)),
        ),
        (Stage::UpdatePublish { snapshot }, Reply::Published(Ok(()))) => (
            state,
            Move::End(Ok(snapshot)),
        ),
        (Stage::UpdatePublish { .. }, Reply::Published(Err(error))) => (
            state,
            failed(player::publish_fault(error)),
        ),
        (_, Reply::Media(Err(error))) => (state, failed(media::adapter_fault(error))),
        _ => (state, failed(PlayerError::NotFound)),
    }
}

/// The state and the step at which an accepted update begins.
pub open spec fn started(
    state: PlayerState,
    request: Request,
    has_voice: bool,
    guild_id: Seq<char>,
    user_id: Seq<char>,
) -> (PlayerState, Move) {
    let run = fresh_run(request);
    match request.update.voice {
        PatchField::Value(voice) => if state.gone() {
            (state, failed(PlayerError::NotFound))
        } else if !has_voice {
            after_voice(state, UpdateRun { voice: state.voice_connection, ..run })
        } else {
            match voice::connection_info(guild_id, user_id, voice) {
                Err(error) => (state, failed(error)),
                Ok(info) => match state.voice_connection {
                    Some(connection) => (
                        state,
                        ask(
                            run,
                            Stage::VoiceUpdate { connection },
                            Need::UpdateVoice { connection, info },
                        ),
                    ),
                    None => (state, ask(run, Stage::VoiceConnect, Need::ConnectVoice(info))),
                },
            }
        },
        _ => after_voice(state, run),
    }
}

/// An update of which nothing was done.
pub open spec fn fresh_run(request: Request) -> UpdateRun {
    UpdateRun {
        request,
        stage: Stage::VoiceConnect,
        voice: None,
        publish: false,
        replace_allowed: false,
        snapshot_media: false,
        snapshot_voice: None,
    }
}

fn ask_for(run: UpdateRun, stage: Stage, need: Need) -> (r: Move)
    ensures
        r == ask(run, stage, need),
{
    let mut run = run;
    run.stage = stage;
    Move::Ask(run, need)
}

fn voice_step(run: UpdateRun, media: Option<PlayerSnapshot>) -> (r: Move)
    ensures
        r == voice_next(run, media),
{
    match run.snapshot_voice {
        Some(connection) => ask_for(
            run,
            Stage::VoiceSnapshot { media },
            Need::SnapshotVoice(connection),
        ),
        None => Move::Finish(run, media, None),
    }
}

fn media_step(run: UpdateRun) -> (r: Move)
    ensures
        r == media_next(run),
{
    if run.snapshot_media {
        ask_for(run, Stage::MediaSnapshot, Need::SnapshotMedia)
    } else {
        voice_step(run, None)
    }
}

fn audio_step(run: UpdateRun, audio: Option<AudioChange>) -> (r: Move)
    ensures
        r == audio_next(run, audio),
{
    match audio {
        Some(AudioChange::Start { connection, generation }) => ask_for(
            run,
            Stage::Audio,
            Need::SetAudio { connection, generation },
        ),
        Some(AudioChange::Stop { connection }) => ask_for(
            run,
            Stage::Audio,
            Need::StopAudio(connection),
        ),
        None => media_step(run),
    }
}

fn audio_of(state: &PlayerState) -> (r: Option<AudioChange>)
    ensures
        r == audio_change(*state),
{
    match state.voice_connection {
        None => None,
        Some(connection) => if state.track.is_some() && !state.paused && state.has_media {
            Some(AudioChange::Start { connection, generation: state.audio_generation })
        } else {
            Some(AudioChange::Stop { connection })
        },
    }
}

fn needs_refresh(run: &UpdateRun) -> (r: bool)
    ensures
        r == refreshes(*run),
{
    let update = &run.request.update;
    update.voice.is_value() || update.filters.is_value() || update.volume.is_value()
        || update.paused.is_value() || update.position.is_value() || run.replace_allowed
}

fn refresh_step(state: &mut PlayerState, run: UpdateRun) -> (r: Move)
    ensures
        (*final(state), r) == refresh(*old(state), run),
{
    let mut run = run;
    run.snapshot_media = state.has_media;
    run.snapshot_voice = state.voice_connection;
    if !needs_refresh(&run) {
        return audio_step(run, None);
    }
    if state.audio_generation == u64::MAX {
        return Move::End(Err(PlayerError::Media("audio source generation exhausted")));
    }
    state.audio_generation = state.audio_generation + 1;
    let audio: Option<AudioChange> = audio_of(state);
    if run.request.update.voice.is_value() {
        if let Some(connection) = state.voice_connection {
            return ask_for(run, Stage::Monitor { audio }, Need::StartMonitor(connection));
        }
    }
    audio_step(run, audio)
}

fn stop_state(state: &mut PlayerState)
    ensures
        *final(state) == stopped(*old(state)),
{
    state.track = None;
    state.outbound = false;
    state.position_ms = 0;
    state.end_time_ms = None;
    state.paused = false;
}

fn starts(request: &Request) -> (r: bool)
    ensures
        r == starts_track(*request),
{
    match &request.change {
        Ok(change) => match &change.request {
            TrackRequest::Encoded(_) => true,
            TrackRequest::Identifier(_) => true,
            _ => false,
        },
        Err(_) => false,
    }
}

fn drained_step(state: &mut PlayerState, run: UpdateRun) -> (r: Move)
    ensures
        (*final(state), r) == drained(*old(state), run),
{
    state.outbound = state.outbound || starts(&run.request);
    refresh_step(state, run)
}

fn drain_step(state: &mut PlayerState, run: UpdateRun, draining: Draining) -> (r: Move)
    ensures
        (*final(state), r) == drain(*old(state), run, draining),
{
    if state.has_media {
        ask_for(run, Stage::Drain { draining }, Need::NextEvent)
    } else {
        drained_step(state, run)
    }
}

fn data_given(request: &Request) -> (r: UserData)
    ensures
        r == given_data(*request),
{
    match &request.change {
        Ok(change) => share_data(&change.user_data),
        Err(_) => None,
    }
}

fn starts_paused(request: &Request) -> (r: bool)
    ensures
        r == start_paused(*request),
{
    match &request.update.paused {
        PatchField::Value(paused) => *paused,
        _ => false,
    }
}

fn starts_at(request: &Request) -> (r: u64)
    ensures
        r == start_position(*request),
{
    match &request.update.position {
        PatchField::Value(position) => held_at_zero(*position),
        _ => 0,
    }
}

fn played_step(state: &mut PlayerState, run: UpdateRun, track: MediaTrack) -> (r: Move)
    ensures
        (*final(state), r) == played(*old(state), run, track),
{
    let draining = Draining {
        user_data: data_given(&run.request),
        replaced: match &state.track {
            Some(track) => Some(share_data(&track.user_data)),
            None => None,
        },
    };
    state.track = Some(ActiveTrack { media: track, user_data: data_given(&run.request) });
    state.paused = starts_paused(&run.request);
    state.position_ms = starts_at(&run.request);
    state.end_time_ms = match &run.request.update.end_time {
        PatchField::Value(end_time) => if *end_time >= 0 {
            Some(*end_time as u64)
        } else {
            None
        },
        _ => None,
    };
    drain_step(state, run, draining)
}

fn after_play_seek_step(state: &mut PlayerState, run: UpdateRun, track: MediaTrack) -> (r: Move)
    ensures
        (*final(state), r) == after_play_seek(*old(state), run, track),
{
    if starts_paused(&run.request) {
        ask_for(run, Stage::PlayPause { track }, Need::Pause(true))
    } else {
        played_step(state, run, track)
    }
}

fn after_play_step(state: &mut PlayerState, run: UpdateRun, track: MediaTrack) -> (r: Move)
    ensures
        (*final(state), r) == after_play(*old(state), run, track),
{
    let position: u64 = starts_at(&run.request);
    if position > 0 {
        ask_for(run, Stage::PlaySeek { track }, Need::Seek(position))
    } else {
        after_play_seek_step(state, run, track)
    }
}

fn play_step(state: &mut PlayerState, run: UpdateRun, track: MediaTrack) -> (r: Move)
    ensures
        (*final(state), r) == play(*old(state), run, track),
{
    if validate_media_track(&track, run.request.policy).is_err() {
        return Move::End(Err(PlayerError::Media("source pluginInfo exceeds resource limits")));
    }
    if state.has_media {
        let asked = track.clone();
        ask_for(run, Stage::Play { track }, Need::PlayMedia(asked))
    } else {
        played_step(state, run, track)
    }
}

fn decode_step(run: UpdateRun, encoded: String) -> (r: Move)
    ensures
        r == decode_next(run, encoded),
{
    if !run.request.has_adapter {
        Move::End(Err(PlayerError::Invalid("invalid encoded track")))
    } else {
        ask_for(run, Stage::Decode, Need::Decode(encoded))
    }
}

/// What an update asks of the track, in plain.
#[derive(Clone, Copy, Debug, PartialEq, Eq, Structural)]
enum Asked {
    Nothing,
    Stop,
    Encoded,
    Identifier,
}

spec fn asked_of(request: TrackRequest) -> Asked {
    match request {
        TrackRequest::Omitted => Asked::Nothing,
        TrackRequest::Stop => Asked::Stop,
        TrackRequest::Encoded(_) => Asked::Encoded,
        TrackRequest::Identifier(_) => Asked::Identifier,
    }
}

fn asked(request: &Request) -> (r: Asked)
    requires
        request.change is Ok,
    ensures
        r == asked_of(change_of(*request).request),
{
    match &request.change {
        Ok(change) => match &change.request {
            TrackRequest::Omitted => Asked::Nothing,
            TrackRequest::Stop => Asked::Stop,
            TrackRequest::Encoded(_) => Asked::Encoded,
            TrackRequest::Identifier(_) => Asked::Identifier,
        },
        Err(_) => Asked::Nothing,
    }
}

/// The text of the track that is asked for.
fn asked_text(request: &Request) -> (r: String)
    requires
        request.change matches Ok(change) && (change.request is Encoded || change.request is Identifier),
    ensures
        change_of(*request).request is Encoded ==> r == change_of(*request).request->Encoded_0,
        change_of(*request).request is Identifier ==> r == change_of(
            *request,
        ).request->Identifier_0,
{
    match &request.change {
        Ok(change) => match &change.request {
            TrackRequest::Encoded(text) => text.clone(),
            TrackRequest::Identifier(text) => text.clone(),
            _ => String::new(),
        },
        Err(_) => String::new(),
    }
}

fn begin_track_step(state: &mut PlayerState, run: UpdateRun) -> (r: Move)
    requires
        run.request.change is Ok,
    ensures
        (*final(state), r) == begin_track(*old(state), run, change_of(run.request)),
{
    let mut run = run;
    let asked: Asked = asked(&run.request);
    let replacing: bool = asked != Asked::Nothing;
    let allowed: bool = replacing && !(run.request.no_replace && state.track.is_some());
    run.replace_allowed = allowed;
    run.publish = run.publish || (allowed && asked != Asked::Stop);
    if !allowed {
        return refresh_step(state, run);
    }
    match asked {
        Asked::Nothing => refresh_step(state, run),
        Asked::Stop => if state.has_media {
            ask_for(run, Stage::Stop, Need::StopMedia)
        } else {
            stop_state(state);
            refresh_step(state, run)
        },
        Asked::Encoded => if !state.outbound {
            ask_for(run, Stage::Permit, Need::AcquireOutbound)
        } else {
            let encoded: String = asked_text(&run.request);
            decode_step(run, encoded)
        },
        Asked::Identifier => if !run.request.has_adapter {
            Move::End(Err(PlayerError::Invalid("identifier loading is not configured")))
        } else {
            ask_for(run, Stage::LoadPermit, Need::AcquireLoad)
        },
    }
}

fn set_end(state: &mut PlayerState, request: &Request)
    requires
        request.change is Ok,
    ensures
        *final(state) == with_end(*old(state), *request, change_of(*request)),
{
    let playing: bool = state.track.is_some();
    let given: UserData = data_given(request);
    if given.is_some() {
        let mut current: Option<ActiveTrack> = None;
        std::mem::swap(&mut current, &mut state.track);
        state.track = match current {
            Some(track) => Some(ActiveTrack { media: track.media, user_data: given }),
            None => None,
        };
    }
    state.end_time_ms = match &request.update.end_time {
        PatchField::Omitted => state.end_time_ms,
        PatchField::Null => None,
        PatchField::Value(end_time) => if playing {
            if *end_time >= 0 {
                Some(*end_time as u64)
            } else {
                None
            }
        } else {
            state.end_time_ms
        },
    };
}

fn after_seek_step(state: &mut PlayerState, run: UpdateRun) -> (r: Move)
    requires
        run.request.change is Ok,
    ensures
        (*final(state), r) == after_seek(*old(state), run, change_of(run.request)),
{
    set_end(state, &run.request);
    begin_track_step(state, run)
}

fn after_pause_step(state: &mut PlayerState, run: UpdateRun) -> (r: Move)
    requires
        run.request.change is Ok,
    ensures
        (*final(state), r) == after_pause(*old(state), run, change_of(run.request)),
{
    let target: Option<u64> = match &run.request.update.position {
        PatchField::Value(position) => Some(held_at_zero(*position)),
        _ => None,
    };
    match target {
        Some(position) => {
            if state.track.is_none() {
                after_seek_step(state, run)
            } else if state.has_media {
                ask_for(run, Stage::Seek { position }, Need::Seek(position))
            } else {
                state.position_ms = position;
                after_seek_step(state, run)
            }
        },
        None => after_seek_step(state, run),
    }
}

fn set_voice(state: &mut PlayerState, run: &UpdateRun)
    ensures
        *final(state) == with_voice(*old(state), *run),
{
    if let PatchField::Value(voice) = &run.request.update.voice {
        state.voice = voice.clone();
        state.voice_connection = run.voice;
    }
}

fn after_filters_step(state: &mut PlayerState, run: UpdateRun) -> (r: Move)
    ensures
        (*final(state), r) == after_filters(*old(state), run),
{
    set_voice(state, &run);
    if let Err(error) = &run.request.change {
        return Move::End(Err(*error));
    }
    let mut run = run;
    let replacing: bool = asked(&run.request) != Asked::Nothing;
    run.publish = run.request.update.filters.is_value() || (!replacing
        && run.request.update.position.is_value() && state.track.is_some());
    if replacing {
        return begin_track_step(state, run);
    }
    let target: Option<bool> = match &run.request.update.paused {
        PatchField::Value(paused) => Some(*paused),
        _ => None,
    };
    match target {
        Some(paused) => {
            if state.has_media {
                ask_for(run, Stage::Pause { paused }, Need::Pause(paused))
            } else {
                state.paused = paused;
                after_pause_step(state, run)
            }
        },
        None => after_pause_step(state, run),
    }
}

fn after_create_step(state: &mut PlayerState, run: UpdateRun) -> (r: Move)
    ensures
        (*final(state), r) == after_create(*old(state), run),
{
    if run.request.update.volume.is_value() || run.request.update.filters.is_value() {
        if state.has_media {
            let (_, _, configuration): (i32, String, FilterConfiguration) = target_of(
                state,
                &run.request,
            );
            ask_for(run, Stage::Filters, Need::SetFilters(configuration))
        } else {
            set_filters(state, &run.request);
            after_filters_step(state, run)
        }
    } else {
        after_filters_step(state, run)
    }
}

fn after_voice_step(state: &mut PlayerState, run: UpdateRun) -> (r: Move)
    ensures
        (*final(state), r) == after_voice(*old(state), run),
{
    if state.destroyed || state.cancelled {
        Move::End(Err(PlayerError::NotFound))
    } else if !state.has_media && run.request.has_adapter {
        ask_for(run, Stage::Create, Need::CreatePlayer)
    } else {
        after_create_step(state, run)
    }
}

/// The step that a reply of the media player leads to.
fn media_reply(state: &mut PlayerState, run: UpdateRun, stage: Stage) -> (r: Move)
    requires
        answers(stage, Reply::Media(Ok(()))),
        reachable(UpdateRun { stage, ..run }),
        run.stage == Stage::VoiceConnect,
    ensures
        (*final(state), r) == moved(
            *old(state),
            UpdateRun { stage, ..run },
            Reply::Media(Ok(())),
        ),
{
    match stage {
        Stage::Create => {
            state.has_media = true;
            after_create_step(state, run)
        },
        Stage::Filters => {
            set_filters(state, &run.request);
            after_filters_step(state, run)
        },
        Stage::Pause { paused } => {
            state.paused = paused;
            after_pause_step(state, run)
        },
        Stage::Seek { position } => {
            state.position_ms = position;
            after_seek_step(state, run)
        },
        Stage::Stop => {
            let draining = Draining {
                user_data: match &state.track {
                    Some(track) => share_data(&track.user_data),
                    None => None,
                },
                replaced: None,
            };
            stop_state(state);
            drain_step(state, run, draining)
        },
        Stage::Play { track } => after_play_step(state, run, track),
        Stage::PlaySeek { track } => after_play_seek_step(state, run, track),
        Stage::PlayPause { track } => played_step(state, run, track),
        _ => Move::End(Err(PlayerError::NotFound)),
    }
}

/// The step that a loaded track leads to.
fn loaded_step(
    state: &mut PlayerState,
    run: UpdateRun,
    outcome: Result<LoadOutcome, AdapterError>,
) -> (r: Move)
    requires
        run.stage == Stage::VoiceConnect,
    ensures
        (*final(state), r) == moved(
            *old(state),
            UpdateRun { stage: Stage::Load, ..run },
            Reply::Loaded(outcome),
        ),
{
    match outcome {
        Ok(LoadOutcome::Track(track)) => play_step(state, run, track),
        Ok(LoadOutcome::NoMatches) => Move::End(
            Err(PlayerError::Invalid("No matches found for identifier")),
        ),
        Ok(_) => Move::End(Err(PlayerError::Invalid("Cannot play a playlist or search result"))),
        Err(error) => Move::End(Err(map_adapter_error(error))),
    }
}

/// The step that a reply leads to.
fn advance(state: &mut PlayerState, run: UpdateRun, reply: Reply) -> (r: Move)
    requires
        answers(run.stage, reply),
        reachable(run),
    ensures
        (*final(state), r) == moved(*old(state), run, reply),
{
    let ghost whole = run;
    let mut run = run;
    let mut stage = Stage::VoiceConnect;
    std::mem::swap(&mut stage, &mut run.stage);
    assert(whole == UpdateRun { stage, ..run });
    match reply {
        Reply::Media(Ok(())) => media_reply(state, run, stage),
        Reply::Media(Err(error)) => Move::End(Err(map_adapter_error(error))),
        Reply::Connected(Ok(connection)) => {
            run.voice = Some(connection);
            after_voice_step(state, run)
        },
        Reply::Connected(Err(error)) => Move::End(Err(map_voice_error(error))),
        Reply::Voice(result) => match (stage, result) {
            (Stage::VoiceUpdate { connection }, Ok(())) => {
                run.voice = Some(connection);
                after_voice_step(state, run)
            },
            (Stage::VoiceUpdate { .. }, Err(error)) => Move::End(Err(map_voice_error(error))),
            (_, Ok(())) => media_step(run),
            (_, Err(error)) => {
                if is_deferred_voice_audio_error(&error) {
                    state.deferred_audio = true;
                    media_step(run)
                } else {
                    Move::End(Err(map_voice_error(error)))
                }
            },
        },
        Reply::Permit(granted) => {
            if !granted {
                return Move::End(Err(PlayerError::Overloaded));
            }
            let wanted: String = asked_text(&run.request);
            match stage {
                Stage::Permit => decode_step(run, wanted),
                _ => ask_for(run, Stage::Load, Need::Load(wanted)),
            }
        },
        Reply::Decoded(Ok(track)) => play_step(state, run, track),
        Reply::Decoded(Err(error)) => Move::End(Err(map_adapter_error(error))),
        Reply::Loaded(outcome) => loaded_step(state, run, outcome),
        Reply::Event(result) => match (stage, result) {
            (Stage::Drain { draining }, Ok(Some(event))) => {
                let (event, user_data): (MediaEvent, UserData) = drain_event(
                    event,
                    None,
                    &draining,
                );
                ask_for(run, Stage::Publish { draining }, Need::PublishEvent { event, user_data })
            },
            (_, Ok(_)) => drained_step(state, run),
            (_, Err(error)) => Move::End(Err(map_adapter_error(error))),
        },
        Reply::Published(result) => match (stage, result) {
            (Stage::Publish { draining }, Ok(())) => ask_for(
                run,
                Stage::Drain { draining },
                Need::NextEvent,
            ),
            (Stage::UpdatePublish { snapshot }, Ok(())) => Move::End(Ok(snapshot)),
            (_, Err(error)) => Move::End(Err(map_publish_error(&error))),
            (_, Ok(())) => Move::End(Err(PlayerError::NotFound)),
        },
        Reply::Started => match stage {
            Stage::Monitor { audio } => audio_step(run, audio),
            _ => Move::End(Err(PlayerError::NotFound)),
        },
        Reply::MediaSnapshot(Ok(snapshot)) => voice_step(run, Some(snapshot)),
        Reply::MediaSnapshot(Err(error)) => Move::End(Err(map_adapter_error(error))),
        Reply::VoiceSnapshot(Ok(snapshot)) => match stage {
            Stage::VoiceSnapshot { media } => Move::Finish(run, media, Some(snapshot)),
            _ => Move::End(Err(PlayerError::NotFound)),
        },
        Reply::VoiceSnapshot(Err(error)) => Move::End(Err(map_voice_error(error))),
    }
}

/// The last state of an update, where its player is still there.
pub open spec fn settled(state: PlayerState, media: Option<PlayerSnapshot>) -> PlayerState {
    match media {
        Some(snapshot) => player::with_snapshot(state, snapshot),
        None => state,
    }
}

/// What a move makes of a player: `before` and `after` are the player, `step`
/// is what comes of it.
pub open spec fn concluded(
    before: Player,
    after: Player,
    outcome: (PlayerState, Move),
    step: UpdateStep,
    time_ms: u64,
) -> bool {
    let state = outcome.0;
    &&& after.execution_key == before.execution_key
    &&& after.guild_id == before.guild_id
    &&& after.shutdown_requested == before.shutdown_requested
    &&& match outcome.1 {
        Move::Ask(run, need) => after.state == state && after.cache == before.cache && step
            == UpdateStep::Ask(run, need),
        Move::End(result) => after.state == state && after.cache == before.cache && step
            == UpdateStep::Done(result),
        Move::Finish(run, media, snapshot) => if state.gone() {
            after.state == state && after.cache == before.cache && step == UpdateStep::Done(
                Err(PlayerError::NotFound),
            )
        } else {
            &&& after.state == settled(state, media)
            &&& player::cached(
                before.cache,
                after.cache,
                before.guild_id@,
                after.state,
                snapshot,
                time_ms,
            )
            &&& step == if run.publish {
                UpdateStep::Ask(
                    UpdateRun { stage: Stage::UpdatePublish { snapshot }, ..run },
                    Need::PublishUpdate,
                )
            } else {
                UpdateStep::Done(Ok(snapshot))
            }
        },
    }
}

/// What an update asks for, with its filters normalized.
pub open spec fn is_request(
    request: Request,
    update: PlayerUpdate,
    no_replace: bool,
    has_adapter: bool,
    policy: JsonPolicy,
    texts: FilterTexts,
) -> bool {
    &&& request.update == update
    &&& request.no_replace == no_replace
    &&& request.has_adapter == has_adapter
    &&& request.policy == policy
    &&& request.change == player::track_change(update)
    &&& match update.filters {
        PatchField::Value(f) => request.normalized matches Some((wire, configuration)) && wire@
            == filters::filters_json(f, texts) && filters::is_configured(configuration, f),
        _ => request.normalized is None,
    }
}

/// Checks an update and prepares what it asks for. `texts` holds the JSON of
/// its filters; `ratio_supported` says whether the speed and rate of its
/// timescale combine to a duration that can be played.
pub fn prepare_update(
    update: PlayerUpdate,
    no_replace: bool,
    has_adapter: bool,
    policy: JsonPolicy,
    texts: &FilterTexts,
    ratio_supported: bool,
) -> (r: Result<Request, PlayerError>)
    ensures
        r is Ok <==> player::update_fault(update, ratio_supported) is None,
        r matches Err(error) ==> Err::<(), PlayerError>(error) == filters::refusal(
            player::update_fault(update, ratio_supported),
        ),
        r matches Ok(request) ==> is_request(
            request,
            update,
            no_replace,
            has_adapter,
            policy,
            *texts,
        ),
{
    match validate_update(&update, ratio_supported) {
        Ok(()) => {},
        Err(error) => return Err(error),
    }
    let normalized: Option<(String, FilterConfiguration)> = match &update.filters {
        PatchField::Value(filters) => match normalize_filters(filters, ratio_supported, texts) {
            Ok(normalized) => Some(normalized),
            Err(error) => return Err(error),
        },
        _ => None,
    };
    let change: Result<TrackChange, PlayerError> = normalized_track(&update);
    Ok(Request { update, no_replace, has_adapter, policy, normalized, change })
}

impl Player {
    /// Carries out a move: what was asked, or the end of the update.
    fn conclude(&mut self, outcome: Move, time_ms: u64) -> (r: UpdateStep)
        ensures
            concluded(*old(self), *final(self), (old(self).state, outcome), r, time_ms),
    {
        match outcome {
            Move::Ask(run, need) => UpdateStep::Ask(run, need),
            Move::End(result) => UpdateStep::Done(result),
            Move::Finish(run, media, snapshot) => {
                if self.state.destroyed || self.state.cancelled {
                    return UpdateStep::Done(Err(PlayerError::NotFound));
                }
                if let Some(media) = &media {
                    apply_mantle_snapshot(&mut self.state, media);
                }
                cache_update(
                    &mut self.cache,
                    self.guild_id.as_str(),
                    &self.state,
                    &snapshot,
                    time_ms,
                );
                if run.publish {
                    let mut run = run;
                    run.stage = Stage::UpdatePublish { snapshot };
                    UpdateStep::Ask(run, Need::PublishUpdate)
                } else {
                    UpdateStep::Done(Ok(snapshot))
                }
            },
        }
    }

    /// Begins to tell of the player with a request that asks for nothing else.
    pub fn snapshot_of(&mut self, request: Request, time_ms: u64) -> (r: UpdateStep)
        requires
            request.change is Ok,
        ensures
            concluded(
                *old(self),
                *final(self),
                commands::snapshot_started(old(self).state, request),
                r,
                time_ms,
            ),
    {
        let run = UpdateRun {
            request,
            stage: Stage::VoiceConnect,
            voice: None,
            publish: false,
            replace_allowed: false,
            snapshot_media: self.state.has_media,
            snapshot_voice: self.state.voice_connection,
        };
        let outcome: Move = if self.state.destroyed || self.state.cancelled {
            Move::End(Err(PlayerError::NotFound))
        } else {
            media_step(run)
        };
        self.conclude(outcome, time_ms)
    }

    /// Begins an update. `has_voice` says whether voice connections can be
    /// opened, `user_id` for whom.
    pub fn begin_update(
        &mut self,
        request: Request,
        has_voice: bool,
        user_id: &str,
        time_ms: u64,
    ) -> (r: UpdateStep)
        ensures
            concluded(
                *old(self),
                *final(self),
                started(old(self).state, request, has_voice, old(self).guild_id@, user_id@),
                r,
                time_ms,
            ),
    {
        let mut run = UpdateRun {
            request,
            stage: Stage::VoiceConnect,
            voice: None,
            publish: false,
            replace_allowed: false,
            snapshot_media: false,
            snapshot_voice: None,
        };
        let info: Option<Result<VoiceConnectionInfo, PlayerError>> = match &run.request.update.voice {
            PatchField::Value(voice) => {
                if self.state.destroyed || self.state.cancelled {
                    return UpdateStep::Done(Err(PlayerError::NotFound));
                }
                if has_voice {
                    Some(voice_connection_info(self.guild_id.as_str(), user_id, voice))
                } else {
                    None
                }
            },
            _ => None,
        };
        let outcome: Move = match info {
            Some(Err(error)) => Move::End(Err(error)),
            Some(Ok(info)) => match self.state.voice_connection {
                Some(connection) => ask_for(
                    run,
                    Stage::VoiceUpdate { connection },
                    Need::UpdateVoice { connection, info },
                ),
                None => ask_for(run, Stage::VoiceConnect, Need::ConnectVoice(info)),
            },
            None => {
                if run.request.update.voice.is_value() {
                    run.voice = self.state.voice_connection;
                }
                after_voice_step(&mut self.state, run)
            },
        };
        self.conclude(outcome, time_ms)
    }

    /// Goes on with an update after a reply to what it needed.
    pub fn resume_update(&mut self, run: UpdateRun, reply: Reply, time_ms: u64) -> (r: UpdateStep)
        requires
            answers(run.stage, reply),
            reachable(run),
        ensures
            concluded(
                *old(self),
                *final(self),
                moved(old(self).state, run, reply),
                r,
                time_ms,
            ),
    {
        let outcome: Move = advance(&mut self.state, run, reply);
        self.conclude(outcome, time_ms)
    }
}

} // verus!
