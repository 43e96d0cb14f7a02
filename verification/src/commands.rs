//! What else a player does: it tells of itself, ends with its source, loses or
//! regains its voice connection, and is destroyed.

use crate::json::JsonPolicy;
use crate::media;
use crate::media::{map_adapter_error, share_data, MediaEvent, MediaTrack, PlayerError, PlayerSnapshot, TrackEndReason, UserData};
use crate::player;
use crate::player::{apply_mantle_snapshot, cache_update, map_publish_error, Player, PlayerState, TrackChange, TrackRequest};
use crate::protocol::PlayerUpdate;
use crate::stats::SessionPlayerStats;
use crate::text;
use crate::update;
use crate::update::{drain_event, Draining, Need, Reply};
use crate::voice;
use crate::voice::{is_deferred_voice_audio_error, map_voice_error, VoiceClose, VoiceError, VoiceSnapshot};
use crate::wire;
use crate::wire::{object, put_bool, put_signed, put_text};
use vstd::prelude::*;

verus! {

/// What comes of a step of a command.
pub enum Step<R> {
    Ask(R, Need),
    Done(Result<(), PlayerError>),
}

/// Whether everything of a player but its state and what others see is the
/// same.
pub open spec fn same_player(before: Player, after: Player) -> bool {
    &&& after.execution_key == before.execution_key
    &&& after.guild_id == before.guild_id
    &&& after.shutdown_requested == before.shutdown_requested
}

/// Whether a player is the same but for its state.
pub open spec fn same_but_state(before: Player, after: Player) -> bool {
    same_player(before, after) && after.cache == before.cache
}

/// What the end of a source waits for.
pub enum TerminalStage {
    Failure,
    Stop,
    Drain,
    Publish,
    Media,
    Voice { media: PlayerSnapshot },
    Update,
}

/// The end of a source under way.
pub struct TerminalRun {
    pub generation: u64,
    pub failed: bool,
    pub voice: Option<u64>,
    pub user_data: UserData,
    pub stage: TerminalStage,
}

pub open spec fn terminal_answers(stage: TerminalStage, reply: Reply) -> bool {
    match stage {
        TerminalStage::Failure => reply is Published,
        TerminalStage::Stop => reply is Media,
        TerminalStage::Drain => reply is Event,
        TerminalStage::Publish => reply is Published,
        TerminalStage::Media => reply is MediaSnapshot,
        TerminalStage::Voice { .. } => reply is VoiceSnapshot,
        TerminalStage::Update => reply is Published,
    }
}

pub open spec fn terminal_ask(run: TerminalRun, stage: TerminalStage, need: Need) -> Step<
    TerminalRun,
> {
    Step::Ask(TerminalRun { stage, ..run }, need)
}

/// Whether the end of a source of a generation concerns the player.
pub open spec fn concerns(state: PlayerState, generation: u64) -> bool {
    !state.gone() && state.audio_generation == generation
}

/// How the end of a source begins.
pub open spec fn terminal_started(
    state: PlayerState,
    generation: u64,
    failure: Option<VoiceError>,
) -> Step<TerminalRun> {
    let run = TerminalRun {
        generation,
        failed: failure is Some,
        voice: state.voice_connection,
        user_data: update::playing_data(state),
        stage: TerminalStage::Drain,
    };
    if !concerns(state, generation) || !state.has_media {
        Step::Done(Ok(()))
    } else {
        match (failure, state.track) {
            (Some(failure), Some(track)) => terminal_ask(
                run,
                TerminalStage::Failure,
                Need::PublishFailure {
                    track: track.media,
                    message: failure.message,
                    user_data: track.user_data,
                },
            ),
            _ => terminal_ask(run, TerminalStage::Drain, Need::NextEvent),
        }
    }
}

/// The reason that is imposed on the end of a track whose source failed.
pub open spec fn imposed_reason(failed: bool) -> Option<TrackEndReason> {
    if failed {
        Some(TrackEndReason::LoadFailed)
    } else {
        None
    }
}

/// How the end of a source goes on, as long as the player does not change.
pub open spec fn terminal_moved(run: TerminalRun, reply: Reply) -> Step<TerminalRun> {
    match (run.stage, reply) {
        (TerminalStage::Failure, Reply::Published(Ok(()))) => terminal_ask(
            run,
            TerminalStage::Stop,
            Need::StopMedia,
        ),
        (TerminalStage::Stop, Reply::Media(Ok(()))) => terminal_ask(
            run,
            TerminalStage::Drain,
            Need::NextEvent,
        ),
        (TerminalStage::Drain, Reply::Event(Ok(Some(event)))) => {
            let draining = Draining { user_data: run.user_data, replaced: None };
            let (event, user_data) = update::drained_event(
                event,
                imposed_reason(run.failed),
                draining,
            );
            terminal_ask(run, TerminalStage::Publish, Need::PublishEvent { event, user_data })
        },
        (TerminalStage::Drain, Reply::Event(Ok(None))) => terminal_ask(
            run,
            TerminalStage::Media,
            Need::SnapshotMedia,
        ),
        (TerminalStage::Drain, Reply::Event(Err(error))) => Step::Done(
            Err(media::adapter_fault(error)),
        ),
        (TerminalStage::Publish, Reply::Published(Ok(()))) => terminal_ask(
            run,
            TerminalStage::Drain,
            Need::NextEvent,
        ),
        (TerminalStage::Media, Reply::MediaSnapshot(Err(error))) => Step::Done(
            Err(media::adapter_fault(error)),
        ),
        (TerminalStage::Voice { .. }, Reply::VoiceSnapshot(Err(error))) => Step::Done(
            Err(voice::voice_fault(error)),
        ),
        (TerminalStage::Update, Reply::Published(Ok(()))) => Step::Done(Ok(())),
        (_, Reply::Published(Err(error))) => Step::Done(Err(player::publish_fault(error))),
        (_, Reply::Media(Err(error))) => Step::Done(Err(media::adapter_fault(error))),
        _ => Step::Done(Ok(())),
    }
}

/// The snapshots with which the end of a source settles.
pub open spec fn terminal_settles(run: TerminalRun, reply: Reply) -> Option<
    (PlayerSnapshot, Option<VoiceSnapshot>),
> {
    match (run.stage, reply) {
        (TerminalStage::Media, Reply::MediaSnapshot(Ok(media))) => if run.voice is None {
            Some((media, None))
        } else {
            None
        },
        (TerminalStage::Voice { media }, Reply::VoiceSnapshot(Ok(snapshot))) => Some(
            (media, Some(snapshot)),
        ),
        _ => None,
    }
}

/// What clients are told of a closed voice connection.
pub open spec fn closed_json(guild_id: Seq<char>, close: VoiceClose) -> Seq<char> {
    let m = wire::with_member(Seq::empty(), "byRemote"@, wire::json_bool(close.by_remote));
    let m = wire::with_member(m, "code"@, text::signed_decimal(close.code as int));
    let m = wire::with_member(m, "guildId"@, wire::json_quoted(guild_id));
    let m = wire::with_member(m, "op"@, wire::json_quoted("event"@));
    let m = wire::with_member(m, "reason"@, wire::json_quoted(close.reason@));
    wire::braces(wire::with_member(m, "type"@, wire::json_quoted("WebSocketClosedEvent"@)))
}

pub fn closed_value(guild_id: &str, close: &VoiceClose) -> (r: String)
    ensures
        r@ == closed_json(guild_id@, *close),
{
    let mut m = String::new();
    put_bool(&mut m, "byRemote", close.by_remote);
    put_signed(&mut m, "code", close.code as i64);
    put_text(&mut m, "guildId", guild_id);
    put_text(&mut m, "op", "event");
    put_text(&mut m, "reason", close.reason.as_str());
    put_text(&mut m, "type", "WebSocketClosedEvent");
    object(m.as_str())
}

/// What the loss of a voice connection waits for.
pub enum ClosedRun {
    Monitor { connection: u64, close: VoiceClose },
    Audio { close: VoiceClose },
    Closed,
    Update,
}

pub open spec fn closed_answers(run: ClosedRun, reply: Reply) -> bool {
    match run {
        ClosedRun::Monitor { .. } => reply is Started,
        ClosedRun::Audio { .. } => reply is Voice,
        ClosedRun::Closed => reply is Published,
        ClosedRun::Update => reply is Published,
    }
}

/// The state after a voice connection was lost, and what follows.
pub open spec fn closed_started(state: PlayerState, connection: u64, close: VoiceClose) -> (
    PlayerState,
    Step<ClosedRun>,
) {
    if state.gone() || state.voice_connection != Some(connection) {
        (state, Step::Done(Ok(())))
    } else if state.audio_generation == u64::MAX {
        (
            PlayerState { voice_connection: None, ..state },
            Step::Done(Err(PlayerError::Media("audio source generation exhausted"))),
        )
    } else {
        (
            PlayerState {
                voice_connection: None,
                audio_generation: (state.audio_generation + 1) as u64,
                ..state
            },
            Step::Ask(ClosedRun::Monitor { connection, close }, Need::StopMonitor),
        )
    }
}

/// The state when a voice connection is ready, and the generation of the audio
/// that starts, if any does.
pub open spec fn ready_started(state: PlayerState, connection: u64) -> (
    PlayerState,
    Result<Option<u64>, PlayerError>,
) {
    if !state.deferred_audio {
        (state, Ok(None))
    } else {
        let state = PlayerState { deferred_audio: false, ..state };
        if state.gone() || state.voice_connection != Some(connection) || state.paused
            || !state.has_media || state.track is None {
            (state, Ok(None))
        } else if state.audio_generation == u64::MAX {
            (state, Err(PlayerError::Media("audio source generation exhausted")))
        } else {
            let generation = (state.audio_generation + 1) as u64;
            (PlayerState { audio_generation: generation, ..state }, Ok(Some(generation)))
        }
    }
}

/// What the destruction of a player waits for.
pub enum DestroyStage {
    Monitor { cleanup: Option<(MediaTrack, UserData)> },
    Publish,
    Voice,
    Media,
}

/// The destruction of a player under way.
pub struct DestroyRun {
    pub voice: Option<u64>,
    pub media: bool,
    pub result: Result<(), PlayerError>,
    pub stage: DestroyStage,
}

pub open spec fn destroy_answers(stage: DestroyStage, reply: Reply) -> bool {
    match stage {
        DestroyStage::Monitor { .. } => reply is Started,
        DestroyStage::Publish => reply is Published,
        DestroyStage::Voice => reply is Voice,
        DestroyStage::Media => reply is Media,
    }
}

/// The state of a destroyed player.
pub open spec fn destroyed(state: PlayerState) -> PlayerState {
    PlayerState {
        destroyed: true,
        cancelled: true,
        track: None,
        outbound: false,
        voice_connection: None,
        has_media: false,
        ..state
    }
}

/// How the destruction of a player begins. `told` says whether its client is
/// told of the track that ends.
pub open spec fn destroy_started(state: PlayerState, told: bool) -> Step<DestroyRun> {
    if state.destroyed {
        Step::Done(Ok(()))
    } else {
        Step::Ask(
            DestroyRun {
                voice: state.voice_connection,
                media: state.has_media,
                result: Ok(()),
                stage: DestroyStage::Monitor {
                    cleanup: match state.track {
                        Some(track) => if told {
                            Some((track.media, track.user_data))
                        } else {
                            None
                        },
                        None => None,
                    },
                },
            },
            Need::StopMonitor,
        )
    }
}

pub open spec fn destroy_media(run: DestroyRun) -> Step<DestroyRun> {
    if run.media {
        Step::Ask(DestroyRun { stage: DestroyStage::Media, ..run }, Need::ShutdownMedia)
    } else {
        Step::Done(run.result)
    }
}

pub open spec fn destroy_voice(run: DestroyRun) -> Step<DestroyRun> {
    match run.voice {
        Some(connection) => Step::Ask(
            DestroyRun { stage: DestroyStage::Voice, ..run },
            Need::ShutdownVoice(connection),
        ),
        None => destroy_media(run),
    }
}

/// How the destruction of a player goes on.
pub open spec fn destroy_moved(run: DestroyRun, reply: Reply) -> Step<DestroyRun> {
    match (run.stage, reply) {
        (DestroyStage::Monitor { cleanup: Some((track, user_data)) }, _) => Step::Ask(
            DestroyRun { stage: DestroyStage::Publish, ..run },
            Need::PublishEvent {
                event: MediaEvent::TrackEnd { track, reason: TrackEndReason::Cleanup },
                user_data,
            },
        ),
        (DestroyStage::Monitor { cleanup: None }, _) => destroy_voice(run),
        (DestroyStage::Publish, Reply::Published(result)) => destroy_voice(
            DestroyRun {
                result: match result {
                    Ok(()) => Ok(()),
                    Err(error) => Err(player::publish_fault(error)),
                },
                ..run
            },
        ),
        (DestroyStage::Voice, Reply::Voice(Ok(()))) => destroy_media(run),
        (DestroyStage::Voice, Reply::Voice(Err(error))) => Step::Done(
            Err(voice::voice_fault(error)),
        ),
        (DestroyStage::Media, Reply::Media(Ok(()))) => Step::Done(run.result),
        (DestroyStage::Media, Reply::Media(Err(error))) => Step::Done(
            Err(media::adapter_fault(error)),
        ),
        _ => Step::Done(run.result),
    }
}

/// An update that asks for nothing.
pub open spec fn asks_nothing(request: update::Request) -> bool {
    &&& request.change == Ok::<TrackChange, PlayerError>(
        TrackChange { request: TrackRequest::Omitted, user_data: None },
    )
    &&& request.normalized is None
}

/// How a player begins to tell of itself.
pub open spec fn snapshot_started(state: PlayerState, request: update::Request) -> (
    PlayerState,
    update::Move,
) {
    if state.gone() {
        (state, update::failed(PlayerError::NotFound))
    } else {
        (
            state,
            update::media_next(
                update::UpdateRun {
                    snapshot_media: state.has_media,
                    snapshot_voice: state.voice_connection,
                    ..update::fresh_run(request)
                },
            ),
        )
    }
}

fn terminal_asks(run: TerminalRun, stage: TerminalStage, need: Need) -> (r: Step<TerminalRun>)
    ensures
        r == terminal_ask(run, stage, need),
{
    let mut run = run;
    run.stage = stage;
    Step::Ask(run, need)
}

fn destroy_media_step(run: DestroyRun) -> (r: Step<DestroyRun>)
    ensures
        r == destroy_media(run),
{
    if run.media {
        let mut run = run;
        run.stage = DestroyStage::Media;
        Step::Ask(run, Need::ShutdownMedia)
    } else {
        Step::Done(run.result)
    }
}

fn destroy_voice_step(run: DestroyRun) -> (r: Step<DestroyRun>)
    ensures
        r == destroy_voice(run),
{
    match run.voice {
        Some(connection) => {
            let mut run = run;
            run.stage = DestroyStage::Voice;
            Step::Ask(run, Need::ShutdownVoice(connection))
        },
        None => destroy_media_step(run),
    }
}

/// Goes on with the destruction of a player.
pub fn resume_destroy(run: DestroyRun, reply: Reply) -> (r: Step<DestroyRun>)
    requires
        destroy_answers(run.stage, reply),
    ensures
        r == destroy_moved(run, reply),
{
    let mut stage = DestroyStage::Publish;
    let mut run = run;
    let ghost whole = run;
    std::mem::swap(&mut stage, &mut run.stage);
    match (stage, reply) {
        (DestroyStage::Monitor { cleanup: Some((track, user_data)) }, _) => Step::Ask(
            run,
            Need::PublishEvent {
                event: MediaEvent::TrackEnd { track, reason: TrackEndReason::Cleanup },
                user_data,
            },
        ),
        (DestroyStage::Monitor { cleanup: None }, _) => destroy_voice_step(run),
        (DestroyStage::Publish, Reply::Published(result)) => {
            run.result = match result {
                Ok(()) => Ok(()),
                Err(error) => Err(map_publish_error(&error)),
            };
            destroy_voice_step(run)
        },
        (DestroyStage::Voice, Reply::Voice(Ok(()))) => destroy_media_step(run),
        (DestroyStage::Voice, Reply::Voice(Err(error))) => Step::Done(Err(map_voice_error(error))),
        (DestroyStage::Media, Reply::Media(Ok(()))) => Step::Done(run.result),
        (DestroyStage::Media, Reply::Media(Err(error))) => Step::Done(
            Err(map_adapter_error(error)),
        ),
        _ => Step::Done(run.result),
    }
}

/// What the end of a source makes of a player, and how it goes on.
pub open spec fn terminal_goes_on(before: Player, after: Player, run: TerminalRun, reply: Reply, time_ms: u64, r: Step<TerminalRun>) -> bool {
    &&& same_player(before, after)
    &&& match terminal_settles(run, reply) {
        Some((media, snapshot)) => if concerns(before.state, run.generation) {
            &&& after.state == player::with_snapshot(before.state, media)
            &&& player::cached(
                before.cache,
                after.cache,
                before.guild_id@,
                after.state,
                snapshot,
                time_ms,
            )
            &&& r == terminal_ask(run, TerminalStage::Update, Need::PublishUpdate)
        } else {
            after == before && r == Step::<TerminalRun>::Done(Ok(()))
        },
        None => after == before && match (run.stage, reply) {
            (TerminalStage::Media, Reply::MediaSnapshot(Ok(media))) => r == terminal_ask(
                run,
                TerminalStage::Voice { media },
                Need::SnapshotVoice(run.voice->0),
            ),
            _ => r == terminal_moved(run, reply),
        },
    }
}

/// What a lost connection makes of a player, and how it goes on.
pub open spec fn closed_goes_on(before: Player, after: Player, run: ClosedRun, reply: Reply, time_ms: u64, r: Step<ClosedRun>) -> bool {
    &&& same_player(before, after)
    &&& after.state == before.state
    &&& match (run, reply) {
        (ClosedRun::Monitor { connection, close }, _) => after.cache == before.cache && r == Step::Ask(
            ClosedRun::Audio { close },
            Need::StopAudio(connection),
        ),
        (ClosedRun::Audio { close }, _) => after.cache == before.cache && r
            == Step::Ask(ClosedRun::Closed, Need::PublishClosed(close)),
        (ClosedRun::Closed, Reply::Published(Ok(()))) => player::cached(
            before.cache,
            after.cache,
            before.guild_id@,
            before.state,
            None,
            time_ms,
        ) && r == Step::Ask(ClosedRun::Update, Need::PublishUpdate),
        (ClosedRun::Update, Reply::Published(Ok(()))) => after.cache == before.cache && r == Step::<ClosedRun>::Done(Ok(())),
        (_, Reply::Published(Err(error))) => after.cache == before.cache && r
            == Step::<ClosedRun>::Done(Err(player::publish_fault(error))),
        _ => true,
    }
}

/// What the start of deferred audio makes of a player.
pub open spec fn ready_ended(before: Player, after: Player, result: Result<(), VoiceError>, r: Result<(), PlayerError>) -> bool {
    &&& same_but_state(before, after)
    &&& match result {
        Ok(()) => after.state == before.state && r is Ok,
        Err(error) => if voice::is_deferred(error) {
            after.state == (PlayerState { deferred_audio: true, ..before.state })
                && r is Ok
        } else {
            after.state == before.state && r == Err::<(), PlayerError>(
                voice::voice_fault(error),
            )
        },
    }
}

/// What the destruction of a player makes of it.
pub open spec fn destruction_began(before: Player, after: Player, told: bool, r: Step<DestroyRun>) -> bool {
    &&& same_player(before, after)
    &&& r == destroy_started(before.state, told)
    &&& before.state.destroyed ==> after == before
    &&& !before.state.destroyed ==> {
        &&& after.state == destroyed(before.state)
        &&& after.cache.stats == (SessionPlayerStats {
            playing: false,
            ..before.cache.stats
        })
        &&& after.cache.periodic_updates == before.cache.periodic_updates
        &&& after.cache.update == before.cache.update
    }
}

impl Player {
    /// Begins to tell of the player.
    pub fn begin_snapshot(&mut self, policy: JsonPolicy, time_ms: u64) -> (r: update::UpdateStep)
        ensures
            exists|request: update::Request| #[trigger]
                asks_nothing(request) && update::concluded(
                    *old(self),
                    *final(self),
                    snapshot_started(old(self).state, request),
                    r,
                    time_ms,
                ),
    {
        let request = update::Request {
            update: PlayerUpdate::default(),
            no_replace: false,
            has_adapter: false,
            policy,
            normalized: None,
            change: Ok(TrackChange { request: TrackRequest::Omitted, user_data: None }),
        };
        assert(asks_nothing(request));
        self.snapshot_of(request, time_ms)
    }

    /// Begins with the end of the source of a generation.
    pub fn begin_terminal(&self, generation: u64, failure: Option<VoiceError>) -> (r: Step<
        TerminalRun,
    >)
        ensures
            r == terminal_started(self.state, generation, failure),
    {
        let state = &self.state;
        if state.destroyed || state.cancelled || state.audio_generation != generation
            || !state.has_media {
            return Step::Done(Ok(()));
        }
        let run = TerminalRun {
            generation,
            failed: failure.is_some(),
            voice: state.voice_connection,
            user_data: match &state.track {
                Some(track) => share_data(&track.user_data),
                None => None,
            },
            stage: TerminalStage::Drain,
        };
        if let Some(failure) = failure {
            if let Some(track) = &state.track {
                let need = Need::PublishFailure {
                    track: track.media.clone(),
                    message: failure.message,
                    user_data: share_data(&track.user_data),
                };
                return terminal_asks(run, TerminalStage::Failure, need);
            }
        }
        terminal_asks(run, TerminalStage::Drain, Need::NextEvent)
    }

    fn settle_terminal(
        &mut self,
        run: TerminalRun,
        media: PlayerSnapshot,
        snapshot: Option<VoiceSnapshot>,
        time_ms: u64,
    ) -> (r: Step<TerminalRun>)
        ensures
            same_player(*old(self), *final(self)),
            !concerns(old(self).state, run.generation) ==> *final(self) == *old(self) && r
                == Step::<TerminalRun>::Done(Ok(())),
            concerns(old(self).state, run.generation) ==> {
                &&& final(self).state == player::with_snapshot(old(self).state, media)
                &&& player::cached(
                    old(self).cache,
                    final(self).cache,
                    old(self).guild_id@,
                    final(self).state,
                    snapshot,
                    time_ms,
                )
                &&& r == terminal_ask(run, TerminalStage::Update, Need::PublishUpdate)
            },
    {
        if self.state.destroyed || self.state.cancelled || self.state.audio_generation
            != run.generation {
            return Step::Done(Ok(()));
        }
        apply_mantle_snapshot(&mut self.state, &media);
        cache_update(
            &mut self.cache,
            self.guild_id.as_str(),
            &self.state,
            &snapshot,
            time_ms,
        );
        terminal_asks(run, TerminalStage::Update, Need::PublishUpdate)
    }

    /// Goes on with the end of a source.
    pub fn resume_terminal(&mut self, run: TerminalRun, reply: Reply, time_ms: u64) -> (r: Step<
        TerminalRun,
    >)
        requires
            terminal_answers(run.stage, reply),
        ensures
            terminal_goes_on(*old(self), *final(self), run, reply, time_ms, r),
    {
        let mut stage = TerminalStage::Drain;
        let mut run = run;
        std::mem::swap(&mut stage, &mut run.stage);
        match (stage, reply) {
            (TerminalStage::Failure, Reply::Published(Ok(()))) => terminal_asks(
                run,
                TerminalStage::Stop,
                Need::StopMedia,
            ),
            (TerminalStage::Stop, Reply::Media(Ok(()))) => terminal_asks(
                run,
                TerminalStage::Drain,
                Need::NextEvent,
            ),
            (TerminalStage::Drain, Reply::Event(Ok(Some(event)))) => {
                let draining = Draining { user_data: share_data(&run.user_data), replaced: None };
                let imposed: Option<TrackEndReason> = if run.failed {
                    Some(TrackEndReason::LoadFailed)
                } else {
                    None
                };
                let (event, user_data): (MediaEvent, UserData) = drain_event(
                    event,
                    imposed,
                    &draining,
                );
                terminal_asks(run, TerminalStage::Publish, Need::PublishEvent { event, user_data })
            },
            (TerminalStage::Drain, Reply::Event(Ok(None))) => terminal_asks(
                run,
                TerminalStage::Media,
                Need::SnapshotMedia,
            ),
            (_, Reply::Event(Err(error))) => Step::Done(Err(map_adapter_error(error))),
            (TerminalStage::Publish, Reply::Published(Ok(()))) => terminal_asks(
                run,
                TerminalStage::Drain,
                Need::NextEvent,
            ),
            (TerminalStage::Media, Reply::MediaSnapshot(Ok(media))) => match run.voice {
                Some(connection) => terminal_asks(
                    run,
                    TerminalStage::Voice { media },
                    Need::SnapshotVoice(connection),
                ),
                None => self.settle_terminal(run, media, None, time_ms),
            },
            (_, Reply::MediaSnapshot(Err(error))) => Step::Done(Err(map_adapter_error(error))),
            (TerminalStage::Voice { media }, Reply::VoiceSnapshot(Ok(snapshot))) => {
                self.settle_terminal(run, media, Some(snapshot), time_ms)
            },
            (_, Reply::VoiceSnapshot(Err(error))) => Step::Done(Err(map_voice_error(error))),
            (_, Reply::Published(Err(error))) => Step::Done(Err(map_publish_error(&error))),
            (_, Reply::Media(Err(error))) => Step::Done(Err(map_adapter_error(error))),
            _ => Step::Done(Ok(())),
        }
    }

    /// Takes the loss of a voice connection.
    pub fn begin_voice_closed(&mut self, connection: u64, close: VoiceClose) -> (r: Step<ClosedRun>)
        ensures
            same_but_state(*old(self), *final(self)),
            (final(self).state, r) == closed_started(old(self).state, connection, close),
    {
        if self.state.destroyed || self.state.cancelled {
            return Step::Done(Ok(()));
        }
        match self.state.voice_connection {
            Some(current) => {
                if current != connection {
                    return Step::Done(Ok(()));
                }
            },
            None => return Step::Done(Ok(())),
        }
        self.state.voice_connection = None;
        if self.state.audio_generation == u64::MAX {
            return Step::Done(Err(PlayerError::Media("audio source generation exhausted")));
        }
        self.state.audio_generation = self.state.audio_generation + 1;
        Step::Ask(ClosedRun::Monitor { connection, close }, Need::StopMonitor)
    }

    /// Goes on with the loss of a voice connection.
    pub fn resume_voice_closed(&mut self, run: ClosedRun, reply: Reply, time_ms: u64) -> (r: Step<
        ClosedRun,
    >)
        requires
            closed_answers(run, reply),
        ensures
            closed_goes_on(*old(self), *final(self), run, reply, time_ms, r),
    {
        match (run, reply) {
            (ClosedRun::Monitor { connection, close }, _) => Step::Ask(
                ClosedRun::Audio { close },
                Need::StopAudio(connection),
            ),
            (ClosedRun::Audio { close }, _) => Step::Ask(
                ClosedRun::Closed,
                Need::PublishClosed(close),
            ),
            (_, Reply::Published(Err(error))) => Step::Done(Err(map_publish_error(&error))),
            (ClosedRun::Closed, _) => {
                let nothing: Option<VoiceSnapshot> = None;
                cache_update(
                    &mut self.cache,
                    self.guild_id.as_str(),
                    &self.state,
                    &nothing,
                    time_ms,
                );
                Step::Ask(ClosedRun::Update, Need::PublishUpdate)
            },
            (ClosedRun::Update, _) => Step::Done(Ok(())),
        }
    }

    /// Takes the readiness of a voice connection: the generation of the audio
    /// that starts, if any does.
    pub fn begin_voice_ready(&mut self, connection: u64) -> (r: Result<Option<u64>, PlayerError>)
        ensures
            same_but_state(*old(self), *final(self)),
            (final(self).state, r) == ready_started(old(self).state, connection),
    {
        if !self.state.deferred_audio {
            return Ok(None);
        }
        self.state.deferred_audio = false;
        let current: bool = match self.state.voice_connection {
            Some(current) => current == connection,
            None => false,
        };
        if self.state.destroyed || self.state.cancelled || !current || self.state.paused
            || !self.state.has_media || self.state.track.is_none() {
            return Ok(None);
        }
        if self.state.audio_generation == u64::MAX {
            return Err(PlayerError::Media("audio source generation exhausted"));
        }
        self.state.audio_generation = self.state.audio_generation + 1;
        Ok(Some(self.state.audio_generation))
    }

    /// Takes how the audio of a ready connection started.
    pub fn end_voice_ready(&mut self, result: Result<(), VoiceError>) -> (r: Result<
        (),
        PlayerError,
    >)
        ensures
            ready_ended(*old(self), *final(self), result, r),
    {
        match result {
            Ok(()) => Ok(()),
            Err(error) => {
                if is_deferred_voice_audio_error(&error) {
                    self.state.deferred_audio = true;
                    Ok(())
                } else {
                    Err(map_voice_error(error))
                }
            },
        }
    }

    /// Begins to destroy the player. `told` says whether its client is told of
    /// the track that ends.
    pub fn begin_destroy(&mut self, told: bool) -> (r: Step<DestroyRun>)
        ensures
            destruction_began(*old(self), *final(self), told, r),
    {
        if self.state.destroyed {
            return Step::Done(Ok(()));
        }
        let mut track: Option<crate::player::ActiveTrack> = None;
        std::mem::swap(&mut track, &mut self.state.track);
        let cleanup: Option<(MediaTrack, UserData)> = match track {
            Some(track) => if told {
                Some((track.media, track.user_data))
            } else {
                None
            },
            None => None,
        };
        let run = DestroyRun {
            voice: self.state.voice_connection,
            media: self.state.has_media,
            result: Ok(()),
            stage: DestroyStage::Monitor { cleanup },
        };
        self.state.cancelled = true;
        self.state.destroyed = true;
        self.state.outbound = false;
        self.state.voice_connection = None;
        self.state.has_media = false;
        self.cache.stats.playing = false;
        Step::Ask(run, Need::StopMonitor)
    }
}

/// A source of an earlier generation changes nothing.
pub proof fn a_stale_source_is_ignored(
    state: PlayerState,
    generation: u64,
    failure: Option<VoiceError>,
)
    requires
        state.audio_generation != generation,
    ensures
        terminal_started(state, generation, failure) == Step::<TerminalRun>::Done(Ok(())),
{
}

/// Losing a connection makes the source of its audio stale.
pub proof fn a_lost_connection_ends_its_audio(state: PlayerState, connection: u64, close: VoiceClose)
    requires
        !state.gone(),
        state.voice_connection == Some(connection),
        state.audio_generation < u64::MAX,
    ensures
        ({
            let (after, _) = closed_started(state, connection, close);
            after.voice_connection is None && !concerns(after, state.audio_generation)
        }),
{
}

/// A close of another connection than the player's changes nothing.
pub proof fn a_stale_close_is_ignored(state: PlayerState, connection: u64, close: VoiceClose)
    requires
        state.voice_connection != Some(connection),
    ensures
        closed_started(state, connection, close) == (state, Step::<ClosedRun>::Done(Ok(()))),
{
}

/// Deferred audio starts at most once for each time that it was deferred.
pub proof fn deferred_audio_starts_once(state: PlayerState, connection: u64)
    ensures
        ready_started(ready_started(state, connection).0, connection) == (
            ready_started(state, connection).0,
            Ok::<Option<u64>, PlayerError>(None),
        ),
{
}

/// A player is destroyed once.
pub proof fn a_player_is_destroyed_once(state: PlayerState, told: bool)
    ensures
        destroyed(state).gone(),
        destroy_started(destroyed(state), told) == Step::<DestroyRun>::Done(Ok(())),
{
}

} // verus!
