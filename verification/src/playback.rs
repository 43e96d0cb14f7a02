//! The playback of one player: frames are read ahead of their delivery, and
//! commands wait for a read that is under way.

use crate::filters::FilterConfiguration;
use crate::media::{AdapterError, MediaEvent, MediaTrack, PlayerSnapshot, PlayerStatus, TrackEndReason};
use crate::source;
use crate::source::{invalid_operation, map_playback_error, overloaded, SessionKind, YoutubePlaybackErrorKind};
use crate::span;
use crate::span::Span;
use crate::text::same_text;
use crate::voice;
use crate::voice::{map_adapter_voice_error, VoiceError, VoiceErrorKind};
use vstd::prelude::*;

verus! {

/// How many filter changes may wait.
pub const PLAYER_COMMAND_CAPACITY: usize = 32;

/// How many events may wait to be fetched.
pub const PLAYER_EVENT_CAPACITY: usize = 32;

/// How many frames are read ahead.
pub const MEDIA_READ_AHEAD_FRAMES: usize = 16;

/// How long a frame lasts.
pub const FRAME_DURATION_MS: u16 = 20;

/// Whether audio passes through or is processed.
#[derive(Clone, Copy, Debug, PartialEq, Eq, Structural)]
pub enum ProcessingMode {
    Passthrough,
    Pcm,
}

/// What a read gave.
pub enum FramePoll {
    Frame { payload: Vec<u8>, timestamp: Span },
    Wait(Span),
    Ended,
}

/// What a read gave, and where the source stands.
pub struct BufferedFrame {
    pub poll: FramePoll,
    pub source_position: Option<Span>,
}

/// A frame as it is delivered.
pub struct MediaFrame {
    pub sequence: u64,
    pub duration_ms: u16,
    pub payload: Vec<u8>,
}

/// What a request for a frame gives.
pub enum FrameAnswer {
    Frame(MediaFrame),
    Wait(Span),
    Ended,
}

/// A filter change that waits, and the number by which it is answered.
pub struct FilterUpdate {
    pub configuration: FilterConfiguration,
    pub reply: u64,
}

/// How an operation on what is played came out; where its worker was lost,
/// what was played is gone.
pub enum SessionEnd<T> {
    Lost,
    Ended(Result<T, AdapterError>),
}

/// The playback of one player. What is played itself is held outside.
pub struct PlayerActor {
    pub staging_max_bytes: u64,
    /// The track whose compressed bytes were kept at its end.
    pub completed_input: Option<String>,
    pub session: Option<SessionKind>,
    pub reading: bool,
    pub track: Option<MediaTrack>,
    pub status: PlayerStatus,
    pub paused: bool,
    pub position: Span,
    pub sequence: u64,
    pub events: Vec<MediaEvent>,
    pub filters: FilterConfiguration,
    pub buffered: Vec<Result<BufferedFrame, AdapterError>>,
    pub pending_filters: Vec<FilterUpdate>,
    pub read_ahead_halted: bool,
    pub processing: ProcessingMode,
}

/// The playback of one player in the abstract.
#[verifier::ext_equal]
pub struct ActorModel {
    pub staging_max_bytes: u64,
    pub completed_input: Option<String>,
    pub session: Option<SessionKind>,
    pub reading: bool,
    pub track: Option<MediaTrack>,
    pub status: PlayerStatus,
    pub paused: bool,
    pub position: Span,
    pub sequence: u64,
    pub events: Seq<MediaEvent>,
    pub filters: FilterConfiguration,
    pub buffered: Seq<Result<BufferedFrame, AdapterError>>,
    pub pending_filters: Seq<FilterUpdate>,
    pub read_ahead_halted: bool,
    pub processing: ProcessingMode,
}

impl View for PlayerActor {
    type V = ActorModel;

    open spec fn view(&self) -> ActorModel {
        ActorModel {
            staging_max_bytes: self.staging_max_bytes,
            completed_input: self.completed_input,
            session: self.session,
            reading: self.reading,
            track: self.track,
            status: self.status,
            paused: self.paused,
            position: self.position,
            sequence: self.sequence,
            events: self.events@,
            filters: self.filters,
            buffered: self.buffered@,
            pending_filters: self.pending_filters@,
            read_ahead_halted: self.read_ahead_halted,
            processing: self.processing,
        }
    }
}

/// What waits for a read to end.
pub enum Deferred {
    Play { track: MediaTrack },
    Seek { position: Span },
    Stop,
    NextFrame,
    Shutdown,
    Nothing,
}

/// What a command waits for.
pub enum ActorStage {
    Settle { command: Deferred },
    Install { command: Deferred, update: FilterUpdate },
    Answer { command: Deferred },
    Open { track: MediaTrack },
    InstallNew { track: MediaTrack, kind: SessionKind },
    Seek,
    Read,
    Finish,
    Apply { configuration: FilterConfiguration },
}

/// What a command needs done.
pub enum ActorNeed {
    AwaitRead,
    Install(FilterConfiguration),
    Answer { reply: u64, result: Result<(), AdapterError> },
    /// Open a track; `reuse` where its kept bytes may serve.
    Open { encoded: String, reuse: bool },
    InstallNew(FilterConfiguration),
    SeekSession(Span),
    ReadSession,
    /// Keep the compressed bytes of what was played, where it was staged.
    KeepInput,
}

/// How what a command needed came out.
pub enum ActorReply {
    Read(SessionEnd<BufferedFrame>),
    Installed(SessionEnd<ProcessingMode>),
    Answered,
    Opened { end: SessionEnd<SessionKind>, cancelled: bool },
    InstalledNew(Result<ProcessingMode, AdapterError>),
    Sought(SessionEnd<Span>),
    FrameRead(SessionEnd<BufferedFrame>),
    /// Whether there were bytes to keep.
    Kept(bool),
}

/// The answer to a command.
pub enum ActorAnswer {
    Unit(Result<(), AdapterError>),
    Frame(Result<FrameAnswer, AdapterError>),
    Event(Option<MediaEvent>),
    Snapshot { snapshot: PlayerSnapshot, processing: ProcessingMode },
    /// The command waits and is answered later.
    Queued,
    Nothing,
}

/// What comes of a step.
pub enum ActorStep {
    Ask(ActorStage, ActorNeed),
    Done(ActorAnswer),
}

/// A command.
pub enum ActorCommand {
    Play { track: MediaTrack, cancelled: bool },
    Pause(bool),
    Seek(Span),
    Stop,
    SetFilters { configuration: FilterConfiguration, reply: u64 },
    Snapshot,
    NextFrame,
    NextEvent,
    Shutdown,
}

pub open spec fn worker_fault() -> AdapterError {
    source::invalid_operation_fault("Mantle playback worker failed")
}

pub open spec fn no_track_fault() -> AdapterError {
    source::invalid_operation_fault("no active track")
}

/// Whether a read gave a frame.
pub open spec fn gave_frame(frame: Result<BufferedFrame, AdapterError>) -> bool {
    frame matches Ok(frame) && frame.poll is Frame
}

/// What a read gave; where its worker was lost, that failure.
pub open spec fn read_result(end: SessionEnd<BufferedFrame>) -> Result<BufferedFrame, AdapterError> {
    match end {
        SessionEnd::Ended(frame) => frame,
        SessionEnd::Lost => Err(worker_fault()),
    }
}

/// The playback after a read ended.
pub open spec fn with_read(m: ActorModel, end: SessionEnd<BufferedFrame>) -> ActorModel {
    let frame = read_result(end);
    ActorModel {
        reading: false,
        session: if end is Lost {
            None
        } else {
            Some(SessionKind::Finite)
        },
        read_ahead_halted: !gave_frame(frame),
        buffered: m.buffered.push(frame),
        ..m
    }
}

/// Whether a read ahead may start.
pub open spec fn may_read_ahead(m: ActorModel) -> bool {
    &&& !m.reading
    &&& !m.paused
    &&& m.track is Some
    &&& !m.read_ahead_halted
    &&& m.buffered.len() < MEDIA_READ_AHEAD_FRAMES
    &&& m.session == Some(SessionKind::Finite)
}

/// The playback once a read ahead is under way; what is played is with it.
pub open spec fn reading_ahead(m: ActorModel) -> ActorModel {
    ActorModel { reading: true, session: None, ..m }
}

/// The playback without what was read ahead.
pub open spec fn without_read_ahead(m: ActorModel) -> ActorModel {
    ActorModel { buffered: Seq::empty(), read_ahead_halted: false, ..m }
}

/// A wait for the read that is under way, and what follows it.
pub open spec fn settle(m: ActorModel, command: Deferred) -> (ActorModel, ActorStep) {
    if m.reading {
        (m, ActorStep::Ask(ActorStage::Settle { command }, ActorNeed::AwaitRead))
    } else {
        pending_next(m, command)
    }
}

/// The playback once filters were installed.
pub open spec fn with_filters(
    m: ActorModel,
    configuration: FilterConfiguration,
    mode: ProcessingMode,
) -> ActorModel {
    ActorModel { filters: configuration, processing: mode, ..m }
}

/// The next filter change that waits, or the command itself.
pub open spec fn pending_next(m: ActorModel, command: Deferred) -> (ActorModel, ActorStep) {
    if m.pending_filters.len() > 0 {
        let update = m.pending_filters[0];
        let rest = ActorModel { pending_filters: m.pending_filters.skip(1), ..m };
        if m.session is Some {
            (
                rest,
                ActorStep::Ask(
                    ActorStage::Install { command, update },
                    ActorNeed::Install(update.configuration),
                ),
            )
        } else {
            (
                with_filters(rest, update.configuration, ProcessingMode::Passthrough),
                ActorStep::Ask(
                    ActorStage::Answer { command },
                    ActorNeed::Answer { reply: update.reply, result: Ok(()) },
                ),
            )
        }
    } else {
        proceed(m, command)
    }
}

/// What a command does once nothing is under way.
pub open spec fn proceed(m: ActorModel, command: Deferred) -> (ActorModel, ActorStep) {
    match command {
        Deferred::Play { track } => (
            ActorModel { completed_input: None, ..m },
            ActorStep::Ask(
                ActorStage::Open { track },
                ActorNeed::Open {
                    encoded: track.encoded,
                    reuse: m.completed_input matches Some(kept) && kept@ == track.encoded@,
                },
            ),
        ),
        Deferred::Seek { position } => if m.session is Some {
            (m, ActorStep::Ask(ActorStage::Seek, ActorNeed::SeekSession(position)))
        } else {
            (m, ActorStep::Done(ActorAnswer::Unit(Err(no_track_fault()))))
        },
        Deferred::Stop => {
            let (after, result) = stopped(m, TrackEndReason::Stopped, false);
            (after, ActorStep::Done(ActorAnswer::Unit(result)))
        },
        Deferred::NextFrame => frame_next(m),
        Deferred::Shutdown => (
            ActorModel {
                session: None,
                completed_input: None,
                track: None,
                status: PlayerStatus::Shutdown,
                ..without_read_ahead(m)
            },
            ActorStep::Done(ActorAnswer::Unit(Ok(()))),
        ),
        Deferred::Nothing => (m, ActorStep::Done(ActorAnswer::Nothing)),
    }
}

/// The playback after a track ended for a reason; `kept` where there were
/// compressed bytes of it to keep.
pub open spec fn stopped(m: ActorModel, reason: TrackEndReason, kept: bool) -> (
    ActorModel,
    Result<(), AdapterError>,
) {
    if m.track is Some && m.events.len() == PLAYER_EVENT_CAPACITY {
        (m, Err(source::overloaded_fault()))
    } else {
        (
            ActorModel {
                session: None,
                completed_input: if reason is Finished && m.staging_max_bytes != 0 && m.session
                    == Some(SessionKind::Finite) && m.track is Some && kept {
                    Some(m.track->0.encoded)
                } else {
                    None
                },
                processing: ProcessingMode::Passthrough,
                events: match m.track {
                    Some(track) => m.events.push(MediaEvent::TrackEnd { track, reason }),
                    None => m.events,
                },
                track: None,
                status: PlayerStatus::Stopped,
                position: Span { nanos: 0 },
                ..without_read_ahead(m)
            },
            Ok(()),
        )
    }
}

/// The next frame: one that was read ahead, or one that is read now.
pub open spec fn frame_next(m: ActorModel) -> (ActorModel, ActorStep) {
    if m.buffered.len() > 0 {
        let rest = ActorModel { buffered: m.buffered.skip(1), ..m };
        match m.buffered[0] {
            Ok(frame) => frame_given(rest, frame),
            Err(error) => (rest, ActorStep::Done(ActorAnswer::Frame(Err(error)))),
        }
    } else if m.session is Some {
        (m, ActorStep::Ask(ActorStage::Read, ActorNeed::ReadSession))
    } else {
        (m, ActorStep::Done(ActorAnswer::Frame(Err(no_track_fault()))))
    }
}

/// The number after another, held at the largest.
pub open spec fn next_sequence(sequence: u64) -> u64 {
    if sequence < u64::MAX {
        (sequence + 1) as u64
    } else {
        u64::MAX
    }
}

/// The delivery of what was read.
pub open spec fn frame_given(m: ActorModel, frame: BufferedFrame) -> (ActorModel, ActorStep) {
    match frame.poll {
        FramePoll::Frame { payload, timestamp } => (
            ActorModel {
                position: match frame.source_position {
                    Some(position) => position,
                    None => timestamp,
                },
                sequence: next_sequence(m.sequence),
                ..m
            },
            ActorStep::Done(
                ActorAnswer::Frame(
                    Ok(
                        FrameAnswer::Frame(
                            MediaFrame {
                                sequence: m.sequence,
                                duration_ms: FRAME_DURATION_MS,
                                payload,
                            },
                        ),
                    ),
                ),
            ),
        ),
        FramePoll::Wait(duration) => (
            m,
            ActorStep::Done(ActorAnswer::Frame(Ok(FrameAnswer::Wait(duration)))),
        ),
        FramePoll::Ended => if may_keep(m) {
            (m, ActorStep::Ask(ActorStage::Finish, ActorNeed::KeepInput))
        } else {
            finished(m, false)
        },
    }
}

/// Whether the end of the track may leave its compressed bytes behind.
pub open spec fn may_keep(m: ActorModel) -> bool {
    &&& m.staging_max_bytes != 0
    &&& m.session == Some(SessionKind::Finite)
    &&& m.track is Some
    &&& m.events.len() != PLAYER_EVENT_CAPACITY
}

/// The natural end of a track.
pub open spec fn finished(m: ActorModel, kept: bool) -> (ActorModel, ActorStep) {
    let (after, result) = stopped(m, TrackEndReason::Finished, kept);
    (
        after,
        ActorStep::Done(
            ActorAnswer::Frame(
                match result {
                    Ok(()) => Ok(FrameAnswer::Ended),
                    Err(error) => Err(error),
                },
            ),
        ),
    )
}

/// The playback once a track plays.
pub open spec fn playing(
    m: ActorModel,
    track: MediaTrack,
    kind: SessionKind,
    mode: ProcessingMode,
) -> ActorModel {
    ActorModel {
        track: Some(track),
        events: (match m.track {
            Some(previous) => m.events.push(
                MediaEvent::TrackEnd { track: previous, reason: TrackEndReason::Replaced },
            ),
            None => m.events,
        }).push(MediaEvent::TrackStart(track)),
        processing: mode,
        session: Some(kind),
        paused: false,
        status: PlayerStatus::Playing,
        position: Span { nanos: 0 },
        sequence: 0,
        ..without_read_ahead(m)
    }
}

/// What a command leads to.
pub open spec fn begun(m: ActorModel, command: ActorCommand) -> (ActorModel, ActorStep) {
    match command {
        ActorCommand::Play { track, cancelled } => if cancelled {
            (m, ActorStep::Done(ActorAnswer::Unit(Err(source::cancelled_fault()))))
        } else if m.events.len() + 2 > PLAYER_EVENT_CAPACITY {
            (m, ActorStep::Done(ActorAnswer::Unit(Err(source::overloaded_fault()))))
        } else {
            settle(m, Deferred::Play { track })
        },
        ActorCommand::Pause(paused) => if m.track is None {
            (m, ActorStep::Done(ActorAnswer::Unit(Err(no_track_fault()))))
        } else {
            (
                ActorModel {
                    paused,
                    status: if paused {
                        PlayerStatus::Paused
                    } else {
                        PlayerStatus::Playing
                    },
                    ..m
                },
                ActorStep::Done(ActorAnswer::Unit(Ok(()))),
            )
        },
        ActorCommand::Seek(position) => settle(m, Deferred::Seek { position }),
        ActorCommand::Stop => settle(m, Deferred::Stop),
        ActorCommand::SetFilters { configuration, reply } => if m.reading {
            if m.pending_filters.len() >= PLAYER_COMMAND_CAPACITY {
                (m, ActorStep::Done(ActorAnswer::Unit(Err(source::overloaded_fault()))))
            } else {
                (
                    ActorModel {
                        pending_filters: m.pending_filters.push(
                            FilterUpdate { configuration, reply },
                        ),
                        ..m
                    },
                    ActorStep::Done(ActorAnswer::Queued),
                )
            }
        } else if m.session is Some {
            (
                m,
                ActorStep::Ask(
                    ActorStage::Apply { configuration },
                    ActorNeed::Install(configuration),
                ),
            )
        } else {
            (
                with_filters(m, configuration, ProcessingMode::Passthrough),
                ActorStep::Done(ActorAnswer::Unit(Ok(()))),
            )
        },
        ActorCommand::Snapshot => (
            m,
            ActorStep::Done(
                ActorAnswer::Snapshot {
                    snapshot: PlayerSnapshot {
                        status: m.status,
                        track: m.track,
                        position_ms: span::millis_of(m.position) as u64,
                    },
                    processing: m.processing,
                },
            ),
        ),
        ActorCommand::NextFrame => if m.paused || m.track is None {
            (m, ActorStep::Done(ActorAnswer::Frame(Ok(FrameAnswer::Ended))))
        } else if m.buffered.len() == 0 {
            settle(m, Deferred::NextFrame)
        } else {
            frame_next(m)
        },
        ActorCommand::NextEvent => if m.events.len() > 0 {
            (
                ActorModel { events: m.events.skip(1), ..m },
                ActorStep::Done(ActorAnswer::Event(Some(m.events[0]))),
            )
        } else {
            (m, ActorStep::Done(ActorAnswer::Event(None)))
        },
        ActorCommand::Shutdown => settle(m, Deferred::Shutdown),
    }
}

/// Whether a reply is one to what a stage waits for.
pub open spec fn actor_answers(stage: ActorStage, reply: ActorReply) -> bool {
    match stage {
        ActorStage::Settle { .. } => reply is Read,
        ActorStage::Install { .. } => reply is Installed,
        ActorStage::Answer { .. } => reply is Answered,
        ActorStage::Open { .. } => reply is Opened,
        ActorStage::InstallNew { .. } => reply is InstalledNew,
        ActorStage::Seek => reply is Sought,
        ActorStage::Read => reply is FrameRead,
        ActorStage::Finish => reply is Kept,
        ActorStage::Apply { .. } => reply is Installed,
    }
}

/// The playback without what is played.
pub open spec fn lost(m: ActorModel) -> ActorModel {
    ActorModel { session: None, ..m }
}

/// What a reply leads to.
pub open spec fn resumed(m: ActorModel, stage: ActorStage, reply: ActorReply) -> (
    ActorModel,
    ActorStep,
) {
    match (stage, reply) {
        (ActorStage::Settle { command }, ActorReply::Read(end)) => pending_next(
            with_read(m, end),
            command,
        ),
        (ActorStage::Install { command, update }, ActorReply::Installed(end)) => match end {
            SessionEnd::Ended(Ok(mode)) => (
                with_filters(m, update.configuration, mode),
                ActorStep::Ask(
                    ActorStage::Answer { command },
                    ActorNeed::Answer { reply: update.reply, result: Ok(()) },
                ),
            ),
            SessionEnd::Ended(Err(error)) => (
                m,
                ActorStep::Ask(
                    ActorStage::Answer { command },
                    ActorNeed::Answer { reply: update.reply, result: Err(error) },
                ),
            ),
            SessionEnd::Lost => (
                lost(m),
                ActorStep::Ask(
                    ActorStage::Answer { command },
                    ActorNeed::Answer { reply: update.reply, result: Err(worker_fault()) },
                ),
            ),
        },
        (ActorStage::Answer { command }, _) => pending_next(m, command),
        (ActorStage::Open { track }, ActorReply::Opened { end, cancelled }) => match end {
            SessionEnd::Lost => (m, ActorStep::Done(ActorAnswer::Unit(Err(worker_fault())))),
            SessionEnd::Ended(Err(error)) => (
                m,
                ActorStep::Done(ActorAnswer::Unit(Err(error))),
            ),
            SessionEnd::Ended(Ok(kind)) => if cancelled {
                (m, ActorStep::Done(ActorAnswer::Unit(Err(source::cancelled_fault()))))
            } else {
                (
                    m,
                    ActorStep::Ask(
                        ActorStage::InstallNew { track, kind },
                        ActorNeed::InstallNew(m.filters),
                    ),
                )
            },
        },
        (ActorStage::InstallNew { track, kind }, ActorReply::InstalledNew(result)) => match result {
            Ok(mode) => (
                playing(m, track, kind, mode),
                ActorStep::Done(ActorAnswer::Unit(Ok(()))),
            ),
            Err(error) => (m, ActorStep::Done(ActorAnswer::Unit(Err(error)))),
        },
        (ActorStage::Seek, ActorReply::Sought(end)) => match end {
            SessionEnd::Ended(Ok(position)) => (
                ActorModel { position, ..without_read_ahead(m) },
                ActorStep::Done(ActorAnswer::Unit(Ok(()))),
            ),
            SessionEnd::Ended(Err(error)) => (
                m,
                ActorStep::Done(ActorAnswer::Unit(Err(error))),
            ),
            SessionEnd::Lost => (
                lost(m),
                ActorStep::Done(ActorAnswer::Unit(Err(worker_fault()))),
            ),
        },
        (ActorStage::Read, ActorReply::FrameRead(end)) => match end {
            SessionEnd::Ended(Ok(frame)) => frame_given(m, frame),
            SessionEnd::Ended(Err(error)) => (
                m,
                ActorStep::Done(ActorAnswer::Frame(Err(error))),
            ),
            SessionEnd::Lost => (
                lost(m),
                ActorStep::Done(ActorAnswer::Frame(Err(worker_fault()))),
            ),
        },
        (ActorStage::Finish, ActorReply::Kept(kept)) => finished(m, kept),
        (ActorStage::Apply { configuration }, ActorReply::Installed(end)) => match end {
            SessionEnd::Ended(Ok(mode)) => (
                with_filters(m, configuration, mode),
                ActorStep::Done(ActorAnswer::Unit(Ok(()))),
            ),
            SessionEnd::Ended(Err(error)) => (
                m,
                ActorStep::Done(ActorAnswer::Unit(Err(error))),
            ),
            SessionEnd::Lost => (
                lost(m),
                ActorStep::Done(ActorAnswer::Unit(Err(worker_fault()))),
            ),
        },
        _ => (m, ActorStep::Done(ActorAnswer::Nothing)),
    }
}

fn worker_error() -> (r: AdapterError)
    ensures
        r == worker_fault(),
{
    invalid_operation("Mantle playback worker failed")
}

fn no_track() -> (r: AdapterError)
    ensures
        r == no_track_fault(),
{
    invalid_operation("no active track")
}

fn unit(result: Result<(), AdapterError>) -> (r: ActorStep)
    ensures
        r == ActorStep::Done(ActorAnswer::Unit(result)),
{
    ActorStep::Done(ActorAnswer::Unit(result))
}

impl PlayerActor {
    /// Whether the queues are within their bounds.
    pub open spec fn wf(&self) -> bool {
        bounded(self@)
    }

    pub fn new(staging_max_bytes: u64) -> (r: PlayerActor)
        ensures
            r.wf(),
            r@ == (ActorModel {
                staging_max_bytes,
                completed_input: None,
                session: None,
                reading: false,
                track: None,
                status: PlayerStatus::Idle,
                paused: false,
                position: Span { nanos: 0 },
                sequence: 0,
                events: Seq::empty(),
                filters: crate::filters::no_filters(),
                buffered: Seq::empty(),
                pending_filters: Seq::empty(),
                read_ahead_halted: false,
                processing: ProcessingMode::Passthrough,
            }),
    {
        PlayerActor {
            staging_max_bytes,
            completed_input: None,
            session: None,
            reading: false,
            track: None,
            status: PlayerStatus::Idle,
            paused: false,
            position: Span::zero(),
            sequence: 0,
            events: Vec::new(),
            filters: FilterConfiguration::default(),
            buffered: Vec::new(),
            pending_filters: Vec::new(),
            read_ahead_halted: false,
            processing: ProcessingMode::Passthrough,
        }
    }

    /// Whether a read ahead starts now.
    pub fn start_read_ahead(&mut self) -> (r: bool)
        ensures
            r == may_read_ahead(old(self)@),
            final(self)@ == if r {
                reading_ahead(old(self)@)
            } else {
                old(self)@
            },
            old(self).wf() ==> final(self).wf(),
    {
        let finite: bool = match self.session {
            Some(SessionKind::Finite) => true,
            _ => false,
        };
        if self.reading || self.paused || self.track.is_none() || self.read_ahead_halted
            || self.buffered.len() >= MEDIA_READ_AHEAD_FRAMES || !finite {
            return false;
        }
        self.session = None;
        self.reading = true;
        true
    }

    /// Takes the end of a read.
    pub fn accept_read(&mut self, end: SessionEnd<BufferedFrame>)
        ensures
            final(self)@ == with_read(old(self)@, end),
    {
        self.reading = false;
        let frame: Result<BufferedFrame, AdapterError> = match end {
            SessionEnd::Ended(frame) => {
                self.session = Some(SessionKind::Finite);
                frame
            },
            SessionEnd::Lost => {
                self.session = None;
                Err(worker_error())
            },
        };
        self.read_ahead_halted = match &frame {
            Ok(frame) => match &frame.poll {
                FramePoll::Frame { .. } => false,
                _ => true,
            },
            Err(_) => true,
        };
        self.buffered.push(frame);
        assert(self@ =~= with_read(old(self)@, end));
    }

    fn clear_read_ahead(&mut self)
        ensures
            final(self)@ == without_read_ahead(old(self)@),
    {
        self.buffered = Vec::new();
        self.read_ahead_halted = false;
        assert(self@ =~= without_read_ahead(old(self)@));
    }

    fn stop(&mut self, reason: TrackEndReason, kept: bool) -> (r: Result<(), AdapterError>)
        ensures
            (final(self)@, r) == stopped(old(self)@, reason, kept),
    {
        if self.track.is_some() && self.events.len() == PLAYER_EVENT_CAPACITY {
            return Err(overloaded());
        }
        let finished: bool = match reason {
            TrackEndReason::Finished => true,
            _ => false,
        };
        let finite: bool = match self.session {
            Some(SessionKind::Finite) => true,
            _ => false,
        };
        self.session = None;
        self.completed_input = if finished && self.staging_max_bytes != 0 && finite && kept {
            match &self.track {
                Some(track) => Some(track.encoded.clone()),
                None => None,
            }
        } else {
            None
        };
        self.buffered = Vec::new();
        self.read_ahead_halted = false;
        self.processing = ProcessingMode::Passthrough;
        let mut track: Option<MediaTrack> = None;
        std::mem::swap(&mut track, &mut self.track);
        if let Some(track) = track {
            self.events.push(MediaEvent::TrackEnd { track, reason });
        }
        self.status = PlayerStatus::Stopped;
        self.position = Span::zero();
        assert(self@ =~= stopped(old(self)@, reason, kept).0);
        Ok(())
    }

    fn give_frame(&mut self, frame: BufferedFrame) -> (r: ActorStep)
        ensures
            (final(self)@, r) == frame_given(old(self)@, frame),
    {
        let BufferedFrame { poll, source_position } = frame;
        match poll {
            FramePoll::Frame { payload, timestamp } => {
                self.position = match source_position {
                    Some(position) => position,
                    None => timestamp,
                };
                let sequence: u64 = self.sequence;
                self.sequence = if sequence < u64::MAX {
                    sequence + 1
                } else {
                    u64::MAX
                };
                ActorStep::Done(
                    ActorAnswer::Frame(
                        Ok(
                            FrameAnswer::Frame(
                                MediaFrame { sequence, duration_ms: FRAME_DURATION_MS, payload },
                            ),
                        ),
                    ),
                )
            },
            FramePoll::Wait(duration) => ActorStep::Done(
                ActorAnswer::Frame(Ok(FrameAnswer::Wait(duration))),
            ),
            FramePoll::Ended => {
                let finite: bool = match self.session {
                    Some(SessionKind::Finite) => true,
                    _ => false,
                };
                if self.staging_max_bytes != 0 && finite && self.track.is_some()
                    && self.events.len() != PLAYER_EVENT_CAPACITY {
                    ActorStep::Ask(ActorStage::Finish, ActorNeed::KeepInput)
                } else {
                    self.finish(false)
                }
            },
        }
    }

    fn finish(&mut self, kept: bool) -> (r: ActorStep)
        ensures
            (final(self)@, r) == finished(old(self)@, kept),
    {
        match self.stop(TrackEndReason::Finished, kept) {
            Ok(()) => ActorStep::Done(ActorAnswer::Frame(Ok(FrameAnswer::Ended))),
            Err(error) => ActorStep::Done(ActorAnswer::Frame(Err(error))),
        }
    }

    fn take_frame(&mut self) -> (r: ActorStep)
        ensures
            (final(self)@, r) == frame_next(old(self)@),
    {
        if self.buffered.len() > 0 {
            let frame: Result<BufferedFrame, AdapterError> = self.buffered.remove(0);
            assert(self@ =~= (ActorModel { buffered: old(self)@.buffered.skip(1), ..old(self)@ }));
            match frame {
                Ok(frame) => self.give_frame(frame),
                Err(error) => ActorStep::Done(ActorAnswer::Frame(Err(error))),
            }
        } else if self.session.is_some() {
            ActorStep::Ask(ActorStage::Read, ActorNeed::ReadSession)
        } else {
            ActorStep::Done(ActorAnswer::Frame(Err(no_track())))
        }
    }

    fn proceed_with(&mut self, command: Deferred) -> (r: ActorStep)
        ensures
            (final(self)@, r) == proceed(old(self)@, command),
    {
        match command {
            Deferred::Play { track } => {
                let mut kept: Option<String> = None;
                std::mem::swap(&mut kept, &mut self.completed_input);
                let reuse: bool = match &kept {
                    Some(kept) => same_text(kept.as_str(), track.encoded.as_str()),
                    None => false,
                };
                let encoded = track.encoded.clone();
                ActorStep::Ask(ActorStage::Open { track }, ActorNeed::Open { encoded, reuse })
            },
            Deferred::Seek { position } => {
                if self.session.is_some() {
                    ActorStep::Ask(ActorStage::Seek, ActorNeed::SeekSession(position))
                } else {
                    unit(Err(no_track()))
                }
            },
            Deferred::Stop => {
                let result: Result<(), AdapterError> = self.stop(TrackEndReason::Stopped, false);
                unit(result)
            },
            Deferred::NextFrame => self.take_frame(),
            Deferred::Shutdown => {
                self.clear_read_ahead();
                self.session = None;
                self.completed_input = None;
                self.track = None;
                self.status = PlayerStatus::Shutdown;
                unit(Ok(()))
            },
            Deferred::Nothing => ActorStep::Done(ActorAnswer::Nothing),
        }
    }

    fn set_filters(&mut self, configuration: FilterConfiguration, mode: ProcessingMode)
        ensures
            final(self)@ == with_filters(old(self)@, configuration, mode),
    {
        self.filters = configuration;
        self.processing = mode;
    }

    fn next_pending(&mut self, command: Deferred) -> (r: ActorStep)
        ensures
            (final(self)@, r) == pending_next(old(self)@, command),
    {
        if self.pending_filters.len() > 0 {
            let update: FilterUpdate = self.pending_filters.remove(0);
            assert(self@ =~= (ActorModel {
                pending_filters: old(self)@.pending_filters.skip(1),
                ..old(self)@
            }));
            let configuration: FilterConfiguration = update.configuration;
            if self.session.is_some() {
                ActorStep::Ask(
                    ActorStage::Install { command, update },
                    ActorNeed::Install(configuration),
                )
            } else {
                self.set_filters(configuration, ProcessingMode::Passthrough);
                ActorStep::Ask(
                    ActorStage::Answer { command },
                    ActorNeed::Answer { reply: update.reply, result: Ok(()) },
                )
            }
        } else {
            self.proceed_with(command)
        }
    }

    fn settle_read(&mut self, command: Deferred) -> (r: ActorStep)
        ensures
            (final(self)@, r) == settle(old(self)@, command),
    {
        if self.reading {
            ActorStep::Ask(ActorStage::Settle { command }, ActorNeed::AwaitRead)
        } else {
            self.next_pending(command)
        }
    }

    fn change_filters(&mut self, configuration: FilterConfiguration, reply: u64) -> (r: ActorStep)
        ensures
            (final(self)@, r) == begun(
                old(self)@,
                ActorCommand::SetFilters { configuration, reply },
            ),
    {
        if self.reading {
            if self.pending_filters.len() >= PLAYER_COMMAND_CAPACITY {
                return unit(Err(overloaded()));
            }
            self.pending_filters.push(FilterUpdate { configuration, reply });
            assert(self@ =~= begun(
                old(self)@,
                ActorCommand::SetFilters { configuration, reply },
            ).0);
            ActorStep::Done(ActorAnswer::Queued)
        } else if self.session.is_some() {
            ActorStep::Ask(ActorStage::Apply { configuration }, ActorNeed::Install(configuration))
        } else {
            self.set_filters(configuration, ProcessingMode::Passthrough);
            unit(Ok(()))
        }
    }

    /// Takes a request for the next frame. A player that is paused or plays
    /// nothing answers as at an end; otherwise what was read ahead comes first.
    pub fn next_frame(&mut self) -> (r: ActorStep)
        ensures
            (final(self)@, r) == begun(old(self)@, ActorCommand::NextFrame),
    {
        if self.paused || self.track.is_none() {
            ActorStep::Done(ActorAnswer::Frame(Ok(FrameAnswer::Ended)))
        } else if self.buffered.len() == 0 {
            self.settle_read(Deferred::NextFrame)
        } else {
            self.take_frame()
        }
    }

    /// Takes a command.
    pub fn handle(&mut self, command: ActorCommand) -> (r: ActorStep)
        ensures
            (final(self)@, r) == begun(old(self)@, command),
    {
        match command {
            ActorCommand::Play { track, cancelled } => {
                if cancelled {
                    return unit(Err(source::cancelled()));
                }
                if self.events.len() > PLAYER_EVENT_CAPACITY - 2 {
                    return unit(Err(overloaded()));
                }
                self.settle_read(Deferred::Play { track })
            },
            ActorCommand::Pause(paused) => {
                if self.track.is_none() {
                    return unit(Err(no_track()));
                }
                self.paused = paused;
                self.status = if paused {
                    PlayerStatus::Paused
                } else {
                    PlayerStatus::Playing
                };
                unit(Ok(()))
            },
            ActorCommand::Seek(position) => self.settle_read(Deferred::Seek { position }),
            ActorCommand::Stop => self.settle_read(Deferred::Stop),
            ActorCommand::SetFilters { configuration, reply } => self.change_filters(
                configuration,
                reply,
            ),
            ActorCommand::Snapshot => {
                let snapshot = PlayerSnapshot {
                    status: self.status,
                    track: match &self.track {
                        Some(track) => Some(track.clone()),
                        None => None,
                    },
                    position_ms: self.position.as_millis(),
                };
                ActorStep::Done(ActorAnswer::Snapshot { snapshot, processing: self.processing })
            },
            ActorCommand::NextFrame => self.next_frame(),
            ActorCommand::NextEvent => {
                if self.events.len() > 0 {
                    let event: MediaEvent = self.events.remove(0);
                    assert(self@ =~= begun(old(self)@, command).0);
                    ActorStep::Done(ActorAnswer::Event(Some(event)))
                } else {
                    ActorStep::Done(ActorAnswer::Event(None))
                }
            },
            ActorCommand::Shutdown => self.settle_read(Deferred::Shutdown),
        }
    }

    /// The playback after the end of a read that no command waited for.
    pub fn read_ended(&mut self, end: SessionEnd<BufferedFrame>) -> (r: ActorStep)
        ensures
            (final(self)@, r) == pending_next(with_read(old(self)@, end), Deferred::Nothing),
    {
        self.accept_read(end);
        self.next_pending(Deferred::Nothing)
    }

    fn start_track(&mut self, track: MediaTrack, kind: SessionKind, mode: ProcessingMode)
        ensures
            final(self)@ == playing(old(self)@, track, kind, mode),
    {
        let mut previous: Option<MediaTrack> = Some(track.clone());
        std::mem::swap(&mut previous, &mut self.track);
        if let Some(previous) = previous {
            self.events.push(
                MediaEvent::TrackEnd { track: previous, reason: TrackEndReason::Replaced },
            );
        }
        self.events.push(MediaEvent::TrackStart(track));
        self.buffered = Vec::new();
        self.read_ahead_halted = false;
        self.processing = mode;
        self.session = Some(kind);
        self.paused = false;
        self.status = PlayerStatus::Playing;
        self.position = Span::zero();
        self.sequence = 0;
        assert(self@ =~= playing(old(self)@, track, kind, mode));
    }

    fn installed(&mut self, command: Deferred, update: FilterUpdate, end: SessionEnd<
        ProcessingMode,
    >) -> (r: ActorStep)
        ensures
            (final(self)@, r) == resumed(
                old(self)@,
                ActorStage::Install { command, update },
                ActorReply::Installed(end),
            ),
    {
        let result: Result<(), AdapterError> = match end {
            SessionEnd::Ended(Ok(mode)) => {
                self.set_filters(update.configuration, mode);
                Ok(())
            },
            SessionEnd::Ended(Err(error)) => Err(error),
            SessionEnd::Lost => {
                self.session = None;
                Err(worker_error())
            },
        };
        ActorStep::Ask(
            ActorStage::Answer { command },
            ActorNeed::Answer { reply: update.reply, result },
        )
    }

    fn opened(&mut self, track: MediaTrack, end: SessionEnd<SessionKind>, cancelled: bool) -> (r:
        ActorStep)
        ensures
            (final(self)@, r) == resumed(
                old(self)@,
                ActorStage::Open { track },
                ActorReply::Opened { end, cancelled },
            ),
    {
        match end {
            SessionEnd::Lost => unit(Err(worker_error())),
            SessionEnd::Ended(Err(error)) => unit(Err(error)),
            SessionEnd::Ended(Ok(kind)) => {
                if cancelled {
                    unit(Err(source::cancelled()))
                } else {
                    ActorStep::Ask(
                        ActorStage::InstallNew { track, kind },
                        ActorNeed::InstallNew(self.filters),
                    )
                }
            },
        }
    }

    /// Goes on with a command after a reply to what it needed.
    pub fn resume(&mut self, stage: ActorStage, reply: ActorReply) -> (r: ActorStep)
        requires
            actor_answers(stage, reply),
        ensures
            (final(self)@, r) == resumed(old(self)@, stage, reply),
    {
        match (stage, reply) {
            (ActorStage::Settle { command }, ActorReply::Read(end)) => {
                self.accept_read(end);
                self.next_pending(command)
            },
            (ActorStage::Install { command, update }, ActorReply::Installed(end)) => {
                self.installed(command, update, end)
            },
            (ActorStage::Answer { command }, _) => self.next_pending(command),
            (ActorStage::Open { track }, ActorReply::Opened { end, cancelled }) => {
                self.opened(track, end, cancelled)
            },
            (ActorStage::InstallNew { track, kind }, ActorReply::InstalledNew(result)) => {
                match result {
                    Ok(mode) => {
                        self.start_track(track, kind, mode);
                        unit(Ok(()))
                    },
                    Err(error) => unit(Err(error)),
                }
            },
            (ActorStage::Seek, ActorReply::Sought(end)) => match end {
                SessionEnd::Ended(Ok(position)) => {
                    self.clear_read_ahead();
                    self.position = position;
                    unit(Ok(()))
                },
                SessionEnd::Ended(Err(error)) => unit(Err(error)),
                SessionEnd::Lost => {
                    self.session = None;
                    unit(Err(worker_error()))
                },
            },
            (ActorStage::Read, ActorReply::FrameRead(end)) => match end {
                SessionEnd::Ended(Ok(frame)) => self.give_frame(frame),
                SessionEnd::Ended(Err(error)) => ActorStep::Done(ActorAnswer::Frame(Err(error))),
                SessionEnd::Lost => {
                    self.session = None;
                    ActorStep::Done(ActorAnswer::Frame(Err(worker_error())))
                },
            },
            (ActorStage::Finish, ActorReply::Kept(kept)) => self.finish(kept),
            (ActorStage::Apply { configuration }, ActorReply::Installed(end)) => match end {
                SessionEnd::Ended(Ok(mode)) => {
                    self.set_filters(configuration, mode);
                    unit(Ok(()))
                },
                SessionEnd::Ended(Err(error)) => unit(Err(error)),
                SessionEnd::Lost => {
                    self.session = None;
                    unit(Err(worker_error()))
                },
            },
            _ => ActorStep::Done(ActorAnswer::Nothing),
        }
    }
}

/// Whether the queues are within their bounds; a read that is under way has
/// its place.
pub open spec fn bounded(m: ActorModel) -> bool {
    &&& m.events.len() <= PLAYER_EVENT_CAPACITY
    &&& m.pending_filters.len() <= PLAYER_COMMAND_CAPACITY
    &&& m.buffered.len() + (if m.reading {
        1int
    } else {
        0
    }) <= MEDIA_READ_AHEAD_FRAMES
}

/// Whether a stage leaves room for what it will add: a track that starts adds
/// two events at most.
pub open spec fn stage_fits(m: ActorModel, stage: ActorStage) -> bool {
    match stage {
        ActorStage::Settle { command } => m.reading && command_fits(m, command),
        ActorStage::Install { command, .. } => !m.reading && command_fits(m, command),
        ActorStage::Answer { command } => !m.reading && command_fits(m, command),
        ActorStage::Open { .. } => !m.reading && m.events.len() + 2 <= PLAYER_EVENT_CAPACITY,
        ActorStage::InstallNew { .. } => !m.reading && m.events.len() + 2
            <= PLAYER_EVENT_CAPACITY,
        ActorStage::Finish => true,
        _ => !m.reading,
    }
}

pub open spec fn command_fits(m: ActorModel, command: Deferred) -> bool {
    command is Play ==> m.events.len() + 2 <= PLAYER_EVENT_CAPACITY
}

/// Whether a step leaves room for what it will add.
pub open spec fn step_fits(m: ActorModel, step: ActorStep) -> bool {
    step matches ActorStep::Ask(stage, _) ==> stage_fits(m, stage)
}

/// Whatever a command does, the queues stay within their bounds.
pub proof fn commands_keep_the_bounds(m: ActorModel, command: ActorCommand)
    requires
        bounded(m),
    ensures
        bounded(begun(m, command).0),
        step_fits(begun(m, command).0, begun(m, command).1),
{
}

proof fn a_frame_keeps_the_bounds(m: ActorModel, frame: BufferedFrame)
    requires
        bounded(m),
    ensures
        bounded(frame_given(m, frame).0),
        step_fits(frame_given(m, frame).0, frame_given(m, frame).1),
{
}

proof fn the_next_keeps_the_bounds(m: ActorModel, command: Deferred)
    requires
        bounded(m),
        !m.reading,
        command_fits(m, command),
    ensures
        bounded(pending_next(m, command).0),
        step_fits(pending_next(m, command).0, pending_next(m, command).1),
{
    if m.buffered.len() > 0 && m.buffered[0] is Ok {
        a_frame_keeps_the_bounds(
            ActorModel { buffered: m.buffered.skip(1), ..m },
            m.buffered[0]->Ok_0,
        );
    }
}

/// Whatever is replied, the queues stay within their bounds.
pub proof fn replies_keep_the_bounds(m: ActorModel, stage: ActorStage, reply: ActorReply)
    requires
        bounded(m),
        stage_fits(m, stage),
        actor_answers(stage, reply),
    ensures
        bounded(resumed(m, stage, reply).0),
        step_fits(resumed(m, stage, reply).0, resumed(m, stage, reply).1),
{
    match (stage, reply) {
        (ActorStage::Settle { command }, ActorReply::Read(end)) => {
            the_next_keeps_the_bounds(with_read(m, end), command);
        },
        (ActorStage::Answer { command }, _) => {
            the_next_keeps_the_bounds(m, command);
        },
        (ActorStage::Read, ActorReply::FrameRead(SessionEnd::Ended(Ok(frame)))) => {
            a_frame_keeps_the_bounds(m, frame);
        },
        (ActorStage::Install { command, update }, ActorReply::Installed(end)) => {},
        (ActorStage::Open { track }, ActorReply::Opened { end, cancelled }) => {},
        (ActorStage::InstallNew { track, kind }, ActorReply::InstalledNew(result)) => {},
        (ActorStage::Seek, _) => {},
        (ActorStage::Read, _) => {},
        (ActorStage::Apply { configuration }, _) => {},
        _ => {},
    }
}

/// Reading ahead stops where its frames have no more room, and keeps the
/// bounds.
pub proof fn reading_ahead_is_bounded(m: ActorModel, end: SessionEnd<BufferedFrame>)
    requires
        bounded(m),
        m.reading,
    ensures
        bounded(with_read(m, end)),
        with_read(m, end).buffered.len() == MEDIA_READ_AHEAD_FRAMES ==> !may_read_ahead(
            with_read(m, end),
        ),
{
}

/// Frames are delivered in the order in which they were read, numbered without
/// a gap: the first that was read ahead comes first, and the rest keep their
/// order.
pub proof fn frames_come_in_order(m: ActorModel)
    requires
        !m.paused,
        m.track is Some,
        m.buffered.len() > 0,
        gave_frame(m.buffered[0]),
        m.sequence < u64::MAX,
    ensures
        ({
            let (after, step) = begun(m, ActorCommand::NextFrame);
            &&& after.buffered == m.buffered.skip(1)
            &&& after.sequence == m.sequence + 1
            &&& step matches ActorStep::Done(ActorAnswer::Frame(Ok(FrameAnswer::Frame(frame))))
                && frame.sequence == m.sequence && frame.payload
                == m.buffered[0]->Ok_0.poll->payload
        }),
{
}

/// A paused player gives no frame and loses none.
pub proof fn a_paused_player_keeps_its_frames(m: ActorModel)
    requires
        m.paused,
    ensures
        begun(m, ActorCommand::NextFrame).0 == m,
{
}

/// A seek drops what was read ahead of it.
pub proof fn a_seek_drops_what_was_read_ahead(m: ActorModel, position: Span)
    ensures
        ({
            let after = resumed(
                m,
                ActorStage::Seek,
                ActorReply::Sought(SessionEnd::Ended(Ok(position))),
            ).0;
            after.buffered.len() == 0 && after.position == position
        }),
{
}

/// A track that replaces another ends it first: the end comes before the
/// start.
pub proof fn a_replaced_track_ends_before_the_next_starts(
    m: ActorModel,
    track: MediaTrack,
    kind: SessionKind,
    mode: ProcessingMode,
)
    requires
        m.track is Some,
    ensures
        playing(m, track, kind, mode).events == m.events.push(
            MediaEvent::TrackEnd { track: m.track->0, reason: TrackEndReason::Replaced },
        ).push(MediaEvent::TrackStart(track)),
{
}

/// Compressed bytes are kept only at the natural end of a track.
pub proof fn bytes_are_kept_only_at_a_natural_end(
    m: ActorModel,
    reason: TrackEndReason,
    kept: bool,
)
    requires
        stopped(m, reason, kept).1 is Ok,
        stopped(m, reason, kept).0.completed_input is Some,
    ensures
        reason is Finished,
        kept,
        m.staging_max_bytes != 0,
{
}

/// What the media library gave for a frame. A packet that is no Opus frame is
/// missing.
pub enum SessionPoll {
    Frame { payload: Option<Vec<u8>>, timestamp: Option<Span> },
    /// A live stream has its next frame at a time.
    WaitUntil(Span),
    Ended,
    Failed(YoutubePlaybackErrorKind),
}

/// The time of a live stream and what a read gives.
pub open spec fn read_of(now: Span, poll: SessionPoll) -> (Span, Result<FramePoll, AdapterError>) {
    match poll {
        SessionPoll::Frame { payload: Some(payload), timestamp } => (
            now,
            Ok(
                FramePoll::Frame {
                    payload,
                    timestamp: match timestamp {
                        Some(timestamp) => timestamp,
                        None => Span { nanos: 0 },
                    },
                },
            ),
        ),
        SessionPoll::Frame { payload: None, .. } => (
            now,
            Err(
                source::invalid_operation_fault("Mantle produced an invalid Discord Opus frame"),
            ),
        ),
        SessionPoll::WaitUntil(deadline) => (
            deadline,
            Ok(
                FramePoll::Wait(
                    Span {
                        nanos: if deadline.nanos >= now.nanos {
                            (deadline.nanos - now.nanos) as u128
                        } else {
                            0
                        },
                    },
                ),
            ),
        ),
        SessionPoll::Ended => (now, Ok(FramePoll::Ended)),
        SessionPoll::Failed(kind) => (now, Err(source::playback_fault(kind))),
    }
}

/// Takes what the media library gave for a frame.
pub fn read_frame(now: Span, poll: SessionPoll) -> (r: (Span, Result<FramePoll, AdapterError>))
    ensures
        r == read_of(now, poll),
{
    match poll {
        SessionPoll::Frame { payload: Some(payload), timestamp } => (
            now,
            Ok(
                FramePoll::Frame {
                    payload,
                    timestamp: match timestamp {
                        Some(timestamp) => timestamp,
                        None => Span::zero(),
                    },
                },
            ),
        ),
        SessionPoll::Frame { payload: None, .. } => (
            now,
            Err(invalid_operation("Mantle produced an invalid Discord Opus frame")),
        ),
        SessionPoll::WaitUntil(deadline) => (
            deadline,
            Ok(FramePoll::Wait(deadline.saturating_sub(now))),
        ),
        SessionPoll::Ended => (now, Ok(FramePoll::Ended)),
        SessionPoll::Failed(kind) => (now, Err(map_playback_error(kind))),
    }
}

/// How a seek in the media library came out: where it led, if it said so.
pub open spec fn seek_of(
    kind: SessionKind,
    requested: Span,
    actual: Result<Option<Span>, YoutubePlaybackErrorKind>,
) -> Result<Span, AdapterError> {
    match kind {
        SessionKind::Live => Err(
            source::invalid_operation_fault("live playback is not seekable"),
        ),
        SessionKind::Finite => match actual {
            Ok(Some(actual)) => Ok(actual),
            Ok(None) => Ok(requested),
            Err(kind) => Err(source::playback_fault(kind)),
        },
    }
}

pub fn seek_result(
    kind: SessionKind,
    requested: Span,
    actual: Result<Option<Span>, YoutubePlaybackErrorKind>,
) -> (r: Result<Span, AdapterError>)
    ensures
        r == seek_of(kind, requested, actual),
{
    match kind {
        SessionKind::Live => Err(invalid_operation("live playback is not seekable")),
        SessionKind::Finite => match actual {
            Ok(Some(actual)) => Ok(actual),
            Ok(None) => Ok(requested),
            Err(kind) => Err(map_playback_error(kind)),
        },
    }
}

/// A frame for a voice connection.
pub struct TimedFrame {
    pub sequence: u64,
    pub timestamp: Span,
    pub duration: Span,
    pub payload: Vec<u8>,
}

/// What a voice connection gets for a frame, and whether the source is over.
pub enum SourceFrame {
    Give(TimedFrame),
    End,
    Fail(VoiceError),
}

/// When a frame is due: frames follow each other without a gap.
pub open spec fn due_at(sequence: u64) -> Span {
    Span {
        nanos: ((if sequence * 20 <= u64::MAX {
            sequence * 20
        } else {
            u64::MAX as int
        }) * 1_000_000) as u128,
    }
}

/// What a voice connection gets for what playback gave. `valid` says whether
/// the payload is a frame that can be sent.
pub open spec fn source_frame_of(
    result: Result<Option<MediaFrame>, AdapterError>,
    valid: bool,
) -> SourceFrame {
    match result {
        Ok(Some(frame)) => if valid {
            SourceFrame::Give(
                TimedFrame {
                    sequence: frame.sequence,
                    timestamp: due_at(frame.sequence),
                    duration: Span { nanos: (frame.duration_ms * 1_000_000) as u128 },
                    payload: frame.payload,
                },
            )
        } else {
            SourceFrame::Fail(
                VoiceError {
                    kind: VoiceErrorKind::Protocol,
                    message: "Mantle produced an invalid Discord Opus frame",
                },
            )
        },
        Ok(None) => SourceFrame::End,
        Err(error) => SourceFrame::Fail(voice::frame_fault(error)),
    }
}

pub fn source_frame(result: Result<Option<MediaFrame>, AdapterError>, valid: bool) -> (r:
    SourceFrame)
    ensures
        r == source_frame_of(result, valid),
{
    match result {
        Ok(Some(frame)) => {
            if valid {
                let millis: u64 = if frame.sequence <= u64::MAX / 20 {
                    frame.sequence * 20
                } else {
                    u64::MAX
                };
                SourceFrame::Give(
                    TimedFrame {
                        sequence: frame.sequence,
                        timestamp: Span::from_millis(millis),
                        duration: Span::from_millis(frame.duration_ms as u64),
                        payload: frame.payload,
                    },
                )
            } else {
                SourceFrame::Fail(
                    VoiceError {
                        kind: VoiceErrorKind::Protocol,
                        message: "Mantle produced an invalid Discord Opus frame",
                    },
                )
            }
        },
        Ok(None) => SourceFrame::End,
        Err(error) => SourceFrame::Fail(map_adapter_voice_error(error)),
    }
}

/// Frames are due one after another, each a frame's length after the one
/// before.
pub proof fn frames_are_due_without_a_gap(sequence: u64)
    requires
        (sequence + 1) * 20 <= u64::MAX,
    ensures
        due_at((sequence + 1) as u64).nanos == due_at(sequence).nanos + FRAME_DURATION_MS
            * 1_000_000,
{
}

} // verus!
