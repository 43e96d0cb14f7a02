//! The bridge between players and the voice library: admission of connections,
//! the life of their audio, and the hand-over of single frames.

use crate::span::Span;
use crate::text::{joined, owned};
use crate::voice::{
    VoiceClose, VoiceCounters, VoiceError, VoiceErrorKind, VoiceEvent, VoicePhase, VoiceSnapshot,
};
use vstd::prelude::*;

verus! {

/// How far the voice library's connection has come.
#[derive(Clone, Copy, Debug, PartialEq, Eq, Structural)]
pub enum ConnectionPhase {
    Connecting,
    Handshaking,
    EstablishingTransport,
    EstablishingDave,
    Connected,
    Resuming,
    Reconnecting,
    NeedsFreshVoiceInfo,
    Closing,
    Closed,
    Failed,
    Other,
}

pub open spec fn phase_of(phase: ConnectionPhase) -> VoicePhase {
    match phase {
        ConnectionPhase::Connecting => VoicePhase::ConnectingGateway,
        ConnectionPhase::Handshaking => VoicePhase::WaitingReady,
        ConnectionPhase::EstablishingTransport => VoicePhase::DiscoveringUdp,
        ConnectionPhase::EstablishingDave => VoicePhase::PreparingDave,
        ConnectionPhase::Connected => VoicePhase::Connected,
        ConnectionPhase::Resuming => VoicePhase::Reconnecting,
        ConnectionPhase::Reconnecting => VoicePhase::Reconnecting,
        ConnectionPhase::NeedsFreshVoiceInfo => VoicePhase::Reconnecting,
        ConnectionPhase::Closing => VoicePhase::Closing,
        ConnectionPhase::Closed => VoicePhase::Closed,
        ConnectionPhase::Failed => VoicePhase::Closed,
        ConnectionPhase::Other => VoicePhase::Closed,
    }
}

pub fn map_phase(phase: ConnectionPhase) -> (r: VoicePhase)
    ensures
        r == phase_of(phase),
{
    match phase {
        ConnectionPhase::Connecting => VoicePhase::ConnectingGateway,
        ConnectionPhase::Handshaking => VoicePhase::WaitingReady,
        ConnectionPhase::EstablishingTransport => VoicePhase::DiscoveringUdp,
        ConnectionPhase::EstablishingDave => VoicePhase::PreparingDave,
        ConnectionPhase::Connected => VoicePhase::Connected,
        ConnectionPhase::Resuming => VoicePhase::Reconnecting,
        ConnectionPhase::Reconnecting => VoicePhase::Reconnecting,
        ConnectionPhase::NeedsFreshVoiceInfo => VoicePhase::Reconnecting,
        ConnectionPhase::Closing => VoicePhase::Closing,
        ConnectionPhase::Closed => VoicePhase::Closed,
        ConnectionPhase::Failed => VoicePhase::Closed,
        ConnectionPhase::Other => VoicePhase::Closed,
    }
}

/// A connection counts as connected in one phase only.
pub proof fn only_connected_is_connected(phase: ConnectionPhase)
    ensures
        phase_of(phase) is Connected <==> phase is Connected,
{
}

/// Why the voice library closed a connection.
#[derive(Clone, Copy, Debug, PartialEq, Eq, Structural)]
pub enum CloseReason {
    ExplicitShutdown,
    CleanRemote,
    RemoteCode(u16),
    VoiceInfoReplaced,
    TerminalFailure,
    Other,
}

/// The code, the reason and the side of a close.
pub open spec fn close_of(reason: CloseReason) -> (u16, Seq<char>, bool) {
    match reason {
        CloseReason::ExplicitShutdown => (1000, "explicit shutdown"@, false),
        CloseReason::CleanRemote => (1000, "clean remote close"@, true),
        CloseReason::RemoteCode(code) => (code, "remote voice close"@, true),
        CloseReason::VoiceInfoReplaced => (0, "voice information replaced"@, false),
        CloseReason::TerminalFailure => (0, "terminal voice failure"@, false),
        CloseReason::Other => (0, "voice connection closed"@, false),
    }
}

pub fn map_close(reason: CloseReason) -> (r: VoiceClose)
    ensures
        (r.code, r.reason@, r.by_remote) == close_of(reason),
{
    match reason {
        CloseReason::ExplicitShutdown => VoiceClose {
            code: 1000,
            reason: owned("explicit shutdown"),
            by_remote: false,
        },
        CloseReason::CleanRemote => VoiceClose {
            code: 1000,
            reason: owned("clean remote close"),
            by_remote: true,
        },
        CloseReason::RemoteCode(code) => VoiceClose {
            code,
            reason: owned("remote voice close"),
            by_remote: true,
        },
        CloseReason::VoiceInfoReplaced => VoiceClose {
            code: 0,
            reason: owned("voice information replaced"),
            by_remote: false,
        },
        CloseReason::TerminalFailure => VoiceClose {
            code: 0,
            reason: owned("terminal voice failure"),
            by_remote: false,
        },
        CloseReason::Other => VoiceClose {
            code: 0,
            reason: owned("voice connection closed"),
            by_remote: false,
        },
    }
}

/// What the voice library was doing when it failed.
#[derive(Clone, Copy, Debug, PartialEq, Eq, Structural)]
pub enum Operation {
    StartAudio,
    Other,
}

/// How the voice library failed.
#[derive(Clone, Copy, Debug, PartialEq, Eq, Structural)]
pub enum ErrorKind {
    Shutdown,
    ResourceLimit,
    Overloaded,
    InvalidConfiguration,
    InvalidVoiceInfo,
    RuntimeUnavailable,
    Superseded,
    EndpointOrTls,
    CredentialsRejected,
    HeartbeatTimeout,
    ResumeRejected,
    NeedsFreshVoiceInfo,
    UdpDiscovery,
    SendIo,
    GatewayProtocol,
    UnsupportedTransport,
    TransportCrypto,
    DaveRequired,
    DaveUnsupported,
    DaveTransition,
    FrameSourceContract,
    Other,
}

/// What a failure of the voice library means.
pub open spec fn failure_of(operation: Operation, kind: ErrorKind) -> VoiceError {
    VoiceError {
        kind: if operation is StartAudio && (kind is DaveRequired || kind is EndpointOrTls) {
            VoiceErrorKind::NotReady
        } else {
            match kind {
                ErrorKind::Shutdown => VoiceErrorKind::Shutdown,
                ErrorKind::ResourceLimit => VoiceErrorKind::Overloaded,
                ErrorKind::Overloaded => VoiceErrorKind::Overloaded,
                ErrorKind::InvalidConfiguration => VoiceErrorKind::InvalidState,
                ErrorKind::InvalidVoiceInfo => VoiceErrorKind::InvalidState,
                ErrorKind::RuntimeUnavailable => VoiceErrorKind::InvalidState,
                ErrorKind::Superseded => VoiceErrorKind::InvalidState,
                ErrorKind::GatewayProtocol => VoiceErrorKind::Protocol,
                ErrorKind::UnsupportedTransport => VoiceErrorKind::Protocol,
                ErrorKind::TransportCrypto => VoiceErrorKind::Protocol,
                ErrorKind::DaveRequired => VoiceErrorKind::Protocol,
                ErrorKind::DaveUnsupported => VoiceErrorKind::Protocol,
                ErrorKind::DaveTransition => VoiceErrorKind::Protocol,
                ErrorKind::FrameSourceContract => VoiceErrorKind::Protocol,
                _ => VoiceErrorKind::ConnectionFailed,
            }
        },
        message: match (operation, kind) {
            (Operation::StartAudio, ErrorKind::DaveRequired) => {
                "Oto DAVE setup is not ready for audio"
            },
            (Operation::StartAudio, ErrorKind::EndpointOrTls) => {
                "Oto transport is not ready for audio"
            },
            (Operation::StartAudio, ErrorKind::NeedsFreshVoiceInfo) => {
                "Oto requires fresh voice information before audio can start"
            },
            _ => "Oto voice operation failed",
        },
    }
}

pub fn map_oto_error(operation: Operation, kind: ErrorKind) -> (r: VoiceError)
    ensures
        r == failure_of(operation, kind),
{
    let mapped: VoiceErrorKind = match (operation, kind) {
        (Operation::StartAudio, ErrorKind::DaveRequired) => VoiceErrorKind::NotReady,
        (Operation::StartAudio, ErrorKind::EndpointOrTls) => VoiceErrorKind::NotReady,
        (_, ErrorKind::Shutdown) => VoiceErrorKind::Shutdown,
        (_, ErrorKind::ResourceLimit) => VoiceErrorKind::Overloaded,
        (_, ErrorKind::Overloaded) => VoiceErrorKind::Overloaded,
        (_, ErrorKind::InvalidConfiguration) => VoiceErrorKind::InvalidState,
        (_, ErrorKind::InvalidVoiceInfo) => VoiceErrorKind::InvalidState,
        (_, ErrorKind::RuntimeUnavailable) => VoiceErrorKind::InvalidState,
        (_, ErrorKind::Superseded) => VoiceErrorKind::InvalidState,
        (_, ErrorKind::GatewayProtocol) => VoiceErrorKind::Protocol,
        (_, ErrorKind::UnsupportedTransport) => VoiceErrorKind::Protocol,
        (_, ErrorKind::TransportCrypto) => VoiceErrorKind::Protocol,
        (_, ErrorKind::DaveRequired) => VoiceErrorKind::Protocol,
        (_, ErrorKind::DaveUnsupported) => VoiceErrorKind::Protocol,
        (_, ErrorKind::DaveTransition) => VoiceErrorKind::Protocol,
        (_, ErrorKind::FrameSourceContract) => VoiceErrorKind::Protocol,
        _ => VoiceErrorKind::ConnectionFailed,
    };
    let message: &'static str = match (operation, kind) {
        (Operation::StartAudio, ErrorKind::DaveRequired) => "Oto DAVE setup is not ready for audio",
        (Operation::StartAudio, ErrorKind::EndpointOrTls) => "Oto transport is not ready for audio",
        (Operation::StartAudio, ErrorKind::NeedsFreshVoiceInfo) => {
            "Oto requires fresh voice information before audio can start"
        },
        _ => "Oto voice operation failed",
    };
    VoiceError { kind: mapped, message }
}

/// Audio is deferred exactly where it was to start and the transport or its
/// encryption was not ready.
pub proof fn only_starting_audio_is_deferred(operation: Operation, kind: ErrorKind)
    ensures
        failure_of(operation, kind).kind is NotReady <==> operation is StartAudio && (
        kind is DaveRequired || kind is EndpointOrTls),
{
}

pub open spec fn cancelled_fault() -> VoiceError {
    VoiceError { kind: VoiceErrorKind::Cancelled, message: "voice operation cancelled" }
}

pub open spec fn shutdown_fault() -> VoiceError {
    VoiceError { kind: VoiceErrorKind::Shutdown, message: "voice backend is shut down" }
}

pub open spec fn overloaded_fault(message: &'static str) -> VoiceError {
    VoiceError { kind: VoiceErrorKind::Overloaded, message }
}

pub fn cancelled_error() -> (r: VoiceError)
    ensures
        r == cancelled_fault(),
{
    VoiceError { kind: VoiceErrorKind::Cancelled, message: "voice operation cancelled" }
}

pub fn shutdown_error() -> (r: VoiceError)
    ensures
        r == shutdown_fault(),
{
    VoiceError { kind: VoiceErrorKind::Shutdown, message: "voice backend is shut down" }
}

pub fn overloaded_error(message: &'static str) -> (r: VoiceError)
    ensures
        r == overloaded_fault(message),
{
    VoiceError { kind: VoiceErrorKind::Overloaded, message }
}

/// The connections of the voice side: how many more there may be, how many
/// more may be opened at once, and those that are registered. Connections are
/// told apart by numbers.
pub struct Backend {
    pub shutting_down: bool,
    pub connection_slots: usize,
    pub connect_slots: usize,
    pub connections: Vec<u64>,
}

/// How opening a connection came out.
#[derive(Clone, Copy, Debug, PartialEq, Eq, Structural)]
pub enum ConnectEnd {
    Shutdown,
    Cancelled,
    Failed { operation: Operation, kind: ErrorKind },
    Connected,
}

/// Why a connection is not opened.
pub open spec fn connect_fault(backend: Backend, cancelled: bool) -> Option<VoiceError> {
    if backend.shutting_down {
        Some(shutdown_fault())
    } else if cancelled {
        Some(cancelled_fault())
    } else if backend.connection_slots == 0 {
        Some(overloaded_fault("voice connection capacity reached"))
    } else if backend.connect_slots == 0 {
        Some(overloaded_fault("voice connection admission is busy"))
    } else {
        None
    }
}

/// Whether a number stands in a list.
pub open spec fn listed_in(numbers: Seq<u64>, number: u64) -> bool {
    exists|i: int| 0 <= i < numbers.len() && #[trigger] numbers[i] == number
}

/// The registered connections that are still held.
pub open spec fn held(connections: Seq<u64>, live: Seq<u64>) -> Seq<u64>
    decreases connections.len(),
{
    if connections.len() == 0 {
        Seq::empty()
    } else if listed_in(live, connections.last()) {
        held(connections.drop_last(), live).push(connections.last())
    } else {
        held(connections.drop_last(), live)
    }
}

fn is_listed(numbers: &Vec<u64>, number: u64) -> (r: bool)
    ensures
        r == listed_in(numbers@, number),
{
    let mut i: usize = 0;
    while i < numbers.len()
        invariant
            i <= numbers@.len(),
            forall|k: int| 0 <= k < i ==> #[trigger] numbers@[k] != number,
        decreases numbers@.len() - i,
    {
        if numbers[i] == number {
            assert(numbers@[i as int] == number);
            return true;
        }
        i = i + 1;
    }
    false
}

fn still_held(connections: &Vec<u64>, live: &Vec<u64>) -> (r: Vec<u64>)
    ensures
        r@ == held(connections@, live@),
{
    let mut out: Vec<u64> = Vec::new();
    let mut i: usize = 0;
    while i < connections.len()
        invariant
            i <= connections@.len(),
            out@ == held(connections@.take(i as int), live@),
        decreases connections@.len() - i,
    {
        if is_listed(live, connections[i]) {
            out.push(connections[i]);
        }
        assert(connections@.take(i + 1).drop_last() =~= connections@.take(i as int));
        i = i + 1;
    }
    assert(connections@.take(i as int) =~= connections@);
    out
}

impl Backend {
    pub fn new(max_connections: usize, max_concurrent_connects: usize) -> (r: Backend)
        requires
            max_connections > 0,
            max_concurrent_connects > 0,
        ensures
            !r.shutting_down,
            r.connection_slots == max_connections,
            r.connect_slots == max_concurrent_connects,
            r.connections@.len() == 0,
    {
        Backend {
            shutting_down: false,
            connection_slots: max_connections,
            connect_slots: max_concurrent_connects,
            connections: Vec::new(),
        }
    }

    /// Admits the opening of a connection: it holds one slot of either kind.
    pub fn begin_connect(&mut self, cancelled: bool) -> (r: Result<(), VoiceError>)
        ensures
            final(self).shutting_down == old(self).shutting_down,
            final(self).connections == old(self).connections,
            match connect_fault(*old(self), cancelled) {
                Some(error) => r == Err::<(), VoiceError>(error) && *final(self) == *old(self),
                None => r is Ok && final(self).connection_slots == old(self).connection_slots - 1
                    && final(self).connect_slots == old(self).connect_slots - 1,
            },
    {
        if self.shutting_down {
            return Err(shutdown_error());
        }
        if cancelled {
            return Err(cancelled_error());
        }
        if self.connection_slots == 0 {
            return Err(overloaded_error("voice connection capacity reached"));
        }
        if self.connect_slots == 0 {
            return Err(overloaded_error("voice connection admission is busy"));
        }
        self.connection_slots = self.connection_slots - 1;
        self.connect_slots = self.connect_slots - 1;
        Ok(())
    }

    /// Takes how the opening came out: its slot is free again, and that of the
    /// connection too where there is none.
    pub fn end_connect(&mut self, end: ConnectEnd) -> (r: Result<(), VoiceError>)
        requires
            old(self).connection_slots < usize::MAX,
            old(self).connect_slots < usize::MAX,
        ensures
            final(self).shutting_down == old(self).shutting_down,
            final(self).connections == old(self).connections,
            final(self).connect_slots == old(self).connect_slots + 1,
            final(self).connection_slots == old(self).connection_slots + if r is Ok {
                0int
            } else {
                1
            },
            r == match end {
                ConnectEnd::Shutdown => Err::<(), VoiceError>(shutdown_fault()),
                ConnectEnd::Cancelled => Err(cancelled_fault()),
                ConnectEnd::Failed { operation, kind } => Err(failure_of(operation, kind)),
                ConnectEnd::Connected => Ok(()),
            },
    {
        self.connect_slots = self.connect_slots + 1;
        let error: VoiceError = match end {
            ConnectEnd::Connected => return Ok(()),
            ConnectEnd::Shutdown => shutdown_error(),
            ConnectEnd::Cancelled => cancelled_error(),
            ConnectEnd::Failed { operation, kind } => map_oto_error(operation, kind),
        };
        self.connection_slots = self.connection_slots + 1;
        Err(error)
    }

    /// Registers a connection, unless everything is being shut down. `live`
    /// are the connections that are still held.
    pub fn register(&mut self, connection: u64, live: &Vec<u64>) -> (r: Result<(), VoiceError>)
        ensures
            final(self).shutting_down == old(self).shutting_down,
            final(self).connection_slots == old(self).connection_slots,
            final(self).connect_slots == old(self).connect_slots,
            old(self).shutting_down ==> r == Err::<(), VoiceError>(shutdown_fault())
                && final(self).connections == old(self).connections,
            !old(self).shutting_down ==> r is Ok && final(self).connections@ == held(
                old(self).connections@,
                live@,
            ).push(connection),
    {
        if self.shutting_down {
            return Err(shutdown_error());
        }
        let mut kept: Vec<u64> = still_held(&self.connections, live);
        kept.push(connection);
        self.connections = kept;
        Ok(())
    }

    /// Gives back the slot of a connection that is held no more.
    pub fn release(&mut self)
        requires
            old(self).connection_slots < usize::MAX,
        ensures
            final(self).connection_slots == old(self).connection_slots + 1,
            final(self).connect_slots == old(self).connect_slots,
            final(self).shutting_down == old(self).shutting_down,
            final(self).connections == old(self).connections,
    {
        self.connection_slots = self.connection_slots + 1;
    }

    /// Shuts everything down: the connections that have to be shut down.
    pub fn shutdown(&mut self, live: &Vec<u64>) -> (r: Vec<u64>)
        ensures
            final(self).shutting_down,
            final(self).connections@.len() == 0,
            final(self).connection_slots == old(self).connection_slots,
            final(self).connect_slots == old(self).connect_slots,
            r@ == held(old(self).connections@, live@),
    {
        self.shutting_down = true;
        let r: Vec<u64> = still_held(&self.connections, live);
        self.connections = Vec::new();
        r
    }
}

/// No connection is opened once everything is being shut down.
pub proof fn a_shut_down_backend_opens_nothing(backend: Backend, cancelled: bool)
    requires
        backend.shutting_down,
    ensures
        connect_fault(backend, cancelled) == Some(shutdown_fault()),
{
}

/// The first failure of several shut-downs, in the order in which they end.
pub open spec fn first_failure(results: Seq<Result<(), VoiceError>>) -> Result<(), VoiceError>
    decreases results.len(),
{
    if results.len() == 0 {
        Ok(())
    } else if first_failure(results.drop_last()) is Err {
        first_failure(results.drop_last())
    } else {
        results.last()
    }
}

/// The first failure among results.
pub fn collect_shutdowns(results: &Vec<Result<(), VoiceError>>) -> (r: Result<(), VoiceError>)
    ensures
        r == first_failure(results@),
{
    let mut first: Result<(), VoiceError> = Ok(());
    let mut i: usize = 0;
    while i < results.len()
        invariant
            i <= results@.len(),
            first == first_failure(results@.take(i as int)),
        decreases results@.len() - i,
    {
        assert(results@.take(i + 1).drop_last() =~= results@.take(i as int));
        assert(results@.take(i + 1).last() == results@[i as int]);
        if first.is_ok() {
            first = results[i];
        }
        i = i + 1;
    }
    assert(results@.take(i as int) =~= results@);
    first
}

/// The audio of a connection. What is attached is told apart by numbers.
#[derive(Clone, Copy, Debug, PartialEq, Eq, Structural)]
pub enum AudioSlot {
    Idle,
    Busy,
    Attached(u64),
    Closed,
}

/// A connection: its audio, whether it was shut down, whether its sender can
/// be asked about itself, and its channel.
#[derive(Clone, Copy, Debug, PartialEq, Eq, Structural)]
pub struct Connection {
    pub audio: AudioSlot,
    pub closed: bool,
    pub has_sender: bool,
    pub channel_id: u64,
}

/// Why a source is not attached.
pub open spec fn attach_fault(connection: Connection, cancelled: bool) -> Option<VoiceError> {
    if cancelled {
        Some(cancelled_fault())
    } else if connection.closed || connection.audio is Closed {
        Some(shutdown_fault())
    } else if connection.audio is Busy {
        Some(overloaded_fault("audio lifecycle operation is already active"))
    } else {
        None
    }
}

/// What a stop has to do.
#[derive(Clone, Copy, Debug, PartialEq, Eq)]
pub enum StopBegin {
    Done(Result<(), VoiceError>),
    Stop(u64),
}

/// What a shut-down has to do with the audio.
#[derive(Clone, Copy, Debug, PartialEq, Eq, Structural)]
pub enum ShutdownAudio {
    /// Another operation is under way: ask again once it ended.
    Wait,
    Stop(u64),
    Nothing,
}

impl Connection {
    pub fn new(channel_id: u64) -> (r: Connection)
        ensures
            r == (Connection {
                audio: AudioSlot::Idle,
                closed: false,
                has_sender: false,
                channel_id,
            }),
    {
        Connection { audio: AudioSlot::Idle, closed: false, has_sender: false, channel_id }
    }

    /// Admits the attachment of a source: what was attached before.
    pub fn begin_source(&mut self, cancelled: bool) -> (r: Result<Option<u64>, VoiceError>)
        ensures
            match attach_fault(*old(self), cancelled) {
                Some(error) => r == Err::<Option<u64>, VoiceError>(error) && *final(self) == *old(
                    self,
                ),
                None => *final(self) == (Connection { audio: AudioSlot::Busy, ..*old(self) }) && r
                    == Ok::<Option<u64>, VoiceError>(
                    match old(self).audio {
                        AudioSlot::Attached(binding) => Some(binding),
                        _ => None,
                    },
                ),
            },
    {
        if cancelled {
            return Err(cancelled_error());
        }
        if self.closed {
            return Err(shutdown_error());
        }
        match self.audio {
            AudioSlot::Idle => {
                self.audio = AudioSlot::Busy;
                Ok(None)
            },
            AudioSlot::Attached(binding) => {
                self.audio = AudioSlot::Busy;
                Ok(Some(binding))
            },
            AudioSlot::Busy => Err(overloaded_error("audio lifecycle operation is already active")),
            AudioSlot::Closed => Err(shutdown_error()),
        }
    }

    /// Takes how the attachment came out: the new source is attached, or what
    /// was attached before stays.
    pub fn end_source(&mut self, previous: Option<u64>, binding: u64, end: Result<
        (),
        (Operation, ErrorKind),
    >) -> (r: Result<(), VoiceError>)
        ensures
            match end {
                Ok(()) => r is Ok && *final(self) == (Connection {
                    audio: AudioSlot::Attached(binding),
                    has_sender: true,
                    ..*old(self)
                }),
                Err((operation, kind)) => r == Err::<(), VoiceError>(failure_of(operation, kind))
                    && *final(self) == (Connection {
                    audio: match previous {
                        Some(previous) => AudioSlot::Attached(previous),
                        None => AudioSlot::Idle,
                    },
                    ..*old(self)
                }),
            },
    {
        match end {
            Ok(()) => {
                self.has_sender = true;
                self.audio = AudioSlot::Attached(binding);
                Ok(())
            },
            Err((operation, kind)) => {
                self.audio = match previous {
                    Some(previous) => AudioSlot::Attached(previous),
                    None => AudioSlot::Idle,
                };
                Err(map_oto_error(operation, kind))
            },
        }
    }

    /// Begins to stop audio.
    pub fn begin_stop(&mut self) -> (r: StopBegin)
        ensures
            match old(self).audio {
                AudioSlot::Attached(binding) => r == StopBegin::Stop(binding) && *final(self) == (
                Connection { audio: AudioSlot::Busy, ..*old(self) }),
                AudioSlot::Busy => r == StopBegin::Done(
                    Err(overloaded_fault("audio lifecycle operation is already active")),
                ) && *final(self) == *old(self),
                _ => r == StopBegin::Done(Ok(())) && *final(self) == *old(self),
            },
    {
        match self.audio {
            AudioSlot::Idle => StopBegin::Done(Ok(())),
            AudioSlot::Closed => StopBegin::Done(Ok(())),
            AudioSlot::Busy => StopBegin::Done(
                Err(overloaded_error("audio lifecycle operation is already active")),
            ),
            AudioSlot::Attached(binding) => {
                self.audio = AudioSlot::Busy;
                StopBegin::Stop(binding)
            },
        }
    }

    /// Takes how stopping came out: nothing is attached either way.
    pub fn end_stop(&mut self, end: Result<(), (Operation, ErrorKind)>) -> (r: Result<
        (),
        VoiceError,
    >)
        ensures
            *final(self) == (Connection {
                audio: if old(self).closed {
                    AudioSlot::Closed
                } else {
                    AudioSlot::Idle
                },
                has_sender: false,
                ..*old(self)
            }),
            r == match end {
                Ok(()) => Ok::<(), VoiceError>(()),
                Err((operation, kind)) => Err(failure_of(operation, kind)),
            },
    {
        self.has_sender = false;
        self.audio = if self.closed {
            AudioSlot::Closed
        } else {
            AudioSlot::Idle
        };
        match end {
            Ok(()) => Ok(()),
            Err((operation, kind)) => Err(map_oto_error(operation, kind)),
        }
    }

    /// Begins to shut the connection down. The result says whether this is the
    /// first time.
    pub fn begin_shutdown(&mut self) -> (r: bool)
        ensures
            r == !old(self).closed,
            *final(self) == (Connection { closed: true, ..*old(self) }),
    {
        let first: bool = !self.closed;
        self.closed = true;
        first
    }

    /// Takes the audio away for a shut-down.
    pub fn shutdown_audio(&mut self) -> (r: ShutdownAudio)
        ensures
            match old(self).audio {
                AudioSlot::Busy => r is Wait && *final(self) == *old(self),
                AudioSlot::Attached(binding) => r == ShutdownAudio::Stop(binding) && *final(self)
                    == (Connection { audio: AudioSlot::Closed, ..*old(self) }),
                _ => r is Nothing && *final(self) == (Connection {
                    audio: AudioSlot::Closed,
                    ..*old(self)
                }),
            },
    {
        match self.audio {
            AudioSlot::Busy => ShutdownAudio::Wait,
            AudioSlot::Attached(binding) => {
                self.audio = AudioSlot::Closed;
                ShutdownAudio::Stop(binding)
            },
            _ => {
                self.audio = AudioSlot::Closed;
                ShutdownAudio::Nothing
            },
        }
    }

    /// Takes how the shut-down of the connection itself came out.
    pub fn end_shutdown(&mut self, end: Result<(), (Operation, ErrorKind)>) -> (r: Result<
        (),
        VoiceError,
    >)
        ensures
            *final(self) == (Connection { has_sender: false, ..*old(self) }),
            r == match end {
                Ok(()) => Ok::<(), VoiceError>(()),
                Err((operation, kind)) => Err(failure_of(operation, kind)),
            },
    {
        self.has_sender = false;
        match end {
            Ok(()) => Ok(()),
            Err((operation, kind)) => Err(map_oto_error(operation, kind)),
        }
    }

    /// Admits fresh voice information.
    pub fn begin_update(&self, cancelled: bool) -> (r: Result<(), VoiceError>)
        ensures
            r == if cancelled {
                Err::<(), VoiceError>(cancelled_fault())
            } else if self.closed {
                Err(shutdown_fault())
            } else {
                Ok(())
            },
    {
        if cancelled {
            Err(cancelled_error())
        } else if self.closed {
            Err(shutdown_error())
        } else {
            Ok(())
        }
    }

    /// Takes how fresh voice information was received.
    pub fn end_update(&mut self, channel_id: u64, end: Result<(), (Operation, ErrorKind)>) -> (r:
        Result<(), VoiceError>)
        ensures
            match end {
                Ok(()) => r is Ok && *final(self) == (Connection { channel_id, ..*old(self) }),
                Err((operation, kind)) => r == Err::<(), VoiceError>(failure_of(operation, kind))
                    && *final(self) == *old(self),
            },
    {
        match end {
            Ok(()) => {
                self.channel_id = channel_id;
                Ok(())
            },
            Err((operation, kind)) => Err(map_oto_error(operation, kind)),
        }
    }
}

/// A connection that was shut down attaches nothing more.
pub proof fn a_closed_connection_attaches_nothing(connection: Connection, cancelled: bool)
    requires
        connection.closed,
    ensures
        attach_fault(connection, cancelled) is Some,
{
}

/// One operation on audio at a time: while one is under way, another source is
/// refused.
pub proof fn audio_operations_exclude_each_other(connection: Connection, cancelled: bool)
    requires
        connection.audio is Busy,
    ensures
        attach_fault(connection, cancelled) is Some,
{
}

/// What is told of a connection: its phase, its channel, its round trip, and
/// the frames of its audio where it has any.
pub fn connection_snapshot(
    connection: &Connection,
    phase: ConnectionPhase,
    ping: Option<Span>,
    audio: Option<VoiceCounters>,
) -> (r: VoiceSnapshot)
    ensures
        r == (VoiceSnapshot {
            phase: phase_of(phase),
            channel_id: Some(connection.channel_id),
            ping,
            counters: match audio {
                Some(counters) => counters,
                None => VoiceCounters { sent: 0, nulled: 0, deficit: 0 },
            },
        }),
{
    VoiceSnapshot {
        phase: map_phase(phase),
        channel_id: Some(connection.channel_id),
        ping,
        counters: match audio {
            Some(counters) => counters,
            None => VoiceCounters { sent: 0, nulled: 0, deficit: 0 },
        },
    }
}

/// What the voice library reports of a connection.
pub enum ConnectionReport {
    StateChanged(ConnectionPhase),
    Closed(CloseReason),
    /// A failure; `recoverable` where the library retries it or fresh voice
    /// information mends it.
    Failure { recoverable: bool },
    /// Anything that says nothing to a player.
    Other,
    /// Reports were lost.
    Lagged,
    Ended,
}

/// What a wait for an event comes to.
pub enum NextEvent {
    /// Look again.
    Again,
    Give(VoiceEvent),
    Ended,
    Fail(VoiceError),
}

/// What ends a wait for an event, the most urgent first.
pub enum Wake {
    Cancelled,
    /// The audio or its source changed.
    Changed,
    Report(ConnectionReport),
}

/// What is known before a wait: how the sender failed, in words where the
/// library gave any, and how the source failed.
pub struct Standing {
    pub sender_failure: Option<Option<String>>,
    pub source_failure: Option<VoiceError>,
}

/// The reason that a failed sender gives.
pub open spec fn sender_reason(failure: Option<String>) -> Seq<char> {
    match failure {
        Some(kind) => "audio sender failed: "@ + kind@,
        None => "audio sender failed"@,
    }
}

/// Whether an event is what a standing failure gives.
pub open spec fn is_standing_event(r: NextEvent, standing: Standing) -> bool {
    match standing.sender_failure {
        Some(failure) => r matches NextEvent::Give(VoiceEvent::Closed(close)) && close.code == 0
            && !close.by_remote && close.reason@ == sender_reason(failure),
        None => match standing.source_failure {
            Some(error) => r == NextEvent::Give(VoiceEvent::SourceFailed(error)),
            None => r is Again,
        },
    }
}

/// The event that is due before anything else is waited for.
pub fn standing_event(standing: Standing) -> (r: NextEvent)
    ensures
        is_standing_event(r, standing),
{
    if let Some(failure) = standing.sender_failure {
        let reason = match failure {
            Some(kind) => joined("audio sender failed: ", kind.as_str()),
            None => owned("audio sender failed"),
        };
        return NextEvent::Give(VoiceEvent::Closed(VoiceClose { code: 0, reason, by_remote: false }));
    }
    match standing.source_failure {
        Some(error) => NextEvent::Give(VoiceEvent::SourceFailed(error)),
        None => NextEvent::Again,
    }
}

/// Whether an event is what the end of a wait gives.
pub open spec fn is_woken_event(r: NextEvent, wake: Wake) -> bool {
    match wake {
        Wake::Cancelled => r == NextEvent::Fail(cancelled_fault()),
        Wake::Changed => r is Again,
        Wake::Report(ConnectionReport::StateChanged(phase)) => r == NextEvent::Give(
            VoiceEvent::PhaseChanged(phase_of(phase)),
        ),
        Wake::Report(ConnectionReport::Closed(reason)) => r matches NextEvent::Give(
            VoiceEvent::Closed(close),
        ) && (close.code, close.reason@, close.by_remote) == close_of(reason),
        Wake::Report(ConnectionReport::Failure { recoverable }) => if recoverable {
            r is Again
        } else {
            r matches NextEvent::Give(VoiceEvent::Closed(close)) && close.code == 0
                && close.reason@ == "terminal voice failure"@ && !close.by_remote
        },
        Wake::Report(ConnectionReport::Other) => r is Again,
        Wake::Report(ConnectionReport::Lagged) => r == NextEvent::Fail(
            overloaded_fault("voice event subscriber lagged"),
        ),
        Wake::Report(ConnectionReport::Ended) => r is Ended,
    }
}

/// The event that the end of a wait gives.
pub fn woken_event(wake: Wake) -> (r: NextEvent)
    ensures
        is_woken_event(r, wake),
{
    match wake {
        Wake::Cancelled => NextEvent::Fail(cancelled_error()),
        Wake::Changed => NextEvent::Again,
        Wake::Report(ConnectionReport::StateChanged(phase)) => NextEvent::Give(
            VoiceEvent::PhaseChanged(map_phase(phase)),
        ),
        Wake::Report(ConnectionReport::Closed(reason)) => NextEvent::Give(
            VoiceEvent::Closed(map_close(reason)),
        ),
        Wake::Report(ConnectionReport::Failure { recoverable }) => {
            if recoverable {
                NextEvent::Again
            } else {
                NextEvent::Give(
                    VoiceEvent::Closed(
                        VoiceClose {
                            code: 0,
                            reason: owned("terminal voice failure"),
                            by_remote: false,
                        },
                    ),
                )
            }
        },
        Wake::Report(ConnectionReport::Other) => NextEvent::Again,
        Wake::Report(ConnectionReport::Lagged) => NextEvent::Fail(
            overloaded_error("voice event subscriber lagged"),
        ),
        Wake::Report(ConnectionReport::Ended) => NextEvent::Ended,
    }
}

/// Whether a source still gives frames.
#[derive(Clone, Copy, Debug, PartialEq, Eq, Structural)]
pub enum BridgeState {
    Running,
    Ended,
    Failed,
}

/// What the two sides of a hand-over share.
#[derive(Clone, Copy, Debug, PartialEq, Eq)]
pub struct Bridge {
    /// Whether the last frame was taken and its producer does not know yet.
    pub consumed: bool,
    pub state: BridgeState,
    pub failure: Option<VoiceError>,
}

/// What a poll for a frame gives.
#[derive(Clone, Copy, Debug, PartialEq, Eq, Structural)]
pub enum FrameStatus {
    Frame { len: usize },
    Ended,
    Pending,
}

/// What the channel between the two sides holds.
#[derive(Clone, Copy, Debug)]
pub enum Channel<'a> {
    Frame { payload: &'a [u8] },
    Closed,
    Empty,
}

/// What the producer of frames waits for.
#[derive(Clone, Copy, Debug, PartialEq, Eq, Structural)]
pub enum ProducerStage {
    Source,
    Send,
    Consumption,
}

/// What ends a wait of the producer.
#[derive(Clone, Copy, Debug, PartialEq, Eq)]
pub enum ProducerEvent {
    Cancelled,
    /// The source gave a frame, its end or a failure.
    Frame,
    End,
    Failure(VoiceError),
    /// The frame went into the channel, or the other side is gone.
    Sent,
    Gone,
    Consumed,
}

pub open spec fn oversize_fault() -> VoiceError {
    VoiceError {
        kind: VoiceErrorKind::Protocol,
        message: "Oto frame capacity is smaller than the Crust Opus frame",
    }
}

/// The bridge and the next wait after an event at the producer, or none.
pub open spec fn produced(bridge: Bridge, stage: ProducerStage, event: ProducerEvent) -> (
    Bridge,
    Option<ProducerStage>,
) {
    match (stage, event) {
        (ProducerStage::Source, ProducerEvent::Frame) => (bridge, Some(ProducerStage::Send)),
        (ProducerStage::Source, ProducerEvent::End) => (
            Bridge { state: BridgeState::Ended, ..bridge },
            None,
        ),
        (ProducerStage::Source, ProducerEvent::Failure(error)) => (
            Bridge { state: BridgeState::Failed, failure: Some(error), ..bridge },
            None,
        ),
        (ProducerStage::Send, ProducerEvent::Sent) => (bridge, Some(ProducerStage::Consumption)),
        (ProducerStage::Consumption, ProducerEvent::Consumed) => (
            bridge,
            if bridge.state is Running {
                Some(ProducerStage::Source)
            } else {
                None
            },
        ),
        _ => (bridge, None),
    }
}

impl Bridge {
    pub fn new() -> (r: Bridge)
        ensures
            r == (Bridge { consumed: false, state: BridgeState::Running, failure: None }),
    {
        Bridge { consumed: false, state: BridgeState::Running, failure: None }
    }

    /// Notes that the frame was taken.
    pub fn frame_consumed(&mut self)
        ensures
            *final(self) == (Bridge { consumed: true, ..*old(self) }),
    {
        self.consumed = true;
    }

    /// Whether the frame was taken since the last time that it was asked.
    pub fn poll_consumed(&mut self) -> (r: bool)
        ensures
            r == old(self).consumed,
            *final(self) == (Bridge { consumed: false, ..*old(self) }),
    {
        let consumed: bool = self.consumed;
        self.consumed = false;
        consumed
    }

    pub fn fail(&mut self, error: VoiceError)
        ensures
            *final(self) == (Bridge {
                state: BridgeState::Failed,
                failure: Some(error),
                ..*old(self)
            }),
    {
        self.failure = Some(error);
        self.state = BridgeState::Failed;
    }

    /// Takes the failure, once.
    pub fn take_failure(&mut self) -> (r: Option<VoiceError>)
        ensures
            r == old(self).failure,
            *final(self) == (Bridge { failure: None, ..*old(self) }),
    {
        let failure: Option<VoiceError> = self.failure;
        self.failure = None;
        failure
    }

    /// Hands a frame over: its bytes come to stand at the start of the output.
    pub fn poll_frame(&mut self, channel: Channel<'_>, output: &mut [u8]) -> (r: FrameStatus)
        ensures
            final(output)@.len() == old(output)@.len(),
            match channel {
                Channel::Frame { payload } => if payload@.len() > old(output)@.len() {
                    r is Ended && final(output)@ == old(output)@ && *final(self) == (Bridge {
                        consumed: true,
                        state: BridgeState::Failed,
                        failure: Some(oversize_fault()),
                    })
                } else {
                    r == (FrameStatus::Frame { len: payload@.len() as usize }) && final(output)@
                        == payload@ + old(output)@.skip(payload@.len() as int) && *final(self) == (
                    Bridge { consumed: true, ..*old(self) })
                },
                Channel::Closed => r is Ended && final(output)@ == old(output)@ && *final(self)
                    == *old(self),
                Channel::Empty => r is Pending && final(output)@ == old(output)@ && *final(self)
                    == *old(self),
            },
    {
        match channel {
            Channel::Frame { payload } => {
                if payload.len() > output.len() {
                    self.fail(
                        VoiceError {
                            kind: VoiceErrorKind::Protocol,
                            message: "Oto frame capacity is smaller than the Crust Opus frame",
                        },
                    );
                    self.frame_consumed();
                    return FrameStatus::Ended;
                }
                let mut i: usize = 0;
                while i < payload.len()
                    invariant
                        i <= payload@.len() <= output@.len(),
                        output@.len() == old(output)@.len(),
                        output@ =~= payload@.take(i as int) + old(output)@.skip(i as int),
                    decreases payload@.len() - i,
                {
                    output[i] = payload[i];
                    i = i + 1;
                }
                assert(payload@.take(i as int) =~= payload@);
                self.frame_consumed();
                FrameStatus::Frame { len: payload.len() }
            },
            Channel::Closed => FrameStatus::Ended,
            Channel::Empty => FrameStatus::Pending,
        }
    }

    /// One step of the producer: what it waits for next, or none.
    pub fn produce(&mut self, stage: ProducerStage, event: ProducerEvent) -> (r: Option<
        ProducerStage,
    >)
        ensures
            (*final(self), r) == produced(*old(self), stage, event),
    {
        match (stage, event) {
            (ProducerStage::Source, ProducerEvent::Frame) => Some(ProducerStage::Send),
            (ProducerStage::Source, ProducerEvent::End) => {
                self.state = BridgeState::Ended;
                None
            },
            (ProducerStage::Source, ProducerEvent::Failure(error)) => {
                self.fail(error);
                None
            },
            (ProducerStage::Send, ProducerEvent::Sent) => Some(ProducerStage::Consumption),
            (ProducerStage::Consumption, ProducerEvent::Consumed) => match self.state {
                BridgeState::Running => Some(ProducerStage::Source),
                _ => None,
            },
            _ => None,
        }
    }
}

/// The source is asked for a frame only after the one before was taken: from
/// any wait, it is reached by the end of a wait for that.
pub proof fn one_frame_is_in_flight(bridge: Bridge, stage: ProducerStage, event: ProducerEvent)
    ensures
        produced(bridge, stage, event).1 == Some(ProducerStage::Source) ==> stage is Consumption
            && event is Consumed && bridge.state is Running,
        produced(bridge, stage, event).1 == Some(ProducerStage::Send) ==> stage is Source,
{
}

/// A failed or ended source is not asked again.
pub proof fn a_finished_source_is_left_alone(bridge: Bridge, stage: ProducerStage, event: ProducerEvent)
    requires
        bridge.state !is Running,
    ensures
        produced(bridge, stage, event).1 != Some(ProducerStage::Source),
{
}

} // verus!
