//! Voice connections: what they report, and what a player makes of it.

use crate::media::{AdapterError, AdapterErrorKind, PlayerError};
use crate::protocol::VoiceState;
use crate::span::Span;
use crate::text;
use crate::text::{parse_u64, same_text};
use vstd::prelude::*;

verus! {

/// How a voice operation failed.
#[derive(Clone, Copy, Debug, PartialEq, Eq, Structural)]
pub enum VoiceErrorKind {
    Cancelled,
    Shutdown,
    Overloaded,
    InvalidState,
    NotReady,
    ConnectionFailed,
    Protocol,
}

/// A failed voice operation.
#[derive(Clone, Copy, Debug, PartialEq, Eq)]
pub struct VoiceError {
    pub kind: VoiceErrorKind,
    pub message: &'static str,
}

/// How far a connection has come.
#[derive(Clone, Copy, Debug, PartialEq, Eq, Structural)]
pub enum VoicePhase {
    ConnectingGateway,
    WaitingReady,
    DiscoveringUdp,
    PreparingDave,
    Connected,
    Reconnecting,
    Closing,
    Closed,
}

/// Why a connection closed.
#[derive(Debug, PartialEq, Eq)]
pub struct VoiceClose {
    pub code: u16,
    pub reason: String,
    pub by_remote: bool,
}

/// What a connection reports.
#[derive(Debug, PartialEq, Eq)]
pub enum VoiceEvent {
    PhaseChanged(VoicePhase),
    Closed(VoiceClose),
    SourceFailed(VoiceError),
}

/// How many frames went out, were missing and came too late.
#[derive(Clone, Copy, Debug, PartialEq, Eq, Structural)]
pub struct VoiceCounters {
    pub sent: u64,
    pub nulled: u64,
    pub deficit: u64,
}

/// What a connection tells of itself.
#[derive(Clone, Copy, Debug, PartialEq, Eq)]
pub struct VoiceSnapshot {
    pub phase: VoicePhase,
    pub channel_id: Option<u64>,
    pub ping: Option<Span>,
    pub counters: VoiceCounters,
}

/// What a connection is opened with.
#[derive(PartialEq, Eq)]
pub struct VoiceConnectionInfo {
    pub guild_id: u64,
    pub user_id: u64,
    pub channel_id: u64,
    pub endpoint: String,
    pub session_id: String,
    pub token: String,
}

/// The error that a player command ends with where the voice side failed.
pub open spec fn voice_fault(error: VoiceError) -> PlayerError {
    match error.kind {
        VoiceErrorKind::Overloaded => PlayerError::Overloaded,
        VoiceErrorKind::InvalidState => PlayerError::Invalid(error.message),
        _ => PlayerError::Media(error.message),
    }
}

pub fn map_voice_error(error: VoiceError) -> (r: PlayerError)
    ensures
        r == voice_fault(error),
{
    match error.kind {
        VoiceErrorKind::Overloaded => PlayerError::Overloaded,
        VoiceErrorKind::InvalidState => PlayerError::Invalid(error.message),
        _ => PlayerError::Media(error.message),
    }
}

/// How a voice connection is told that playback gave no frame.
pub open spec fn frame_fault(error: AdapterError) -> VoiceError {
    VoiceError {
        kind: match error.kind {
            AdapterErrorKind::Cancelled => VoiceErrorKind::Cancelled,
            AdapterErrorKind::Shutdown => VoiceErrorKind::Shutdown,
            AdapterErrorKind::Overloaded => VoiceErrorKind::Overloaded,
            _ => VoiceErrorKind::Protocol,
        },
        message: "Mantle frame production failed",
    }
}

pub fn map_adapter_voice_error(error: AdapterError) -> (r: VoiceError)
    ensures
        r == frame_fault(error),
{
    VoiceError {
        kind: match error.kind {
            AdapterErrorKind::Cancelled => VoiceErrorKind::Cancelled,
            AdapterErrorKind::Shutdown => VoiceErrorKind::Shutdown,
            AdapterErrorKind::Overloaded => VoiceErrorKind::Overloaded,
            _ => VoiceErrorKind::Protocol,
        },
        message: "Mantle frame production failed",
    }
}

/// Whether audio only has to wait until the connection is ready.
pub open spec fn is_deferred(error: VoiceError) -> bool {
    error.kind is NotReady
}

pub fn is_deferred_voice_audio_error(error: &VoiceError) -> (r: bool)
    ensures
        r == is_deferred(*error),
{
    match error.kind {
        VoiceErrorKind::NotReady => true,
        _ => false,
    }
}

/// An identity by its digits.
pub open spec fn snowflake(s: Seq<char>) -> Option<int> {
    text::read_unsigned(s, u64::MAX as int)
}

/// What a connection is opened with, or what stands against it.
pub open spec fn connection_info(guild_id: Seq<char>, user_id: Seq<char>, voice: VoiceState) -> Result<
    VoiceConnectionInfo,
    PlayerError,
> {
    if snowflake(guild_id) is None {
        Err(PlayerError::Invalid("guild ID is not a Discord snowflake"))
    } else if snowflake(user_id) is None {
        Err(PlayerError::Invalid("user ID is not a Discord snowflake"))
    } else if voice.channel_id is None {
        Err(PlayerError::Invalid("voice channel ID is required"))
    } else if snowflake(voice.channel_id->0@) is None {
        Err(PlayerError::Invalid("channel ID is not a Discord snowflake"))
    } else {
        Ok(
            VoiceConnectionInfo {
                guild_id: snowflake(guild_id)->0 as u64,
                user_id: snowflake(user_id)->0 as u64,
                channel_id: snowflake(voice.channel_id->0@)->0 as u64,
                endpoint: voice.endpoint,
                session_id: voice.session_id,
                token: voice.token,
            },
        )
    }
}

pub fn voice_connection_info(guild_id: &str, user_id: &str, voice: &VoiceState) -> (r: Result<
    VoiceConnectionInfo,
    PlayerError,
>)
    ensures
        r == connection_info(guild_id@, user_id@, *voice),
{
    let guild_id: u64 = match parse_u64(guild_id) {
        Some(id) => id,
        None => return Err(PlayerError::Invalid("guild ID is not a Discord snowflake")),
    };
    let user_id: u64 = match parse_u64(user_id) {
        Some(id) => id,
        None => return Err(PlayerError::Invalid("user ID is not a Discord snowflake")),
    };
    let channel_id: u64 = match &voice.channel_id {
        Some(channel) => match parse_u64(channel.as_str()) {
            Some(id) => id,
            None => return Err(PlayerError::Invalid("channel ID is not a Discord snowflake")),
        },
        None => return Err(PlayerError::Invalid("voice channel ID is required")),
    };
    Ok(
        VoiceConnectionInfo {
            guild_id,
            user_id,
            channel_id,
            endpoint: voice.endpoint.clone(),
            session_id: voice.session_id.clone(),
            token: voice.token.clone(),
        },
    )
}

/// What the watch over a connection receives.
pub enum MonitorEvent {
    Voice(VoiceEvent),
    /// The events ended, or receiving them failed.
    Ended,
}

/// What the watch over a connection does next.
pub enum MonitorAction {
    /// Nothing but to wait for the next event.
    Wait,
    /// Tell the player that the connection is ready.
    Ready,
    /// Tell the player that the connection closed, and stop watching.
    Close(VoiceClose),
    /// Stop watching.
    Stop,
}

/// Whether a close only says that fresh voice information took over.
pub open spec fn is_replacement(close: VoiceClose) -> bool {
    close.code == 0 && close.reason@ == "voice information replaced"@
}

/// Whether the connection counts as connected after an event, and what follows.
pub open spec fn watched(connected: bool, event: MonitorEvent) -> (bool, MonitorAction) {
    match event {
        MonitorEvent::Voice(VoiceEvent::Closed(close)) => if is_replacement(close) {
            (connected, MonitorAction::Wait)
        } else {
            (connected, MonitorAction::Close(close))
        },
        MonitorEvent::Voice(VoiceEvent::PhaseChanged(phase)) => if phase is Connected {
            (
                true,
                if connected {
                    MonitorAction::Wait
                } else {
                    MonitorAction::Ready
                },
            )
        } else {
            (false, MonitorAction::Wait)
        },
        MonitorEvent::Voice(VoiceEvent::SourceFailed(_)) => (connected, MonitorAction::Wait),
        MonitorEvent::Ended => (connected, MonitorAction::Stop),
    }
}

/// One step of the watch over a connection.
pub fn watch(connected: bool, event: MonitorEvent) -> (r: (bool, MonitorAction))
    ensures
        r == watched(connected, event),
{
    match event {
        MonitorEvent::Voice(VoiceEvent::Closed(close)) => {
            if close.code == 0 && same_text(close.reason.as_str(), "voice information replaced") {
                (connected, MonitorAction::Wait)
            } else {
                (connected, MonitorAction::Close(close))
            }
        },
        MonitorEvent::Voice(VoiceEvent::PhaseChanged(phase)) => match phase {
            VoicePhase::Connected => (
                true,
                if connected {
                    MonitorAction::Wait
                } else {
                    MonitorAction::Ready
                },
            ),
            _ => (false, MonitorAction::Wait),
        },
        MonitorEvent::Voice(VoiceEvent::SourceFailed(_)) => (connected, MonitorAction::Wait),
        MonitorEvent::Ended => (connected, MonitorAction::Stop),
    }
}

/// A player hears of a connection once for each time that it becomes
/// connected: between two such messages the connection was something else.
pub proof fn ready_is_told_once_per_connection(connected: bool, event: MonitorEvent)
    ensures
        watched(connected, event).1 is Ready ==> !connected && watched(connected, event).0,
        connected && watched(connected, event).0 ==> watched(connected, event).1 !is Ready,
{
}

/// Whether audio flows, and how long a round trip takes; minus one where it is
/// not known or does not fit.
pub open spec fn ping_of(snapshot: Option<VoiceSnapshot>) -> int {
    match snapshot {
        Some(snapshot) => match snapshot.ping {
            Some(ping) => if ping.nanos / 1_000_000 <= i64::MAX {
                ping.nanos as int / 1_000_000
            } else {
                -1
            },
            None => -1,
        },
        None => -1,
    }
}

pub open spec fn is_connected(snapshot: Option<VoiceSnapshot>) -> bool {
    snapshot matches Some(snapshot) && snapshot.phase is Connected
}

pub fn ping_ms(snapshot: &Option<VoiceSnapshot>) -> (r: i64)
    ensures
        r == ping_of(*snapshot),
{
    match snapshot {
        Some(snapshot) => match snapshot.ping {
            Some(ping) => {
                let millis: u128 = ping.nanos / 1_000_000;
                if millis <= i64::MAX as u128 {
                    millis as i64
                } else {
                    -1
                }
            },
            None => -1,
        },
        None => -1,
    }
}

pub fn connected_now(snapshot: &Option<VoiceSnapshot>) -> (r: bool)
    ensures
        r == is_connected(*snapshot),
{
    match snapshot {
        Some(snapshot) => match snapshot.phase {
            VoicePhase::Connected => true,
            _ => false,
        },
        None => false,
    }
}

} // verus!
