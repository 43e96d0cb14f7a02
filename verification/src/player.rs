//! A player: its state, what an update asks of it, and what it shows.

use crate::filters;
use crate::filters::{validate_filters, FilterConfiguration};
use crate::media;
use crate::media::{track_value, MediaTrack, PlayerError, PlayerSnapshot, PlayerStatus, UserData};
use crate::outside::share;
use crate::protocol::{PatchField, PlayerUpdate, PlayerUpdateTrack, VoiceState};
use crate::session::{PublishError, SessionPlayer};
use crate::stats::SessionPlayerStats;
use crate::text;
use crate::text::{owned, trim};
use crate::voice;
use crate::voice::{connected_now, ping_ms, VoiceSnapshot};
use crate::wire;
use crate::wire::{object, put, put_bool, put_number, put_optional, put_signed, put_text};
use vstd::prelude::*;

verus! {

/// A track that is being played, with the data that its client keeps.
pub struct ActiveTrack {
    pub media: MediaTrack,
    pub user_data: UserData,
}

/// What a player is made of. Connections are told apart by numbers.
pub struct PlayerState {
    /// Whether a media player exists.
    pub has_media: bool,
    /// Whether the player holds on to an outbound connection.
    pub outbound: bool,
    pub voice_connection: Option<u64>,
    pub audio_generation: u64,
    pub track: Option<ActiveTrack>,
    pub volume: i32,
    pub paused: bool,
    pub position_ms: u64,
    pub end_time_ms: Option<u64>,
    /// The filters as clients see them.
    pub filters: String,
    pub filter_configuration: FilterConfiguration,
    pub voice: VoiceState,
    pub destroyed: bool,
    /// Whether everything that runs for the player was told to end.
    pub cancelled: bool,
    /// Whether audio waits until the voice connection is ready.
    pub deferred_audio: bool,
}

impl PlayerState {
    /// Whether commands find the player no more.
    pub open spec fn gone(self) -> bool {
        self.destroyed || self.cancelled
    }

    pub fn new() -> (r: PlayerState)
        ensures
            !r.gone() && !r.has_media && !r.outbound && !r.paused && !r.deferred_audio,
            !r.destroyed && !r.cancelled,
            r.voice_connection is None && r.track is None && r.end_time_ms is None,
            r.audio_generation == 0 && r.volume == 100 && r.position_ms == 0,
            r.filters@ == "{}"@,
            r.filter_configuration == filters::no_filters(),
            r.voice.token@.len() == 0 && r.voice.endpoint@.len() == 0
                && r.voice.session_id@.len() == 0 && r.voice.channel_id is None,
    {
        PlayerState {
            has_media: false,
            outbound: false,
            voice_connection: None,
            audio_generation: 0,
            track: None,
            volume: 100,
            paused: false,
            position_ms: 0,
            end_time_ms: None,
            filters: owned("{}"),
            filter_configuration: FilterConfiguration::default(),
            voice: VoiceState {
                token: String::new(),
                endpoint: String::new(),
                session_id: String::new(),
                channel_id: None,
            },
            destroyed: false,
            cancelled: false,
            deferred_audio: false,
        }
    }
}

/// Whether a text says nothing.
pub open spec fn is_blank(s: Seq<char>) -> bool {
    text::trimmed(s).len() == 0
}

fn blank(s: &str) -> (r: bool)
    ensures
        r == is_blank(s@),
{
    trim(s).as_str().unicode_len() == 0
}

/// Whether a voice state lacks a part.
pub open spec fn voice_incomplete(voice: VoiceState) -> bool {
    is_blank(voice.token@) || is_blank(voice.endpoint@) || is_blank(voice.session_id@)
        || match voice.channel_id {
        Some(channel) => is_blank(channel@),
        None => true,
    }
}

/// The first fault of an update, in the order in which it is looked at.
pub open spec fn update_fault(update: PlayerUpdate, ratio_supported: bool) -> Option<&'static str> {
    if !(update.track is Omitted) && (!(update.encoded_track is Omitted)
        || !(update.identifier is Omitted)) {
        Some("Cannot specify both track and encodedTrack/identifier")
    } else if update.track is Null {
        Some("track must not be null")
    } else if update.identifier is Null {
        Some("identifier must not be null")
    } else if update.position is Null {
        Some("position must not be null")
    } else if update.volume is Null {
        Some("volume must not be null")
    } else if update.paused is Null {
        Some("paused must not be null")
    } else if update.filters is Null {
        Some("filters must not be null")
    } else if update.filters matches PatchField::Value(f) && filters::filters_fault(
        f,
        ratio_supported,
    ) is Some {
        filters::filters_fault(update.filters->Value_0, ratio_supported)
    } else if update.voice is Null {
        Some("voice must not be null")
    } else if update.track matches PatchField::Value(track) && track_fault(track) is Some {
        track_fault(update.track->Value_0)
    } else if update.end_time matches PatchField::Value(end_time) && end_time <= 0 {
        Some("End time must be greater than 0")
    } else if update.voice matches PatchField::Value(voice) && voice_incomplete(voice) {
        Some("token, endpoint, sessionId and channelId must be provided in voice state")
    } else {
        None
    }
}

/// The first fault of the track of an update.
pub open spec fn track_fault(track: PlayerUpdateTrack) -> Option<&'static str> {
    if !(track.encoded is Omitted) && !(track.identifier is Omitted) {
        Some("Cannot specify both encodedTrack and identifier")
    } else if track.identifier is Null {
        Some("identifier must not be null")
    } else if track.user_data is Null {
        Some("userData must not be null")
    } else {
        None
    }
}

fn validate_track(track: &PlayerUpdateTrack) -> (r: Result<(), PlayerError>)
    ensures
        r == filters::refusal(track_fault(*track)),
{
    if !track.encoded.is_omitted() && !track.identifier.is_omitted() {
        return Err(PlayerError::Invalid("Cannot specify both encodedTrack and identifier"));
    }
    if track.identifier.is_null() {
        return Err(PlayerError::Invalid("identifier must not be null"));
    }
    if track.user_data.is_null() {
        return Err(PlayerError::Invalid("userData must not be null"));
    }
    Ok(())
}

fn is_incomplete(voice: &VoiceState) -> (r: bool)
    ensures
        r == voice_incomplete(*voice),
{
    blank(voice.token.as_str()) || blank(voice.endpoint.as_str()) || blank(
        voice.session_id.as_str(),
    ) || match &voice.channel_id {
        Some(channel) => blank(channel.as_str()),
        None => true,
    }
}

/// Checks an update. `ratio_supported` says whether the speed and rate of its
/// timescale combine to a duration that can be played.
pub fn validate_update(update: &PlayerUpdate, ratio_supported: bool) -> (r: Result<(), PlayerError>)
    ensures
        r == filters::refusal(update_fault(*update, ratio_supported)),
{
    if !update.track.is_omitted() && (!update.encoded_track.is_omitted()
        || !update.identifier.is_omitted()) {
        return Err(PlayerError::Invalid("Cannot specify both track and encodedTrack/identifier"));
    }
    if update.track.is_null() {
        return Err(PlayerError::Invalid("track must not be null"));
    }
    if update.identifier.is_null() {
        return Err(PlayerError::Invalid("identifier must not be null"));
    }
    if update.position.is_null() {
        return Err(PlayerError::Invalid("position must not be null"));
    }
    if update.volume.is_null() {
        return Err(PlayerError::Invalid("volume must not be null"));
    }
    if update.paused.is_null() {
        return Err(PlayerError::Invalid("paused must not be null"));
    }
    if update.filters.is_null() {
        return Err(PlayerError::Invalid("filters must not be null"));
    }
    if let PatchField::Value(filters) = &update.filters {
        match validate_filters(filters, ratio_supported) {
            Ok(()) => {},
            Err(error) => return Err(error),
        }
    }
    if update.voice.is_null() {
        return Err(PlayerError::Invalid("voice must not be null"));
    }
    if let PatchField::Value(track) = &update.track {
        match validate_track(track) {
            Ok(()) => {},
            Err(error) => return Err(error),
        }
    }
    if let PatchField::Value(end_time) = &update.end_time {
        if *end_time <= 0 {
            return Err(PlayerError::Invalid("End time must be greater than 0"));
        }
    }
    if let PatchField::Value(voice) = &update.voice {
        if is_incomplete(voice) {
            return Err(
                PlayerError::Invalid(
                    "token, endpoint, sessionId and channelId must be provided in voice state",
                ),
            );
        }
    }
    Ok(())
}

/// What an update asks of the track.
pub enum TrackRequest {
    Omitted,
    Stop,
    Encoded(String),
    Identifier(String),
}

/// What an update asks of the track, and the data it gives for it.
pub struct TrackChange {
    pub request: TrackRequest,
    pub user_data: UserData,
}

/// The track that an update asks for.
pub open spec fn track_change(update: PlayerUpdate) -> Result<TrackChange, PlayerError> {
    if update.track is Null {
        Err(PlayerError::Invalid("track must not be null"))
    } else {
        let encoded = match update.track {
            PatchField::Value(track) => track.encoded,
            _ => update.encoded_track,
        };
        let identifier = match update.track {
            PatchField::Value(track) => track.identifier,
            _ => update.identifier,
        };
        let user_data = match update.track {
            PatchField::Value(track) => match track.user_data {
                PatchField::Value(data) => Some(data),
                _ => None,
            },
            _ => None,
        };
        match (encoded, identifier) {
            (PatchField::Value(value), PatchField::Omitted) => Ok(
                TrackChange { request: TrackRequest::Encoded(value), user_data },
            ),
            (PatchField::Null, PatchField::Omitted) => Ok(
                TrackChange { request: TrackRequest::Stop, user_data },
            ),
            (PatchField::Omitted, PatchField::Value(value)) => Ok(
                TrackChange { request: TrackRequest::Identifier(value), user_data },
            ),
            (PatchField::Omitted, PatchField::Omitted) => Ok(
                TrackChange { request: TrackRequest::Omitted, user_data },
            ),
            _ => Err(PlayerError::Invalid("Cannot specify both encodedTrack and identifier")),
        }
    }
}

pub fn normalized_track(update: &PlayerUpdate) -> (r: Result<TrackChange, PlayerError>)
    ensures
        r == track_change(*update),
{
    let (encoded, identifier, user_data): (&PatchField<String>, &PatchField<String>, UserData) =
        match &update.track {
        PatchField::Value(track) => (
            &track.encoded,
            &track.identifier,
            match &track.user_data {
                PatchField::Value(data) => Some(share(data)),
                _ => None,
            },
        ),
        PatchField::Omitted => (&update.encoded_track, &update.identifier, None),
        PatchField::Null => return Err(PlayerError::Invalid("track must not be null")),
    };
    match (encoded, identifier) {
        (PatchField::Value(value), PatchField::Omitted) => Ok(
            TrackChange { request: TrackRequest::Encoded(value.clone()), user_data },
        ),
        (PatchField::Null, PatchField::Omitted) => Ok(
            TrackChange { request: TrackRequest::Stop, user_data },
        ),
        (PatchField::Omitted, PatchField::Value(value)) => Ok(
            TrackChange { request: TrackRequest::Identifier(value.clone()), user_data },
        ),
        (PatchField::Omitted, PatchField::Omitted) => Ok(
            TrackChange { request: TrackRequest::Omitted, user_data },
        ),
        _ => Err(PlayerError::Invalid("Cannot specify both encodedTrack and identifier")),
    }
}

/// An accepted update asks for at most one track; only the deprecated members
/// can still contradict each other.
pub proof fn accepted_updates_ask_for_one_track(update: PlayerUpdate, ratio_supported: bool)
    requires
        update_fault(update, ratio_supported) is None,
        update.track is Value || update.encoded_track is Omitted || update.identifier is Omitted,
    ensures
        track_change(update) is Ok,
{
}

/// The state after a media player told of itself.
pub open spec fn with_snapshot(state: PlayerState, snapshot: PlayerSnapshot) -> PlayerState {
    let at_rest = snapshot.track is None && (snapshot.status is Idle || snapshot.status is Stopped);
    PlayerState {
        position_ms: snapshot.position_ms,
        paused: snapshot.status is Paused,
        track: if at_rest {
            None
        } else {
            state.track
        },
        outbound: state.outbound && !at_rest,
        ..state
    }
}

pub fn apply_mantle_snapshot(state: &mut PlayerState, snapshot: &PlayerSnapshot)
    ensures
        *final(state) == with_snapshot(*old(state), *snapshot),
{
    state.position_ms = snapshot.position_ms;
    state.paused = match snapshot.status {
        PlayerStatus::Paused => true,
        _ => false,
    };
    let at_rest: bool = snapshot.track.is_none() && match snapshot.status {
        PlayerStatus::Idle => true,
        PlayerStatus::Stopped => true,
        _ => false,
    };
    if at_rest {
        state.track = None;
        state.outbound = false;
    }
}

/// Where playback stands.
pub open spec fn state_json(time_ms: u64, position_ms: u64, connected: bool, ping: int) -> Seq<
    char,
> {
    let m = wire::with_member(Seq::empty(), "connected"@, wire::json_bool(connected));
    let m = wire::with_member(m, "ping"@, text::signed_decimal(ping));
    let m = wire::with_member(m, "position"@, text::decimal(position_ms as nat));
    wire::braces(wire::with_member(m, "time"@, text::decimal(time_ms as nat)))
}

fn state_value(time_ms: u64, position_ms: u64, connected: bool, ping: i64) -> (r: String)
    ensures
        r@ == state_json(time_ms, position_ms, connected, ping as int),
{
    let mut m = String::new();
    put_bool(&mut m, "connected", connected);
    put_signed(&mut m, "ping", ping);
    put_number(&mut m, "position", position_ms);
    put_number(&mut m, "time", time_ms);
    object(m.as_str())
}

/// The message that tells where playback stands.
pub open spec fn update_json(guild_id: Seq<char>, state: Seq<char>) -> Seq<char> {
    let m = wire::with_member(Seq::empty(), "guildId"@, wire::json_quoted(guild_id));
    let m = wire::with_member(m, "op"@, wire::json_quoted("playerUpdate"@));
    wire::braces(wire::with_member(m, "state"@, state))
}

fn update_value(guild_id: &str, state: &str) -> (r: String)
    ensures
        r@ == update_json(guild_id@, state@),
{
    let mut m = String::new();
    put_text(&mut m, "guildId", guild_id);
    put_text(&mut m, "op", "playerUpdate");
    put(&mut m, "state", state);
    object(m.as_str())
}

/// A voice state as clients see it.
pub open spec fn voice_json(voice: VoiceState) -> Seq<char> {
    let m = wire::with_member(Seq::empty(), "channelId"@, wire::json_optional(voice.channel_id));
    let m = wire::with_member(m, "endpoint"@, wire::json_quoted(voice.endpoint@));
    let m = wire::with_member(m, "sessionId"@, wire::json_quoted(voice.session_id@));
    wire::braces(wire::with_member(m, "token"@, wire::json_quoted(voice.token@)))
}

fn voice_value(voice: &VoiceState) -> (r: String)
    ensures
        r@ == voice_json(*voice),
{
    let mut m = String::new();
    put_optional(&mut m, "channelId", &voice.channel_id);
    put_text(&mut m, "endpoint", voice.endpoint.as_str());
    put_text(&mut m, "sessionId", voice.session_id.as_str());
    put_text(&mut m, "token", voice.token.as_str());
    object(m.as_str())
}

/// A player as clients see it.
pub open spec fn player_json(
    guild_id: Seq<char>,
    state: PlayerState,
    snapshot: Option<VoiceSnapshot>,
    time_ms: u64,
) -> Seq<char> {
    let m = wire::with_member(Seq::empty(), "filters"@, state.filters@);
    let m = wire::with_member(m, "guildId"@, wire::json_quoted(guild_id));
    let m = wire::with_member(m, "paused"@, wire::json_bool(state.paused));
    let m = wire::with_member(
        m,
        "state"@,
        state_json(
            time_ms,
            state.position_ms,
            voice::is_connected(snapshot),
            voice::ping_of(snapshot),
        ),
    );
    let m = wire::with_member(
        m,
        "track"@,
        match state.track {
            Some(track) => media::track_json(track.media, state.position_ms, track.user_data),
            None => "null"@,
        },
    );
    let m = wire::with_member(m, "voice"@, voice_json(state.voice));
    wire::braces(wire::with_member(m, "volume"@, text::signed_decimal(state.volume as int)))
}

pub fn player_value(
    guild_id: &str,
    state: &PlayerState,
    snapshot: &Option<VoiceSnapshot>,
    time_ms: u64,
) -> (r: String)
    ensures
        r@ == player_json(guild_id@, *state, *snapshot, time_ms),
{
    let shown = state_value(
        time_ms,
        state.position_ms,
        connected_now(snapshot),
        ping_ms(snapshot),
    );
    let track = match &state.track {
        Some(track) => track_value(&track.media, state.position_ms, &track.user_data),
        None => owned("null"),
    };
    let mut m = String::new();
    put(&mut m, "filters", state.filters.as_str());
    put_text(&mut m, "guildId", guild_id);
    put_bool(&mut m, "paused", state.paused);
    put(&mut m, "state", shown.as_str());
    put(&mut m, "track", track.as_str());
    put(&mut m, "voice", voice_value(&state.voice).as_str());
    put_signed(&mut m, "volume", state.volume as i64);
    object(m.as_str())
}

/// What others see of a player between its commands.
pub struct PlayerCache {
    pub periodic_updates: bool,
    pub stats: SessionPlayerStats,
    /// The message that tells where playback stands.
    pub update: String,
}

/// The counters after a change of state.
pub open spec fn stats_after(
    stats: SessionPlayerStats,
    state: PlayerState,
    snapshot: Option<VoiceSnapshot>,
) -> SessionPlayerStats {
    let playing = state.track is Some && !state.paused && !state.destroyed;
    match snapshot {
        Some(snapshot) => SessionPlayerStats {
            playing,
            sent: snapshot.counters.sent,
            nulled: snapshot.counters.nulled,
            deficit: snapshot.counters.deficit,
        },
        None => SessionPlayerStats { playing, ..stats },
    }
}

/// What others see after a change of state.
pub open spec fn cached(
    before: PlayerCache,
    after: PlayerCache,
    guild_id: Seq<char>,
    state: PlayerState,
    snapshot: Option<VoiceSnapshot>,
    time_ms: u64,
) -> bool {
    &&& after.periodic_updates == (state.track is Some)
    &&& after.stats == stats_after(before.stats, state, snapshot)
    &&& after.update@ == update_json(
        guild_id,
        state_json(
            time_ms,
            state.position_ms,
            voice::is_connected(snapshot),
            voice::ping_of(snapshot),
        ),
    )
}

/// Renews what others see of a player.
pub fn cache_update(
    cache: &mut PlayerCache,
    guild_id: &str,
    state: &PlayerState,
    snapshot: &Option<VoiceSnapshot>,
    time_ms: u64,
)
    ensures
        cached(*old(cache), *final(cache), guild_id@, *state, *snapshot, time_ms),
{
    cache.periodic_updates = state.track.is_some();
    let playing: bool = state.track.is_some() && !state.paused && !state.destroyed;
    cache.stats = match snapshot {
        Some(snapshot) => SessionPlayerStats {
            playing,
            sent: snapshot.counters.sent,
            nulled: snapshot.counters.nulled,
            deficit: snapshot.counters.deficit,
        },
        None => SessionPlayerStats {
            playing,
            sent: cache.stats.sent,
            nulled: cache.stats.nulled,
            deficit: cache.stats.deficit,
        },
    };
    let shown = state_value(
        time_ms,
        state.position_ms,
        connected_now(snapshot),
        ping_ms(snapshot),
    );
    cache.update = update_value(guild_id, shown.as_str());
}

/// The state of a player that has not been told anything.
pub open spec fn default_state_json(time_ms: u64) -> Seq<char> {
    state_json(time_ms, 0, false, -1)
}

pub fn default_player_state(time_ms: u64) -> (r: String)
    ensures
        r@ == default_state_json(time_ms),
{
    state_value(time_ms, 0, false, -1)
}

/// A player of a guild.
pub struct Player {
    /// The session and the guild: commands under one key run one by one.
    pub execution_key: String,
    pub guild_id: String,
    pub state: PlayerState,
    pub cache: PlayerCache,
    pub shutdown_requested: bool,
}

/// The key under which the commands of a player run.
pub open spec fn execution_key(session_id: Seq<char>, guild_id: Seq<char>) -> Seq<char> {
    session_id + seq!['\0'] + guild_id
}

impl Player {
    pub fn new(session_id: &str, guild_id: String, time_ms: u64) -> (r: Player)
        ensures
            r.guild_id == guild_id,
            r.execution_key@ == execution_key(session_id@, guild_id@),
            !r.state.destroyed && !r.state.cancelled && !r.state.has_media && r.state.track is None,
            r.state.voice_connection is None && r.state.audio_generation == 0,
            r.state.volume == 100 && !r.state.paused && r.state.position_ms == 0,
            r.state.end_time_ms is None && !r.state.deferred_audio && !r.state.outbound,
            r.state.filters@ == "{}"@,
            r.state.filter_configuration == filters::no_filters(),
            r.state.voice.token@.len() == 0 && r.state.voice.endpoint@.len() == 0
                && r.state.voice.session_id@.len() == 0 && r.state.voice.channel_id is None,
            !r.cache.periodic_updates,
            r.cache.stats == (SessionPlayerStats { playing: false, sent: 0, nulled: 0, deficit: 0 }),
            r.cache.update@ == update_json(guild_id@, default_state_json(time_ms)),
            !r.shutdown_requested,
    {
        let mut key: String = owned(session_id);
        key.append("\0");
        key.append(guild_id.as_str());
        proof {
            reveal_strlit("\0");
            assert("\0"@ =~= seq!['\0']);
        }
        let update = update_value(guild_id.as_str(), default_player_state(time_ms).as_str());
        Player {
            execution_key: key,
            guild_id,
            state: PlayerState::new(),
            cache: PlayerCache {
                periodic_updates: false,
                stats: SessionPlayerStats { playing: false, sent: 0, nulled: 0, deficit: 0 },
                update,
            },
            shutdown_requested: false,
        }
    }

    /// Tells everything that runs for the player to end. The result says
    /// whether the player is to be shut down, which happens once.
    pub fn shutdown(&mut self) -> (r: bool)
        ensures
            final(self).state == (PlayerState { cancelled: true, ..old(self).state }),
            final(self).shutdown_requested,
            r == !old(self).shutdown_requested,
            final(self).execution_key == old(self).execution_key,
            final(self).guild_id == old(self).guild_id,
            final(self).cache == old(self).cache,
    {
        self.state.cancelled = true;
        let first: bool = !self.shutdown_requested;
        self.shutdown_requested = true;
        first
    }
}

impl SessionPlayer for Player {
    fn guild_id(&self) -> (r: String)
        ensures
            r == self.guild_id,
    {
        self.guild_id.clone()
    }

    fn wants_periodic_updates(&self) -> (r: bool)
        ensures
            r == self.cache.periodic_updates,
    {
        self.cache.periodic_updates
    }

    fn stats(&self) -> (r: SessionPlayerStats)
        ensures
            r == self.cache.stats,
    {
        self.cache.stats
    }

    fn snapshot(&self) -> (r: String)
        ensures
            r == self.cache.update,
    {
        self.cache.update.clone()
    }
}

/// The error that a player command ends with where a message was not taken.
pub open spec fn publish_fault(error: PublishError) -> PlayerError {
    match error {
        PublishError::Full(_) => PlayerError::Overloaded,
        PublishError::Disconnected(_) => PlayerError::NotFound,
    }
}

pub fn map_publish_error(error: &PublishError) -> (r: PlayerError)
    ensures
        r == publish_fault(*error),
{
    match error {
        PublishError::Full(_) => PlayerError::Overloaded,
        PublishError::Disconnected(_) => PlayerError::NotFound,
    }
}

/// A command for a player that is told to end finds it no more; another is
/// refused where the queue is full.
pub open spec fn send_fault(cancelled: bool, full: bool, closed: bool) -> Option<PlayerError> {
    if cancelled {
        Some(PlayerError::NotFound)
    } else if full {
        Some(PlayerError::Overloaded)
    } else if closed {
        Some(PlayerError::NotFound)
    } else {
        None
    }
}

pub fn send_result(cancelled: bool, full: bool, closed: bool) -> (r: Option<PlayerError>)
    ensures
        r == send_fault(cancelled, full, closed),
{
    if cancelled {
        Some(PlayerError::NotFound)
    } else if full {
        Some(PlayerError::Overloaded)
    } else if closed {
        Some(PlayerError::NotFound)
    } else {
        None
    }
}

} // verus!
