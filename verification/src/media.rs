//! Tracks, what sources and playback report of them, and their JSON.

use crate::json;
use crate::json::{object_json, JsonObject};
use crate::json::{validate_json_object, JsonLimitError, JsonPolicy};
use crate::outside::share;
use crate::text;
use crate::text::owned;
use crate::wire;
use crate::wire::{list, object, put, put_bool, put_item, put_number, put_optional, put_signed, put_text};
use std::sync::Arc;
use vstd::prelude::*;

verus! {

/// Why a player command failed.
#[derive(Clone, Copy, Debug, PartialEq, Eq)]
pub enum PlayerError {
    Invalid(&'static str),
    NotFound,
    Overloaded,
    Media(&'static str),
}

impl PlayerError {
    pub fn to_text(&self) -> (r: String)
        ensures
            r@ == match *self {
                PlayerError::Invalid(message) => message@,
                PlayerError::Media(message) => message@,
                PlayerError::NotFound => "Player not found"@,
                PlayerError::Overloaded => "Player executor capacity reached"@,
            },
    {
        match self {
            PlayerError::Invalid(message) => owned(message),
            PlayerError::Media(message) => owned(message),
            PlayerError::NotFound => owned("Player not found"),
            PlayerError::Overloaded => owned("Player executor capacity reached"),
        }
    }
}

/// What is known of a track.
pub struct TrackMetadata {
    pub identifier: String,
    pub title: String,
    pub author: String,
    pub duration_ms: u64,
    pub seekable: bool,
    pub stream: bool,
    pub source_name: String,
    pub uri: Option<String>,
    pub artwork_url: Option<String>,
    pub isrc: Option<String>,
}

pub fn copy_optional(text: &Option<String>) -> (r: Option<String>)
    ensures
        r == *text,
{
    match text {
        Some(text) => Some(text.clone()),
        None => None,
    }
}

impl Clone for TrackMetadata {
    fn clone(&self) -> (r: TrackMetadata)
        ensures
            r == *self,
    {
        TrackMetadata {
            identifier: self.identifier.clone(),
            title: self.title.clone(),
            author: self.author.clone(),
            duration_ms: self.duration_ms,
            seekable: self.seekable,
            stream: self.stream,
            source_name: self.source_name.clone(),
            uri: copy_optional(&self.uri),
            artwork_url: copy_optional(&self.artwork_url),
            isrc: copy_optional(&self.isrc),
        }
    }
}

/// A track that a source can play.
pub struct MediaTrack {
    pub encoded: String,
    pub metadata: TrackMetadata,
    pub plugin_info: Arc<JsonObject>,
}

impl Clone for MediaTrack {
    fn clone(&self) -> (r: MediaTrack)
        ensures
            r == *self,
    {
        MediaTrack {
            encoded: self.encoded.clone(),
            metadata: self.metadata.clone(),
            plugin_info: share(&self.plugin_info),
        }
    }
}

/// The members of a track's description.
pub open spec fn info_json(metadata: TrackMetadata, position_ms: u64) -> Seq<char> {
    let m = Seq::<char>::empty();
    let m = wire::with_member(m, "artworkUrl"@, wire::json_optional(metadata.artwork_url));
    let m = wire::with_member(m, "author"@, wire::json_quoted(metadata.author@));
    let m = wire::with_member(m, "identifier"@, wire::json_quoted(metadata.identifier@));
    let m = wire::with_member(m, "isSeekable"@, wire::json_bool(metadata.seekable));
    let m = wire::with_member(m, "isStream"@, wire::json_bool(metadata.stream));
    let m = wire::with_member(m, "isrc"@, wire::json_optional(metadata.isrc));
    let m = wire::with_member(m, "length"@, text::decimal(metadata.duration_ms as nat));
    let m = wire::with_member(m, "position"@, text::decimal(position_ms as nat));
    let m = wire::with_member(m, "sourceName"@, wire::json_quoted(metadata.source_name@));
    let m = wire::with_member(m, "title"@, wire::json_quoted(metadata.title@));
    let m = wire::with_member(m, "uri"@, wire::json_optional(metadata.uri));
    wire::braces(m)
}

fn info_value(metadata: &TrackMetadata, position_ms: u64) -> (r: String)
    ensures
        r@ == info_json(*metadata, position_ms),
{
    let mut m = String::new();
    put_optional(&mut m, "artworkUrl", &metadata.artwork_url);
    put_text(&mut m, "author", metadata.author.as_str());
    put_text(&mut m, "identifier", metadata.identifier.as_str());
    put_bool(&mut m, "isSeekable", metadata.seekable);
    put_bool(&mut m, "isStream", metadata.stream);
    put_optional(&mut m, "isrc", &metadata.isrc);
    put_number(&mut m, "length", metadata.duration_ms);
    put_number(&mut m, "position", position_ms);
    put_text(&mut m, "sourceName", metadata.source_name.as_str());
    put_text(&mut m, "title", metadata.title.as_str());
    put_optional(&mut m, "uri", &metadata.uri);
    object(m.as_str())
}

/// The data that a client keeps with a track; none counts as an empty object.
pub type UserData = Option<Arc<JsonObject>>;

pub open spec fn user_data_json(data: UserData) -> Seq<char> {
    match data {
        Some(object) => json::object_text(*object),
        None => wire::braces(Seq::empty()),
    }
}

fn user_data_value(data: &UserData) -> (r: String)
    ensures
        r@ == user_data_json(*data),
{
    match data {
        Some(data) => object_json(data),
        None => object(String::new().as_str()),
    }
}

pub fn share_data(data: &UserData) -> (r: UserData)
    ensures
        r == *data,
{
    match data {
        Some(data) => Some(share(data)),
        None => None,
    }
}

/// A track with a position and the data that a client keeps with it.
pub open spec fn track_json(
    track: MediaTrack,
    position_ms: u64,
    user_data: UserData,
) -> Seq<char> {
    let m = Seq::<char>::empty();
    let m = wire::with_member(m, "encoded"@, wire::json_quoted(track.encoded@));
    let m = wire::with_member(m, "info"@, info_json(track.metadata, position_ms));
    let m = wire::with_member(m, "pluginInfo"@, json::object_text(*track.plugin_info));
    let m = wire::with_member(m, "userData"@, user_data_json(user_data));
    wire::braces(m)
}

pub fn track_value(track: &MediaTrack, position_ms: u64, user_data: &UserData) -> (r: String)
    ensures
        r@ == track_json(*track, position_ms, *user_data),
{
    let mut m = String::new();
    put_text(&mut m, "encoded", track.encoded.as_str());
    put(&mut m, "info", info_value(&track.metadata, position_ms).as_str());
    put(&mut m, "pluginInfo", object_json(&track.plugin_info).as_str());
    put(&mut m, "userData", user_data_value(user_data).as_str());
    object(m.as_str())
}

/// A track as a load gives it: at its start, with no data of a client.
pub open spec fn loaded_track_json(track: MediaTrack) -> Seq<char> {
    track_json(track, 0, None)
}

pub fn loaded_track_value(track: &MediaTrack) -> (r: String)
    ensures
        r@ == loaded_track_json(*track),
{
    track_value(track, 0, &None)
}

/// What a playlist is called and where it starts.
pub struct PlaylistInfo {
    pub name: String,
    pub selected_track: Option<usize>,
}

/// What a load found.
pub enum LoadOutcome {
    Track(MediaTrack),
    Search(Vec<MediaTrack>),
    Playlist { info: PlaylistInfo, plugin_info: Arc<JsonObject>, tracks: Vec<MediaTrack> },
    NoMatches,
}

/// The loaded tracks with commas between them.
pub open spec fn loaded_tracks(tracks: Seq<MediaTrack>) -> Seq<char>
    decreases tracks.len(),
{
    if tracks.len() == 0 {
        Seq::empty()
    } else {
        wire::with_item(loaded_tracks(tracks.drop_last()), loaded_track_json(tracks.last()))
    }
}

fn tracks_value(tracks: &Vec<MediaTrack>) -> (r: String)
    ensures
        r@ == wire::brackets(loaded_tracks(tracks@)),
{
    let mut items = String::new();
    let mut i: usize = 0;
    while i < tracks.len()
        invariant
            i <= tracks@.len(),
            items@ == loaded_tracks(tracks@.take(i as int)),
        decreases tracks@.len() - i,
    {
        put_item(&mut items, loaded_track_value(&tracks[i]).as_str());
        proof {
            assert(tracks@.take(i + 1).drop_last() =~= tracks@.take(i as int));
        }
        i = i + 1;
    }
    assert(tracks@.take(i as int) =~= tracks@);
    list(items.as_str())
}

/// The place of the selected track, or minus one.
pub open spec fn selected_json(selected: Option<usize>) -> int {
    match selected {
        Some(index) => if index <= i64::MAX {
            index as int
        } else {
            i64::MAX as int
        },
        None => -1,
    }
}

/// A playlist with its tracks.
pub open spec fn playlist_json(
    info: PlaylistInfo,
    plugin_info: JsonObject,
    tracks: Seq<MediaTrack>,
) -> Seq<char> {
    let about = wire::with_member(Seq::empty(), "name"@, wire::json_quoted(info.name@));
    let about = wire::with_member(
        about,
        "selectedTrack"@,
        text::signed_decimal(selected_json(info.selected_track)),
    );
    let m = wire::with_member(Seq::empty(), "info"@, wire::braces(about));
    let m = wire::with_member(m, "pluginInfo"@, json::object_text(plugin_info));
    let m = wire::with_member(m, "tracks"@, wire::brackets(loaded_tracks(tracks)));
    wire::braces(m)
}

/// The answer to a load.
pub open spec fn load_result_json(outcome: LoadOutcome) -> Seq<char> {
    let (data, kind) = match outcome {
        LoadOutcome::Track(track) => (loaded_track_json(track), "track"@),
        LoadOutcome::Search(tracks) => (wire::brackets(loaded_tracks(tracks@)), "search"@),
        LoadOutcome::Playlist { info, plugin_info, tracks } => (
            playlist_json(info, *plugin_info, tracks@),
            "playlist"@,
        ),
        LoadOutcome::NoMatches => ("null"@, "empty"@),
    };
    let m = wire::with_member(Seq::empty(), "data"@, data);
    wire::braces(wire::with_member(m, "loadType"@, wire::json_quoted(kind)))
}

fn playlist_value(info: &PlaylistInfo, plugin_info: &JsonObject, tracks: &Vec<MediaTrack>) -> (r:
    String)
    ensures
        r@ == playlist_json(*info, *plugin_info, tracks@),
{
    let selected: i64 = match info.selected_track {
        Some(index) => {
            let index: u64 = index as u64;
            if index <= i64::MAX as u64 {
                index as i64
            } else {
                i64::MAX
            }
        },
        None => -1,
    };
    let mut about = String::new();
    put_text(&mut about, "name", info.name.as_str());
    put_signed(&mut about, "selectedTrack", selected);
    let mut m = String::new();
    put(&mut m, "info", object(about.as_str()).as_str());
    put(&mut m, "pluginInfo", object_json(plugin_info).as_str());
    put(&mut m, "tracks", tracks_value(tracks).as_str());
    object(m.as_str())
}

pub fn load_result_value(outcome: &LoadOutcome) -> (r: String)
    ensures
        r@ == load_result_json(*outcome),
{
    let mut m = String::new();
    match outcome {
        LoadOutcome::Track(track) => {
            put(&mut m, "data", loaded_track_value(track).as_str());
            put_text(&mut m, "loadType", "track");
        },
        LoadOutcome::Search(tracks) => {
            put(&mut m, "data", tracks_value(tracks).as_str());
            put_text(&mut m, "loadType", "search");
        },
        LoadOutcome::Playlist { info, plugin_info, tracks } => {
            put(&mut m, "data", playlist_value(info, plugin_info, tracks).as_str());
            put_text(&mut m, "loadType", "playlist");
        },
        LoadOutcome::NoMatches => {
            put(&mut m, "data", "null");
            put_text(&mut m, "loadType", "empty");
        },
    }
    object(m.as_str())
}

pub fn validate_media_track(track: &MediaTrack, policy: JsonPolicy) -> (r: Result<
    (),
    JsonLimitError,
>)
    ensures
        r is Ok <==> json::retainable(*track.plugin_info, policy),
{
    validate_json_object(&track.plugin_info, policy)
}

/// Whether the limits hold of everything that an outcome would keep.
pub open spec fn outcome_retainable(outcome: LoadOutcome, policy: JsonPolicy) -> bool {
    match outcome {
        LoadOutcome::Track(track) => json::retainable(*track.plugin_info, policy),
        LoadOutcome::Search(tracks) => tracks_retainable(tracks@, policy),
        LoadOutcome::Playlist { plugin_info, tracks, .. } => json::retainable(*plugin_info, policy)
            && tracks_retainable(tracks@, policy),
        LoadOutcome::NoMatches => true,
    }
}

pub open spec fn tracks_retainable(tracks: Seq<MediaTrack>, policy: JsonPolicy) -> bool {
    forall|i: int|
        0 <= i < tracks.len() ==> json::retainable(*(#[trigger] tracks[i]).plugin_info, policy)
}

fn validate_tracks(tracks: &Vec<MediaTrack>, policy: JsonPolicy) -> (r: Result<(), JsonLimitError>)
    ensures
        r is Ok <==> tracks_retainable(tracks@, policy),
{
    let mut i: usize = 0;
    while i < tracks.len()
        invariant
            i <= tracks@.len(),
            tracks_retainable(tracks@.take(i as int), policy),
        decreases tracks@.len() - i,
    {
        if validate_media_track(&tracks[i], policy).is_err() {
            assert(!json::retainable(*tracks@[i as int].plugin_info, policy));
            return Err(JsonLimitError);
        }
        assert(tracks_retainable(tracks@.take(i + 1), policy)) by {
            assert forall|k: int| 0 <= k < i + 1 implies json::retainable(
                *(#[trigger] tracks@.take(i + 1)[k]).plugin_info,
                policy,
            ) by {
                if k < i {
                    assert(tracks@.take(i as int)[k] == tracks@[k]);
                }
            }
        }
        i = i + 1;
    }
    assert(tracks@.take(i as int) =~= tracks@);
    Ok(())
}

pub fn validate_load_outcome(outcome: &LoadOutcome, policy: JsonPolicy) -> (r: Result<
    (),
    JsonLimitError,
>)
    ensures
        r is Ok <==> outcome_retainable(*outcome, policy),
{
    match outcome {
        LoadOutcome::Track(track) => validate_media_track(track, policy),
        LoadOutcome::Search(tracks) => validate_tracks(tracks, policy),
        LoadOutcome::Playlist { plugin_info, tracks, .. } => {
            match validate_json_object(plugin_info, policy) {
                Ok(()) => validate_tracks(tracks, policy),
                Err(error) => Err(error),
            }
        },
        LoadOutcome::NoMatches => Ok(()),
    }
}

/// Why a track ended.
#[derive(Clone, Copy, Debug, PartialEq, Eq, Structural)]
pub enum TrackEndReason {
    Finished,
    LoadFailed,
    Stopped,
    Replaced,
    Cleanup,
}

/// What playback reports.
pub enum MediaEvent {
    TrackStart(MediaTrack),
    TrackEnd { track: MediaTrack, reason: TrackEndReason },
    TrackError { track: MediaTrack, message: String },
    TrackStuck { track: MediaTrack, threshold_ms: u64 },
}

pub open spec fn reason_name(reason: TrackEndReason) -> Seq<char> {
    match reason {
        TrackEndReason::Finished => "finished"@,
        TrackEndReason::LoadFailed => "loadFailed"@,
        TrackEndReason::Stopped => "stopped"@,
        TrackEndReason::Replaced => "replaced"@,
        TrackEndReason::Cleanup => "cleanup"@,
    }
}

/// What an exception event tells of the failure.
pub open spec fn exception_json(message: Seq<char>) -> Seq<char> {
    let m = wire::with_member(Seq::empty(), "cause"@, wire::json_quoted(message));
    let m = wire::with_member(m, "causeStackTrace"@, wire::json_quoted(message));
    let m = wire::with_member(m, "message"@, wire::json_quoted(message));
    wire::braces(wire::with_member(m, "severity"@, wire::json_quoted("fault"@)))
}

fn exception_value(message: &str) -> (r: String)
    ensures
        r@ == exception_json(message@),
{
    let mut m = String::new();
    put_text(&mut m, "cause", message);
    put_text(&mut m, "causeStackTrace", message);
    put_text(&mut m, "message", message);
    put_text(&mut m, "severity", "fault");
    object(m.as_str())
}

/// What clients are told of a track that failed while it played.
pub open spec fn failure_json(
    guild_id: Seq<char>,
    track: MediaTrack,
    message: Seq<char>,
    user_data: UserData,
) -> Seq<char> {
    let m = Seq::<char>::empty();
    let m = wire::with_member(m, "exception"@, exception_json(message));
    let m = wire::with_member(m, "guildId"@, wire::json_quoted(guild_id));
    let m = wire::with_member(m, "op"@, wire::json_quoted("event"@));
    let m = wire::with_member(m, "track"@, track_json(track, 0, user_data));
    let m = wire::with_member(m, "type"@, wire::json_quoted("TrackExceptionEvent"@));
    wire::braces(m)
}

pub fn failure_value(guild_id: &str, track: &MediaTrack, message: &str, user_data: &UserData) -> (r:
    String)
    ensures
        r@ == failure_json(guild_id@, *track, message@, *user_data),
{
    let mut m = String::new();
    put(&mut m, "exception", exception_value(message).as_str());
    put_text(&mut m, "guildId", guild_id);
    put_text(&mut m, "op", "event");
    put(&mut m, "track", track_value(track, 0, user_data).as_str());
    put_text(&mut m, "type", "TrackExceptionEvent");
    object(m.as_str())
}

/// An event as clients receive it.
pub open spec fn event_json(guild_id: Seq<char>, event: MediaEvent, user_data: UserData) -> Seq<
    char,
> {
    let guild = wire::json_quoted(guild_id);
    let op = wire::json_quoted("event"@);
    match event {
        MediaEvent::TrackStart(track) => {
            let m = Seq::<char>::empty();
            let m = wire::with_member(m, "guildId"@, guild);
            let m = wire::with_member(m, "op"@, op);
            let m = wire::with_member(m, "track"@, track_json(track, 0, user_data));
            let m = wire::with_member(m, "type"@, wire::json_quoted("TrackStartEvent"@));
            wire::braces(m)
        },
        MediaEvent::TrackEnd { track, reason } => {
            let m = Seq::<char>::empty();
            let m = wire::with_member(m, "guildId"@, guild);
            let m = wire::with_member(m, "op"@, op);
            let m = wire::with_member(m, "reason"@, wire::json_quoted(reason_name(reason)));
            let m = wire::with_member(m, "track"@, track_json(track, 0, user_data));
            let m = wire::with_member(m, "type"@, wire::json_quoted("TrackEndEvent"@));
            wire::braces(m)
        },
        MediaEvent::TrackError { track, message } => failure_json(
            guild_id,
            track,
            message@,
            user_data,
        ),
        MediaEvent::TrackStuck { track, threshold_ms } => {
            let m = Seq::<char>::empty();
            let m = wire::with_member(m, "guildId"@, guild);
            let m = wire::with_member(m, "op"@, op);
            let m = wire::with_member(m, "thresholdMs"@, text::decimal(threshold_ms as nat));
            let m = wire::with_member(m, "track"@, track_json(track, 0, user_data));
            let m = wire::with_member(m, "type"@, wire::json_quoted("TrackStuckEvent"@));
            wire::braces(m)
        },
    }
}

fn reason_text(reason: TrackEndReason) -> (r: &'static str)
    ensures
        r@ == reason_name(reason),
{
    match reason {
        TrackEndReason::Finished => "finished",
        TrackEndReason::LoadFailed => "loadFailed",
        TrackEndReason::Stopped => "stopped",
        TrackEndReason::Replaced => "replaced",
        TrackEndReason::Cleanup => "cleanup",
    }
}

pub fn event_value(guild_id: &str, event: &MediaEvent, user_data: &UserData) -> (r: String)
    ensures
        r@ == event_json(guild_id@, *event, *user_data),
{
    let mut m = String::new();
    match event {
        MediaEvent::TrackStart(track) => {
            put_text(&mut m, "guildId", guild_id);
            put_text(&mut m, "op", "event");
            put(&mut m, "track", track_value(track, 0, user_data).as_str());
            put_text(&mut m, "type", "TrackStartEvent");
        },
        MediaEvent::TrackEnd { track, reason } => {
            put_text(&mut m, "guildId", guild_id);
            put_text(&mut m, "op", "event");
            put_text(&mut m, "reason", reason_text(*reason));
            put(&mut m, "track", track_value(track, 0, user_data).as_str());
            put_text(&mut m, "type", "TrackEndEvent");
        },
        MediaEvent::TrackError { track, message } => {
            return failure_value(guild_id, track, message.as_str(), user_data);
        },
        MediaEvent::TrackStuck { track, threshold_ms } => {
            put_text(&mut m, "guildId", guild_id);
            put_text(&mut m, "op", "event");
            put_number(&mut m, "thresholdMs", *threshold_ms);
            put(&mut m, "track", track_value(track, 0, user_data).as_str());
            put_text(&mut m, "type", "TrackStuckEvent");
        },
    }
    object(m.as_str())
}

/// How an adapter refused.
#[derive(Clone, Copy, Debug, PartialEq, Eq, Structural)]
pub enum AdapterErrorKind {
    LoadFailed,
    InvalidTrack,
    InvalidOperation,
    Overloaded,
    Cancelled,
    Shutdown,
}

/// A refusal of an adapter.
#[derive(Clone, Copy, Debug, PartialEq, Eq)]
pub struct AdapterError {
    pub kind: AdapterErrorKind,
    pub message: &'static str,
}

/// The error that a player command ends with where the adapter refused.
pub open spec fn adapter_fault(error: AdapterError) -> PlayerError {
    match error.kind {
        AdapterErrorKind::InvalidTrack => PlayerError::Invalid(error.message),
        AdapterErrorKind::LoadFailed => PlayerError::Invalid(error.message),
        AdapterErrorKind::Overloaded => PlayerError::Overloaded,
        _ => PlayerError::Media(error.message),
    }
}

pub fn map_adapter_error(error: AdapterError) -> (r: PlayerError)
    ensures
        r == adapter_fault(error),
{
    match error.kind {
        AdapterErrorKind::InvalidTrack => PlayerError::Invalid(error.message),
        AdapterErrorKind::LoadFailed => PlayerError::Invalid(error.message),
        AdapterErrorKind::Overloaded => PlayerError::Overloaded,
        _ => PlayerError::Media(error.message),
    }
}

/// What a media player is doing.
#[derive(Clone, Copy, Debug, PartialEq, Eq, Structural)]
pub enum PlayerStatus {
    Idle,
    Playing,
    Paused,
    Stopped,
    Shutdown,
}

/// What a media player tells of itself.
pub struct PlayerSnapshot {
    pub status: PlayerStatus,
    pub track: Option<MediaTrack>,
    pub position_ms: u64,
}

} // verus!
