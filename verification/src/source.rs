//! Sources of tracks: what a load and the opening of a track lead to, and the
//! texts by which tracks are kept.

use crate::config::Address;
use crate::json::JsonObject;
use crate::media::{copy_optional, AdapterError, AdapterErrorKind, LoadOutcome, MediaTrack, PlaylistInfo, TrackMetadata};
use crate::encoding;
use crate::outside::{decode_standard_base64, encode_standard_base64};
use crate::span;
use crate::span::Span;
use crate::text::owned;
use crate::text_map::TextMap;
use std::sync::Arc;
use vstd::prelude::*;

verus! {

/// The largest ceiling for staged sources, in bytes.
pub const MAX_STAGING_BYTES: u64 = 67_108_864;

/// What an operator chooses of the sources.
#[derive(Clone, Copy, Debug, PartialEq, Eq)]
pub struct MantleAdapterOptions {
    /// Compressed objects up to this size are staged; zero disables it.
    pub staging_max_bytes: u64,
    pub allow_youtube_search: bool,
    pub max_playlist_pages: usize,
    pub connect_timeout: Span,
    pub request_timeout: Span,
}

impl Default for MantleAdapterOptions {
    fn default() -> (r: MantleAdapterOptions)
        ensures
            r.staging_max_bytes == 0,
            r.allow_youtube_search,
            r.max_playlist_pages == 6,
            r.connect_timeout.nanos == 10 * span::NANOS_PER_SECOND,
            r.request_timeout.nanos == 30 * span::NANOS_PER_SECOND,
    {
        MantleAdapterOptions {
            staging_max_bytes: 0,
            allow_youtube_search: true,
            max_playlist_pages: 6,
            connect_timeout: Span::from_secs(10),
            request_timeout: Span::from_secs(30),
        }
    }
}

impl MantleAdapterOptions {
    /// Checks the options.
    pub fn check(&self) -> (r: Result<(), AdapterError>)
        ensures
            r == if self.staging_max_bytes > MAX_STAGING_BYTES {
                Err::<(), AdapterError>(
                    invalid_operation_fault("source staging ceiling exceeds 64 MiB"),
                )
            } else {
                Ok(())
            },
    {
        if self.staging_max_bytes > MAX_STAGING_BYTES {
            Err(invalid_operation("source staging ceiling exceeds 64 MiB"))
        } else {
            Ok(())
        }
    }
}

pub open spec fn cancelled_fault() -> AdapterError {
    AdapterError { kind: AdapterErrorKind::Cancelled, message: "operation cancelled" }
}

pub open spec fn shutdown_fault() -> AdapterError {
    AdapterError { kind: AdapterErrorKind::Shutdown, message: "adapter shut down" }
}

pub open spec fn load_failed_fault() -> AdapterError {
    AdapterError {
        kind: AdapterErrorKind::LoadFailed,
        message: "Mantle source or playback failed",
    }
}

pub open spec fn invalid_track_fault() -> AdapterError {
    AdapterError { kind: AdapterErrorKind::InvalidTrack, message: "invalid encoded track" }
}

pub open spec fn invalid_operation_fault(message: &'static str) -> AdapterError {
    AdapterError { kind: AdapterErrorKind::InvalidOperation, message }
}

pub open spec fn overloaded_fault() -> AdapterError {
    AdapterError {
        kind: AdapterErrorKind::Overloaded,
        message: "Mantle player command or event queue full",
    }
}

pub fn cancelled() -> (r: AdapterError)
    ensures
        r == cancelled_fault(),
{
    AdapterError { kind: AdapterErrorKind::Cancelled, message: "operation cancelled" }
}

pub fn shutdown() -> (r: AdapterError)
    ensures
        r == shutdown_fault(),
{
    AdapterError { kind: AdapterErrorKind::Shutdown, message: "adapter shut down" }
}

pub fn load_failed() -> (r: AdapterError)
    ensures
        r == load_failed_fault(),
{
    AdapterError { kind: AdapterErrorKind::LoadFailed, message: "Mantle source or playback failed" }
}

pub fn invalid_track() -> (r: AdapterError)
    ensures
        r == invalid_track_fault(),
{
    AdapterError { kind: AdapterErrorKind::InvalidTrack, message: "invalid encoded track" }
}

pub fn invalid_operation(message: &'static str) -> (r: AdapterError)
    ensures
        r == invalid_operation_fault(message),
{
    AdapterError { kind: AdapterErrorKind::InvalidOperation, message }
}

pub fn overloaded() -> (r: AdapterError)
    ensures
        r == overloaded_fault(),
{
    AdapterError {
        kind: AdapterErrorKind::Overloaded,
        message: "Mantle player command or event queue full",
    }
}

/// Whether an operation may begin.
pub open spec fn tokens_fault(shut_down: bool, cancelled: bool) -> Result<(), AdapterError> {
    if cancelled {
        Err(cancelled_fault())
    } else if shut_down {
        Err(shutdown_fault())
    } else {
        Ok(())
    }
}

pub fn check_tokens(shut_down: bool, cancelled: bool) -> (r: Result<(), AdapterError>)
    ensures
        r == tokens_fault(shut_down, cancelled),
{
    if cancelled {
        Err(self::cancelled())
    } else if shut_down {
        Err(shutdown())
    } else {
        Ok(())
    }
}

/// How a command for a media player fares before it is answered.
#[derive(Clone, Copy, Debug, PartialEq, Eq, Structural)]
pub enum Sending {
    Sent,
    Full,
    Closed,
}

/// Whether a command for a media player is sent, and how it fares.
pub open spec fn request_fault(shut_down: bool, cancelled: bool, sending: Sending) -> Result<
    (),
    AdapterError,
> {
    if shut_down {
        Err(shutdown_fault())
    } else if cancelled {
        Err(cancelled_fault())
    } else {
        match sending {
            Sending::Sent => Ok(()),
            Sending::Full => Err(overloaded_fault()),
            Sending::Closed => Err(shutdown_fault()),
        }
    }
}

pub fn check_request(shut_down: bool, cancelled: bool, sending: Sending) -> (r: Result<
    (),
    AdapterError,
>)
    ensures
        r == request_fault(shut_down, cancelled, sending),
{
    if shut_down {
        Err(shutdown())
    } else if cancelled {
        Err(self::cancelled())
    } else {
        match sending {
            Sending::Sent => Ok(()),
            Sending::Full => Err(overloaded()),
            Sending::Closed => Err(shutdown()),
        }
    }
}

/// What a source knows of a track.
pub struct TrackInfo {
    pub title: String,
    pub author: String,
    pub duration: Span,
    pub identifier: String,
    pub is_stream: bool,
    pub uri: Option<String>,
    pub artwork_url: Option<String>,
    pub isrc: Option<String>,
}

/// Whether the metadata tells what the source knows.
pub open spec fn is_metadata_of(
    metadata: TrackMetadata,
    info: TrackInfo,
    source_name: Seq<char>,
) -> bool {
    &&& metadata.identifier == info.identifier
    &&& metadata.title == info.title
    &&& metadata.author == info.author
    &&& metadata.duration_ms == span::millis_of(info.duration)
    &&& metadata.seekable == !info.is_stream
    &&& metadata.stream == info.is_stream
    &&& metadata.source_name@ == source_name
    &&& metadata.uri == info.uri
    &&& metadata.artwork_url == info.artwork_url
    &&& metadata.isrc == info.isrc
}

pub fn info_to_metadata(info: &TrackInfo, source_name: &str) -> (r: TrackMetadata)
    ensures
        is_metadata_of(r, *info, source_name@),
{
    TrackMetadata {
        identifier: info.identifier.clone(),
        title: info.title.clone(),
        author: info.author.clone(),
        duration_ms: info.duration.as_millis(),
        seekable: !info.is_stream,
        stream: info.is_stream,
        source_name: owned(source_name),
        uri: copy_optional(&info.uri),
        artwork_url: copy_optional(&info.artwork_url),
        isrc: copy_optional(&info.isrc),
    }
}

/// What a source is told of a track.
pub open spec fn info_of(metadata: TrackMetadata) -> TrackInfo {
    TrackInfo {
        title: metadata.title,
        author: metadata.author,
        duration: Span { nanos: (metadata.duration_ms * 1_000_000) as u128 },
        identifier: metadata.identifier,
        is_stream: metadata.stream,
        uri: metadata.uri,
        artwork_url: metadata.artwork_url,
        isrc: metadata.isrc,
    }
}

pub fn metadata_to_info(metadata: &TrackMetadata) -> (r: TrackInfo)
    ensures
        r == info_of(*metadata),
{
    TrackInfo {
        title: metadata.title.clone(),
        author: metadata.author.clone(),
        duration: Span::from_millis(metadata.duration_ms),
        identifier: metadata.identifier.clone(),
        is_stream: metadata.stream,
        uri: copy_optional(&metadata.uri),
        artwork_url: copy_optional(&metadata.artwork_url),
        isrc: copy_optional(&metadata.isrc),
    }
}

/// What a source is told of a track tells the same metadata again, as long as
/// only streams cannot be sought in.
pub proof fn metadata_survives_the_source(metadata: TrackMetadata, again: TrackMetadata)
    requires
        metadata.seekable == !metadata.stream,
        is_metadata_of(again, info_of(metadata), metadata.source_name@),
    ensures
        again.identifier == metadata.identifier,
        again.title == metadata.title,
        again.author == metadata.author,
        again.duration_ms == metadata.duration_ms,
        again.seekable == metadata.seekable,
        again.stream == metadata.stream,
        again.source_name@ == metadata.source_name@,
        again.uri == metadata.uri,
        again.artwork_url == metadata.artwork_url,
        again.isrc == metadata.isrc,
{
}

/// Whether bytes can be written as a text.
pub open spec fn encodable(bytes: Seq<u8>) -> bool {
    bytes.len() <= isize::MAX / 4 * 3
}

/// The text by which a serialized track is kept: it stands for its bytes.
pub fn encode_track(serialized: &Option<Vec<u8>>) -> (r: Result<String, AdapterError>)
    requires
        serialized matches Some(bytes) ==> encodable(bytes@),
    ensures
        match serialized {
            Some(bytes) => r matches Ok(text) && text@ == encoding::standard_base64_text(bytes@)
                && encoding::standard_base64_bytes(text@) == Some(bytes@),
            None => r == Err::<String, AdapterError>(invalid_track_fault()),
        },
{
    match serialized {
        Some(bytes) => {
            proof {
                encoding::what_was_written_is_read(bytes@);
            }
            Ok(encode_standard_base64(bytes))
        },
        None => Err(invalid_track()),
    }
}

/// The bytes that a kept text stands for.
pub fn decode_track(encoded: &str) -> (r: Result<Vec<u8>, AdapterError>)
    ensures
        match encoding::standard_base64_bytes(encoded@) {
            Some(bytes) => r matches Ok(decoded) && decoded@ == bytes,
            None => r == Err::<Vec<u8>, AdapterError>(invalid_track_fault()),
        },
{
    match decode_standard_base64(encoded) {
        Some(bytes) => {
            proof {
                encoding::what_was_written_is_read(bytes@);
            }
            Ok(bytes)
        },
        None => Err(invalid_track()),
    }
}

/// What the bytes of a kept track were deserialized to.
pub enum DecodedItem {
    /// They were not understood, or no source knows them.
    Unknown,
    /// `playable` is the identifier to play; a playlist has none.
    Known { info: TrackInfo, source_name: Option<String>, playable: Option<String> },
}

/// The track that a kept text stands for.
pub fn decode_media_track(encoded: String, item: DecodedItem) -> (r: Result<
    MediaTrack,
    AdapterError,
>)
    ensures
        match item {
            DecodedItem::Known { info, source_name: Some(name), .. } => r matches Ok(track)
                && track.encoded == encoded && is_metadata_of(track.metadata, info, name@)
                && track.plugin_info.entries@.len() == 0,
            _ => r is Err && r->Err_0 == invalid_track_fault(),
        },
{
    match item {
        DecodedItem::Known { info, source_name: Some(name), .. } => Ok(
            MediaTrack {
                encoded,
                metadata: info_to_metadata(&info, name.as_str()),
                plugin_info: Arc::new(TextMap::new()),
            },
        ),
        _ => Err(invalid_track()),
    }
}

/// A track that a source found, with its bytes where it could be serialized.
pub struct SourceTrack {
    pub info: TrackInfo,
    pub serialized: Option<Vec<u8>>,
}

/// What a source found.
pub enum SourceItem {
    Track(SourceTrack),
    Playlist {
        name: String,
        selected_track: Option<usize>,
        is_search_result: bool,
        tracks: Vec<SourceTrack>,
    },
}

pub open spec fn source_encodable(track: SourceTrack) -> bool {
    track.serialized matches Some(bytes) ==> encodable(bytes@)
}

pub open spec fn item_encodable(item: SourceItem) -> bool {
    match item {
        SourceItem::Track(track) => source_encodable(track),
        SourceItem::Playlist { tracks, .. } => forall|i: int|
            0 <= i < tracks@.len() ==> source_encodable(#[trigger] tracks@[i]),
    }
}

/// Whether a track is the one that the source found.
pub open spec fn is_source_track(track: MediaTrack, found: SourceTrack) -> bool {
    &&& found.serialized matches Some(bytes) && track.encoded@ == encoding::standard_base64_text(
        bytes@,
    ) && encoding::standard_base64_bytes(track.encoded@) == Some(bytes@)
    &&& is_metadata_of(track.metadata, found.info, "youtube"@)
    &&& track.plugin_info.entries@.len() == 0
}

/// Whether the tracks are those that the source found.
pub open spec fn are_source_tracks(tracks: Seq<MediaTrack>, found: Seq<SourceTrack>) -> bool {
    &&& tracks.len() == found.len()
    &&& forall|i: int| 0 <= i < tracks.len() ==> is_source_track(#[trigger] tracks[i], found[i])
}

/// Whether every track could be serialized.
pub open spec fn all_serialized(found: Seq<SourceTrack>) -> bool {
    forall|i: int| 0 <= i < found.len() ==> (#[trigger] found[i]).serialized is Some
}

fn source_track(track: &SourceTrack) -> (r: Result<MediaTrack, AdapterError>)
    requires
        source_encodable(*track),
    ensures
        match track.serialized {
            Some(_) => r matches Ok(made) && is_source_track(made, *track),
            None => r == Err::<MediaTrack, AdapterError>(invalid_track_fault()),
        },
{
    let encoded = match encode_track(&track.serialized) {
        Ok(encoded) => encoded,
        Err(error) => return Err(error),
    };
    let plugin_info: JsonObject = TextMap::new();
    Ok(
        MediaTrack {
            encoded,
            metadata: info_to_metadata(&track.info, "youtube"),
            plugin_info: Arc::new(plugin_info),
        },
    )
}

fn source_tracks(found: &Vec<SourceTrack>) -> (r: Result<Vec<MediaTrack>, AdapterError>)
    requires
        forall|i: int| 0 <= i < found@.len() ==> source_encodable(#[trigger] found@[i]),
    ensures
        r is Ok <==> all_serialized(found@),
        match r {
            Ok(tracks) => are_source_tracks(tracks@, found@),
            Err(error) => error == invalid_track_fault(),
        },
{
    let mut tracks: Vec<MediaTrack> = Vec::new();
    let mut i: usize = 0;
    while i < found.len()
        invariant
            i <= found@.len(),
            tracks@.len() == i,
            forall|k: int| 0 <= k < found@.len() ==> source_encodable(#[trigger] found@[k]),
            forall|k: int| 0 <= k < i ==> (#[trigger] found@[k]).serialized is Some,
            forall|k: int| 0 <= k < i ==> is_source_track(#[trigger] tracks@[k], found@[k]),
        decreases found@.len() - i,
    {
        match source_track(&found[i]) {
            Ok(track) => tracks.push(track),
            Err(error) => {
                assert(found@[i as int].serialized is None);
                return Err(error);
            },
        }
        i = i + 1;
    }
    Ok(tracks)
}

/// Whether an outcome is what a source found.
pub open spec fn is_outcome_of(r: Result<LoadOutcome, AdapterError>, item: SourceItem) -> bool {
    match item {
        SourceItem::Track(found) => match r {
            Ok(outcome) => outcome matches LoadOutcome::Track(track) && is_source_track(
                track,
                found,
            ),
            Err(error) => found.serialized is None && error == invalid_track_fault(),
        },
        SourceItem::Playlist { name, selected_track, is_search_result, tracks } => match r {
            Ok(LoadOutcome::Search(made)) => is_search_result && are_source_tracks(made@, tracks@),
            Ok(LoadOutcome::Playlist { info, plugin_info, tracks: made }) => {
                &&& !is_search_result
                &&& info.name == name
                &&& info.selected_track == selected_track
                &&& plugin_info.entries@.len() == 0
                &&& are_source_tracks(made@, tracks@)
            },
            Ok(_) => false,
            Err(error) => !all_serialized(tracks@) && error == invalid_track_fault(),
        },
    }
}

/// The outcome of what a source found.
pub fn loaded_outcome(item: SourceItem) -> (r: Result<LoadOutcome, AdapterError>)
    requires
        item_encodable(item),
    ensures
        is_outcome_of(r, item),
{
    match item {
        SourceItem::Track(track) => match source_track(&track) {
            Ok(track) => Ok(LoadOutcome::Track(track)),
            Err(error) => Err(error),
        },
        SourceItem::Playlist { name, selected_track, is_search_result, tracks } => {
            let tracks = match source_tracks(&tracks) {
                Ok(tracks) => tracks,
                Err(error) => return Err(error),
            };
            if is_search_result {
                Ok(LoadOutcome::Search(tracks))
            } else {
                let plugin_info: JsonObject = TextMap::new();
                Ok(
                    LoadOutcome::Playlist {
                        info: PlaylistInfo { name, selected_track },
                        plugin_info: Arc::new(plugin_info),
                        tracks,
                    },
                )
            }
        },
    }
}

/// What is reported of the route that an operation took.
#[derive(Clone, Copy, Debug, PartialEq, Eq, Structural)]
pub enum RouteOutcome {
    ConnectionEstablished,
    DestinationDenied,
    Timeout,
    TransportFailure,
    SourceSuccess,
    SourceRateLimited,
    SourceUnavailable,
    SourceFailure,
}

/// What is told of the transport over a route.
#[derive(Clone, Copy, Debug, PartialEq, Eq, Structural)]
pub enum OutboundRouteOutcome {
    ConnectionEstablished,
    DestinationDenied,
    Timeout,
    TransportFailure,
}

/// A local address that a request goes out from, and its number.
#[derive(Clone, Copy, Debug, PartialEq, Eq, Structural)]
pub struct RouteEntry {
    pub identity: u64,
    pub local_address: Address,
}

/// The route of the operation that is under way.
#[derive(Clone, Copy, Debug, PartialEq, Eq, Structural)]
pub struct CrustOutboundRoutePolicy {
    pub selected: Option<RouteEntry>,
}

/// The outcome as the planner counts it.
pub open spec fn transport_outcome(outcome: OutboundRouteOutcome) -> RouteOutcome {
    match outcome {
        OutboundRouteOutcome::ConnectionEstablished => RouteOutcome::ConnectionEstablished,
        OutboundRouteOutcome::DestinationDenied => RouteOutcome::DestinationDenied,
        OutboundRouteOutcome::Timeout => RouteOutcome::Timeout,
        OutboundRouteOutcome::TransportFailure => RouteOutcome::TransportFailure,
    }
}

impl CrustOutboundRoutePolicy {
    pub fn new() -> (r: CrustOutboundRoutePolicy)
        ensures
            r.selected is None,
    {
        CrustOutboundRoutePolicy { selected: None }
    }

    /// Starts an operation, which has taken no route yet.
    pub fn begin_operation(&mut self)
        ensures
            final(self).selected is None,
    {
        self.selected = None;
    }

    /// Takes the route that the planner selected, if any; where there is none
    /// the one before stays.
    pub fn select_route(&mut self, route: Option<RouteEntry>) -> (r: Option<RouteEntry>)
        ensures
            r == route,
            final(self).selected == (if route is Some {
                route
            } else {
                old(self).selected
            }),
    {
        if route.is_some() {
            self.selected = route;
        }
        route
    }

    /// What the planner is told of the transport over a route.
    pub fn report_outcome(route: RouteEntry, outcome: OutboundRouteOutcome) -> (r: (
        RouteEntry,
        RouteOutcome,
    ))
        ensures
            r == (route, transport_outcome(outcome)),
    {
        let told: RouteOutcome = match outcome {
            OutboundRouteOutcome::ConnectionEstablished => RouteOutcome::ConnectionEstablished,
            OutboundRouteOutcome::DestinationDenied => RouteOutcome::DestinationDenied,
            OutboundRouteOutcome::Timeout => RouteOutcome::Timeout,
            OutboundRouteOutcome::TransportFailure => RouteOutcome::TransportFailure,
        };
        (route, told)
    }

    /// What the planner is told of the source's answer, once: the route that
    /// the operation took last is given up.
    pub fn report_source(&mut self, outcome: RouteOutcome) -> (r: Option<
        (RouteEntry, RouteOutcome),
    >)
        ensures
            final(self).selected is None,
            r == (match old(self).selected {
                Some(route) => Some((route, outcome)),
                None => None,
            }),
    {
        match self.selected.take() {
            Some(route) => Some((route, outcome)),
            None => None,
        }
    }
}

/// How the sources answered a load.
pub enum SourceAnswer {
    Found(SourceItem),
    Nothing { cancelled: bool },
    Shutdown,
    Failed,
}

pub open spec fn answer_encodable(answer: SourceAnswer) -> bool {
    answer matches SourceAnswer::Found(item) ==> item_encodable(item)
}

/// What is reported of the route after a load.
pub open spec fn load_report(answer: SourceAnswer) -> Option<RouteOutcome> {
    match answer {
        SourceAnswer::Found(_) => Some(RouteOutcome::SourceSuccess),
        SourceAnswer::Failed => Some(RouteOutcome::SourceFailure),
        _ => None,
    }
}

/// The report and the outcome of a load.
pub fn load_answered(answer: SourceAnswer) -> (r: (
    Option<RouteOutcome>,
    Result<LoadOutcome, AdapterError>,
))
    requires
        answer_encodable(answer),
    ensures
        r.0 == load_report(answer),
        match answer {
            SourceAnswer::Found(item) => is_outcome_of(r.1, item),
            SourceAnswer::Nothing { cancelled: true } => r.1 is Err && r.1->Err_0
                == cancelled_fault(),
            SourceAnswer::Nothing { cancelled: false } => r.1 matches Ok(outcome)
                && outcome is NoMatches,
            SourceAnswer::Shutdown => r.1 is Err && r.1->Err_0 == shutdown_fault(),
            SourceAnswer::Failed => r.1 is Err && r.1->Err_0 == load_failed_fault(),
        },
{
    match answer {
        SourceAnswer::Found(item) => (Some(RouteOutcome::SourceSuccess), loaded_outcome(item)),
        SourceAnswer::Nothing { cancelled: true } => (None, Err(cancelled())),
        SourceAnswer::Nothing { cancelled: false } => (None, Ok(LoadOutcome::NoMatches)),
        SourceAnswer::Shutdown => (None, Err(shutdown())),
        SourceAnswer::Failed => (Some(RouteOutcome::SourceFailure), Err(load_failed())),
    }
}

/// How a source failed.
#[derive(Clone, Copy, Debug, PartialEq, Eq, Structural)]
pub enum YoutubeErrorKind {
    RateLimited,
    Unavailable,
    LoginRequired,
    Cancelled,
    Other,
}

/// How playback failed.
#[derive(Clone, Copy, Debug, PartialEq, Eq, Structural)]
pub enum YoutubePlaybackErrorKind {
    Cancelled,
    Source(YoutubeErrorKind),
    InvalidOptions,
    IncompatibleFormat,
    Other,
}

pub open spec fn source_outcome(kind: YoutubeErrorKind) -> RouteOutcome {
    match kind {
        YoutubeErrorKind::RateLimited => RouteOutcome::SourceRateLimited,
        YoutubeErrorKind::Unavailable => RouteOutcome::SourceUnavailable,
        YoutubeErrorKind::LoginRequired => RouteOutcome::SourceUnavailable,
        _ => RouteOutcome::SourceFailure,
    }
}

pub fn map_youtube_source_outcome(kind: YoutubeErrorKind) -> (r: RouteOutcome)
    ensures
        r == source_outcome(kind),
{
    match kind {
        YoutubeErrorKind::RateLimited => RouteOutcome::SourceRateLimited,
        YoutubeErrorKind::Unavailable => RouteOutcome::SourceUnavailable,
        YoutubeErrorKind::LoginRequired => RouteOutcome::SourceUnavailable,
        _ => RouteOutcome::SourceFailure,
    }
}

pub open spec fn playback_outcome(kind: YoutubePlaybackErrorKind) -> RouteOutcome {
    match kind {
        YoutubePlaybackErrorKind::Source(kind) => source_outcome(kind),
        _ => RouteOutcome::SourceFailure,
    }
}

pub fn map_playback_source_outcome(kind: YoutubePlaybackErrorKind) -> (r: RouteOutcome)
    ensures
        r == playback_outcome(kind),
{
    match kind {
        YoutubePlaybackErrorKind::Source(kind) => map_youtube_source_outcome(kind),
        _ => RouteOutcome::SourceFailure,
    }
}

pub open spec fn source_fault(kind: YoutubeErrorKind) -> AdapterError {
    match kind {
        YoutubeErrorKind::Cancelled => cancelled_fault(),
        _ => load_failed_fault(),
    }
}

pub fn map_youtube_error(kind: YoutubeErrorKind) -> (r: AdapterError)
    ensures
        r == source_fault(kind),
{
    match kind {
        YoutubeErrorKind::Cancelled => cancelled(),
        _ => load_failed(),
    }
}

pub open spec fn playback_fault(kind: YoutubePlaybackErrorKind) -> AdapterError {
    match kind {
        YoutubePlaybackErrorKind::Cancelled => cancelled_fault(),
        YoutubePlaybackErrorKind::Source(YoutubeErrorKind::Cancelled) => cancelled_fault(),
        YoutubePlaybackErrorKind::InvalidOptions => invalid_operation_fault(
            "Mantle rejected the playback operation",
        ),
        YoutubePlaybackErrorKind::IncompatibleFormat => invalid_operation_fault(
            "Mantle rejected the playback operation",
        ),
        _ => load_failed_fault(),
    }
}

pub fn map_playback_error(kind: YoutubePlaybackErrorKind) -> (r: AdapterError)
    ensures
        r == playback_fault(kind),
{
    match kind {
        YoutubePlaybackErrorKind::Cancelled => cancelled(),
        YoutubePlaybackErrorKind::Source(YoutubeErrorKind::Cancelled) => cancelled(),
        YoutubePlaybackErrorKind::InvalidOptions => invalid_operation(
            "Mantle rejected the playback operation",
        ),
        YoutubePlaybackErrorKind::IncompatibleFormat => invalid_operation(
            "Mantle rejected the playback operation",
        ),
        _ => load_failed(),
    }
}

/// What the opening of a track needs next.
pub enum OpenNeed {
    /// Deserialize the bytes of a kept track.
    Deserialize(Vec<u8>),
    /// Find out how the track can be played.
    Discover(String),
    /// Open it as a live stream.
    OpenLive { routed: bool },
    /// Open it as an object, staged up to a size.
    OpenFinite { routed: bool, staging_max_bytes: u64 },
}

/// Whether what is played ends.
#[derive(Clone, Copy, Debug, PartialEq, Eq, Structural)]
pub enum SessionKind {
    Finite,
    Live,
}

/// What the opening of a track waits for.
#[derive(Clone, Copy, Debug, PartialEq, Eq, Structural)]
pub enum OpenStage {
    Deserialize,
    Discover,
    Open(SessionKind),
}

/// How what the opening needed came out.
pub enum OpenReply {
    Item(DecodedItem),
    /// How the track can be played: whether as a live stream only.
    Formats(Result<bool, YoutubeErrorKind>),
    Opened(Result<(), YoutubePlaybackErrorKind>),
}

/// What comes of a step of the opening.
pub enum OpenStep {
    Ask(OpenStage, OpenNeed),
    Done { report: Option<RouteOutcome>, result: Result<SessionKind, AdapterError> },
}

/// Begins to open a track.
pub fn begin_open(encoded: &str, cancelled: bool) -> (r: OpenStep)
    ensures
        if cancelled {
            r == (OpenStep::Done { report: None, result: Err(cancelled_fault()) })
        } else {
            match encoding::standard_base64_bytes(encoded@) {
                Some(bytes) => r matches OpenStep::Ask(stage, OpenNeed::Deserialize(decoded))
                    && stage == OpenStage::Deserialize && decoded@ == bytes,
                None => r == (OpenStep::Done { report: None, result: Err(invalid_track_fault()) }),
            }
        },
{
    if cancelled {
        return OpenStep::Done { report: None, result: Err(self::cancelled()) };
    }
    match decode_track(encoded) {
        Ok(bytes) => OpenStep::Ask(OpenStage::Deserialize, OpenNeed::Deserialize(bytes)),
        Err(error) => OpenStep::Done { report: None, result: Err(error) },
    }
}

/// How the opening of a track goes on.
pub open spec fn open_moved(
    stage: OpenStage,
    reply: OpenReply,
    routed: bool,
    staging_max_bytes: u64,
) -> OpenStep {
    match (stage, reply) {
        (OpenStage::Deserialize, OpenReply::Item(
            DecodedItem::Known { playable: Some(identifier), .. },
        )) => OpenStep::Ask(OpenStage::Discover, OpenNeed::Discover(identifier)),
        (OpenStage::Deserialize, _) => OpenStep::Done {
            report: None,
            result: Err(invalid_track_fault()),
        },
        (OpenStage::Discover, OpenReply::Formats(Ok(live))) => if live {
            OpenStep::Ask(OpenStage::Open(SessionKind::Live), OpenNeed::OpenLive { routed })
        } else {
            OpenStep::Ask(
                OpenStage::Open(SessionKind::Finite),
                OpenNeed::OpenFinite { routed, staging_max_bytes },
            )
        },
        (OpenStage::Discover, OpenReply::Formats(Err(kind))) => OpenStep::Done {
            report: Some(source_outcome(kind)),
            result: Err(source_fault(kind)),
        },
        (OpenStage::Open(kind), OpenReply::Opened(Ok(()))) => OpenStep::Done {
            report: Some(RouteOutcome::SourceSuccess),
            result: Ok(kind),
        },
        (OpenStage::Open(_), OpenReply::Opened(Err(kind))) => OpenStep::Done {
            report: Some(playback_outcome(kind)),
            result: Err(playback_fault(kind)),
        },
        _ => OpenStep::Done { report: None, result: Err(load_failed_fault()) },
    }
}

/// Whether a reply is one to what a stage waits for.
pub open spec fn open_answers(stage: OpenStage, reply: OpenReply) -> bool {
    match stage {
        OpenStage::Deserialize => reply is Item,
        OpenStage::Discover => reply is Formats,
        OpenStage::Open(_) => reply is Opened,
    }
}

/// Goes on with the opening of a track.
pub fn resume_open(stage: OpenStage, reply: OpenReply, routed: bool, staging_max_bytes: u64) -> (r:
    OpenStep)
    requires
        open_answers(stage, reply),
    ensures
        r == open_moved(stage, reply, routed, staging_max_bytes),
{
    match (stage, reply) {
        (OpenStage::Deserialize, OpenReply::Item(
            DecodedItem::Known { playable: Some(identifier), .. },
        )) => OpenStep::Ask(OpenStage::Discover, OpenNeed::Discover(identifier)),
        (OpenStage::Deserialize, _) => OpenStep::Done { report: None, result: Err(invalid_track()) },
        (OpenStage::Discover, OpenReply::Formats(Ok(live))) => {
            if live {
                OpenStep::Ask(OpenStage::Open(SessionKind::Live), OpenNeed::OpenLive { routed })
            } else {
                OpenStep::Ask(
                    OpenStage::Open(SessionKind::Finite),
                    OpenNeed::OpenFinite { routed, staging_max_bytes },
                )
            }
        },
        (OpenStage::Discover, OpenReply::Formats(Err(kind))) => OpenStep::Done {
            report: Some(map_youtube_source_outcome(kind)),
            result: Err(map_youtube_error(kind)),
        },
        (OpenStage::Open(kind), OpenReply::Opened(Ok(()))) => OpenStep::Done {
            report: Some(RouteOutcome::SourceSuccess),
            result: Ok(kind),
        },
        (OpenStage::Open(_), OpenReply::Opened(Err(kind))) => OpenStep::Done {
            report: Some(map_playback_source_outcome(kind)),
            result: Err(map_playback_error(kind)),
        },
        _ => OpenStep::Done { report: None, result: Err(load_failed()) },
    }
}

} // verus!
