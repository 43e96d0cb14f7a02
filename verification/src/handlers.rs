//! How each request is decided and answered.

use crate::config::FilterConfig;
use crate::filters;
use crate::filters::disabled_filter_names;
use crate::http;
use crate::http::{bare, canonical_guild_id, parse_no_replace, protocol_error, Content, Reply, Status};
use crate::media;
use crate::media::{load_result_value, loaded_track_value, AdapterError, AdapterErrorKind, LoadOutcome, MediaTrack, PlayerError};
use crate::outside;
use crate::outside::parse_texts;
use crate::player;
use crate::player::validate_update;
use crate::protocol::{PatchField, PlayerUpdate, SessionUpdate};
use crate::session;
use crate::session::{optional_str, PlayerAdmissionError, PrepareError, PreparedSession, SessionHandle, SessionPlayer, SessionRegistry, SessionSettings, SessionSettingsUpdate, UpdateError};
use crate::shard::LoadAdmission;
use crate::span::Span;
use crate::text;
use crate::text::{chars_of, owned};
use crate::wire;
use crate::wire::{list, object, put, put_bool, put_item, put_signed, put_text};
use vstd::prelude::*;

verus! {

/// The status of a failed player command.
pub open spec fn player_status(error: PlayerError) -> Status {
    match error {
        PlayerError::Invalid(_) => Status::BadRequest,
        PlayerError::NotFound => Status::NotFound,
        PlayerError::Overloaded => Status::ServiceUnavailable,
        PlayerError::Media(_) => Status::InternalServerError,
    }
}

/// The words of a failed player command.
pub open spec fn player_message(error: PlayerError) -> Seq<char> {
    match error {
        PlayerError::Invalid(message) => message@,
        PlayerError::Media(message) => message@,
        PlayerError::NotFound => "Player not found"@,
        PlayerError::Overloaded => "Player executor capacity reached"@,
    }
}

/// Whether an answer tells of a failed player command.
pub open spec fn is_player_error(r: Reply, error: PlayerError, path: Seq<char>, time_ms: u64) -> bool {
    http::is_refusal(r, player_status(error), player_message(error), path, false, time_ms)
}

pub fn player_error(error: PlayerError, path: &str, time_ms: u64) -> (r: Reply)
    ensures
        is_player_error(r, error, path@, time_ms),
{
    let status: Status = match error {
        PlayerError::Invalid(_) => Status::BadRequest,
        PlayerError::NotFound => Status::NotFound,
        PlayerError::Overloaded => Status::ServiceUnavailable,
        PlayerError::Media(_) => Status::InternalServerError,
    };
    protocol_error(status, error.to_text().as_str(), path, false, time_ms)
}

/// The status of a failed adapter.
pub open spec fn adapter_status(error: AdapterError) -> Status {
    match error.kind {
        AdapterErrorKind::Cancelled => Status::RequestTimeout,
        AdapterErrorKind::Shutdown => Status::ServiceUnavailable,
        AdapterErrorKind::Overloaded => Status::ServiceUnavailable,
        _ => Status::InternalServerError,
    }
}

pub fn media_adapter_error(error: AdapterError, path: &str, time_ms: u64) -> (r: Reply)
    ensures
        http::is_refusal(r, adapter_status(error), error.message@, path@, false, time_ms),
{
    let status: Status = match error.kind {
        AdapterErrorKind::Cancelled => Status::RequestTimeout,
        AdapterErrorKind::Shutdown => Status::ServiceUnavailable,
        AdapterErrorKind::Overloaded => Status::ServiceUnavailable,
        _ => Status::InternalServerError,
    };
    protocol_error(status, error.message, path, false, time_ms)
}

/// What a failed load is answered with.
pub open spec fn load_failed_json(error: AdapterError) -> Seq<char> {
    let message = wire::json_quoted(error.message@);
    let d = wire::with_member(Seq::empty(), "cause"@, message);
    let d = wire::with_member(d, "causeStackTrace"@, message);
    let d = wire::with_member(d, "message"@, message);
    let d = wire::with_member(d, "severity"@, wire::json_quoted("suspicious"@));
    let m = wire::with_member(Seq::empty(), "data"@, wire::braces(d));
    wire::braces(wire::with_member(m, "loadType"@, wire::json_quoted("error"@)))
}

pub fn load_failed_value(error: AdapterError) -> (r: String)
    ensures
        r@ == load_failed_json(error),
{
    let mut d = String::new();
    put_text(&mut d, "cause", error.message);
    put_text(&mut d, "causeStackTrace", error.message);
    put_text(&mut d, "message", error.message);
    put_text(&mut d, "severity", "suspicious");
    let mut m = String::new();
    put(&mut m, "data", object(d.as_str()).as_str());
    put_text(&mut m, "loadType", "error");
    object(m.as_str())
}

/// Why a load is not begun.
#[derive(Clone, Copy, Debug, PartialEq, Eq, Structural)]
pub enum LoadAdmissionError {
    AdapterUnavailable,
    ConcurrentLoads,
    SourceRequests,
}

/// Whether a load may begin.
pub open spec fn load_fault(has_adapter: bool, admission: LoadAdmission) -> Option<
    LoadAdmissionError,
> {
    if !has_adapter {
        Some(LoadAdmissionError::AdapterUnavailable)
    } else if admission.loads == 0 {
        Some(LoadAdmissionError::ConcurrentLoads)
    } else if admission.source_requests == 0 {
        Some(LoadAdmissionError::SourceRequests)
    } else {
        None
    }
}

/// Takes a permit for a load and one for its source, or neither.
pub fn acquire_load_request(has_adapter: bool, admission: &mut LoadAdmission) -> (r: Result<
    (),
    LoadAdmissionError,
>)
    ensures
        match load_fault(has_adapter, *old(admission)) {
            Some(error) => r == Err::<(), LoadAdmissionError>(error) && *final(admission) == *old(
                admission,
            ),
            None => r is Ok && *final(admission) == (LoadAdmission {
                loads: (old(admission).loads - 1) as usize,
                source_requests: (old(admission).source_requests - 1) as usize,
                ..*old(admission)
            }),
        },
{
    if !has_adapter {
        return Err(LoadAdmissionError::AdapterUnavailable);
    }
    if admission.loads == 0 {
        return Err(LoadAdmissionError::ConcurrentLoads);
    }
    if admission.source_requests == 0 {
        return Err(LoadAdmissionError::SourceRequests);
    }
    admission.loads = admission.loads - 1;
    admission.source_requests = admission.source_requests - 1;
    Ok(())
}

/// Gives the permits of a load back.
pub fn release_load_request(admission: &mut LoadAdmission)
    requires
        old(admission).loads < usize::MAX,
        old(admission).source_requests < usize::MAX,
    ensures
        *final(admission) == (LoadAdmission {
            loads: (old(admission).loads + 1) as usize,
            source_requests: (old(admission).source_requests + 1) as usize,
            ..*old(admission)
        }),
{
    admission.loads = admission.loads + 1;
    admission.source_requests = admission.source_requests + 1;
}

pub open spec fn load_fault_message(error: LoadAdmissionError) -> Seq<char> {
    match error {
        LoadAdmissionError::AdapterUnavailable => "Mantle adapter unavailable"@,
        LoadAdmissionError::ConcurrentLoads => "Concurrent load capacity reached"@,
        LoadAdmissionError::SourceRequests => "Source request capacity reached"@,
    }
}

pub fn load_admission_error(error: LoadAdmissionError, path: &str, time_ms: u64) -> (r: Reply)
    ensures
        http::is_refusal(
            r,
            Status::ServiceUnavailable,
            load_fault_message(error),
            path@,
            false,
            time_ms,
        ),
{
    let message: &'static str = match error {
        LoadAdmissionError::AdapterUnavailable => "Mantle adapter unavailable",
        LoadAdmissionError::ConcurrentLoads => "Concurrent load capacity reached",
        LoadAdmissionError::SourceRequests => "Source request capacity reached",
    };
    protocol_error(Status::ServiceUnavailable, message, path, false, time_ms)
}

pub fn adapter_unavailable(path: &str, time_ms: u64) -> (r: Reply)
    ensures
        http::is_refusal(
            r,
            Status::ServiceUnavailable,
            "Mantle adapter unavailable"@,
            path@,
            false,
            time_ms,
        ),
{
    protocol_error(Status::ServiceUnavailable, "Mantle adapter unavailable", path, false, time_ms)
}

/// A query: not understood, or a parameter that may be missing.
pub enum QueryText {
    Invalid,
    Given(Option<String>),
}

/// How a load begins.
pub enum LoadStart {
    Answer(Reply),
    /// It was turned away for want of room.
    Shed(Reply),
    Load(String),
}

/// What a disabled source answers with: nothing was found.
pub open spec fn empty_load_json() -> Seq<char> {
    media::load_result_json(LoadOutcome::NoMatches)
}

/// What a request to load tracks leads to.
pub open spec fn load_begun(
    query: QueryText,
    trace: bool,
    source_enabled: bool,
    has_adapter: bool,
    before: LoadAdmission,
    after: LoadAdmission,
    path: &str,
    time_ms: u64,
    r: LoadStart,
) -> bool {
    &&& match query {
        QueryText::Invalid => after == before && (
        r matches LoadStart::Answer(reply) && http::is_refusal(
            reply,
            Status::BadRequest,
            "Invalid query parameters"@,
            path@,
            trace,
            time_ms,
        )),
        QueryText::Given(None) => after == before && (
        r matches LoadStart::Answer(reply) && http::is_refusal(
            reply,
            Status::BadRequest,
            "Required parameter 'identifier' is not present."@,
            path@,
            trace,
            time_ms,
        )),
        QueryText::Given(Some(identifier)) => if !source_enabled {
            after == before && (r matches LoadStart::Answer(reply)
                && http::is_json(reply, Status::Success, empty_load_json()))
        } else {
            match load_fault(has_adapter, before) {
                Some(error) => after == before && (
                r matches LoadStart::Shed(reply) && http::is_refusal(
                    reply,
                    Status::ServiceUnavailable,
                    load_fault_message(error),
                    path@,
                    false,
                    time_ms,
                )),
                None => r == LoadStart::Load(identifier) && after == (
                LoadAdmission {
                    loads: (before.loads - 1) as usize,
                    source_requests: (before.source_requests - 1) as usize,
                    ..before
                }),
            }
        },
    }
}

/// Begins a load.
pub fn begin_load_tracks(
    query: QueryText,
    trace: bool,
    source_enabled: bool,
    has_adapter: bool,
    admission: &mut LoadAdmission,
    path: &str,
    time_ms: u64,
) -> (r: LoadStart)
    ensures
        load_begun(query, trace, source_enabled, has_adapter, *old(admission), *final(admission), path, time_ms, r),
{
    let identifier: String = match query {
        QueryText::Invalid => {
            return LoadStart::Answer(
                protocol_error(
                    Status::BadRequest,
                    "Invalid query parameters",
                    path,
                    trace,
                    time_ms,
                ),
            );
        },
        QueryText::Given(None) => {
            return LoadStart::Answer(
                protocol_error(
                    Status::BadRequest,
                    "Required parameter 'identifier' is not present.",
                    path,
                    trace,
                    time_ms,
                ),
            );
        },
        QueryText::Given(Some(identifier)) => identifier,
    };
    if !source_enabled {
        let nothing = LoadOutcome::NoMatches;
        return LoadStart::Answer(
            Reply {
                status: Status::Success,
                content: Content::Json,
                body: load_result_value(&nothing),
            },
        );
    }
    match acquire_load_request(has_adapter, admission) {
        Ok(()) => LoadStart::Load(identifier),
        Err(error) => LoadStart::Shed(load_admission_error(error, path, time_ms)),
    }
}

/// The answer to a load, and whether it counts as a failure of the adapter.
pub fn end_load_tracks(result: &Result<LoadOutcome, AdapterError>, path: &str, time_ms: u64) -> (r:
    (Reply, bool))
    ensures
        r.1 == (*result is Err),
        match *result {
            Ok(outcome) => http::is_json(
                r.0,
                Status::Success,
                media::load_result_json(outcome),
            ),
            Err(error) => if error.kind is LoadFailed {
                http::is_json(r.0, Status::Success, load_failed_json(error))
            } else {
                http::is_refusal(
                    r.0,
                    adapter_status(error),
                    error.message@,
                    path@,
                    false,
                    time_ms,
                )
            },
        },
{
    match result {
        Ok(outcome) => (
            Reply {
                status: Status::Success,
                content: Content::Json,
                body: load_result_value(outcome),
            },
            false,
        ),
        Err(error) => match error.kind {
            AdapterErrorKind::LoadFailed => (
                Reply {
                    status: Status::Success,
                    content: Content::Json,
                    body: load_failed_value(*error),
                },
                true,
            ),
            _ => (media_adapter_error(*error, path, time_ms), true),
        },
    }
}

/// Begins to decode a track: the text to decode, or the answer.
pub fn begin_decode_track(
    encoded_track: QueryText,
    track: Option<String>,
    trace: bool,
    has_adapter: bool,
    path: &str,
    time_ms: u64,
) -> (r: Result<String, Reply>)
    ensures
        match encoded_track {
            QueryText::Invalid => r matches Err(reply) && http::is_refusal(
                reply,
                Status::BadRequest,
                "Invalid query parameters"@,
                path@,
                trace,
                time_ms,
            ),
            QueryText::Given(encoded) => {
                let wanted = if encoded is Some {
                    encoded
                } else {
                    track
                };
                match wanted {
                    None => r matches Err(reply) && http::is_refusal(
                        reply,
                        Status::BadRequest,
                        "No track to decode provided"@,
                        path@,
                        trace,
                        time_ms,
                    ),
                    Some(wanted) => if has_adapter {
                        r == Ok::<String, Reply>(wanted)
                    } else {
                        r matches Err(reply) && http::is_refusal(
                            reply,
                            Status::ServiceUnavailable,
                            "Mantle adapter unavailable"@,
                            path@,
                            false,
                            time_ms,
                        )
                    },
                }
            },
        },
{
    let wanted: Option<String> = match encoded_track {
        QueryText::Invalid => {
            return Err(
                protocol_error(
                    Status::BadRequest,
                    "Invalid query parameters",
                    path,
                    trace,
                    time_ms,
                ),
            );
        },
        QueryText::Given(Some(encoded)) => Some(encoded),
        QueryText::Given(None) => track,
    };
    match wanted {
        None => Err(
            protocol_error(
                Status::BadRequest,
                "No track to decode provided",
                path,
                trace,
                time_ms,
            ),
        ),
        Some(wanted) => if has_adapter {
            Ok(wanted)
        } else {
            Err(adapter_unavailable(path, time_ms))
        },
    }
}

/// The answer to a decoded track.
pub fn end_decode_track(result: &Result<MediaTrack, AdapterError>, path: &str, time_ms: u64) -> (r:
    Reply)
    ensures
        match *result {
            Ok(track) => http::is_json(r, Status::Success, media::loaded_track_json(track)),
            Err(error) => http::is_refusal(
                r,
                adapter_status(error),
                error.message@,
                path@,
                false,
                time_ms,
            ),
        },
{
    match result {
        Ok(track) => Reply {
            status: Status::Success,
            content: Content::Json,
            body: loaded_track_value(track),
        },
        Err(error) => media_adapter_error(*error, path, time_ms),
    }
}

/// The body of a request: too large, not understood, or understood.
pub enum Body<T> {
    TooLarge,
    Invalid,
    Given(T),
}

/// Why several tracks are not decoded.
pub open spec fn batch_fault(body: Body<Vec<String>>, limit: usize, has_adapter: bool) -> Option<
    (Status, Seq<char>, bool),
> {
    match body {
        Body::TooLarge => Some(
            (Status::PayloadTooLarge, "Request body exceeds the configured limit"@, true),
        ),
        Body::Invalid => Some((Status::BadRequest, "Invalid encoded tracks"@, true)),
        Body::Given(tracks) => count_fault(tracks@.len(), limit, has_adapter),
    }
}

/// Why so many tracks are not decoded.
pub open spec fn count_fault(count: nat, limit: usize, has_adapter: bool) -> Option<
    (Status, Seq<char>, bool),
> {
    if count == 0 {
        Some((Status::BadRequest, "No tracks to decode provided"@, true))
    } else if count > limit {
        Some((Status::BadRequest, "Too many tracks to decode"@, true))
    } else if !has_adapter {
        Some((Status::ServiceUnavailable, "Mantle adapter unavailable"@, false))
    } else {
        None
    }
}

/// Why the tracks that the bytes of a body list are not decoded; a body that was
/// too large has none.
pub open spec fn bytes_fault(body: Option<Seq<u8>>, limit: usize, has_adapter: bool) -> Option<
    (Status, Seq<char>, bool),
> {
    match body {
        None => Some(
            (Status::PayloadTooLarge, "Request body exceeds the configured limit"@, true),
        ),
        Some(bytes) => match outside::json_texts(bytes) {
            None => Some((Status::BadRequest, "Invalid encoded tracks"@, true)),
            Some(tracks) => count_fault(tracks.len(), limit, has_adapter),
        },
    }
}

/// Begins to decode the tracks that the body of a request lists: their texts, or
/// the answer.
pub fn read_decode_tracks(
    body: Option<&[u8]>,
    limit: usize,
    trace: bool,
    has_adapter: bool,
    path: &str,
    time_ms: u64,
) -> (r: Result<Vec<String>, Reply>)
    ensures
        ({
            let bytes = match body {
                Some(bytes) => Some(bytes@),
                None => None,
            };
            match bytes_fault(bytes, limit, has_adapter) {
                Some((status, message, traced)) => r matches Err(reply) && http::is_refusal(
                    reply,
                    status,
                    message,
                    path@,
                    trace && traced,
                    time_ms,
                ),
                None => r matches Ok(tracks) && outside::json_texts(bytes->0) == Some(
                    text::texts(tracks@),
                ),
            }
        }),
{
    let given: Body<Vec<String>> = match body {
        None => Body::TooLarge,
        Some(bytes) => match parse_texts(bytes) {
            None => Body::Invalid,
            Some(tracks) => Body::Given(tracks),
        },
    };
    begin_decode_tracks(given, limit, trace, has_adapter, path, time_ms)
}

/// Begins to decode several tracks: the texts to decode, or the answer.
pub fn begin_decode_tracks(
    body: Body<Vec<String>>,
    limit: usize,
    trace: bool,
    has_adapter: bool,
    path: &str,
    time_ms: u64,
) -> (r: Result<Vec<String>, Reply>)
    ensures
        match batch_fault(body, limit, has_adapter) {
            Some((status, message, traced)) => r matches Err(reply) && http::is_refusal(
                reply,
                status,
                message,
                path@,
                trace && traced,
                time_ms,
            ),
            None => body matches Body::Given(tracks) && r == Ok::<Vec<String>, Reply>(tracks),
        },
{
    let tracks: Vec<String> = match body {
        Body::TooLarge => {
            return Err(
                protocol_error(
                    Status::PayloadTooLarge,
                    "Request body exceeds the configured limit",
                    path,
                    trace,
                    time_ms,
                ),
            );
        },
        Body::Invalid => {
            return Err(
                protocol_error(Status::BadRequest, "Invalid encoded tracks", path, trace, time_ms),
            );
        },
        Body::Given(tracks) => tracks,
    };
    if tracks.len() == 0 {
        return Err(
            protocol_error(
                Status::BadRequest,
                "No tracks to decode provided",
                path,
                trace,
                time_ms,
            ),
        );
    }
    if tracks.len() > limit {
        return Err(
            protocol_error(Status::BadRequest, "Too many tracks to decode", path, trace, time_ms),
        );
    }
    if !has_adapter {
        return Err(adapter_unavailable(path, time_ms));
    }
    Ok(tracks)
}

/// Goes on with a list of decoded tracks: the list with one more, or the answer
/// where the track could not be decoded, which ends the list.
pub fn list_decoded(
    values: Vec<String>,
    result: &Result<MediaTrack, AdapterError>,
    path: &str,
    time_ms: u64,
) -> (r: Result<Vec<String>, Reply>)
    ensures
        match *result {
            Ok(track) => r matches Ok(next) && next@.len() == values@.len() + 1 && next@.drop_last()
                == values@ && next@.last()@ == media::loaded_track_json(track),
            Err(error) => r matches Err(reply) && http::is_refusal(
                reply,
                adapter_status(error),
                error.message@,
                path@,
                false,
                time_ms,
            ),
        },
{
    match result {
        Ok(track) => {
            let ghost before = values@;
            let mut next = values;
            next.push(loaded_track_value(track));
            assert(next@.drop_last() =~= before);
            Ok(next)
        },
        Err(error) => Err(media_adapter_error(*error, path, time_ms)),
    }
}

/// The texts with commas between them.
pub open spec fn items_of(values: Seq<String>) -> Seq<char>
    decreases values.len(),
{
    if values.len() == 0 {
        Seq::empty()
    } else {
        wire::with_item(items_of(values.drop_last()), values.last()@)
    }
}

/// The answer that lists JSON texts.
pub fn list_reply(values: &Vec<String>) -> (r: Reply)
    ensures
        http::is_json(r, Status::Success, wire::brackets(items_of(values@))),
{
    let mut items = String::new();
    let mut i: usize = 0;
    while i < values.len()
        invariant
            i <= values@.len(),
            items@ == items_of(values@.take(i as int)),
        decreases values@.len() - i,
    {
        put_item(&mut items, values[i].as_str());
        assert(values@.take(i + 1).drop_last() =~= values@.take(i as int));
        i = i + 1;
    }
    assert(values@.take(i as int) =~= values@);
    Reply { status: Status::Success, content: Content::Json, body: list(items.as_str()) }
}

/// A number without its sign.
pub open spec fn without_sign(s: Seq<char>) -> Seq<char> {
    if s.len() > 0 && (s[0] == '+' || s[0] == '-') {
        s.skip(1)
    } else {
        s
    }
}

/// Whether every character is a zero.
pub open spec fn all_zeros(s: Seq<char>) -> bool {
    forall|i: int| 0 <= i < s.len() ==> #[trigger] s[i] == '0'
}

/// Whether a text is a number that equals zero.
pub open spec fn is_zero_number(s: Seq<char>) -> bool {
    without_sign(s).len() > 0 && all_zeros(without_sign(s))
}

/// Whether a header names a user.
pub open spec fn names_user(user_id: Option<Seq<char>>) -> bool {
    user_id matches Some(user) && user.len() > 0 && !is_zero_number(user)
}

fn zero_number(s: &str) -> (r: bool)
    ensures
        r == is_zero_number(s@),
{
    let chars: Vec<char> = chars_of(s);
    let total: usize = chars.len();
    let start: usize = if total > 0 && (chars[0] == '+' || chars[0] == '-') {
        1
    } else {
        0
    };
    let ghost digits = without_sign(s@);
    assert(digits =~= s@.skip(start as int));
    if start == total {
        return false;
    }
    let mut i: usize = start;
    while i < total
        invariant
            start <= i <= total,
            total == chars@.len(),
            chars@ == s@,
            digits == s@.skip(start as int),
            digits == without_sign(s@),
            forall|k: int| 0 <= k < i - start ==> #[trigger] digits[k] == '0',
        decreases total - i,
    {
        assert(digits[i - start] == chars@[i as int]);
        if chars[i] != '0' {
            return false;
        }
        i = i + 1;
    }
    true
}

pub open spec fn prepare_refusal(error: PrepareError) -> (Status, Seq<char>) {
    match error {
        PrepareError::Full => (Status::ServiceUnavailable, "Session capacity reached"@),
        PrepareError::ResumeOverloaded => (Status::ServiceUnavailable, "Session capacity reached"@),
        PrepareError::IdentityGeneration => (
            Status::InternalServerError,
            "Session identity generation failed"@,
        ),
        PrepareError::ShuttingDown => (Status::ServiceUnavailable, "Server is shutting down"@),
    }
}

fn prepare_error(error: PrepareError, path: &str, time_ms: u64) -> (r: Reply)
    ensures
        http::is_refusal(
            r,
            prepare_refusal(error).0,
            prepare_refusal(error).1,
            path@,
            false,
            time_ms,
        ),
{
    match error {
        PrepareError::Full => protocol_error(
            Status::ServiceUnavailable,
            "Session capacity reached",
            path,
            false,
            time_ms,
        ),
        PrepareError::ResumeOverloaded => protocol_error(
            Status::ServiceUnavailable,
            "Session capacity reached",
            path,
            false,
            time_ms,
        ),
        PrepareError::IdentityGeneration => protocol_error(
            Status::InternalServerError,
            "Session identity generation failed",
            path,
            false,
            time_ms,
        ),
        PrepareError::ShuttingDown => protocol_error(
            Status::ServiceUnavailable,
            "Server is shutting down",
            path,
            false,
            time_ms,
        ),
    }
}

/// What a WebSocket request carries.
pub struct WebsocketRequest<'a> {
    pub user_id: Option<&'a str>,
    pub client_name: Option<&'a str>,
    pub session_id: Option<&'a str>,
    /// Whether the connection can become a WebSocket.
    pub upgradable: bool,
    pub path: &'a str,
}

/// Whether the registry stayed as it was.
pub open spec fn untouched<P>(before: SessionRegistry<P>, after: SessionRegistry<P>) -> bool {
    after == before
}

/// What a request to connect leads to.
pub open spec fn socket_prepared<P: SessionPlayer>(
    before: SessionRegistry<P>,
    after: SessionRegistry<P>,
    request: WebsocketRequest<'_>,
    now: Span,
    time_ms: u64,
    r: Result<PreparedSession, Reply>,
) -> bool {
    &&& if !names_user(optional_str(request.user_id)) {
        untouched(before, after) && (r matches Err(reply) && http::is_bare(
            reply,
            Status::BadRequest,
        ))
    } else if !request.upgradable {
        untouched(before, after) && (r matches Err(reply)
            && http::is_refusal(
            reply,
            Status::BadRequest,
            "WebSocket upgrade required"@,
            request.path@,
            false,
            time_ms,
        ))
    } else {
        exists|prepared: Result<PreparedSession, PrepareError>| #[trigger]
            session::prepared(
                before,
                after,
                now,
                request.user_id->0@,
                optional_str(request.client_name),
                optional_str(request.session_id),
                prepared,
            ) && match prepared {
                Ok(session) => r == Ok::<PreparedSession, Reply>(session),
                Err(error) => r matches Err(reply) && http::is_refusal(
                    reply,
                    prepare_refusal(error).0,
                    prepare_refusal(error).1,
                    request.path@,
                    false,
                    time_ms,
                ),
            }
    }
}

/// Admits a WebSocket: the session that it belongs to, or the answer.
pub fn websocket<P: SessionPlayer>(
    registry: &mut SessionRegistry<P>,
    request: WebsocketRequest<'_>,
    now: Span,
    time_ms: u64,
) -> (r: Result<PreparedSession, Reply>)
    requires
        old(registry).wf(),
    ensures
        final(registry).wf(),
        socket_prepared(*old(registry), *final(registry), request, now, time_ms, r),
{
    let user_id: &str = match request.user_id {
        Some(user_id) => user_id,
        None => return Err(bare(Status::BadRequest)),
    };
    if user_id.unicode_len() == 0 || zero_number(user_id) {
        return Err(bare(Status::BadRequest));
    }
    if !request.upgradable {
        return Err(
            protocol_error(
                Status::BadRequest,
                "WebSocket upgrade required",
                request.path,
                false,
                time_ms,
            ),
        );
    }
    match registry.prepare(now, user_id, request.client_name, request.session_id) {
        Ok(prepared) => Ok(prepared),
        Err(error) => Err(prepare_error(error, request.path, time_ms)),
    }
}

/// The settings of a session as JSON.
pub open spec fn settings_json(settings: SessionSettings) -> Seq<char> {
    let m = wire::with_member(Seq::empty(), "resuming"@, wire::json_bool(settings.resuming));
    wire::braces(
        wire::with_member(m, "timeout"@, text::signed_decimal(settings.timeout_seconds as int)),
    )
}

/// The change that a session update asks for, or what stands against it.
pub open spec fn session_change(body: Body<SessionUpdate>) -> Result<
    SessionSettingsUpdate,
    (Status, Seq<char>),
> {
    match body {
        Body::TooLarge => Err(
            (Status::PayloadTooLarge, "Request body exceeds the configured limit"@),
        ),
        Body::Invalid => Err((Status::BadRequest, "Invalid session update"@)),
        Body::Given(update) => if update.resuming is Null {
            Err((Status::BadRequest, "resuming must not be null"@))
        } else if update.timeout is Null {
            Err((Status::BadRequest, "timeout must not be null"@))
        } else {
            Ok(
                SessionSettingsUpdate {
                    resuming: crate::protocol::set_value(update.resuming),
                    timeout_seconds: crate::protocol::set_value(update.timeout),
                },
            )
        },
    }
}

/// What a change of the settings of a session leads to.
pub open spec fn session_patched<P: SessionPlayer>(
    before: SessionRegistry<P>,
    after: SessionRegistry<P>,
    session_id: &str,
    body: Body<SessionUpdate>,
    path: &str,
    now: Span,
    time_ms: u64,
    r: Reply,
) -> bool {
    &&& match session_change(body) {
        Err((status, message)) => untouched(before, after)
            && http::is_refusal(r, status, message, path@, false, time_ms),
        Ok(change) => exists|settings: Result<SessionSettings, UpdateError>| #[trigger]
            session::settings_updated(
                before,
                after,
                now,
                session_id@,
                change,
                settings,
            ) && match settings {
                Ok(settings) => http::is_json(r, Status::Success, settings_json(settings)),
                Err(_) => http::is_refusal(
                    r,
                    Status::NotFound,
                    "Session not found"@,
                    path@,
                    false,
                    time_ms,
                ),
            },
    }
}

/// Changes the settings of a session.
pub fn patch_session<P: SessionPlayer>(
    registry: &mut SessionRegistry<P>,
    session_id: &str,
    body: Body<SessionUpdate>,
    path: &str,
    now: Span,
    time_ms: u64,
) -> (r: Reply)
    requires
        old(registry).wf(),
    ensures
        final(registry).wf(),
        session_patched(*old(registry), *final(registry), session_id, body, path, now, time_ms, r),
{
    let update: SessionUpdate = match body {
        Body::TooLarge => {
            return protocol_error(
                Status::PayloadTooLarge,
                "Request body exceeds the configured limit",
                path,
                false,
                time_ms,
            );
        },
        Body::Invalid => {
            return protocol_error(
                Status::BadRequest,
                "Invalid session update",
                path,
                false,
                time_ms,
            );
        },
        Body::Given(update) => update,
    };
    if update.resuming.is_null() {
        return protocol_error(
            Status::BadRequest,
            "resuming must not be null",
            path,
            false,
            time_ms,
        );
    }
    if update.timeout.is_null() {
        return protocol_error(
            Status::BadRequest,
            "timeout must not be null",
            path,
            false,
            time_ms,
        );
    }
    let change = SessionSettingsUpdate {
        resuming: crate::protocol::value(&update.resuming),
        timeout_seconds: crate::protocol::value(&update.timeout),
    };
    match registry.update_settings(now, session_id, change) {
        Ok(settings) => {
            let mut m = String::new();
            put_bool(&mut m, "resuming", settings.resuming);
            put_signed(&mut m, "timeout", settings.timeout_seconds);
            Reply { status: Status::Success, content: Content::Json, body: object(m.as_str()) }
        },
        Err(_) => protocol_error(Status::NotFound, "Session not found", path, false, time_ms),
    }
}

/// Whether a session is there once those that waited too long are gone.
pub open spec fn found<P>(registry: SessionRegistry<P>, session_id: Seq<char>) -> bool {
    session::has_id(registry.sessions@, session_id)
}

/// The session with an identity.
pub open spec fn session_at<P>(registry: SessionRegistry<P>, session_id: Seq<char>) -> session::Session<
    P,
> {
    registry.sessions@[session::index_of_id(registry.sessions@, session_id)]
}

/// Whether a handle is that of the session with an identity.
pub open spec fn is_handle_of<P>(
    handle: SessionHandle,
    registry: SessionRegistry<P>,
    session_id: Seq<char>,
) -> bool {
    let session = session_at(registry, session_id);
    &&& handle.serial == session.serial
    &&& handle.id@ == session_id
    &&& handle.user_id@ == session.user_id@
    &&& session::optional_text(handle.client_name) == session::optional_text(session.client_name)
}

fn find_session<P: SessionPlayer>(
    registry: &mut SessionRegistry<P>,
    session_id: &str,
    path: &str,
    now: Span,
    time_ms: u64,
) -> (r: Result<SessionHandle, Reply>)
    requires
        old(registry).wf(),
    ensures
        session::cleaned_up(*old(registry), *final(registry), now),
        match r {
            Ok(handle) => found(*final(registry), session_id@) && is_handle_of(
                handle,
                *final(registry),
                session_id@,
            ),
            Err(reply) => !found(*final(registry), session_id@) && http::is_refusal(
                reply,
                Status::NotFound,
                "Session not found"@,
                path@,
                false,
                time_ms,
            ),
        },
{
    registry.cleanup_expired(now);
    match registry.session(session_id) {
        Some(handle) => Ok(handle),
        None => Err(protocol_error(Status::NotFound, "Session not found", path, false, time_ms)),
    }
}

/// What a request for the players of a session leads to.
pub open spec fn listing_begun<P: SessionPlayer>(
    before: SessionRegistry<P>,
    after: SessionRegistry<P>,
    session_id: &str,
    path: &str,
    now: Span,
    time_ms: u64,
    r: Result<(SessionHandle, Vec<String>), Reply>,
) -> bool {
    &&& session::cleaned_up(before, after, now)
    &&& match r {
        Ok((handle, guilds)) => found(after, session_id@) && is_handle_of(
            handle,
            after,
            session_id@,
        ) && session::are_guilds_of(guilds@, session_at(after, session_id@)),
        Err(reply) => !found(after, session_id@) && http::is_refusal(
            reply,
            Status::NotFound,
            "Session not found"@,
            path@,
            false,
            time_ms,
        ),
    }
}

/// Begins to list the players of a session: their guilds in order, or the
/// answer.
pub fn begin_list_players<P: SessionPlayer>(
    registry: &mut SessionRegistry<P>,
    session_id: &str,
    path: &str,
    now: Span,
    time_ms: u64,
) -> (r: Result<(SessionHandle, Vec<String>), Reply>)
    requires
        old(registry).wf(),
    ensures
        listing_begun(*old(registry), *final(registry), session_id, path, now, time_ms, r),
{
    match find_session(registry, session_id, path, now, time_ms) {
        Ok(handle) => {
            let guilds: Vec<String> = registry.guilds(session_id);
            Ok((handle, guilds))
        },
        Err(reply) => Err(reply),
    }
}

/// Goes on with a list of players: the list with one more, or the answer where
/// the player could not be shown, which ends the list.
pub fn list_player(
    values: Vec<String>,
    result: Result<String, PlayerError>,
    path: &str,
    time_ms: u64,
) -> (r: Result<Vec<String>, Reply>)
    ensures
        match result {
            Ok(value) => r matches Ok(next) && next@ == values@.push(value),
            Err(error) => r matches Err(reply) && is_player_error(reply, error, path@, time_ms),
        },
{
    match result {
        Ok(value) => {
            let mut next = values;
            next.push(value);
            Ok(next)
        },
        Err(error) => Err(player_error(error, path, time_ms)),
    }
}

/// Whether an answer refuses a guild.
pub open spec fn is_guild_refusal(r: Reply, path: Seq<char>, time_ms: u64) -> bool {
    http::is_refusal(r, Status::BadRequest, "Invalid guild ID"@, path, false, time_ms)
}

/// What a request for a player leads to.
pub open spec fn reading_begun<P: SessionPlayer>(
    before: SessionRegistry<P>,
    after: SessionRegistry<P>,
    session_id: &str,
    guild_id: &str,
    path: &str,
    now: Span,
    time_ms: u64,
    r: Result<(SessionHandle, String), Reply>,
) -> bool {
    &&& match http::canonical_guild(guild_id@) {
        None => untouched(before, after) && (r matches Err(reply)
            && is_guild_refusal(reply, path@, time_ms)),
        Some(guild) => session::cleaned_up(before, after, now) && match r {
            Ok((handle, canonical)) => {
                &&& found(after, session_id@)
                &&& is_handle_of(handle, after, session_id@)
                &&& canonical@ == guild
                &&& session_at(after, session_id@).players@.dom().contains(guild)
            },
            Err(reply) => if !found(after, session_id@) {
                http::is_refusal(
                    reply,
                    Status::NotFound,
                    "Session not found"@,
                    path@,
                    false,
                    time_ms,
                )
            } else {
                &&& !session_at(after, session_id@).players@.dom().contains(guild)
                &&& http::is_refusal(
                    reply,
                    Status::NotFound,
                    "Player not found"@,
                    path@,
                    false,
                    time_ms,
                )
            },
        },
    }
}

/// Begins to show a player: its session and guild, or the answer.
pub fn begin_get_player<P: SessionPlayer>(
    registry: &mut SessionRegistry<P>,
    session_id: &str,
    guild_id: &str,
    path: &str,
    now: Span,
    time_ms: u64,
) -> (r: Result<(SessionHandle, String), Reply>)
    requires
        old(registry).wf(),
    ensures
        final(registry).wf(),
        reading_begun(*old(registry), *final(registry), session_id, guild_id, path, now, time_ms, r),
{
    let canonical: String = match canonical_guild_id(guild_id) {
        Ok(canonical) => canonical,
        Err(message) => {
            return Err(protocol_error(Status::BadRequest, message, path, false, time_ms));
        },
    };
    match find_session(registry, session_id, path, now, time_ms) {
        Ok(handle) => {
            if registry.has_player(session_id, canonical.as_str()) {
                Ok((handle, canonical))
            } else {
                Err(protocol_error(Status::NotFound, "Player not found", path, false, time_ms))
            }
        },
        Err(reply) => Err(reply),
    }
}

/// The answer to a command that shows a player.
pub fn end_player(result: Result<String, PlayerError>, path: &str, time_ms: u64) -> (r: Reply)
    ensures
        match result {
            Ok(value) => http::is_json(r, Status::Success, value@),
            Err(error) => is_player_error(r, error, path@, time_ms),
        },
{
    match result {
        Ok(value) => Reply { status: Status::Success, content: Content::Json, body: value },
        Err(error) => player_error(error, path, time_ms),
    }
}

/// The player that an update is for.
pub struct PatchTarget {
    pub session: SessionHandle,
    pub guild_id: String,
    pub no_replace: bool,
}

/// What a query says about keeping a playing track.
pub open spec fn keeps_track(query: Option<&str>) -> Result<bool, &'static str> {
    match query {
        Some(query) => http::no_replace_of(query@),
        None => Ok(false),
    }
}

/// What a request to change a player leads to.
pub open spec fn patching_begun<P: SessionPlayer>(
    before: SessionRegistry<P>,
    after: SessionRegistry<P>,
    session_id: &str,
    guild_id: &str,
    query: Option<&str>,
    path: &str,
    now: Span,
    time_ms: u64,
    r: Result<PatchTarget, Reply>,
) -> bool {
    &&& if http::canonical_guild(guild_id@) is None {
        untouched(before, after) && (r matches Err(reply)
            && is_guild_refusal(reply, path@, time_ms))
    } else if keeps_track(query) is Err {
        untouched(before, after) && (r matches Err(reply)
            && http::is_refusal(
            reply,
            Status::BadRequest,
            keeps_track(query)->Err_0@,
            path@,
            false,
            time_ms,
        ))
    } else {
        session::cleaned_up(before, after, now) && match r {
            Ok(target) => {
                &&& found(after, session_id@)
                &&& is_handle_of(target.session, after, session_id@)
                &&& target.guild_id@ == http::canonical_guild(guild_id@)->0
                &&& target.no_replace == keeps_track(query)->Ok_0
            },
            Err(reply) => !found(after, session_id@) && http::is_refusal(
                reply,
                Status::NotFound,
                "Session not found"@,
                path@,
                false,
                time_ms,
            ),
        }
    }
}

/// Begins to update a player: what the update is for, or the answer.
pub fn begin_patch_player<P: SessionPlayer>(
    registry: &mut SessionRegistry<P>,
    session_id: &str,
    guild_id: &str,
    query: Option<&str>,
    path: &str,
    now: Span,
    time_ms: u64,
) -> (r: Result<PatchTarget, Reply>)
    requires
        old(registry).wf(),
    ensures
        final(registry).wf(),
        patching_begun(*old(registry), *final(registry), session_id, guild_id, query, path, now, time_ms, r),
{
    let canonical: String = match canonical_guild_id(guild_id) {
        Ok(canonical) => canonical,
        Err(message) => {
            return Err(protocol_error(Status::BadRequest, message, path, false, time_ms));
        },
    };
    let no_replace: bool = match parse_no_replace(query) {
        Ok(no_replace) => no_replace,
        Err(message) => {
            return Err(protocol_error(Status::BadRequest, message, path, false, time_ms));
        },
    };
    match find_session(registry, session_id, path, now, time_ms) {
        Ok(session) => Ok(PatchTarget { session, guild_id: canonical, no_replace }),
        Err(reply) => Err(reply),
    }
}

/// The names with commas between them.
pub open spec fn names_joined(names: Seq<&'static str>) -> Seq<char>
    decreases names.len(),
{
    if names.len() == 0 {
        Seq::empty()
    } else if names.len() == 1 {
        names[0]@
    } else {
        names_joined(names.drop_last()) + ", "@ + names.last()@
    }
}

fn join_names(names: &Vec<&'static str>) -> (r: String)
    ensures
        r@ == names_joined(names@),
{
    let mut out = String::new();
    let mut i: usize = 0;
    while i < names.len()
        invariant
            i <= names@.len(),
            out@ == names_joined(names@.take(i as int)),
        decreases names@.len() - i,
    {
        if i > 0 {
            out.append(", ");
        }
        out.append(names[i]);
        proof {
            let longer = names@.take(i + 1);
            assert(longer.drop_last() =~= names@.take(i as int));
            assert(longer.last() == names@[i as int]);
            assert(longer[0] == names@[0]);
            assert(out@ =~= names_joined(longer));
        }
        i = i + 1;
    }
    assert(names@.take(i as int) =~= names@);
    out
}

/// What stands against an update, before its player is looked for.
pub open spec fn update_refusal(
    body: Body<PlayerUpdate>,
    ratio_supported: bool,
    enabled: FilterConfig,
) -> Option<(Status, Seq<char>)> {
    match body {
        Body::TooLarge => Some(
            (Status::PayloadTooLarge, "Request body exceeds the configured limit"@),
        ),
        Body::Invalid => Some((Status::BadRequest, "Invalid player update"@)),
        Body::Given(update) => match player::update_fault(update, ratio_supported) {
            Some(message) => Some((Status::BadRequest, message@)),
            None => match update.filters {
                PatchField::Value(f) => if filters::disabled_names(f, enabled).len() > 0 {
                    Some(
                        (
                            Status::BadRequest,
                            "Following filters are disabled in the config: "@ + names_joined(
                                filters::disabled_names(f, enabled),
                            ),
                        ),
                    )
                } else {
                    None
                },
                _ => None,
            },
        },
    }
}

/// Checks the body of an update.
pub fn check_player_update(
    body: Body<PlayerUpdate>,
    ratio_supported: bool,
    enabled: &FilterConfig,
    path: &str,
    time_ms: u64,
) -> (r: Result<PlayerUpdate, Reply>)
    ensures
        match update_refusal(body, ratio_supported, *enabled) {
            Some((status, message)) => r matches Err(reply) && http::is_refusal(
                reply,
                status,
                message,
                path@,
                false,
                time_ms,
            ),
            None => body matches Body::Given(update) && r == Ok::<PlayerUpdate, Reply>(update),
        },
{
    let update: PlayerUpdate = match body {
        Body::TooLarge => {
            return Err(
                protocol_error(
                    Status::PayloadTooLarge,
                    "Request body exceeds the configured limit",
                    path,
                    false,
                    time_ms,
                ),
            );
        },
        Body::Invalid => {
            return Err(
                protocol_error(Status::BadRequest, "Invalid player update", path, false, time_ms),
            );
        },
        Body::Given(update) => update,
    };
    match validate_update(&update, ratio_supported) {
        Ok(()) => {},
        Err(error) => return Err(player_error(error, path, time_ms)),
    }
    if let PatchField::Value(filters) = &update.filters {
        let disabled: Vec<&'static str> = disabled_filter_names(filters, enabled);
        if disabled.len() > 0 {
            let mut message: String = owned("Following filters are disabled in the config: ");
            message.append(join_names(&disabled).as_str());
            return Err(
                protocol_error(Status::BadRequest, message.as_str(), path, false, time_ms),
            );
        }
    }
    Ok(update)
}

/// Whether the session of a target still has a player for its guild.
pub open spec fn already_there<P>(registry: SessionRegistry<P>, target: PatchTarget) -> bool {
    session::has_serial(registry.sessions@, target.session.serial)
        && registry.sessions@[session::index_of_serial(
        registry.sessions@,
        target.session.serial,
    )].players@.dom().contains(target.guild_id@)
}

pub open spec fn admission_refusal(error: PlayerAdmissionError) -> (Status, Seq<char>) {
    match error {
        PlayerAdmissionError::SessionNotFound => (Status::NotFound, "Session not found"@),
        _ => (Status::ServiceUnavailable, "Player capacity reached"@),
    }
}

fn admission_error(error: PlayerAdmissionError, path: &str, time_ms: u64) -> (r: Reply)
    ensures
        http::is_refusal(
            r,
            admission_refusal(error).0,
            admission_refusal(error).1,
            path@,
            false,
            time_ms,
        ),
{
    match error {
        PlayerAdmissionError::SessionNotFound => protocol_error(
            Status::NotFound,
            "Session not found",
            path,
            false,
            time_ms,
        ),
        _ => protocol_error(
            Status::ServiceUnavailable,
            "Player capacity reached",
            path,
            false,
            time_ms,
        ),
    }
}

/// What the admission of the player of a change leads to.
pub open spec fn patched_player_admitted<P: SessionPlayer>(
    before: SessionRegistry<P>,
    after: SessionRegistry<P>,
    session_id: &str,
    target: &PatchTarget,
    candidate: P,
    path: &str,
    time_ms: u64,
    r: Result<bool, Reply>,
) -> bool {
    &&& if already_there(before, *target) {
        untouched(before, after) && r == Ok::<bool, Reply>(false)
    } else {
        exists|admitted: Result<bool, PlayerAdmissionError>| #[trigger]
            session::player_admitted(
                before,
                after,
                session_id@,
                target.guild_id@,
                candidate,
                admitted,
            ) && match admitted {
                Ok(taken) => r == Ok::<bool, Reply>(taken),
                Err(error) => r matches Err(reply) && http::is_refusal(
                    reply,
                    admission_refusal(error).0,
                    admission_refusal(error).1,
                    path@,
                    false,
                    time_ms,
                ),
            }
    }
}

/// Finds the player of an update, or admits the candidate as it. The result
/// says whether the candidate was taken.
pub fn admit_patch_player<P: SessionPlayer>(
    registry: &mut SessionRegistry<P>,
    session_id: &str,
    target: &PatchTarget,
    candidate: P,
    path: &str,
    time_ms: u64,
) -> (r: Result<bool, Reply>)
    requires
        old(registry).wf(),
    ensures
        final(registry).wf(),
        patched_player_admitted(*old(registry), *final(registry), session_id, target, candidate, path, time_ms, r),
{
    if registry.player(&target.session, target.guild_id.as_str()).is_some() {
        return Ok(false);
    }
    match registry.get_or_add_player(session_id, target.guild_id.as_str(), candidate) {
        Ok(taken) => Ok(taken),
        Err(error) => Err(admission_error(error, path, time_ms)),
    }
}

/// What a request to delete a player leads to.
pub open spec fn deletion_begun<P: SessionPlayer>(
    before: SessionRegistry<P>,
    after: SessionRegistry<P>,
    session_id: &str,
    guild_id: &str,
    path: &str,
    now: Span,
    time_ms: u64,
    r: Result<(SessionHandle, String, bool), Reply>,
) -> bool {
    &&& match http::canonical_guild(guild_id@) {
        None => untouched(before, after) && (r matches Err(reply)
            && is_guild_refusal(reply, path@, time_ms)),
        Some(guild) => session::cleaned_up(before, after, now) && match r {
            Ok((handle, canonical, there)) => {
                &&& found(after, session_id@)
                &&& is_handle_of(handle, after, session_id@)
                &&& canonical@ == guild
                &&& there == session_at(
                    after,
                    session_id@,
                ).players@.dom().contains(guild)
            },
            Err(reply) => !found(after, session_id@) && http::is_refusal(
                reply,
                Status::NotFound,
                "Session not found"@,
                path@,
                false,
                time_ms,
            ),
        },
    }
}

/// Begins to delete a player: its session and guild, and whether there is a
/// player to destroy; or the answer.
pub fn begin_delete_player<P: SessionPlayer>(
    registry: &mut SessionRegistry<P>,
    session_id: &str,
    guild_id: &str,
    path: &str,
    now: Span,
    time_ms: u64,
) -> (r: Result<(SessionHandle, String, bool), Reply>)
    requires
        old(registry).wf(),
    ensures
        final(registry).wf(),
        deletion_begun(*old(registry), *final(registry), session_id, guild_id, path, now, time_ms, r),
{
    let canonical: String = match canonical_guild_id(guild_id) {
        Ok(canonical) => canonical,
        Err(message) => {
            return Err(protocol_error(Status::BadRequest, message, path, false, time_ms));
        },
    };
    match find_session(registry, session_id, path, now, time_ms) {
        Ok(handle) => {
            let there: bool = registry.has_player(session_id, canonical.as_str());
            Ok((handle, canonical, there))
        },
        Err(reply) => Err(reply),
    }
}

/// What the end of the deletion of a player leads to.
pub open spec fn deletion_ended<P: SessionPlayer>(
    before: SessionRegistry<P>,
    after: SessionRegistry<P>,
    session_id: &str,
    guild_id: &str,
    destroyed: Option<Result<(), PlayerError>>,
    path: &str,
    time_ms: u64,
    r: Reply,
) -> bool {
    &&& match destroyed {
        Some(Err(error)) => untouched(before, after) && is_player_error(
            r,
            error,
            path@,
            time_ms,
        ),
        _ => exists|removed: Result<(), PlayerAdmissionError>| #[trigger]
            session::player_removed(
                before,
                after,
                session_id@,
                guild_id@,
                removed,
            ) && match removed {
                Ok(()) => http::is_bare(r, Status::NoContent),
                Err(error) => http::is_refusal(
                    r,
                    admission_refusal(error).0,
                    admission_refusal(error).1,
                    path@,
                    false,
                    time_ms,
                ),
            },
    }
}

/// Takes a player out of its session after it was destroyed, where there was
/// one.
pub fn end_delete_player<P: SessionPlayer>(
    registry: &mut SessionRegistry<P>,
    session_id: &str,
    guild_id: &str,
    destroyed: Option<Result<(), PlayerError>>,
    path: &str,
    time_ms: u64,
) -> (r: Reply)
    requires
        old(registry).wf(),
    ensures
        final(registry).wf(),
        deletion_ended(*old(registry), *final(registry), session_id, guild_id, destroyed, path, time_ms, r),
{
    if let Some(Err(error)) = destroyed {
        return player_error(error, path, time_ms);
    }
    match registry.remove_player(session_id, guild_id) {
        Ok(()) => bare(Status::NoContent),
        Err(error) => admission_error(error, path, time_ms),
    }
}

} // verus!
