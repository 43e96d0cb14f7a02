//! The rules of the HTTP interface: who may ask, what is asked, and how it is
//! answered.

use crate::outside::same_bytes;
use crate::session::optional_str;
use crate::text;
use crate::text::{
    chars_of, owned, parse_i64, push_char, same_text, signed_decimal_text, split, text_of, Cut,
};
use crate::wire;
use crate::wire::{object, put_number, put_text};
use vstd::prelude::*;

verus! {

/// The statuses that are answered with.
#[derive(Clone, Copy, Debug, PartialEq, Eq, Structural)]
pub enum Status {
    Success,
    NoContent,
    BadRequest,
    Unauthorized,
    Forbidden,
    NotFound,
    RequestTimeout,
    PayloadTooLarge,
    InternalServerError,
    ServiceUnavailable,
}

impl Status {
    pub open spec fn number(self) -> u16 {
        match self {
            Status::Success => 200,
            Status::NoContent => 204,
            Status::BadRequest => 400,
            Status::Unauthorized => 401,
            Status::Forbidden => 403,
            Status::NotFound => 404,
            Status::RequestTimeout => 408,
            Status::PayloadTooLarge => 413,
            Status::InternalServerError => 500,
            Status::ServiceUnavailable => 503,
        }
    }

    pub open spec fn phrase(self) -> Seq<char> {
        match self {
            Status::Success => "OK"@,
            Status::NoContent => "No Content"@,
            Status::BadRequest => "Bad Request"@,
            Status::Unauthorized => "Unauthorized"@,
            Status::Forbidden => "Forbidden"@,
            Status::NotFound => "Not Found"@,
            Status::RequestTimeout => "Request Timeout"@,
            Status::PayloadTooLarge => "Payload Too Large"@,
            Status::InternalServerError => "Internal Server Error"@,
            Status::ServiceUnavailable => "Service Unavailable"@,
        }
    }

    pub fn code(self) -> (r: u16)
        ensures
            r == self.number(),
    {
        match self {
            Status::Success => 200,
            Status::NoContent => 204,
            Status::BadRequest => 400,
            Status::Unauthorized => 401,
            Status::Forbidden => 403,
            Status::NotFound => 404,
            Status::RequestTimeout => 408,
            Status::PayloadTooLarge => 413,
            Status::InternalServerError => 500,
            Status::ServiceUnavailable => 503,
        }
    }

    pub fn reason(self) -> (r: &'static str)
        ensures
            r@ == self.phrase(),
    {
        match self {
            Status::Success => "OK",
            Status::NoContent => "No Content",
            Status::BadRequest => "Bad Request",
            Status::Unauthorized => "Unauthorized",
            Status::Forbidden => "Forbidden",
            Status::NotFound => "Not Found",
            Status::RequestTimeout => "Request Timeout",
            Status::PayloadTooLarge => "Payload Too Large",
            Status::InternalServerError => "Internal Server Error",
            Status::ServiceUnavailable => "Service Unavailable",
        }
    }
}

/// What the body of an answer holds.
#[derive(Clone, Copy, Debug, PartialEq, Eq, Structural)]
pub enum Content {
    Nothing,
    Text,
    Json,
}

/// An answer.
#[derive(Debug, PartialEq, Eq)]
pub struct Reply {
    pub status: Status,
    pub content: Content,
    pub body: String,
}

/// Whether an answer is a status alone.
pub open spec fn is_bare(r: Reply, status: Status) -> bool {
    r.status == status && r.content == Content::Nothing && r.body@.len() == 0
}

/// Whether an answer is a text.
pub open spec fn is_text(r: Reply, status: Status, body: Seq<char>) -> bool {
    r.status == status && r.content == Content::Text && r.body@ == body
}

/// Whether an answer is JSON.
pub open spec fn is_json(r: Reply, status: Status, body: Seq<char>) -> bool {
    r.status == status && r.content == Content::Json && r.body@ == body
}

pub fn bare(status: Status) -> (r: Reply)
    ensures
        is_bare(r, status),
{
    Reply { status, content: Content::Nothing, body: String::new() }
}

fn plain(status: Status, body: &str) -> (r: Reply)
    ensures
        is_text(r, status, body@),
{
    Reply { status, content: Content::Text, body: owned(body) }
}

fn json_reply(status: Status, body: String) -> (r: Reply)
    ensures
        is_json(r, status, body@),
{
    Reply { status, content: Content::Json, body }
}

/// What a refused request is told.
pub open spec fn error_json(
    status: Status,
    message: Seq<char>,
    path: Seq<char>,
    trace: bool,
    time_ms: u64,
) -> Seq<char> {
    let m = wire::with_member(Seq::empty(), "error"@, wire::json_quoted(status.phrase()));
    let m = wire::with_member(m, "message"@, wire::json_quoted(message));
    let m = wire::with_member(m, "path"@, wire::json_quoted(path));
    let m = wire::with_member(m, "status"@, text::decimal(status.number() as nat));
    let m = wire::with_member(m, "timestamp"@, text::decimal(time_ms as nat));
    wire::braces(
        wire::with_member_if(
            m,
            trace,
            "trace"@,
            wire::json_quoted("Crust protocol boundary rejection"@),
        ),
    )
}

/// Whether an answer refuses a request with a message.
pub open spec fn is_refusal(
    r: Reply,
    status: Status,
    message: Seq<char>,
    path: Seq<char>,
    trace: bool,
    time_ms: u64,
) -> bool {
    is_json(r, status, error_json(status, message, path, trace, time_ms))
}

pub fn protocol_error(status: Status, message: &str, path: &str, trace: bool, time_ms: u64) -> (r:
    Reply)
    ensures
        is_refusal(r, status, message@, path@, trace, time_ms),
{
    let mut m = String::new();
    put_text(&mut m, "error", status.reason());
    put_text(&mut m, "message", message);
    put_text(&mut m, "path", path);
    put_number(&mut m, "status", status.code() as u64);
    put_number(&mut m, "timestamp", time_ms);
    if trace {
        put_text(&mut m, "trace", "Crust protocol boundary rejection");
    }
    json_reply(status, object(m.as_str()))
}

/// What is told where the status of a rotating planner has no address yet.
pub open spec fn internal_json(path: Seq<char>, time_ms: u64) -> Seq<char> {
    let m = wire::with_member(
        Seq::empty(),
        "error"@,
        wire::json_quoted("Internal Server Error"@),
    );
    let m = wire::with_member(m, "path"@, wire::json_quoted(path));
    let m = wire::with_member(m, "status"@, text::decimal(500));
    wire::braces(wire::with_member(m, "timestamp"@, text::decimal(time_ms as nat)))
}

pub fn reference_internal_error(path: &str, time_ms: u64) -> (r: Reply)
    ensures
        is_json(r, Status::InternalServerError, internal_json(path@, time_ms)),
{
    let mut m = String::new();
    put_text(&mut m, "error", "Internal Server Error");
    put_text(&mut m, "path", path);
    put_number(&mut m, "status", 500);
    put_number(&mut m, "timestamp", time_ms);
    json_reply(Status::InternalServerError, object(m.as_str()))
}

/// The hexadecimal digit of a number below sixteen.
pub open spec fn hex_char(digit: int) -> char {
    if digit < 10 {
        ('0' as int + digit) as char
    } else {
        ('a' as int + digit - 10) as char
    }
}

/// The number in that many hexadecimal digits, its lowest last.
pub open spec fn hex_digits(number: nat, width: nat) -> Seq<char>
    decreases width,
{
    if width == 0 {
        Seq::empty()
    } else {
        hex_digits(number / 16, (width - 1) as nat).push(hex_char((number % 16) as int))
    }
}

fn hex_text(number: u64, width: u8) -> (r: String)
    ensures
        r@ == hex_digits(number as nat, width as nat),
    decreases width,
{
    if width == 0 {
        return String::new();
    }
    let mut r: String = hex_text(number / 16, width - 1);
    let digit: u8 = (number % 16) as u8;
    let shown: char = if digit < 10 {
        (48 + digit) as char
    } else {
        (87 + digit) as char
    };
    push_char(&mut r, shown);
    r
}

/// The identifier that a reply carries of the request it answers: sixteen
/// hexadecimal digits.
pub fn request_id_text(id: u64) -> (r: String)
    ensures
        r@ == hex_digits(id as nat, 16),
{
    hex_text(id, 16)
}

/// The reply to a request that no route takes.
pub fn fallback(path: &str, query: Option<&str>, time_ms: u64) -> (r: Reply)
    ensures
        is_refusal(
            r,
            Status::NotFound,
            "No route for this request"@,
            path@,
            asks_trace(optional_str(query)),
            time_ms,
        ),
{
    let trace: bool = trace_requested(query);
    protocol_error(Status::NotFound, "No route for this request", path, trace, time_ms)
}

/// Whether the server still takes requests.
pub fn readiness(accepting: bool) -> (r: Reply)
    ensures
        accepting ==> is_text(r, Status::Success, "ready"@),
        !accepting ==> is_text(r, Status::ServiceUnavailable, "shutting down"@),
{
    if accepting {
        plain(Status::Success, "ready")
    } else {
        plain(Status::ServiceUnavailable, "shutting down")
    }
}

/// Whether two secrets are the same; how long it takes does not tell where
/// they differ.
pub fn constant_time_equal(left: &str, right: &str) -> (r: bool)
    ensures
        r == (left@ == right@),
{
    proof {
        vstd::utf8::encode_utf8_decode_utf8(left@);
        vstd::utf8::encode_utf8_decode_utf8(right@);
    }
    let a = left.as_bytes();
    let b = right.as_bytes();
    a.len() == b.len() && same_bytes(a, b)
}

/// A header: absent, unreadable, or a text.
#[derive(Clone, Copy, Debug, PartialEq, Eq)]
pub enum Header<'a> {
    Absent,
    Unreadable,
    Text(&'a str),
}

/// Whether a path is open to everybody.
pub open spec fn is_open(path: Seq<char>, metrics: bool, metrics_path: Seq<char>) -> bool {
    path == "/health/live"@ || path == "/health/ready"@ || (metrics && path == metrics_path)
}

/// Why a request is turned away.
pub open spec fn access_fault(
    path: Seq<char>,
    metrics: bool,
    metrics_path: Seq<char>,
    supplied: Header<'_>,
    password: Seq<char>,
) -> Option<Status> {
    if is_open(path, metrics, metrics_path) {
        None
    } else {
        match supplied {
            Header::Absent => Some(Status::Unauthorized),
            Header::Text(secret) => if secret@ == password {
                None
            } else if path == "/v4/websocket"@ {
                Some(Status::Unauthorized)
            } else {
                Some(Status::Forbidden)
            },
            Header::Unreadable => if path == "/v4/websocket"@ {
                Some(Status::Unauthorized)
            } else {
                Some(Status::Forbidden)
            },
        }
    }
}

/// Whether a request may go on; otherwise the status that it is answered with.
pub fn authorize(
    path: &str,
    metrics: bool,
    metrics_path: &str,
    supplied: Header<'_>,
    password: &str,
) -> (r: Option<Status>)
    ensures
        r == access_fault(path@, metrics, metrics_path@, supplied, password@),
{
    if same_text(path, "/health/live") || same_text(path, "/health/ready") || (metrics && same_text(
        path,
        metrics_path,
    )) {
        return None;
    }
    let valid: bool = match supplied {
        Header::Absent => return Some(Status::Unauthorized),
        Header::Unreadable => false,
        Header::Text(secret) => constant_time_equal(secret, password),
    };
    if valid {
        None
    } else if same_text(path, "/v4/websocket") {
        Some(Status::Unauthorized)
    } else {
        Some(Status::Forbidden)
    }
}

/// Behind the open paths nobody passes without the password.
pub proof fn only_the_password_opens(
    path: Seq<char>,
    metrics: bool,
    metrics_path: Seq<char>,
    supplied: Header<'_>,
    password: Seq<char>,
)
    requires
        !is_open(path, metrics, metrics_path),
        access_fault(path, metrics, metrics_path, supplied, password) is None,
    ensures
        supplied matches Header::Text(secret) && secret@ == password,
{
}

/// Whether a text is among others.
pub open spec fn is_among(wanted: Seq<char>, texts: Seq<Seq<char>>) -> bool {
    exists|i: int| 0 <= i < texts.len() && #[trigger] texts[i] == wanted
}

/// Whether a query asks for a trace.
pub open spec fn asks_trace(query: Option<Seq<char>>) -> bool {
    match query {
        Some(query) => is_among("trace=true"@, text::pieces(query, Cut::At('&'))),
        None => false,
    }
}

pub fn trace_requested(query: Option<&str>) -> (r: bool)
    ensures
        r == asks_trace(optional_str(query)),
{
    match query {
        None => false,
        Some(written) => {
            let fields: Vec<String> = split(written, Cut::At('&'));
            let ghost pieces = text::pieces(written@, Cut::At('&'));
            let mut i: usize = 0;
            while i < fields.len()
                invariant
                    i <= fields@.len(),
                    optional_str(query) == Some(written@),
                    pieces == text::pieces(written@, Cut::At('&')),
                    text::texts(fields@) == pieces,
                    forall|k: int| 0 <= k < i ==> #[trigger] pieces[k] != "trace=true"@,
                decreases fields@.len() - i,
            {
                assert(text::texts(fields@)[i as int] == fields@[i as int]@);
                if same_text(fields[i].as_str(), "trace=true") {
                    assert(text::texts(fields@).len() == fields@.len());
                    assert(pieces[i as int] == "trace=true"@);
                    return true;
                }
                i = i + 1;
            }
            assert(text::texts(fields@).len() == fields@.len());
            false
        },
    }
}

/// Where the first equals sign stands, or the length.
pub open spec fn first_equals(field: Seq<char>) -> int
    decreases field.len(),
{
    if field.len() == 0 || field[0] == '=' {
        0
    } else {
        1 + first_equals(field.skip(1))
    }
}

/// The name of a query field: what stands before its first equals sign.
pub open spec fn field_name(field: Seq<char>) -> Seq<char> {
    field.take(first_equals(field))
}

/// The value of a query field: what stands behind its first equals sign.
pub open spec fn field_value(field: Seq<char>) -> Seq<char> {
    if first_equals(field) < field.len() {
        field.skip(first_equals(field) + 1)
    } else {
        Seq::empty()
    }
}

/// The values that are given to a name, in their order.
pub open spec fn given_values(fields: Seq<Seq<char>>, name: Seq<char>) -> Seq<Seq<char>>
    decreases fields.len(),
{
    if fields.len() == 0 {
        Seq::empty()
    } else if field_name(fields.last()) == name {
        given_values(fields.drop_last(), name).push(field_value(fields.last()))
    } else {
        given_values(fields.drop_last(), name)
    }
}

/// Whether a query asks to keep a playing track.
pub open spec fn no_replace_of(query: Seq<char>) -> Result<bool, &'static str> {
    let values = given_values(text::pieces(query, Cut::At('&')), "noReplace"@);
    if values.len() == 0 {
        Ok(false)
    } else if values[0] != "true"@ && values[0] != "false"@ {
        Err("noReplace must be true or false")
    } else if values.len() > 1 {
        Err("noReplace must be supplied at most once")
    } else {
        Ok(values[0] == "true"@)
    }
}

proof fn first_equals_found(field: Seq<char>, k: int)
    requires
        0 <= k <= field.len(),
        forall|i: int| 0 <= i < k ==> #[trigger] field[i] != '=',
        k == field.len() || field[k] == '=',
    ensures
        first_equals(field) == k,
    decreases field.len(),
{
    if k > 0 {
        let rest = field.skip(1);
        assert(field[0] != '=');
        assert forall|i: int| 0 <= i < k - 1 implies #[trigger] rest[i] != '=' by {
            assert(rest[i] == field[i + 1]);
        }
        first_equals_found(rest, k - 1);
    }
}

/// The name and the value of a query field.
fn split_field(field: &str) -> (r: (String, String))
    ensures
        r.0@ == field_name(field@),
        r.1@ == field_value(field@),
{
    let chars: Vec<char> = chars_of(field);
    let total: usize = chars.len();
    let mut k: usize = 0;
    while k < total && chars[k] != '='
        invariant
            k <= total,
            total == chars@.len(),
            forall|i: int| 0 <= i < k ==> #[trigger] chars@[i] != '=',
        decreases total - k,
    {
        k = k + 1;
    }
    proof {
        first_equals_found(field@, k as int);
    }
    let name: String = text_of(&chars, 0, k);
    let value: String = if k < total {
        text_of(&chars, k + 1, total)
    } else {
        String::new()
    };
    assert(name@ =~= field_name(field@));
    assert(value@ =~= field_value(field@));
    (name, value)
}

proof fn values_grow(fields: Seq<Seq<char>>, name: Seq<char>, i: int)
    requires
        0 <= i <= fields.len(),
    ensures
        given_values(fields.take(i), name).len() <= given_values(fields, name).len(),
        forall|k: int|
            0 <= k < given_values(fields.take(i), name).len() ==> #[trigger] given_values(
                fields,
                name,
            )[k] == given_values(fields.take(i), name)[k],
    decreases fields.len(),
{
    if i == fields.len() {
        assert(fields.take(i) =~= fields);
    } else {
        values_grow(fields.drop_last(), name, i);
        assert(fields.drop_last().take(i) =~= fields.take(i));
    }
}

/// Whether a request asks to keep a playing track.
pub fn parse_no_replace(query: Option<&str>) -> (r: Result<bool, &'static str>)
    ensures
        r == match query {
            Some(query) => no_replace_of(query@),
            None => Ok::<bool, &'static str>(false),
        },
{
    let written: &str = match query {
        Some(written) => written,
        None => return Ok(false),
    };
    let fields: Vec<String> = split(written, Cut::At('&'));
    let ghost pieces = text::pieces(written@, Cut::At('&'));
    let ghost name = "noReplace"@;
    let mut seen: bool = false;
    let mut no_replace: bool = false;
    let mut i: usize = 0;
    proof {
        assert(text::texts(fields@).len() == fields@.len());
        reveal_strlit("true");
        reveal_strlit("false");
        assert("true"@.len() == 4);
    }
    while i < fields.len()
        invariant
            i <= fields@.len(),
            query == Some(written),
            name == "noReplace"@,
            pieces == text::pieces(written@, Cut::At('&')),
            text::texts(fields@) == pieces,
            pieces.len() == fields@.len(),
            "true"@ != "false"@,
            seen <==> given_values(pieces.take(i as int), name).len() == 1,
            !seen <==> given_values(pieces.take(i as int), name).len() == 0,
            seen ==> given_values(pieces.take(i as int), name)[0] == if no_replace {
                "true"@
            } else {
                "false"@
            },
            !seen ==> !no_replace,
        decreases fields@.len() - i,
    {
        let (field, value): (String, String) = split_field(fields[i].as_str());
        proof {
            assert(text::texts(fields@)[i as int] == fields@[i as int]@);
            assert(pieces.take(i + 1).drop_last() =~= pieces.take(i as int));
            assert(pieces.take(i + 1).last() == fields@[i as int]@);
            values_grow(pieces, name, i + 1);
        }
        if same_text(field.as_str(), "noReplace") {
            if seen {
                proof {
                    assert(given_values(pieces.take(i + 1), name).len() == 2);
                    assert(given_values(pieces, name)[0] == given_values(pieces.take(i + 1), name)[0]);
                }
                return Err("noReplace must be supplied at most once");
            }
            seen = true;
            assert(given_values(pieces.take(i + 1), name)[0] == value@);
            if same_text(value.as_str(), "true") {
                no_replace = true;
            } else if same_text(value.as_str(), "false") {
                no_replace = false;
            } else {
                assert(given_values(pieces, name)[0] == value@);
                return Err("noReplace must be true or false");
            }
        }
        i = i + 1;
    }
    assert(pieces.take(i as int) =~= pieces);
    Ok(no_replace)
}

/// What is asked does not depend on what else a query holds: only the fields
/// with that name count.
pub proof fn other_fields_do_not_matter(fields: Seq<Seq<char>>, other: Seq<char>)
    requires
        field_name(other) != "noReplace"@,
    ensures
        given_values(fields.push(other), "noReplace"@) == given_values(fields, "noReplace"@),
{
    assert(fields.push(other).drop_last() =~= fields);
}

/// The guild in its canonical form.
pub open spec fn canonical_guild(guild_id: Seq<char>) -> Option<Seq<char>> {
    match text::read_signed(guild_id, i64::MIN as int, i64::MAX as int) {
        Some(id) => Some(text::signed_decimal(id)),
        None => None,
    }
}

pub fn canonical_guild_id(guild_id: &str) -> (r: Result<String, &'static str>)
    ensures
        match canonical_guild(guild_id@) {
            Some(id) => r matches Ok(canonical) && canonical@ == id,
            None => r == Err::<String, &'static str>("Invalid guild ID"),
        },
{
    match parse_i64(guild_id) {
        Some(id) => Ok(signed_decimal_text(id)),
        None => Err("Invalid guild ID"),
    }
}

/// The canonical form of a guild is its own canonical form, so however a
/// client writes a guild, it reaches the same player.
pub proof fn canonical_guilds_stay(guild_id: Seq<char>)
    requires
        canonical_guild(guild_id) is Some,
    ensures
        canonical_guild(canonical_guild(guild_id)->0) == canonical_guild(guild_id),
{
    let id = text::read_signed(guild_id, i64::MIN as int, i64::MAX as int)->0;
    text::signed_decimal_reads_back(id, i64::MIN as int, i64::MAX as int);
}

} // verus!
