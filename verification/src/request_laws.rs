//! How requests are answered: what each refusal says, and what opens the node.

use crate::config::FilterConfig;
use crate::filter_laws;
use crate::filters;
use crate::handlers;
use crate::handlers::{Body, LoadAdmissionError};
use crate::http;
use crate::http::{Header, Reply, Status};
use crate::media::{AdapterError, PlayerError};
use crate::player;
use crate::protocol::{PatchField, PlayerUpdate, SessionUpdate};
use crate::session::{PlayerAdmissionError, PrepareError, SessionSettings};
use crate::shard::LoadAdmission;
use crate::text;
use crate::text::Cut;
use crate::wire;
use crate::wire_laws;
use vstd::prelude::*;

verus! {

/// The status with a number and its words.
pub open spec fn is_status(status: Status, number: u16, words: Seq<char>) -> bool {
    status.number() == number && status.phrase() == words
}

/// Statuses go by their registered numbers and words.
pub proof fn statuses_are_registered()
    ensures
        is_status(Status::Success, 200, "OK"@),
        is_status(Status::NoContent, 204, "No Content"@),
        is_status(Status::BadRequest, 400, "Bad Request"@),
        is_status(Status::Unauthorized, 401, "Unauthorized"@),
        is_status(Status::Forbidden, 403, "Forbidden"@),
        is_status(Status::NotFound, 404, "Not Found"@),
        is_status(Status::RequestTimeout, 408, "Request Timeout"@),
        is_status(Status::PayloadTooLarge, 413, "Payload Too Large"@),
        is_status(Status::InternalServerError, 500, "Internal Server Error"@),
        is_status(Status::ServiceUnavailable, 503, "Service Unavailable"@),
{
}

/// A refusal carries its status and tells it, with the message, the path and
/// the time; it has a trace where one was asked for.
pub proof fn refusals_tell_what_was_wrong(
    r: Reply,
    status: Status,
    message: Seq<char>,
    path: Seq<char>,
    trace: bool,
    time_ms: u64,
)
    requires
        http::is_refusal(r, status, message, path, trace, time_ms),
    ensures
        r.status == status,
        r.content == http::Content::Json,
        wire_laws::tells(r.body@, "status"@, text::decimal(status.number() as nat)),
        wire_laws::tells(r.body@, "error"@, wire::json_quoted(status.phrase())),
        wire_laws::tells(r.body@, "message"@, wire::json_quoted(message)),
        wire_laws::tells(r.body@, "path"@, wire::json_quoted(path)),
        wire_laws::tells(r.body@, "timestamp"@, text::decimal(time_ms as nat)),
        trace ==> wire_laws::tells(
            r.body@,
            "trace"@,
            wire::json_quoted("Crust protocol boundary rejection"@),
        ),
{
    broadcast use wire_laws::group_members;

}

/// The failure of a planner without an address tells its path and time.
pub proof fn planner_failures_tell_their_path(path: Seq<char>, time_ms: u64)
    ensures
        wire_laws::tells(http::internal_json(path, time_ms), "status"@, text::decimal(500)),
        wire_laws::tells(
            http::internal_json(path, time_ms),
            "error"@,
            wire::json_quoted("Internal Server Error"@),
        ),
        wire_laws::tells(http::internal_json(path, time_ms), "path"@, wire::json_quoted(path)),
        wire_laws::tells(
            http::internal_json(path, time_ms),
            "timestamp"@,
            text::decimal(time_ms as nat),
        ),
{
    broadcast use wire_laws::group_members;

}

/// A request passes exactly where it has the password or asks for the health of
/// the node or for open metrics; one without a password is unauthorized, and
/// one with a wrong one is forbidden but on the socket.
pub proof fn requests_pass_with_the_password(
    path: Seq<char>,
    metrics: bool,
    metrics_path: Seq<char>,
    supplied: Header<'_>,
    password: Seq<char>,
)
    ensures
        ({
            let fault = http::access_fault(path, metrics, metrics_path, supplied, password);
            let right = supplied is Text && supplied->Text_0@ == password;
            let free = path == "/health/live"@ || path == "/health/ready"@ || (metrics && path
                == metrics_path);
            &&& fault is None <==> right || free
            &&& !free && supplied is Absent ==> fault == Some(Status::Unauthorized)
            &&& !free && !right && path == "/v4/websocket"@ ==> fault == Some(Status::Unauthorized)
            &&& !free && !right && !(supplied is Absent) && path != "/v4/websocket"@ ==> fault
                == Some(Status::Forbidden)
        }),
{
}

/// Where a piece of a query gives this name, and what it gives to it.
pub open spec fn gives(field: Seq<char>, name: Seq<char>, value: Seq<char>) -> bool {
    field == name + seq!['='] + value
}

proof fn lemma_field(field: Seq<char>, name: Seq<char>, value: Seq<char>)
    requires
        gives(field, name, value),
        forall|i: int| 0 <= i < name.len() ==> #[trigger] name[i] != '=',
    ensures
        http::field_name(field) == name,
        http::field_value(field) == value,
{
    lemma_equals(field, name.len() as int);
    assert(field.take(name.len() as int) =~= name);
    assert(field.skip(name.len() as int + 1) =~= value);
}

proof fn lemma_equals(field: Seq<char>, k: int)
    requires
        0 <= k < field.len(),
        forall|i: int| 0 <= i < k ==> #[trigger] field[i] != '=',
        field[k] == '=',
    ensures
        http::first_equals(field) == k,
    decreases k,
{
    if k > 0 {
        let rest = field.skip(1);
        assert(field[0] != '=');
        assert forall|i: int| 0 <= i < k - 1 implies #[trigger] rest[i] != '=' by {
            assert(rest[i] == field[i + 1]);
        }
        lemma_equals(rest, k - 1);
    }
}

proof fn lemma_none_given(fields: Seq<Seq<char>>, name: Seq<char>)
    requires
        forall|i: int| 0 <= i < fields.len() ==> http::field_name(#[trigger] fields[i]) != name,
    ensures
        http::given_values(fields, name).len() == 0,
    decreases fields.len(),
{
    if fields.len() > 0 {
        assert(http::field_name(fields[fields.len() - 1]) != name);
        assert forall|i: int| 0 <= i < fields.len() - 1 implies http::field_name(
            #[trigger] fields.drop_last()[i],
        ) != name by {
            assert(fields.drop_last()[i] == fields[i]);
        }
        lemma_none_given(fields.drop_last(), name);
    }
}

proof fn lemma_one_given(fields: Seq<Seq<char>>, name: Seq<char>, k: int)
    requires
        0 <= k < fields.len(),
        http::field_name(fields[k]) == name,
        forall|i: int|
            0 <= i < fields.len() && i != k ==> http::field_name(#[trigger] fields[i]) != name,
    ensures
        http::given_values(fields, name) == seq![http::field_value(fields[k])],
    decreases fields.len(),
{
    let front = fields.drop_last();
    assert forall|i: int| 0 <= i < front.len() && i != k implies http::field_name(
        #[trigger] front[i],
    ) != name by {
        assert(front[i] == fields[i]);
    }
    if k == fields.len() - 1 {
        lemma_none_given(front, name);
        assert(http::given_values(front, name) =~= Seq::empty());
        assert(http::given_values(fields, name) =~= seq![http::field_value(fields[k])]);
    } else {
        assert(http::field_name(fields[fields.len() - 1]) != name);
        assert(front[k] == fields[k]);
        lemma_one_given(front, name, k);
    }
}

/// A query asks to keep a playing track where its one `noReplace` says `true`;
/// it does not where it says `false` or where there is none.
pub proof fn a_query_asks_to_keep_the_track(query: Seq<char>, k: int, yes: bool)
    requires
        ({
            let fields = text::pieces(query, Cut::At('&'));
            &&& 0 <= k < fields.len()
            &&& fields[k] == (if yes {
                "noReplace=true"@
            } else {
                "noReplace=false"@
            })
            &&& forall|i: int|
                0 <= i < fields.len() && i != k ==> http::field_name(#[trigger] fields[i])
                    != "noReplace"@
        }),
    ensures
        http::no_replace_of(query) == Ok::<bool, &'static str>(yes),
{
    let fields = text::pieces(query, Cut::At('&'));
    reveal_strlit("noReplace=true");
    reveal_strlit("noReplace=false");
    reveal_strlit("noReplace");
    reveal_strlit("true");
    reveal_strlit("false");
    let value = if yes {
        "true"@
    } else {
        "false"@
    };
    assert("true"@.len() != "false"@.len());
    assert(fields[k] =~= "noReplace"@ + seq!['='] + value);
    lemma_field(fields[k], "noReplace"@, value);
    lemma_one_given(fields, "noReplace"@, k);
}

/// A query that does not speak of `noReplace` does not ask to keep the track.
pub proof fn a_silent_query_replaces(query: Seq<char>)
    requires
        forall|i: int|
            0 <= i < text::pieces(query, Cut::At('&')).len() ==> http::field_name(
                #[trigger] text::pieces(query, Cut::At('&'))[i],
            ) != "noReplace"@,
    ensures
        http::no_replace_of(query) == Ok::<bool, &'static str>(false),
{
    lemma_none_given(text::pieces(query, Cut::At('&')), "noReplace"@);
}

/// A guild is told by its number: each spelling of a number gives the same
/// canonical text, and that text writes the number.
pub proof fn guilds_go_by_their_number(guild_id: Seq<char>)
    ensures
        http::canonical_guild(guild_id) matches Some(canonical) ==> text::read_signed(
            canonical,
            -9_223_372_036_854_775_808,
            9_223_372_036_854_775_807,
        ) == text::read_signed(
            guild_id,
            -9_223_372_036_854_775_808,
            9_223_372_036_854_775_807,
        ),
        http::canonical_guild(guild_id) is Some <==> text::read_signed(
            guild_id,
            -9_223_372_036_854_775_808,
            9_223_372_036_854_775_807,
        ) is Some,
{
    if http::canonical_guild(guild_id) is Some {
        let id = text::read_signed(guild_id, i64::MIN as int, i64::MAX as int)->0;
        text::signed_decimal_reads_back(id, i64::MIN as int, i64::MAX as int);
    }
}

/// What went wrong with a player decides the number of the answer, and the
/// words are those of the failure.
pub proof fn player_failures_have_their_numbers(error: PlayerError)
    ensures
        handlers::player_status(error).number() == match error {
            PlayerError::Invalid(_) => 400int,
            PlayerError::NotFound => 404,
            PlayerError::Overloaded => 503,
            PlayerError::Media(_) => 500,
        },
        error matches PlayerError::Invalid(words) ==> handlers::player_message(error) == words@,
        error matches PlayerError::Media(words) ==> handlers::player_message(error) == words@,
        error is NotFound ==> handlers::player_message(error) == "Player not found"@,
        error is Overloaded ==> handlers::player_message(error)
            == "Player executor capacity reached"@,
{
}

/// What went wrong with the media decides the number of the answer.
pub proof fn media_failures_have_their_numbers(error: AdapterError)
    ensures
        handlers::adapter_status(error).number() == (if error.kind is Cancelled {
            408
        } else if error.kind is Shutdown || error.kind is Overloaded {
            503
        } else {
            500int
        }),
{
}

/// What a failed load tells of its failure.
pub open spec fn load_data(error: AdapterError) -> Seq<char> {
    let message = wire::json_quoted(error.message@);
    let d = wire::with_member(Seq::empty(), "cause"@, message);
    let d = wire::with_member(d, "causeStackTrace"@, message);
    let d = wire::with_member(d, "message"@, message);
    wire::braces(wire::with_member(d, "severity"@, wire::json_quoted("suspicious"@)))
}

/// A failed load is answered as an error, with the message of the failure.
pub proof fn a_failed_load_tells_its_message(error: AdapterError)
    ensures
        wire_laws::tells(handlers::load_failed_json(error), "loadType"@, wire::json_quoted("error"@)),
        wire_laws::tells(handlers::load_failed_json(error), "data"@, load_data(error)),
        wire_laws::tells(load_data(error), "message"@, wire::json_quoted(error.message@)),
        wire_laws::tells(load_data(error), "cause"@, wire::json_quoted(error.message@)),
        wire_laws::tells(load_data(error), "causeStackTrace"@, wire::json_quoted(error.message@)),
        wire_laws::tells(load_data(error), "severity"@, wire::json_quoted("suspicious"@)),
{
    broadcast use wire_laws::group_members;

}

/// A load is admitted exactly where there is an adapter and room for it and
/// for its request.
pub proof fn loads_are_admitted_where_there_is_room(has_adapter: bool, admission: LoadAdmission)
    ensures
        handlers::load_fault(has_adapter, admission) is None <==> has_adapter && admission.loads > 0
            && admission.source_requests > 0,
        !has_adapter <==> handlers::load_fault(has_adapter, admission) == Some(
            LoadAdmissionError::AdapterUnavailable,
        ),
        has_adapter && admission.loads == 0 ==> handlers::load_fault(has_adapter, admission) == Some(
            LoadAdmissionError::ConcurrentLoads,
        ),
{
}

/// Refused loads hear what there was too little of.
pub proof fn refused_loads_hear_why()
    ensures
        handlers::load_fault_message(LoadAdmissionError::AdapterUnavailable)
            == "Mantle adapter unavailable"@,
        handlers::load_fault_message(LoadAdmissionError::ConcurrentLoads)
            == "Concurrent load capacity reached"@,
        handlers::load_fault_message(LoadAdmissionError::SourceRequests)
            == "Source request capacity reached"@,
{
}

/// Whether a batch is refused under this number and with these words.
pub open spec fn is_stopped(
    fault: Option<(Status, Seq<char>, bool)>,
    number: u16,
    words: Seq<char>,
) -> bool {
    fault matches Some((status, told, _)) && status.number() == number && told == words
}

/// A batch is decoded exactly where it holds between one and so many tracks
/// and there is an adapter.
pub proof fn batches_are_decoded_within_their_limit(
    body: Body<Vec<String>>,
    limit: usize,
    has_adapter: bool,
)
    ensures
        handlers::batch_fault(body, limit, has_adapter) is None <==> (body is Given && 1
            <= body->Given_0@.len() <= limit && has_adapter),
        body is TooLarge ==> is_stopped(
            handlers::batch_fault(body, limit, has_adapter),
            413,
            "Request body exceeds the configured limit"@,
        ),
        body is Invalid ==> is_stopped(
            handlers::batch_fault(body, limit, has_adapter),
            400,
            "Invalid encoded tracks"@,
        ),
        body is Given && 1 <= body->Given_0@.len() <= limit && !has_adapter
            ==> is_stopped(
            handlers::batch_fault(body, limit, has_adapter),
            503,
            "Mantle adapter unavailable"@,
        ),
        body is Given && body->Given_0@.len() == 0 ==> is_stopped(
            handlers::batch_fault(body, limit, has_adapter),
            400,
            "No tracks to decode provided"@,
        ),
        body is Given && body->Given_0@.len() > limit && limit > 0 ==> is_stopped(
            handlers::batch_fault(body, limit, has_adapter),
            400,
            "Too many tracks to decode"@,
        ),
{
}

/// A request names a user where it gives one that is not zero.
pub proof fn users_are_named_by_more_than_zero(user: Seq<char>)
    ensures
        !handlers::names_user(None),
        user.len() == 0 ==> !handlers::names_user(Some(user)),
        (exists|i: int| 0 <= i < user.len() && '1' <= #[trigger] user[i] <= '9')
            ==> handlers::names_user(Some(user)),
        user.len() > 0 && (forall|i: int| 0 <= i < user.len() ==> #[trigger] user[i] == '0')
            ==> !handlers::names_user(Some(user)),
{
    if exists|i: int| 0 <= i < user.len() && '1' <= #[trigger] user[i] <= '9' {
        let i = choose|i: int| 0 <= i < user.len() && '1' <= #[trigger] user[i] <= '9';
        let rest = handlers::without_sign(user);
        if user[0] == '+' || user[0] == '-' {
            assert(rest[i - 1] == user[i]);
        } else {
            assert(rest[i] == user[i]);
        }
    }
    if user.len() > 0 && (forall|i: int| 0 <= i < user.len() ==> #[trigger] user[i] == '0') {
        assert(user[0] == '0');
    }
}

/// Why no session was prepared decides the number and the words of the answer.
pub proof fn unprepared_sessions_are_refused(error: PrepareError)
    ensures
        ({
            let (status, words) = handlers::prepare_refusal(error);
            match error {
                PrepareError::Full => status.number() == 503 && words
                    == "Session capacity reached"@,
                PrepareError::ResumeOverloaded => status.number() == 503 && words
                    == "Session capacity reached"@,
                PrepareError::IdentityGeneration => status.number() == 500 && words
                    == "Session identity generation failed"@,
                PrepareError::ShuttingDown => status.number() == 503 && words
                    == "Server is shutting down"@,
            }
        }),
{
}

/// A session shows its settings.
pub proof fn settings_are_shown(settings: SessionSettings)
    ensures
        wire_laws::tells(
            handlers::settings_json(settings),
            "resuming"@,
            if settings.resuming {
                "true"@
            } else {
                "false"@
            },
        ),
        wire_laws::tells(
            handlers::settings_json(settings),
            "timeout"@,
            text::signed_decimal(settings.timeout_seconds as int),
        ),
{
    broadcast use wire_laws::group_members;

}

/// A change of settings holds exactly what was given, each under its own name,
/// and is refused where something is null.
pub proof fn settings_change_as_given(body: Body<SessionUpdate>)
    ensures
        body matches Body::Given(update) ==> {
            &&& handlers::session_change(body) is Ok <==> !(update.resuming is Null)
                && !(update.timeout is Null)
            &&& handlers::session_change(body) matches Ok(change) ==> {
                &&& update.resuming matches PatchField::Value(resuming) ==> change.resuming == Some(
                    resuming,
                )
                &&& update.resuming is Omitted ==> change.resuming is None
                &&& update.timeout matches PatchField::Value(timeout) ==> change.timeout_seconds
                    == Some(timeout)
                &&& update.timeout is Omitted ==> change.timeout_seconds is None
            }
            &&& update.resuming is Null ==> handlers::session_change(body) == Err::<
                crate::session::SessionSettingsUpdate,
                (Status, Seq<char>),
            >((Status::BadRequest, "resuming must not be null"@))
            &&& !(update.resuming is Null) && update.timeout is Null ==> handlers::session_change(
                body,
            ) == Err::<crate::session::SessionSettingsUpdate, (Status, Seq<char>)>(
                (Status::BadRequest, "timeout must not be null"@),
            )
        },
        body is TooLarge ==> handlers::session_change(body) is Err && ({
            let (status, _) = handlers::session_change(body)->Err_0;
            status.number() == 413
        }),
        body is Invalid ==> handlers::session_change(body) is Err && ({
            let (status, _) = handlers::session_change(body)->Err_0;
            status.number() == 400
        }),
{
}

/// Why no player was admitted decides the number and the words of the answer.
pub proof fn unadmitted_players_are_refused(error: PlayerAdmissionError)
    ensures
        ({
            let (status, words) = handlers::admission_refusal(error);
            if error is SessionNotFound {
                status.number() == 404 && words == "Session not found"@
            } else {
                status.number() == 503 && words == "Player capacity reached"@
            }
        }),
{
}

/// Whether a request is refused under this number.
pub open spec fn is_refused(refusal: Option<(Status, Seq<char>)>, number: u16) -> bool {
    refusal matches Some((status, _)) && status.number() == number
}

/// An update goes on exactly where it can be read, has no fault and asks for
/// no filter that is switched off.
pub proof fn updates_go_on_where_nothing_is_wrong(
    body: Body<PlayerUpdate>,
    ratio_supported: bool,
    enabled: FilterConfig,
    name: Seq<char>,
)
    ensures
        ({
            let refusal = handlers::update_refusal(body, ratio_supported, enabled);
            &&& body is TooLarge ==> is_refused(refusal, 413)
            &&& body is Invalid ==> refusal == Some((Status::BadRequest, "Invalid player update"@))
            &&& body matches Body::Given(update) ==> {
                &&& player::update_fault(update, ratio_supported) matches Some(words) ==> refusal
                    == Some((Status::BadRequest, words@))
                &&& update.filters matches PatchField::Value(given) ==> (
                filter_laws::asks_in_vain(given, enabled, name) ==> is_refused(refusal, 400))
                &&& player::update_fault(update, ratio_supported) is None && !(update.filters
                    is Value) ==> refusal is None
            }
        }),
{
    if body is Given && body->Given_0.filters is Value {
        let given = body->Given_0.filters->Value_0;
        filter_laws::refused_filters_are_named(given, enabled, name);
        reveal(filter_laws::is_among);
        if filters::disabled_names(given, enabled).len() == 0 {
            assert(!filter_laws::is_among(filters::disabled_names(given, enabled), name));
        }
    }
}

/// An update that asks only for filters that are switched on, and has no fault,
/// goes on.
pub proof fn enabled_filters_are_let_through(
    update: PlayerUpdate,
    ratio_supported: bool,
    enabled: FilterConfig,
)
    requires
        player::update_fault(update, ratio_supported) is None,
        update.filters is Value,
        forall|name: Seq<char>| !#[trigger]
            filter_laws::asks_in_vain(update.filters->Value_0, enabled, name),
    ensures
        handlers::update_refusal(Body::Given(update), ratio_supported, enabled) is None,
{
    let names = filters::disabled_names(update.filters->Value_0, enabled);
    if names.len() > 0 {
        reveal(filter_laws::is_among);
        filter_laws::refused_filters_are_named(update.filters->Value_0, enabled, names[0]@);
        assert(filter_laws::is_among(names, names[0]@));
    }
}

} // verus!
