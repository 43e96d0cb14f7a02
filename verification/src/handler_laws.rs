//! What each request to the node is answered with.

use crate::handlers;
use crate::handlers::{Body, LoadStart, PatchTarget, QueryText, WebsocketRequest};
use crate::http;
use crate::http::Reply;
use crate::media;
use crate::media::{AdapterError, LoadOutcome, MediaTrack, PlayerError};
use crate::protocol::{PlayerUpdate, SessionUpdate};
use crate::request_laws;
use crate::session;
use crate::session::{PreparedSession, SessionHandle, SessionPlayer, SessionRegistry};
use crate::shard::LoadAdmission;
use crate::span::Span;
use crate::text;
use crate::wire;
use crate::wire_laws;
use vstd::prelude::*;

verus! {

/// Whether an answer refuses a request under a number, with words.
pub open spec fn refuses(reply: Reply, number: u16, words: Seq<char>, path: Seq<char>) -> bool {
    &&& reply.status.number() == number
    &&& reply.content is Json
    &&& wire_laws::tells(reply.body@, "message"@, wire::json_quoted(words))
    &&& wire_laws::tells(reply.body@, "path"@, wire::json_quoted(path))
    &&& wire_laws::tells(reply.body@, "status"@, text::decimal(number as nat))
}

broadcast proof fn refusals_refuse(
    r: Reply,
    status: http::Status,
    message: Seq<char>,
    path: Seq<char>,
    trace: bool,
    time_ms: u64,
)
    requires
        #[trigger] http::is_refusal(r, status, message, path, trace, time_ms),
    ensures
        refuses(r, status.number(), message, path),
{
    request_laws::refusals_tell_what_was_wrong(r, status, message, path, trace, time_ms);
}

/// Whether an answer is JSON of a request that went well.
pub open spec fn answers(reply: Reply, body: Seq<char>) -> bool {
    reply.status.number() == 200 && reply.content is Json && reply.body@ == body
}

/// A load begins with what it asks for, taking one place among the loads and one
/// among the requests. One without an identifier is refused, and one for a
/// source that is switched off finds nothing.
pub proof fn a_load_begins_with_what_it_asks(
    query: QueryText,
    trace: bool,
    source_enabled: bool,
    has_adapter: bool,
    before: LoadAdmission,
    after: LoadAdmission,
    path: &str,
    time_ms: u64,
    r: LoadStart,
)
    requires
        handlers::load_begun(
            query,
            trace,
            source_enabled,
            has_adapter,
            before,
            after,
            path,
            time_ms,
            r,
        ),
    ensures
        query is Invalid ==> after == before && r is Answer && refuses(
            r->Answer_0,
            400,
            "Invalid query parameters"@,
            path@,
        ),
        query == QueryText::Given(None) ==> after == before && r is Answer && refuses(
            r->Answer_0,
            400,
            "Required parameter 'identifier' is not present."@,
            path@,
        ),
        query matches QueryText::Given(Some(identifier)) ==> {
            &&& r == LoadStart::Load(identifier) <==> source_enabled && has_adapter && before.loads
                > 0 && before.source_requests > 0
            &&& r is Load ==> r->Load_0 == identifier && after.loads == before.loads - 1
                && after.source_requests == before.source_requests - 1
            &&& !(r is Load) ==> after == before
            &&& source_enabled && !(r is Load) ==> r is Shed && r->Shed_0.status.number() == 503
            &&& !source_enabled ==> r is Answer && r->Answer_0.status.number() == 200
        },
{
    broadcast use refusals_refuse;

}

/// A load that found something is answered with it; one that failed at its
/// source is answered as a failed load, and another failure is refused. Each
/// failure counts as one.
pub proof fn a_load_ends_with_what_came(
    result: Result<LoadOutcome, AdapterError>,
    path: &str,
    time_ms: u64,
    r: (Reply, bool),
)
    requires
        call_ensures(handlers::end_load_tracks, (&result, path, time_ms), r),
    ensures
        r.1 <==> result is Err,
        result matches Ok(outcome) ==> answers(r.0, media::load_result_json(outcome)),
        result matches Err(error) ==> {
            &&& error.kind is LoadFailed ==> answers(r.0, handlers::load_failed_json(error))
            &&& error.kind is Cancelled ==> refuses(r.0, 408, error.message@, path@)
            &&& error.kind is Shutdown || error.kind is Overloaded ==> refuses(
                r.0,
                503,
                error.message@,
                path@,
            )
            &&& error.kind is InvalidTrack || error.kind is InvalidOperation ==> refuses(
                r.0,
                500,
                error.message@,
                path@,
            )
        },
{
    broadcast use refusals_refuse;

}

/// A track is decoded from the text that is given for it, the newer parameter
/// before the older.
pub proof fn a_track_is_decoded_as_given(
    encoded: Option<String>,
    track: Option<String>,
    trace: bool,
    has_adapter: bool,
    path: &str,
    time_ms: u64,
    r: Result<String, Reply>,
)
    requires
        call_ensures(
            handlers::begin_decode_track,
            (QueryText::Given(encoded), track, trace, has_adapter, path, time_ms),
            r,
        ),
    ensures
        has_adapter && encoded is Some ==> r is Ok && r->Ok_0 == encoded->0,
        has_adapter && encoded is None && track is Some ==> r is Ok && r->Ok_0 == track->0,
        encoded is None && track is None ==> r is Err && refuses(
            r->Err_0,
            400,
            "No track to decode provided"@,
            path@,
        ),
        !has_adapter && (encoded is Some || track is Some) ==> r is Err && refuses(
            r->Err_0,
            503,
            "Mantle adapter unavailable"@,
            path@,
        ),
{
    broadcast use refusals_refuse;

}

/// A decoded track is answered with the track, and a failure with its message.
pub proof fn a_decoded_track_is_answered(
    result: Result<MediaTrack, AdapterError>,
    path: &str,
    time_ms: u64,
    r: Reply,
)
    requires
        call_ensures(handlers::end_decode_track, (&result, path, time_ms), r),
    ensures
        result matches Ok(track) ==> answers(r, media::loaded_track_json(track)),
        result matches Err(error) ==> r.status.number() >= 400 && wire_laws::tells(
            r.body@,
            "message"@,
            wire::json_quoted(error.message@),
        ),
{
    broadcast use refusals_refuse;

}

/// A batch is decoded as it was given, and its tracks are listed in turn.
pub proof fn a_batch_is_decoded_in_turn(
    tracks: Vec<String>,
    limit: usize,
    trace: bool,
    path: &str,
    time_ms: u64,
    begun: Result<Vec<String>, Reply>,
    values: Vec<String>,
    track: MediaTrack,
    next: Result<Vec<String>, Reply>,
)
    requires
        call_ensures(
            handlers::begin_decode_tracks,
            (Body::Given(tracks), limit, trace, true, path, time_ms),
            begun,
        ),
        call_ensures(
            handlers::list_decoded,
            (values, &Ok::<MediaTrack, AdapterError>(track), path, time_ms),
            next,
        ),
    ensures
        begun is Ok <==> 0 < tracks@.len() <= limit,
        begun is Ok ==> begun->Ok_0 == tracks,
        begun is Err ==> begun->Err_0.status.number() == 400,
        next is Ok && next->Ok_0@.len() == values@.len() + 1,
        next->Ok_0@.last()@ == media::loaded_track_json(track),
        forall|i: int| 0 <= i < values@.len() ==> next->Ok_0@[i] == #[trigger] values@[i],
{
    let made = next->Ok_0@;
    assert forall|i: int| 0 <= i < values@.len() implies made[i] == #[trigger] values@[i] by {
        assert(made.drop_last()[i] == values@[i]);
    }
}

/// The texts of a list stand in its answer as an array, in their order.
pub proof fn a_list_is_answered_in_order(values: Vec<String>, r: Reply)
    requires
        call_ensures(handlers::list_reply, (&values,), r),
        forall|i: int| 0 <= i < values@.len() ==> (#[trigger] values@[i])@.len() > 0,
    ensures
        answers(r, wire_laws::array_of(values@.map_values(|value: String| value@))),
{
    lemma_items(values@);
    wire_laws::brackets_make_arrays(values@.map_values(|value: String| value@));
}

proof fn lemma_items(values: Seq<String>)
    requires
        forall|i: int| 0 <= i < values.len() ==> (#[trigger] values[i])@.len() > 0,
    ensures
        handlers::items_of(values) == wire_laws::joined(values.map_values(|value: String| value@)),
    decreases values.len(),
{
    let all = values.map_values(|value: String| value@);
    if values.len() == 0 {
        assert(handlers::items_of(values) =~= wire_laws::joined(all));
    } else {
        let front = values.drop_last();
        let texts = front.map_values(|value: String| value@);
        assert forall|i: int| 0 <= i < front.len() implies (#[trigger] front[i])@.len() > 0 by {
            assert(front[i] == values[i]);
        }
        lemma_items(front);
        assert forall|i: int| 0 <= i < texts.len() implies (#[trigger] texts[i]).len() > 0 by {
            assert(texts[i] == front[i]@);
        }
        wire_laws::items_join(texts, values.last()@);
        assert(all =~= texts.push(values.last()@));
    }
}

/// A client that names no user, or does not ask for a socket, gets no session,
/// and nothing changes.
pub proof fn only_users_with_sockets_connect<P: SessionPlayer>(
    before: SessionRegistry<P>,
    after: SessionRegistry<P>,
    request: WebsocketRequest<'_>,
    now: Span,
    time_ms: u64,
    r: Result<PreparedSession, Reply>,
)
    requires
        handlers::socket_prepared(before, after, request, now, time_ms, r),
    ensures
        request.user_id is None || request.user_id->0@.len() == 0 ==> after == before && r is Err
            && r->Err_0.status.number() == 400 && r->Err_0.body@.len() == 0,
        !request.upgradable && r is Err && r->Err_0.body@.len() > 0 ==> after == before && refuses(
            r->Err_0,
            400,
            "WebSocket upgrade required"@,
            request.path@,
        ),
        r is Ok ==> request.upgradable && request.user_id is Some,
{
    broadcast use refusals_refuse;

}

/// A change of settings is answered with the settings as they are then; one that
/// cannot be read, or of a session that is not there, is refused.
pub proof fn changed_settings_are_answered<P: SessionPlayer>(
    before: SessionRegistry<P>,
    after: SessionRegistry<P>,
    session_id: &str,
    body: Body<SessionUpdate>,
    path: &str,
    now: Span,
    time_ms: u64,
    r: Reply,
)
    requires
        handlers::session_patched(before, after, session_id, body, path, now, time_ms, r),
    ensures
        body is TooLarge ==> after == before && r.status.number() == 413,
        body is Invalid ==> after == before && refuses(r, 400, "Invalid session update"@, path@),
        body is Given && body->Given_0.resuming is Null ==> after == before && refuses(
            r,
            400,
            "resuming must not be null"@,
            path@,
        ),
        r.status.number() == 200 || r.status.number() == 404 || r.status.number() == 400
            || r.status.number() == 413,
        r.status.number() == 404 ==> refuses(r, 404, "Session not found"@, path@),
{
    broadcast use refusals_refuse;

}

/// The players of a session are listed where the session is there, under its
/// own handle.
pub proof fn players_of_a_session_are_listed<P: SessionPlayer>(
    before: SessionRegistry<P>,
    after: SessionRegistry<P>,
    session_id: &str,
    path: &str,
    now: Span,
    time_ms: u64,
    r: Result<(SessionHandle, Vec<String>), Reply>,
)
    requires
        handlers::listing_begun(before, after, session_id, path, now, time_ms, r),
    ensures
        r is Ok <==> session::has_id(after.sessions@, session_id@),
        r matches Ok((handle, _)) ==> handle.id@ == session_id@,
        r is Err ==> refuses(r->Err_0, 404, "Session not found"@, path@),
{
    broadcast use refusals_refuse;

}

/// A player is read where its guild can be read, its session is there and has
/// it; otherwise the answer names what is missing.
pub proof fn a_player_is_read_where_it_is<P: SessionPlayer>(
    before: SessionRegistry<P>,
    after: SessionRegistry<P>,
    session_id: &str,
    guild_id: &str,
    path: &str,
    now: Span,
    time_ms: u64,
    r: Result<(SessionHandle, String), Reply>,
)
    requires
        handlers::reading_begun(before, after, session_id, guild_id, path, now, time_ms, r),
    ensures
        http::canonical_guild(guild_id@) is None ==> after == before && r is Err && refuses(
            r->Err_0,
            400,
            "Invalid guild ID"@,
            path@,
        ),
        r matches Ok((handle, guild)) ==> handle.id@ == session_id@ && http::canonical_guild(
            guild_id@,
        ) == Some(guild@),
        http::canonical_guild(guild_id@) is Some && !session::has_id(after.sessions@, session_id@)
            ==> r is Err && refuses(r->Err_0, 404, "Session not found"@, path@),
        http::canonical_guild(guild_id@) is Some && session::has_id(after.sessions@, session_id@)
            && r is Err ==> refuses(r->Err_0, 404, "Player not found"@, path@),
{
    broadcast use refusals_refuse;

}

/// A player is changed under the guild and in the session that were named, and
/// keeps a playing track where the query says so.
pub proof fn a_player_is_changed_as_asked<P: SessionPlayer>(
    before: SessionRegistry<P>,
    after: SessionRegistry<P>,
    session_id: &str,
    guild_id: &str,
    query: Option<&str>,
    path: &str,
    now: Span,
    time_ms: u64,
    r: Result<PatchTarget, Reply>,
)
    requires
        handlers::patching_begun(before, after, session_id, guild_id, query, path, now, time_ms, r),
    ensures
        http::canonical_guild(guild_id@) is None ==> after == before && r is Err && refuses(
            r->Err_0,
            400,
            "Invalid guild ID"@,
            path@,
        ),
        r matches Ok(target) ==> {
            &&& target.session.id@ == session_id@
            &&& http::canonical_guild(guild_id@) == Some(target.guild_id@)
            &&& query is None ==> !target.no_replace
            &&& query matches Some(query) ==> http::no_replace_of(query@) == Ok::<
                bool,
                &'static str,
            >(target.no_replace)
        },
        query matches Some(query) ==> (http::no_replace_of(query@) matches Err(words) ==> (r is Err
            && r->Err_0.status.number() == 400 && after == before)),
{
    broadcast use refusals_refuse;

}

/// A deleted player is answered with nothing; where it could not be destroyed
/// it stays, and the answer is its failure.
pub proof fn a_deleted_player_is_answered<P: SessionPlayer>(
    before: SessionRegistry<P>,
    after: SessionRegistry<P>,
    session_id: &str,
    guild_id: &str,
    destroyed: Option<Result<(), PlayerError>>,
    path: &str,
    time_ms: u64,
    r: Reply,
)
    requires
        handlers::deletion_ended(
            before,
            after,
            session_id,
            guild_id,
            destroyed,
            path,
            time_ms,
            r,
        ),
    ensures
        destroyed matches Some(Err(error)) ==> {
            &&& after == before
            &&& error is NotFound ==> refuses(r, 404, "Player not found"@, path@)
            &&& error is Overloaded ==> refuses(r, 503, "Player executor capacity reached"@, path@)
            &&& error matches PlayerError::Invalid(words) ==> refuses(r, 400, words@, path@)
            &&& error matches PlayerError::Media(words) ==> refuses(r, 500, words@, path@)
        },
        !(destroyed matches Some(Err(_))) ==> r.status.number() == 204 || r.status.number() == 404
            || r.status.number() == 503,
        r.status.number() == 204 ==> r.body@.len() == 0,
{
    broadcast use refusals_refuse;

}

/// A player is deleted under the guild and in the session that were named; one
/// that is not there counts as deleted.
pub proof fn a_player_is_deleted_as_asked<P: SessionPlayer>(
    before: SessionRegistry<P>,
    after: SessionRegistry<P>,
    session_id: &str,
    guild_id: &str,
    path: &str,
    now: Span,
    time_ms: u64,
    r: Result<(SessionHandle, String, bool), Reply>,
)
    requires
        handlers::deletion_begun(before, after, session_id, guild_id, path, now, time_ms, r),
    ensures
        http::canonical_guild(guild_id@) is None ==> after == before && r is Err && refuses(
            r->Err_0,
            400,
            "Invalid guild ID"@,
            path@,
        ),
        r matches Ok((handle, guild, _)) ==> handle.id@ == session_id@ && http::canonical_guild(
            guild_id@,
        ) == Some(guild@),
        http::canonical_guild(guild_id@) is Some ==> (r is Ok <==> session::has_id(
            after.sessions@,
            session_id@,
        )),
        http::canonical_guild(guild_id@) is Some && r is Err ==> refuses(
            r->Err_0,
            404,
            "Session not found"@,
            path@,
        ),
{
    broadcast use refusals_refuse;

}

/// A player is answered as it shows itself, and a failure as what it was.
pub proof fn a_player_is_answered_as_it_is(
    result: Result<String, PlayerError>,
    path: &str,
    time_ms: u64,
    r: Reply,
)
    requires
        call_ensures(handlers::end_player, (result, path, time_ms), r),
    ensures
        result matches Ok(shown) ==> answers(r, shown@),
        result matches Err(error) ==> {
            &&& error is NotFound ==> refuses(r, 404, "Player not found"@, path@)
            &&& error is Overloaded ==> refuses(r, 503, "Player executor capacity reached"@, path@)
            &&& error matches PlayerError::Invalid(words) ==> refuses(r, 400, words@, path@)
            &&& error matches PlayerError::Media(words) ==> refuses(r, 500, words@, path@)
        },
{
    broadcast use refusals_refuse;

}

/// An update goes on as it was given.
pub proof fn an_accepted_update_is_kept(
    update: PlayerUpdate,
    ratio_supported: bool,
    enabled: crate::config::FilterConfig,
    path: &str,
    time_ms: u64,
    r: Result<PlayerUpdate, Reply>,
)
    requires
        call_ensures(
            handlers::check_player_update,
            (Body::Given(update), ratio_supported, &enabled, path, time_ms),
            r,
        ),
    ensures
        r is Ok ==> r->Ok_0 == update,
        crate::player::update_fault(update, ratio_supported) matches Some(words) ==> r is Err
            && refuses(r->Err_0, 400, words@, path@),
{
    broadcast use refusals_refuse;

}

} // verus!
