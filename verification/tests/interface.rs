use crust_node::about::{
    build_commit_time_ms, config_path, crust_info_value, enabled_filters, enabled_source_managers,
    extension_values, failing_time, failing_time_text, info_value, registered_extensions,
    route_planner_free_address, route_planner_free_all, route_planner_status, stats_value,
    BuildInfo, FailingAddress, FreeAddress, PlannerDetails, PlannerSnapshot,
};
use crust_node::config::{FilterConfig, ServerConfig, SourceConfig};
use crust_node::handlers::{
    acquire_load_request, adapter_unavailable, admit_patch_player, begin_decode_track,
    begin_decode_tracks, begin_delete_player, begin_get_player, begin_list_players,
    begin_load_tracks, begin_patch_player, check_player_update, end_decode_track,
    end_delete_player, end_load_tracks, end_player, list_decoded, list_player, list_reply,
    load_admission_error, load_failed_value, media_adapter_error, patch_session, player_error,
    read_decode_tracks, release_load_request, websocket, Body, LoadAdmissionError, LoadStart,
    QueryText, WebsocketRequest,
};
use crust_node::http::{
    authorize, bare, canonical_guild_id, constant_time_equal, fallback, parse_no_replace,
    protocol_error, readiness, reference_internal_error, request_id_text, trace_requested, Content,
    Header, Reply, Status,
};
use crust_node::media::{AdapterError, AdapterErrorKind, LoadOutcome, PlayerError};
use crust_node::player::Player;
use crust_node::protocol::{PatchField, PlayerUpdate, SessionUpdate};
use crust_node::session::SessionRegistry;
use crust_node::shard::LoadAdmission;
use crust_node::socket::{
    continues, opening_messages, ready_value, Carried, Incoming, Opening, PlayerWish, SocketAction,
    SocketEvent, SocketLoop,
};
use crust_node::span::Span;
use crust_node::stats::{stats_snapshot, ProbeSnapshot, RuntimeSampler};
use serde_json::Value;

fn parsed(reply: &Reply) -> Value {
    serde_json::from_str(&reply.body).unwrap()
}

fn registry() -> SessionRegistry<Player> {
    SessionRegistry::new(2, 2, 1, 1, 2)
}

fn session(registry: &mut SessionRegistry<Player>) -> String {
    let prepared = registry.prepare(Span::zero(), "1", None, None).ok().unwrap();
    let id = prepared.id().to_owned();
    assert!(registry.attach(prepared).is_ok());
    id
}

fn admission(loads: usize, source_requests: usize) -> LoadAdmission {
    LoadAdmission { loads, source_requests, outbound_connections: 1 }
}

fn build() -> BuildInfo {
    BuildInfo {
        version: "0.1.0".to_owned(),
        profile: "release".to_owned(),
        branch: "main".to_owned(),
        commit: "abc".to_owned(),
        commit_time: "1700000000".to_owned(),
        dirty: "false".to_owned(),
        rust_version: "1.90".to_owned(),
    }
}

#[test]
fn only_the_password_is_let_in() {
    let ask = |path, header| authorize(path, true, "/metrics", header, "secret");
    assert_eq!(ask("/v4/info", Header::Text("secret")), None);
    assert_eq!(ask("/v4/info", Header::Text("secreT")), Some(Status::Forbidden));
    assert_eq!(ask("/v4/info", Header::Text("secre")), Some(Status::Forbidden));
    assert_eq!(ask("/v4/info", Header::Absent), Some(Status::Unauthorized));
    assert_eq!(ask("/health/live", Header::Absent), None);
    assert_eq!(ask("/metrics", Header::Absent), None);
    assert_eq!(
        authorize("/metrics", false, "/metrics", Header::Absent, "secret"),
        Some(Status::Unauthorized)
    );
    assert!(constant_time_equal("abc", "abc"));
    assert!(!constant_time_equal("abc", "abd"));
    assert!(!constant_time_equal("abc", "ab"));
}

#[test]
fn refusals_carry_time_and_path() {
    let reply = protocol_error(Status::BadRequest, "why", "/v4/x", false, 0);
    assert_eq!(reply.status.code(), 400);
    assert_eq!(reply.content, Content::Json);
    let value = parsed(&reply);
    assert_eq!(value["status"], 400);
    assert_eq!(value["error"], "Bad Request");
    assert_eq!(value["message"], "why");
    assert_eq!(value["path"], "/v4/x");
    assert_eq!(value["timestamp"], 0);
    assert!(value.get("trace").is_none());
    let traced = parsed(&protocol_error(Status::NotFound, "why", "/v4/x", true, 5));
    assert!(traced.get("trace").is_some());
    let internal = parsed(&reference_internal_error("/v4/x", 1));
    assert_eq!(internal["status"], 500);
    assert!(internal.get("message").is_none());
    assert_eq!(bare(Status::NoContent).body, "");
    assert_eq!(Status::PayloadTooLarge.reason(), "Payload Too Large");
}

#[test]
fn readiness_follows_the_server() {
    assert_eq!(readiness(true).body, "ready");
    assert_eq!(readiness(false).status, Status::ServiceUnavailable);
}

#[test]
fn request_identifiers_have_sixteen_digits() {
    assert_eq!(request_id_text(1), "0000000000000001");
    assert_eq!(request_id_text(0xdead_beef), "00000000deadbeef");
    assert_eq!(request_id_text(u64::MAX), "ffffffffffffffff");
}

#[test]
fn queries_are_read_field_by_field() {
    assert!(trace_requested(Some("a=1&trace=true")));
    assert!(!trace_requested(Some("trace=false")));
    assert!(!trace_requested(None));
    assert_eq!(parse_no_replace(None), Ok(false));
    assert_eq!(parse_no_replace(Some("noReplace=true&x=1")), Ok(true));
    assert_eq!(parse_no_replace(Some("x=1")), Ok(false));
    assert!(parse_no_replace(Some("noReplace=maybe")).is_err());
    assert!(parse_no_replace(Some("noReplace=true&noReplace=true")).is_err());
}

#[test]
fn guilds_have_one_name() {
    assert_eq!(canonical_guild_id("7").ok(), Some("7".to_owned()));
    assert_eq!(canonical_guild_id("007").ok(), Some("7".to_owned()));
    assert_eq!(canonical_guild_id("+7").ok(), Some("7".to_owned()));
    assert!(canonical_guild_id("seven").is_err());
    assert!(canonical_guild_id("9223372036854775808").is_err());
}

#[test]
fn a_socket_needs_a_user() {
    let mut registry = registry();
    let ask = |user_id, upgradable| WebsocketRequest {
        user_id,
        client_name: Some("client"),
        session_id: None,
        upgradable,
        path: "/v4/websocket",
    };
    let refused = websocket(&mut registry, ask(None, true), Span::zero(), 0);
    assert!(matches!(refused, Err(reply) if reply.status == Status::BadRequest));
    for nobody in ["", "0", "-0", "+00"] {
        let refused = websocket(&mut registry, ask(Some(nobody), true), Span::zero(), 0);
        assert!(matches!(refused, Err(reply) if reply.status == Status::BadRequest));
    }
    let refused = websocket(&mut registry, ask(Some("1"), false), Span::zero(), 0);
    assert!(matches!(refused, Err(reply) if reply.body.contains("upgrade required")));
    let prepared = websocket(&mut registry, ask(Some("someone"), true), Span::zero(), 0);
    assert!(prepared.is_ok());
    assert!(websocket(&mut registry, ask(Some("1"), true), Span::zero(), 0).is_ok());
    let full = websocket(&mut registry, ask(Some("1"), true), Span::zero(), 0);
    assert!(matches!(full, Err(reply) if reply.status == Status::ServiceUnavailable));
}

#[test]
fn sessions_are_updated_as_asked() {
    let mut registry = registry();
    let id = session(&mut registry);
    let update = SessionUpdate {
        resuming: PatchField::Value(true),
        timeout: PatchField::Value(15),
    };
    let reply = patch_session(&mut registry, &id, Body::Given(update), "/p", Span::zero(), 0);
    assert_eq!(reply.status, Status::Success);
    let value = parsed(&reply);
    assert_eq!(value["resuming"], true);
    assert_eq!(value["timeout"], 15);
    let refused = SessionUpdate { resuming: PatchField::Null, timeout: PatchField::Omitted };
    let reply = patch_session(&mut registry, &id, Body::Given(refused), "/p", Span::zero(), 0);
    assert_eq!(reply.status, Status::BadRequest);
    let reply = patch_session(
        &mut registry,
        "nobody",
        Body::Given(SessionUpdate::default()),
        "/p",
        Span::zero(),
        0,
    );
    assert_eq!(reply.status, Status::NotFound);
    let reply = patch_session(&mut registry, &id, Body::TooLarge, "/p", Span::zero(), 0);
    assert_eq!(reply.status, Status::PayloadTooLarge);
}

#[test]
fn players_are_patched_listed_and_removed() {
    let mut registry = registry();
    let id = session(&mut registry);
    let target = begin_patch_player(&mut registry, &id, "07", None, "/p", Span::zero(), 0);
    let target = target.ok().unwrap();
    assert_eq!(target.guild_id, "7");
    assert!(!target.no_replace);
    let body = Body::Given(PlayerUpdate::default());
    let update = check_player_update(body, true, &FilterConfig::default(), "/p", 0);
    assert!(update.is_ok());
    let player = Player::new(&id, target.guild_id.clone(), 0);
    let admitted = admit_patch_player(&mut registry, &id, &target, player, "/p", 0);
    assert!(matches!(admitted, Ok(true)));
    let again = Player::new(&id, target.guild_id.clone(), 0);
    let admitted = admit_patch_player(&mut registry, &id, &target, again, "/p", 0);
    assert!(matches!(admitted, Ok(false)));
    let other = begin_patch_player(&mut registry, &id, "8", None, "/p", Span::zero(), 0);
    let other = other.ok().unwrap();
    let player = Player::new(&id, other.guild_id.clone(), 0);
    let refused = admit_patch_player(&mut registry, &id, &other, player, "/p", 0);
    assert!(matches!(refused, Err(reply) if reply.status == Status::ServiceUnavailable));
    let (_, guilds) =
        begin_list_players(&mut registry, &id, "/p", Span::zero(), 0).ok().unwrap();
    assert_eq!(guilds, vec!["7".to_owned()]);
    assert!(begin_get_player(&mut registry, &id, "7", "/p", Span::zero(), 0).is_ok());
    let missing = begin_get_player(&mut registry, &id, "9", "/p", Span::zero(), 0);
    assert!(matches!(missing, Err(reply) if reply.status == Status::NotFound));
    let (_, guild, there) =
        begin_delete_player(&mut registry, &id, "7", "/p", Span::zero(), 0).ok().unwrap();
    assert_eq!(guild, "7");
    assert!(there);
    let reply = end_delete_player(&mut registry, &id, "7", Some(Ok(())), "/p", 0);
    assert_eq!(reply.status, Status::NoContent);
    assert!(!registry.has_player(&id, "7"));
    let missing = begin_list_players(&mut registry, "nobody", "/p", Span::zero(), 0);
    assert!(matches!(missing, Err(reply) if reply.status == Status::NotFound));
}

#[test]
fn player_replies_follow_the_outcome() {
    assert_eq!(end_player(Ok("{}".to_owned()), "/p", 0).status, Status::Success);
    let refused = end_player(Err(PlayerError::Invalid("no")), "/p", 0);
    assert_eq!(refused.status, Status::BadRequest);
    assert_eq!(parsed(&refused)["message"], "no");
    assert_eq!(player_error(PlayerError::NotFound, "/p", 0).status, Status::NotFound);
    assert_eq!(
        player_error(PlayerError::Overloaded, "/p", 0).status,
        Status::ServiceUnavailable
    );
    let listed = list_player(vec!["1".to_owned()], Ok("2".to_owned()), "/p", 0).ok().unwrap();
    assert_eq!(list_reply(&listed).body, "[1,2]");
    let ended = list_player(listed, Err(PlayerError::NotFound), "/p", 0).err().unwrap();
    assert_eq!(ended.status, Status::NotFound);
    assert_eq!(list_reply(&Vec::new()).body, "[]");
}

#[test]
fn loads_are_admitted_and_answered() {
    let mut slots = admission(1, 1);
    let given = |text: &str| QueryText::Given(Some(text.to_owned()));
    let start = begin_load_tracks(given("ytsearch:x"), false, true, true, &mut slots, "/l", 0);
    assert!(matches!(start, LoadStart::Load(identifier) if identifier == "ytsearch:x"));
    assert_eq!(slots.loads, 0);
    let shed = begin_load_tracks(given("x"), false, true, true, &mut slots, "/l", 0);
    assert!(matches!(shed, LoadStart::Shed(reply) if reply.status == Status::ServiceUnavailable));
    release_load_request(&mut slots);
    assert_eq!(slots.loads, 1);
    let missing = begin_load_tracks(QueryText::Given(None), false, true, true, &mut slots, "/l", 0);
    assert!(matches!(missing, LoadStart::Answer(reply) if reply.status == Status::BadRequest));
    let (reply, failed) = end_load_tracks(&Ok(LoadOutcome::NoMatches), "/l", 0);
    assert_eq!(parsed(&reply)["loadType"], "empty");
    assert!(!failed);
    let error = AdapterError { kind: AdapterErrorKind::LoadFailed, message: "media failed" };
    let (reply, failed) = end_load_tracks(&Err(error), "/l", 0);
    assert_eq!(reply.status, Status::Success);
    assert_eq!(parsed(&reply)["loadType"], "error");
    assert!(failed);
    assert!(load_failed_value(error).contains("media failed"));
}

#[test]
fn load_admission_fails_for_its_reasons() {
    let mut none = admission(0, 1);
    assert_eq!(
        acquire_load_request(true, &mut none),
        Err(LoadAdmissionError::ConcurrentLoads)
    );
    let mut none = admission(1, 0);
    assert_eq!(acquire_load_request(true, &mut none), Err(LoadAdmissionError::SourceRequests));
    assert_eq!(none.loads, 1);
    let mut some = admission(1, 1);
    assert_eq!(
        acquire_load_request(false, &mut some),
        Err(LoadAdmissionError::AdapterUnavailable)
    );
    let reply = load_admission_error(LoadAdmissionError::ConcurrentLoads, "/l", 0);
    assert_eq!(reply.status, Status::ServiceUnavailable);
    assert!(adapter_unavailable("/l", 0).status.code() >= 500);
}

#[test]
fn tracks_are_decoded_one_or_many() {
    let given = |text: &str| QueryText::Given(Some(text.to_owned()));
    let asked = begin_decode_track(given("QAAA"), None, false, true, "/d", 0);
    assert!(matches!(asked, Ok(text) if text == "QAAA"));
    let asked =
        begin_decode_track(QueryText::Given(None), Some("QB".to_owned()), false, true, "/d", 0);
    assert!(matches!(asked, Ok(text) if text == "QB"));
    let missing = begin_decode_track(QueryText::Given(None), None, false, true, "/d", 0);
    assert!(matches!(missing, Err(reply) if reply.status == Status::BadRequest));
    let error = AdapterError { kind: AdapterErrorKind::InvalidTrack, message: "bad" };
    assert_eq!(end_decode_track(&Err(error), "/d", 0).status, Status::InternalServerError);
    let late = AdapterError { kind: AdapterErrorKind::Cancelled, message: "late" };
    assert_eq!(media_adapter_error(late, "/d", 0).status, Status::RequestTimeout);
    let ended = list_decoded(vec!["1".to_owned()], &Err(late), "/d", 0).err().unwrap();
    assert_eq!(ended.status, Status::RequestTimeout);
    let full = AdapterError { kind: AdapterErrorKind::Overloaded, message: "full" };
    assert_eq!(media_adapter_error(full, "/d", 0).status, Status::ServiceUnavailable);
    let many = |count| Body::Given(vec!["QAAA".to_owned(); count]);
    assert!(begin_decode_tracks(many(2), 2, false, true, "/d", 0).is_ok());
    assert!(begin_decode_tracks(many(3), 2, false, true, "/d", 0).is_err());
    assert!(begin_decode_tracks(many(0), 2, false, true, "/d", 0).is_err());
    let large = begin_decode_tracks(Body::TooLarge, 2, false, true, "/d", 0);
    assert!(matches!(large, Err(reply) if reply.status == Status::PayloadTooLarge));
}

#[test]
fn a_socket_opens_with_the_session() {
    let ready: Value = serde_json::from_str(&ready_value(true, "abc")).unwrap();
    assert_eq!(ready["op"], "ready");
    assert_eq!(ready["resumed"], true);
    assert_eq!(ready["sessionId"], "abc");
    let messages = opening_messages(
        false,
        "abc",
        vec!["one".to_owned()],
        vec!["state".to_owned()],
    );
    assert_eq!(messages.len(), 4);
    assert!(matches!(&messages[0], Opening::Text(text) if *text == ready_value(false, "abc")));
    assert!(matches!(&messages[1], Opening::Text(text) if text == "one"));
    assert!(matches!(&messages[2], Opening::Text(text) if text == "state"));
    assert!(matches!(messages[3], Opening::Statistics));
    let resumed = opening_messages(true, "abc", Vec::new(), vec!["state".to_owned()]);
    assert_eq!(resumed.len(), 2);
    assert!(matches!(&resumed[0], Opening::Text(text) if *text == ready_value(true, "abc")));
    assert!(matches!(&resumed[1], Opening::Text(text) if text == "state"));
}

#[test]
fn the_body_of_a_batch_lists_the_tracks() {
    let read = |body, limit, has_adapter| {
        read_decode_tracks(body, limit, false, has_adapter, "/d", 0)
    };
    let tracks = read(Some(br#" ["QAAA", "\u0041\n"] "#), 2, true).ok().unwrap();
    assert_eq!(tracks, vec!["QAAA".to_owned(), "A\n".to_owned()]);
    let refusals: [(Option<&[u8]>, usize, bool, Status, &str); 8] = [
        (None, 2, true, Status::PayloadTooLarge, "Request body exceeds the configured limit"),
        (Some(b""), 2, true, Status::BadRequest, "Invalid encoded tracks"),
        (Some(b"[1]"), 2, true, Status::BadRequest, "Invalid encoded tracks"),
        (Some(b"[\"a\"] x"), 2, true, Status::BadRequest, "Invalid encoded tracks"),
        (Some(b"{\"a\":\"b\"}"), 2, true, Status::BadRequest, "Invalid encoded tracks"),
        (Some(b"[]"), 2, true, Status::BadRequest, "No tracks to decode provided"),
        (Some(b"[\"a\",\"b\"]"), 1, true, Status::BadRequest, "Too many tracks to decode"),
        (Some(b"[\"a\"]"), 1, false, Status::ServiceUnavailable, "Mantle adapter unavailable"),
    ];
    for (body, limit, has_adapter, status, message) in refusals {
        let reply = read(body, limit, has_adapter).err().unwrap();
        assert_eq!(reply.status, status);
        let told: Value = serde_json::from_str(&reply.body).unwrap();
        assert_eq!(told["message"], message);
    }
}

#[test]
fn a_player_is_refreshed_once_at_a_time() {
    let mut socket = SocketLoop::new();
    let wish = |guild: &str, wants_update| PlayerWish {
        guild_id: guild.to_owned(),
        wants_update,
    };
    let tick = SocketEvent::UpdateTick(vec![wish("1", true), wish("2", false), wish("1", true)]);
    match socket.step(tick) {
        SocketAction::Refresh(guilds) => assert_eq!(guilds, vec!["1".to_owned()]),
        _ => panic!("one player asks"),
    }
    match socket.step(SocketEvent::UpdateTick(vec![wish("1", true)])) {
        SocketAction::Refresh(guilds) => assert!(guilds.is_empty()),
        _ => {}
    }
    let refreshed =
        SocketEvent::Refreshed { guild_id: "1".to_owned(), payload: "p".to_owned() };
    assert!(matches!(socket.step(refreshed), SocketAction::PublishUpdate { .. }));
    match socket.step(SocketEvent::UpdateTick(vec![wish("1", true)])) {
        SocketAction::Refresh(guilds) => assert_eq!(guilds.len(), 1),
        _ => panic!("the player asks again"),
    }
}

#[test]
fn a_socket_answers_pings_and_ends() {
    let mut socket = SocketLoop::new();
    assert!(matches!(
        socket.step(SocketEvent::Incoming(Incoming::Ping(vec![1]))),
        SocketAction::Pong(bytes) if bytes == vec![1]
    ));
    assert!(matches!(socket.step(SocketEvent::Incoming(Incoming::Text)), SocketAction::Wait));
    assert!(matches!(socket.step(SocketEvent::Incoming(Incoming::Close)), SocketAction::End));
    assert!(matches!(socket.step(SocketEvent::Cancelled), SocketAction::Close));
    assert!(matches!(socket.step(SocketEvent::Outgoing(None)), SocketAction::End));
    assert!(!continues(&SocketAction::End, Carried::Out));
    assert!(continues(&SocketAction::Wait, Carried::Out));
    assert!(!continues(&SocketAction::Pong(Vec::new()), Carried::Failed));
}

#[test]
fn the_node_tells_what_it_is() {
    assert_eq!(build_commit_time_ms("1700000000"), 1_700_000_000_000);
    assert_eq!(build_commit_time_ms("unknown"), 0);
    let sources = SourceConfig::default();
    let filters = FilterConfig::default();
    assert!(enabled_source_managers(&sources).contains(&"youtube"));
    assert!(!enabled_source_managers(&sources).contains(&"local"));
    assert_eq!(enabled_filters(&filters).len(), 10);
    let info: Value = serde_json::from_str(&info_value(&build(), &sources, &filters)).unwrap();
    assert_eq!(info["version"]["semver"], "4.2.2");
    assert_eq!(info["git"]["commit"], "abc");
    assert_eq!(info["git"]["commitTime"], 1_700_000_000_000_u64);
    let extensions = registered_extensions(true, false);
    assert_eq!(extensions.len(), 1);
    let listed: Value = serde_json::from_str(&extension_values(&extensions)).unwrap();
    assert_eq!(listed.as_array().unwrap().len(), 1);
    let config = ServerConfig::new(4);
    let own = crust_info_value(&build(), &config, &extensions, true);
    let own: Value = serde_json::from_str(&own).unwrap();
    assert!(own.is_object());
}

#[test]
fn disabled_filters_are_not_offered() {
    let mut filters = FilterConfig::default();
    filters.karaoke = false;
    assert!(!enabled_filters(&filters).contains(&"karaoke"));
    assert_eq!(enabled_filters(&filters).len(), 9);
}

#[test]
fn statistics_are_written_for_the_wire() {
    let mut sampler = RuntimeSampler::new(Span::zero());
    let runtime = sampler.record(Span::zero(), ProbeSnapshot::default(), 2);
    let snapshot = stats_snapshot(&Vec::new(), None, Span::from_secs(1), runtime);
    let rest: Value =
        serde_json::from_str(&stats_value(&snapshot, "0.5", "0.0", false)).unwrap();
    assert_eq!(rest["uptime"], 1_000);
    assert_eq!(rest["cpu"]["cores"], 2);
    assert_eq!(rest["cpu"]["systemLoad"], 0.5);
    assert!(rest.get("op").is_none());
    let socket: Value =
        serde_json::from_str(&stats_value(&snapshot, "0.5", "0.0", true)).unwrap();
    assert_eq!(socket["op"], "stats");
}

#[test]
fn failing_times_are_told_in_words() {
    assert_eq!(failing_time(0), "1970-01-01T00:00:00Z");
    assert_eq!(failing_time(1_700_000_000_123), "2023-11-14T22:13:20.123Z");
    assert_eq!(failing_time_text(5, None), "5");
}

#[test]
fn the_planner_is_told_where_there_is_one() {
    assert_eq!(route_planner_status(&None, 0).status, Status::NoContent);
    let snapshot = PlannerSnapshot {
        class: "RotatingIpRoutePlanner".to_owned(),
        ip_block_type: "Inet4Address".to_owned(),
        ip_block_size: "4".to_owned(),
        failing_addresses: vec![FailingAddress {
            address: "127.0.0.1".to_owned(),
            timestamp_ms: 0,
        }],
        details: PlannerDetails::Rotating {
            rotate_index: "0".to_owned(),
            ip_index: "1".to_owned(),
            current_address: Some("127.0.0.2".to_owned()),
        },
    };
    let value = parsed(&route_planner_status(&Some(snapshot), 0));
    assert_eq!(value["class"], "RotatingIpRoutePlanner");
    assert_eq!(value["details"]["failingAddresses"][0]["failingAddress"], "/127.0.0.1");
    assert_eq!(
        value["details"]["failingAddresses"][0]["failingTime"],
        "1970-01-01T00:00:00Z"
    );
    assert_eq!(value["details"]["currentAddress"], "/127.0.0.2");
}

#[test]
fn addresses_are_freed_where_there_is_a_planner() {
    let named = |readable| FreeAddress::Named { readable };
    let (reply, free) = route_planner_free_address(named(true), true, "/r", 0);
    assert_eq!(reply.status, Status::NoContent);
    assert!(free);
    let (reply, free) = route_planner_free_address(named(true), false, "/r", 0);
    assert!(reply.status.code() >= 400);
    assert!(!free);
    let (reply, free) = route_planner_free_address(named(false), true, "/r", 0);
    assert_eq!(reply.status, Status::BadRequest);
    assert!(!free);
    let (reply, _) = route_planner_free_address(FreeAddress::TooLarge, true, "/r", 0);
    assert_eq!(reply.status, Status::PayloadTooLarge);
    assert!(route_planner_free_all(true, "/r", 0).1);
    assert!(!route_planner_free_all(false, "/r", 0).1);
}

#[test]
fn the_configuration_file_may_be_named() {
    let arguments = |texts: &[&str]| texts.iter().map(|text| (*text).to_owned()).collect();
    assert_eq!(config_path(&arguments(&[])), Ok(None));
    assert_eq!(
        config_path(&arguments(&["--config", "node.yml"])),
        Ok(Some("node.yml".to_owned()))
    );
    assert!(config_path(&arguments(&["--config"])).is_err());
    assert!(config_path(&arguments(&["--other"])).is_err());
    assert!(config_path(&arguments(&["--config", "a", "b"])).is_err());
}

#[test]
fn unknown_routes_are_told() {
    let reply = fallback("/nowhere", Some("trace=true"), 7);
    assert_eq!(reply.status, Status::NotFound);
    let body = parsed(&reply);
    assert_eq!(body["message"], "No route for this request");
    assert_eq!(body["path"], "/nowhere");
    assert_eq!(body["timestamp"], 7);
    assert!(body["trace"].is_string());
    assert!(parsed(&fallback("/nowhere", None, 7)).get("trace").is_none());
}
