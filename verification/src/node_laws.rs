//! What a node tells of itself, and what its sockets carry.

use crate::about;
use crate::about::{BuildInfo, Extension, FailingAddress, FreeAddress, PlannerSnapshot};
use crate::config::{FilterConfig, ServerConfig, SourceConfig};
use crate::filter_laws;
use crate::http::Status;
use crate::socket;
use crate::socket::{Carried, Incoming, Opening, PlayerWish, SocketAction, SocketEvent};
use crate::stats::{CpuStats, FrameStats, MemoryStats, StatsSnapshot};
use crate::text;
use crate::wire;
use crate::wire_laws;
use vstd::prelude::*;

verus! {

/// The names as they stand in a JSON array.
pub open spec fn quoted_each(names: Seq<&'static str>) -> Seq<Seq<char>> {
    names.map_values(|name: &'static str| wire::json_quoted(name@))
}

proof fn lemma_quoted(names: Seq<&'static str>)
    ensures
        about::quoted_names(names) == wire_laws::joined(quoted_each(names)),
        forall|i: int| 0 <= i < names.len() ==> (#[trigger] quoted_each(names)[i]).len() > 0,
    decreases names.len(),
{
    reveal_strlit("\"");
    assert forall|i: int| 0 <= i < names.len() implies (#[trigger] quoted_each(names)[i]).len()
        > 0 by {
        assert(quoted_each(names)[i] == wire::json_quoted(names[i]@));
    }
    if names.len() == 0 {
        assert(about::quoted_names(names) =~= wire_laws::joined(quoted_each(names)));
    } else {
        let front = names.drop_last();
        lemma_quoted(front);
        wire_laws::items_join(quoted_each(front), wire::json_quoted(names.last()@));
        assert(quoted_each(names) =~= quoted_each(front).push(wire::json_quoted(names.last()@)));
    }
}

/// Names are told as the array of them, in their order.
pub proof fn names_are_listed(names: Seq<&'static str>)
    ensures
        about::names_json(names) == wire_laws::array_of(quoted_each(names)),
{
    lemma_quoted(names);
    wire_laws::brackets_make_arrays(quoted_each(names));
}

/// Whether a filter is switched on, by the name that clients use.
pub open spec fn offers(filters: FilterConfig, name: Seq<char>) -> bool {
    ||| filter_laws::is_name("volume", name) && filters.volume
    ||| filter_laws::is_name("equalizer", name) && filters.equalizer
    ||| filter_laws::is_name("karaoke", name) && filters.karaoke
    ||| filter_laws::is_name("timescale", name) && filters.timescale
    ||| filter_laws::is_name("tremolo", name) && filters.tremolo
    ||| filter_laws::is_name("vibrato", name) && filters.vibrato
    ||| filter_laws::is_name("distortion", name) && filters.distortion
    ||| filter_laws::is_name("rotation", name) && filters.rotation
    ||| filter_laws::is_name("channelMix", name) && filters.channel_mix
    ||| filter_laws::is_name("lowPass", name) && filters.low_pass
}

proof fn lemma_offered(names: Seq<&'static str>, more: &'static str, enabled: bool, name: Seq<char>)
    ensures
        filter_laws::is_among(names + about::on(more, enabled), name) <==> filter_laws::is_among(
            names,
            name,
        ) || (enabled && filter_laws::is_name(more, name)),
{
    reveal(filter_laws::is_among);
    reveal(filter_laws::is_name);
    let all = names + about::on(more, enabled);
    if filter_laws::is_among(names, name) {
        let i = choose|i: int| 0 <= i < names.len() && (#[trigger] names[i])@ == name;
        assert(all[i] == names[i]);
    }
    if enabled {
        assert(all[names.len() as int] == more);
    }
    if filter_laws::is_among(all, name) {
        let i = choose|i: int| 0 <= i < all.len() && (#[trigger] all[i])@ == name;
        if i < names.len() {
            assert(all[i] == names[i]);
        }
    }
}

/// A node offers exactly the filters that are switched on.
pub proof fn filters_are_offered_where_they_are_on(filters: FilterConfig, name: Seq<char>)
    ensures
        filter_laws::is_among(about::offered_filters(filters), name) <==> offers(filters, name),
{
    let s0 = Seq::<&'static str>::empty();
    assert(!filter_laws::is_among(s0, name)) by {
        reveal(filter_laws::is_among);
    }
    let s1 = s0 + about::on("volume", filters.volume);
    lemma_offered(s0, "volume", filters.volume, name);
    let s2 = s1 + about::on("equalizer", filters.equalizer);
    lemma_offered(s1, "equalizer", filters.equalizer, name);
    let s3 = s2 + about::on("karaoke", filters.karaoke);
    lemma_offered(s2, "karaoke", filters.karaoke, name);
    let s4 = s3 + about::on("timescale", filters.timescale);
    lemma_offered(s3, "timescale", filters.timescale, name);
    let s5 = s4 + about::on("tremolo", filters.tremolo);
    lemma_offered(s4, "tremolo", filters.tremolo, name);
    let s6 = s5 + about::on("vibrato", filters.vibrato);
    lemma_offered(s5, "vibrato", filters.vibrato, name);
    let s7 = s6 + about::on("distortion", filters.distortion);
    lemma_offered(s6, "distortion", filters.distortion, name);
    let s8 = s7 + about::on("rotation", filters.rotation);
    lemma_offered(s7, "rotation", filters.rotation, name);
    let s9 = s8 + about::on("channelMix", filters.channel_mix);
    lemma_offered(s8, "channelMix", filters.channel_mix, name);
    lemma_offered(s9, "lowPass", filters.low_pass, name);
}

/// The one source is offered where it is switched on.
pub proof fn sources_are_offered_where_they_are_on(sources: SourceConfig)
    ensures
        sources.youtube ==> about::offered_sources(sources) == seq!["youtube"],
        !sources.youtube ==> about::offered_sources(sources).len() == 0,
{
}

/// The time of a commit is told in milliseconds.
pub proof fn commits_are_told_in_milliseconds(time: Seq<char>)
    ensures
        text::read_unsigned(time, 18_446_744_073_709_551_615) matches Some(seconds) ==> (seconds
            * 1_000 <= 18_446_744_073_709_551_615 ==> about::commit_time_of(time) == seconds
            * 1_000),
        text::read_unsigned(time, 18_446_744_073_709_551_615) is None ==> about::commit_time_of(time)
            == 0,
{
}

/// A node tells what it was built from, what it offers and which protocol it
/// speaks.
pub proof fn a_node_tells_what_it_is(build: BuildInfo, sources: SourceConfig, filters: FilterConfig)
    ensures
        ({
            let shown = about::info_json(build, sources, filters);
            &&& wire_laws::tells(shown, "git"@, about::commit_json(build))
            &&& wire_laws::tells(
                shown,
                "filters"@,
                wire_laws::array_of(quoted_each(about::offered_filters(filters))),
            )
            &&& wire_laws::tells(
                shown,
                "sourceManagers"@,
                wire_laws::array_of(quoted_each(about::offered_sources(sources))),
            )
            &&& wire_laws::tells(shown, "version"@, about::lavalink_version_json())
            &&& wire_laws::tells(shown, "jvm"@, wire::json_quoted("Rust "@ + build.rust_version@))
            &&& wire_laws::tells(shown, "buildTime"@, text::decimal(0))
            &&& wire_laws::tells(shown, "lavaplayer"@, wire::json_quoted("Mantle 55b718058a36"@))
        }),
{
    broadcast use wire_laws::group_members;

    names_are_listed(about::offered_filters(filters));
    names_are_listed(about::offered_sources(sources));
}

/// The protocol is told by its version.
pub proof fn a_node_tells_its_protocol()
    ensures
        ({
            let shown = about::lavalink_version_json();
            &&& wire_laws::tells(shown, "semver"@, wire::json_quoted("4.2.2"@))
            &&& wire_laws::tells(shown, "major"@, text::decimal(4))
            &&& wire_laws::tells(shown, "minor"@, text::decimal(2))
            &&& wire_laws::tells(shown, "patch"@, text::decimal(2))
        }),
        wire_laws::tells(about::protocol_part_json(), "name"@, wire::json_quoted("Lavalink"@)),
        wire_laws::tells(about::protocol_part_json(), "version"@, wire::json_quoted("4.2.2"@)),
        wire_laws::tells(about::protocol_part_json(), "apiVersion"@, text::decimal(4)),
{
    broadcast use wire_laws::group_members;

}

/// A commit is told with its branch and its time.
pub proof fn a_commit_is_told(build: BuildInfo)
    ensures
        ({
            let shown = about::commit_json(build);
            &&& wire_laws::tells(shown, "branch"@, wire::json_quoted(build.branch@))
            &&& wire_laws::tells(shown, "commit"@, wire::json_quoted(build.commit@))
            &&& wire_laws::tells(
                shown,
                "commitTime"@,
                text::decimal(about::commit_time_of(build.commit_time@) as nat),
            )
        }),
        ({
            let shown = about::built_commit_json(build);
            &&& wire_laws::tells(shown, "branch"@, wire::json_quoted(build.branch@))
            &&& wire_laws::tells(shown, "commit"@, wire::json_quoted(build.commit@))
            &&& text::read_bool(build.dirty@) is None ==> wire_laws::tells(shown, "dirty"@, "null"@)
            &&& text::read_bool(build.dirty@) == Some(true) ==> wire_laws::tells(
                shown,
                "dirty"@,
                "true"@,
            )
            &&& text::read_bool(build.dirty@) == Some(false) ==> wire_laws::tells(
                shown,
                "dirty"@,
                "false"@,
            )
        }),
        wire_laws::tells(about::built_json(build), "git"@, about::built_commit_json(build)),
        wire_laws::tells(about::built_json(build), "profile"@, wire::json_quoted(build.profile@)),
        wire_laws::tells(
            about::runtime_part_json(build),
            "minimumVersion"@,
            wire::json_quoted(build.rust_version@),
        ),
{
    broadcast use wire_laws::group_members;

}

/// A node tells its limits, each under its name.
pub proof fn a_node_tells_its_limits(config: ServerConfig)
    ensures
        ({
            let shown = about::limits_json(config);
            &&& wire_laws::tells(shown, "sessions"@, text::decimal(config.max_sessions as nat))
            &&& wire_laws::tells(shown, "players"@, text::decimal(config.max_players as nat))
            &&& wire_laws::tells(
                shown,
                "requestBodyBytes"@,
                text::decimal(config.max_request_body_bytes as nat),
            )
            &&& wire_laws::tells(
                shown,
                "playerCommandCapacity"@,
                text::decimal(config.player_command_capacity as nat),
            )
        }),
{
    broadcast use wire_laws::group_members;

}

/// A node tells how often it measures, and how.
pub proof fn a_node_tells_its_rhythm(config: ServerConfig, linux: bool)
    requires
        config.stats_interval.nanos < 1_000_000_000_000_000_000_000_000,
    ensures
        ({
            let shown = about::statistics_part_json(config, linux);
            &&& wire_laws::tells(
                shown,
                "websocketIntervalMs"@,
                text::decimal((config.stats_interval.nanos / 1_000_000) as nat),
            )
            &&& wire_laws::tells(shown, "runtimeRefreshIntervalMs"@, text::decimal(30_000))
            &&& linux ==> wire_laws::tells(
                shown,
                "runtimeProvider"@,
                wire::json_quoted("linux-procfs-cgroup"@),
            )
            &&& !linux ==> wire_laws::tells(
                shown,
                "runtimeProvider"@,
                wire::json_quoted("unavailable-zero-fallback"@),
            )
        }),
{
    broadcast use wire_laws::group_members;

}

/// The parts of what a node tells of itself stand under their names.
pub proof fn a_node_tells_its_parts(
    build: BuildInfo,
    config: ServerConfig,
    extensions: Seq<Extension>,
    linux: bool,
)
    ensures
        ({
            let shown = about::crust_info_json(build, config, extensions, linux);
            &&& wire_laws::tells(shown, "name"@, wire::json_quoted("Crust"@))
            &&& wire_laws::tells(shown, "version"@, wire::json_quoted(build.version@))
            &&& wire_laws::tells(shown, "build"@, about::built_json(build))
            &&& wire_laws::tells(
                shown,
                "enabled"@,
                about::offered_json(config.sources, config.filters),
            )
            &&& wire_laws::tells(shown, "limits"@, about::limits_json(config))
            &&& wire_laws::tells(shown, "runtime"@, about::runtime_part_json(build))
            &&& wire_laws::tells(shown, "statistics"@, about::statistics_part_json(config, linux))
            &&& wire_laws::tells(shown, "protocol"@, about::protocol_part_json())
            &&& wire_laws::tells(shown, "voice"@, about::voice_part_json())
            &&& wire_laws::tells(shown, "media"@, about::media_part_json())
        }),
        wire_laws::tells(
            about::offered_json(config.sources, config.filters),
            "filters"@,
            wire_laws::array_of(quoted_each(about::offered_filters(config.filters))),
        ),
        wire_laws::tells(
            about::offered_json(config.sources, config.filters),
            "sourceManagers"@,
            wire_laws::array_of(quoted_each(about::offered_sources(config.sources))),
        ),
{
    broadcast use wire_laws::group_members;

    names_are_listed(about::offered_filters(config.filters));
    names_are_listed(about::offered_sources(config.sources));
}

/// An extension is told by its identity, its version, its kind and what it can
/// do.
pub proof fn an_extension_is_told(extension: Extension)
    ensures
        ({
            let shown = about::extension_json(extension);
            &&& wire_laws::tells(shown, "id"@, wire::json_quoted(extension.id@))
            &&& wire_laws::tells(shown, "version"@, wire::json_quoted(extension.version@))
            &&& extension.kind is Media ==> wire_laws::tells(
                shown,
                "kind"@,
                wire::json_quoted("media"@),
            )
            &&& extension.kind is Voice ==> wire_laws::tells(
                shown,
                "kind"@,
                wire::json_quoted("voice"@),
            )
            &&& wire_laws::tells(
                shown,
                "capabilities"@,
                wire_laws::array_of(quoted_each(extension.capabilities@)),
            )
        }),
{
    broadcast use wire_laws::group_members;

    names_are_listed(extension.capabilities@);
}

/// Statistics tell each number under its name; over a socket they are told as
/// such.
pub proof fn statistics_tell_their_numbers(
    snapshot: StatsSnapshot,
    system_load: Seq<char>,
    lavalink_load: Seq<char>,
    websocket: bool,
)
    ensures
        ({
            let shown = about::stats_json(snapshot, system_load, lavalink_load, websocket);
            &&& wire_laws::tells(shown, "players"@, text::decimal(snapshot.players as nat))
            &&& wire_laws::tells(
                shown,
                "playingPlayers"@,
                text::decimal(snapshot.playing_players as nat),
            )
            &&& wire_laws::tells(shown, "uptime"@, text::decimal(snapshot.uptime as nat))
            &&& wire_laws::tells(shown, "memory"@, about::memory_json(snapshot.memory))
            &&& wire_laws::tells(
                shown,
                "cpu"@,
                about::cpu_json(snapshot.cpu, system_load, lavalink_load),
            )
            &&& snapshot.frame_stats matches Some(frames) ==> wire_laws::tells(
                shown,
                "frameStats"@,
                about::frames_json(frames),
            )
            &&& snapshot.frame_stats is None ==> wire_laws::tells(shown, "frameStats"@, "null"@)
            &&& websocket ==> wire_laws::tells(shown, "op"@, wire::json_quoted("stats"@))
        }),
{
    broadcast use wire_laws::group_members;

}

/// The parts of statistics tell each number under its name.
pub proof fn measurements_tell_their_numbers(
    cpu: CpuStats,
    memory: MemoryStats,
    frames: FrameStats,
    system_load: Seq<char>,
    lavalink_load: Seq<char>,
)
    ensures
        ({
            let shown = about::cpu_json(cpu, system_load, lavalink_load);
            &&& wire_laws::tells(shown, "cores"@, text::decimal(cpu.cores as nat))
            &&& wire_laws::tells(shown, "systemLoad"@, system_load)
            &&& wire_laws::tells(shown, "lavalinkLoad"@, lavalink_load)
        }),
        ({
            let shown = about::memory_json(memory);
            &&& wire_laws::tells(shown, "free"@, text::decimal(memory.free as nat))
            &&& wire_laws::tells(shown, "used"@, text::decimal(memory.used as nat))
            &&& wire_laws::tells(shown, "allocated"@, text::decimal(memory.allocated as nat))
            &&& wire_laws::tells(shown, "reservable"@, text::decimal(memory.reservable as nat))
        }),
        ({
            let shown = about::frames_json(frames);
            &&& wire_laws::tells(shown, "sent"@, text::decimal(frames.sent as nat))
            &&& wire_laws::tells(shown, "nulled"@, text::decimal(frames.nulled as nat))
            &&& wire_laws::tells(shown, "deficit"@, text::decimal(frames.deficit as nat))
        }),
{
    broadcast use wire_laws::group_members;

}

/// A planner tells its class, and a failing address with its time.
pub proof fn a_planner_tells_its_state(snapshot: PlannerSnapshot, failing: FailingAddress)
    ensures
        wire_laws::tells(
            about::planner_json(snapshot),
            "class"@,
            wire::json_quoted(snapshot.class@),
        ),
        wire_laws::tells(
            about::ip_block_json(snapshot),
            "size"@,
            wire::json_quoted(snapshot.ip_block_size@),
        ),
        wire_laws::tells(
            about::ip_block_json(snapshot),
            "type"@,
            wire::json_quoted(snapshot.ip_block_type@),
        ),
        wire_laws::tells(
            about::failing_json(failing),
            "failingAddress"@,
            wire::json_quoted("/"@ + failing.address@),
        ),
        wire_laws::tells(
            about::failing_json(failing),
            "failingTimestamp"@,
            text::decimal(failing.timestamp_ms as nat),
        ),
        about::has_no_address(snapshot) <==> (snapshot.details is Rotating
            && snapshot.details->current_address is None),
{
    broadcast use wire_laws::group_members;

}

/// An address is freed exactly where it can be read and a planner is there.
pub proof fn addresses_are_freed_where_they_can_be(body: FreeAddress, enabled: bool)
    ensures
        about::free_refusal(body, enabled) is None <==> (body is Named && body->readable
            && enabled),
        body is Named && !enabled ==> about::free_refusal(body, enabled) == Some(
            (Status::InternalServerError, "Can't access disabled route planner"@),
        ),
        body is TooLarge ==> about::free_refusal(body, enabled) == Some(
            (Status::PayloadTooLarge, "RoutePlanner request body exceeds its limit"@),
        ),
        body is Invalid ==> about::free_refusal(body, enabled) == Some(
            (Status::BadRequest, "Invalid RoutePlanner address body"@),
        ),
        body is Named && enabled && !body->readable ==> about::free_refusal(body, enabled) == Some(
            (Status::BadRequest, "Invalid RoutePlanner IP address"@),
        ),
{
}

/// A client that connects hears first that its session is ready, under which
/// identity, and whether it was resumed.
pub proof fn a_client_hears_that_it_is_ready(resumed: bool, session_id: Seq<char>)
    ensures
        ({
            let shown = socket::ready_json(resumed, session_id);
            &&& wire_laws::tells(shown, "op"@, wire::json_quoted("ready"@))
            &&& wire_laws::tells(shown, "sessionId"@, wire::json_quoted(session_id))
            &&& wire_laws::tells(
                shown,
                "resumed"@,
                if resumed {
                    "true"@
                } else {
                    "false"@
                },
            )
        }),
{
    broadcast use wire_laws::group_members;

}

/// A guild is asked where it stands exactly where its player wants it and it is
/// not being asked.
pub proof fn guilds_are_asked_where_they_want_it(
    wishes: Seq<PlayerWish>,
    refreshing: Set<Seq<char>>,
    guild: Seq<char>,
)
    ensures
        socket::due_guilds(wishes, refreshing).contains(guild) <==> !refreshing.contains(guild)
            && exists|i: int|
            0 <= i < wishes.len() && (#[trigger] wishes[i]).wants_update && wishes[i].guild_id@
                == guild,
    decreases wishes.len(),
{
    if wishes.len() > 0 {
        let front = wishes.drop_last();
        guilds_are_asked_where_they_want_it(front, refreshing, guild);
        guilds_are_asked_where_they_want_it(front, refreshing, wishes.last().guild_id@);
        let before = socket::due_guilds(front, refreshing);
        let all = socket::due_guilds(wishes, refreshing);
        if before.contains(guild) {
            let k = choose|k: int| 0 <= k < before.len() && before[k] == guild;
            assert(all[k] == guild);
        }
        if all.contains(guild) && !before.contains(guild) {
            let k = choose|k: int| 0 <= k < all.len() && all[k] == guild;
            assert(k == before.len());
            assert(wishes[wishes.len() - 1] == wishes.last());
        }
        if exists|i: int|
            0 <= i < front.len() && (#[trigger] front[i]).wants_update && front[i].guild_id@
                == guild {
            let i = choose|i: int|
                0 <= i < front.len() && (#[trigger] front[i]).wants_update && front[i].guild_id@
                    == guild;
            assert(wishes[i] == front[i]);
        }
        if !refreshing.contains(guild) && (exists|i: int|
            0 <= i < wishes.len() && (#[trigger] wishes[i]).wants_update && wishes[i].guild_id@
                == guild) {
            let i = choose|i: int|
                0 <= i < wishes.len() && (#[trigger] wishes[i]).wants_update && wishes[i].guild_id@
                    == guild;
            if i < front.len() {
                assert(front[i] == wishes[i]);
            } else if !before.contains(guild) {
                assert(all[before.len() as int] == guild);
            }
        }
    }
}

/// A connection sends what it is given, answers a ping with what it held, and
/// ends where its messages, its client or the node do.
pub proof fn a_connection_carries_what_it_is_given(event: SocketEvent)
    ensures
        ({
            let action = socket::calm_action(event);
            &&& event matches SocketEvent::Outgoing(Some(message)) ==> action
                == SocketAction::Send(message)
            &&& event == SocketEvent::Outgoing(None) ==> action is End
            &&& event matches SocketEvent::Coalesced(payloads) ==> action == SocketAction::SendAll(
                payloads,
            )
            &&& event is StatsTick ==> action is PublishStats
            &&& event is Cancelled ==> action is Close
            &&& event matches SocketEvent::Incoming(Incoming::Ping(payload)) ==> action
                == SocketAction::Pong(payload)
            &&& event == SocketEvent::Incoming(Incoming::Text) ==> action is Wait
            &&& event == SocketEvent::Incoming(Incoming::Pong) ==> action is Wait
            &&& event == SocketEvent::Incoming(Incoming::Binary) ==> action is End
            &&& event == SocketEvent::Incoming(Incoming::Close) ==> action is End
            &&& event == SocketEvent::Incoming(Incoming::Ended) ==> action is End
        }),
{
}

/// A connection goes on as long as it did not end and what it sent went out.
pub proof fn a_connection_goes_on_while_it_carries(action: SocketAction, carried: Carried)
    ensures
        action is End || action is Close ==> !socket::goes_on(action, carried),
        action is Wait || action is Refresh || action is PublishUpdate ==> socket::goes_on(
            action,
            carried,
        ),
        action is Send || action is SendAll || action is Pong || action is PublishStats ==> (
        socket::goes_on(action, carried) <==> carried is Out),
{
}

/// A client that connects hears that it is ready, then what was kept for it,
/// then where its players stand; one that starts anew hears the statistics last.
pub proof fn a_client_hears_everything_in_order(
    resumed: bool,
    session_id: &str,
    critical: Vec<String>,
    state: Vec<String>,
    told: Vec<Opening>,
    i: int,
)
    requires
        call_ensures(socket::opening_messages, (resumed, session_id, critical, state), told),
    ensures
        told@.len() == 1 + critical@.len() + state@.len() + (if resumed {
            0int
        } else {
            1
        }),
        told@[0] matches Opening::Text(ready) && wire_laws::tells(
            ready@,
            "sessionId"@,
            wire::json_quoted(session_id@),
        ),
        0 <= i < critical@.len() ==> told@[1 + i] == Opening::Text(critical@[i]),
        0 <= i < state@.len() ==> told@[1 + critical@.len() + i] == Opening::Text(state@[i]),
        !resumed ==> told@.last() is Statistics,
{
    a_client_hears_that_it_is_ready(resumed, session_id@);
    let texts = (critical@ + state@).map_values(|text: String| Opening::Text(text));
    let rest = told@.skip(1);
    assert(rest.len() == told@.len() - 1);
    if 0 <= i < critical@.len() {
        assert(rest[i] == texts[i]);
        assert(rest[i] == told@[1 + i]);
    }
    if 0 <= i < state@.len() {
        assert(rest[critical@.len() + i] == texts[critical@.len() + i]);
        assert(rest[critical@.len() + i] == told@[1 + critical@.len() + i]);
    }
    if !resumed {
        assert(rest.last() == told@.last());
    }
}

} // verus!
