//! What holds of configurations as a whole.

use crate::config;
use crate::config::{Address, CliOverrides, ConfigFile, FileCrust, ServerConfig};
use crate::environment;
use crate::environment::EnvEntry;
use crate::text;
use vstd::prelude::*;
use vstd::string::*;

verus! {

broadcast use vstd::string::group_string_axioms;

pub open spec fn file_port(file: Option<ConfigFile>) -> Option<u16> {
    match file {
        Some(file) => match file.server {
            Some(server) => server.port,
            None => None,
        },
        None => None,
    }
}

pub open spec fn file_password(file: Option<ConfigFile>) -> Option<String> {
    match file {
        Some(file) => match config::lavalink_server(file) {
            Some(server) => server.password,
            None => None,
        },
        None => None,
    }
}

pub open spec fn file_address(file: Option<ConfigFile>) -> Option<Address> {
    match file {
        Some(file) => match file.server {
            Some(server) => server.address,
            None => None,
        },
        None => None,
    }
}

pub open spec fn file_http2(file: Option<ConfigFile>) -> Option<bool> {
    match file {
        Some(file) => match file.server {
            Some(server) => match server.http2 {
                Some(http2) => http2.enabled,
                None => None,
            },
            None => None,
        },
        None => None,
    }
}

pub open spec fn file_limits(file: Option<ConfigFile>) -> Option<FileCrust> {
    match file {
        Some(file) => file.crust,
        None => None,
    }
}

/// The first that there is.
pub open spec fn first_of<T>(a: Option<T>, b: Option<T>) -> Option<T> {
    match a {
        Some(_) => a,
        None => b,
    }
}

/// The command line stands over the environment, the environment over the file,
/// and the file over the defaults: what a client connects to and with.
pub proof fn listening_precedence(
    loaded: ServerConfig,
    parallelism: usize,
    file: Option<ConfigFile>,
    env: Seq<EnvEntry>,
    cli: CliOverrides,
)
    requires
        ServerConfig::layered(loaded, parallelism, file, env, cli),
    ensures
        loaded.port == config::or_old(
            cli.port,
            config::or_old(
                environment::u16_at(env, "SERVER_PORT"@),
                config::or_old(file_port(file), 2_333u16),
            ),
        ),
        loaded.listen_address == config::or_old(
            cli.address,
            config::or_old(
                environment::address_at(env, "SERVER_ADDRESS"@),
                config::or_old(file_address(file), Address::V4(0x7f00_0001)),
            ),
        ),
        loaded.http2.enabled == config::or_old(
            cli.http2,
            config::or_old(
                first_of(
                    environment::bool_at(env, "SERVER_HTTP2_ENABLED"@),
                    environment::bool_at(env, "CRUST_HTTP2_ENABLED"@),
                ),
                config::or_old(file_http2(file), false),
            ),
        ),
        ({
            let set = first_of(
                cli.password,
                first_of(
                    first_of(
                        environment::text_at(env, "LAVALINK_SERVER_PASSWORD"@),
                        environment::text_at(env, "CRUST_PASSWORD"@),
                    ),
                    file_password(file),
                ),
            );
            &&& set matches Some(password) ==> loaded.password == password
            &&& set is None ==> loaded.password@ == "youshallnotpass"@
        }),
{
    let (start, filed, set) = choose|start: ServerConfig, filed: ServerConfig, set: ServerConfig|
        #![trigger config::is_default(start, parallelism), config::env_applied(filed, set, env)]
        config::is_default(start, parallelism) && (match file {
            Some(file) => config::file_applied(start, filed, file),
            None => filed == start,
        }) && config::env_applied(filed, set, env) && loaded == config::cli_applied(set, cli);
}

/// The environment stands over the file and the file over the defaults: the
/// limits of the node.
pub proof fn limit_precedence(
    loaded: ServerConfig,
    parallelism: usize,
    file: Option<ConfigFile>,
    env: Seq<EnvEntry>,
    cli: CliOverrides,
)
    requires
        ServerConfig::layered(loaded, parallelism, file, env, cli),
    ensures
        ({
            let limits = file_limits(file);
            &&& loaded.max_request_body_bytes == config::or_old(
                environment::usize_at(env, "CRUST_MAX_REQUEST_BODY_BYTES"@),
                match limits {
                    Some(limits) => config::or_old(limits.max_request_body_bytes, 1_048_576usize),
                    None => 1_048_576usize,
                },
            )
            &&& loaded.websocket_critical_capacity == config::or_old(
                environment::usize_at(env, "CRUST_WEBSOCKET_CRITICAL_CAPACITY"@),
                match limits {
                    Some(limits) => config::or_old(limits.websocket_critical_capacity, 64usize),
                    None => 64usize,
                },
            )
            &&& loaded.max_sessions == config::or_old(
                environment::usize_at(env, "CRUST_MAX_SESSIONS"@),
                match limits {
                    Some(limits) => config::or_old(limits.max_sessions, 1_024usize),
                    None => 1_024usize,
                },
            )
            &&& loaded.max_players == config::or_old(
                environment::usize_at(env, "CRUST_MAX_PLAYERS"@),
                match limits {
                    Some(limits) => config::or_old(limits.max_players, 4_096usize),
                    None => 4_096usize,
                },
            )
            &&& loaded.max_concurrent_session_resumes == config::or_old(
                environment::usize_at(env, "CRUST_MAX_CONCURRENT_SESSION_RESUMES"@),
                match limits {
                    Some(limits) => config::or_old(limits.max_concurrent_session_resumes, 64usize),
                    None => 64usize,
                },
            )
            &&& loaded.player_executor_shards == config::or_old(
                environment::usize_at(env, "CRUST_PLAYER_EXECUTOR_SHARDS"@),
                match limits {
                    Some(limits) => config::or_old(limits.player_executor_shards, config::default_shards(parallelism)),
                    None => config::default_shards(parallelism),
                },
            )
            &&& loaded.player_command_capacity == config::or_old(
                environment::usize_at(env, "CRUST_PLAYER_COMMAND_CAPACITY"@),
                match limits {
                    Some(limits) => config::or_old(limits.player_command_capacity, 256usize),
                    None => 256usize,
                },
            )
            &&& loaded.max_concurrent_loads == config::or_old(
                environment::usize_at(env, "CRUST_MAX_CONCURRENT_LOADS"@),
                match limits {
                    Some(limits) => config::or_old(limits.max_concurrent_loads, 64usize),
                    None => 64usize,
                },
            )
            &&& loaded.max_batch_decode_tracks == config::or_old(
                environment::usize_at(env, "CRUST_MAX_BATCH_DECODE_TRACKS"@),
                match limits {
                    Some(limits) => config::or_old(limits.max_batch_decode_tracks, 1_000usize),
                    None => 1_000usize,
                },
            )
            &&& loaded.max_concurrent_source_requests == config::or_old(
                environment::usize_at(env, "CRUST_MAX_CONCURRENT_SOURCE_REQUESTS"@),
                match limits {
                    Some(limits) => config::or_old(limits.max_concurrent_source_requests, 64usize),
                    None => 64usize,
                },
            )
            &&& loaded.max_concurrent_voice_connects == config::or_old(
                environment::usize_at(env, "CRUST_MAX_CONCURRENT_VOICE_CONNECTS"@),
                match limits {
                    Some(limits) => config::or_old(limits.max_concurrent_voice_connects, 16usize),
                    None => 16usize,
                },
            )
        }),
{
    let (start, filed, set) = choose|start: ServerConfig, filed: ServerConfig, set: ServerConfig|
        #![trigger config::is_default(start, parallelism), config::env_applied(filed, set, env)]
        config::is_default(start, parallelism) && (match file {
            Some(file) => config::file_applied(start, filed, file),
            None => filed == start,
        }) && config::env_applied(filed, set, env) && loaded == config::cli_applied(set, cli);
}

/// A configuration that is accepted keeps every bound.
pub proof fn accepted_configurations_are_bounded(accepted: ServerConfig)
    requires
        config::config_fault(accepted) is None,
    ensures
        accepted.port != 0,
        0 < accepted.password@.len() && text::byte_len(accepted.password@)
            <= config::MAX_PASSWORD_BYTES,
        0 < accepted.max_request_body_bytes <= config::MAX_REQUEST_BODY_BYTES,
        0 < accepted.websocket_critical_capacity && 0 < accepted.max_sessions,
        0 < accepted.max_players && 0 < accepted.max_concurrent_session_resumes,
        0 < accepted.player_executor_shards <= config::MAX_PLAYER_EXECUTOR_SHARDS,
        0 < accepted.player_command_capacity <= config::MAX_CAPACITY,
        0 < accepted.max_concurrent_loads <= config::MAX_CAPACITY,
        0 < accepted.max_batch_decode_tracks <= config::MAX_CAPACITY,
        0 < accepted.max_concurrent_source_requests <= config::MAX_CAPACITY,
        0 < accepted.max_concurrent_voice_connects <= config::MAX_CAPACITY,
        0 < accepted.player_update_interval.nanos <= config::MAX_INTERVAL_NANOS,
        0 < accepted.stats_interval.nanos <= config::MAX_INTERVAL_NANOS,
        0 < accepted.shutdown_timeout.nanos <= config::MAX_TIMEOUT_NANOS,
        0 < accepted.search.youtube_playlist_load_limit <= config::MAX_PLAYLIST_LOAD_LIMIT,
        config::good_endpoint(accepted.metrics.endpoint@),
        accepted.route_planner matches Some(route) ==> route.ip_blocks@.len() > 0,
{
}

/// The defaults are accepted on every machine.
pub proof fn defaults_are_accepted(start: ServerConfig, parallelism: usize)
    requires
        config::is_default(start, parallelism),
    ensures
        config::config_fault(start) is None,
{
    reveal_strlit("youshallnotpass");
    reveal_strlit("/metrics");
    vstd::utf8::is_ascii_chars_encode_utf8(start.password@);
    vstd::utf8::is_ascii_chars_encode_utf8(start.metrics.endpoint@);
    let path = start.metrics.endpoint@;
    assert forall|i: int| 0 <= i < path.len() implies config::path_char(#[trigger] path[i]) by {
        assert(path[i] == "/metrics"@[i]);
    }
    assert(config::good_endpoint(path));
    assert(config::limit_fault(start) is None);
    assert(config::setting_fault(start) is None);
}

} // verus!
