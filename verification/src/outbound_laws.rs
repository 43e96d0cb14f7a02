//! How the node reaches out: its proxy, the addresses that it plans with, and the
//! names that settings go by.

use crate::config;
use crate::config::{FileHttpConfig, FileRateLimit, ProxyModel, RouteModel};
use crate::environment;
use crate::environment::EnvEntry;
use crate::text;
use vstd::prelude::*;

verus! {

/// A file has a proxy where it gives any part of one; what it does not give is
/// the local host and port 3128, without a name and a password.
pub proof fn a_file_gives_a_proxy(file: FileHttpConfig)
    ensures
        ({
            let given = file.proxy_host is Some || file.proxy_port is Some || file.proxy_user is Some
                || file.proxy_password is Some;
            let proxy = config::file_proxy(file);
            &&& proxy is Some <==> given
            &&& proxy is Some ==> {
                &&& file.proxy_host matches Some(host) ==> proxy->0.host == host@
                &&& file.proxy_host is None ==> proxy->0.host == "localhost"@
                &&& file.proxy_port matches Some(port) ==> proxy->0.port == port
                &&& file.proxy_port is None ==> proxy->0.port == 3_128
                &&& file.proxy_user matches Some(user) ==> proxy->0.username == Some(user@)
                &&& file.proxy_user is None ==> proxy->0.username is None
                &&& file.proxy_password matches Some(password) ==> proxy->0.password == Some(
                    password@,
                )
                &&& file.proxy_password is None ==> proxy->0.password is None
            }
        }),
{
}

/// The environment changes the parts of a proxy that it names; a host begins a
/// proxy anew, but for its port.
pub proof fn the_environment_changes_a_proxy(env: Seq<EnvEntry>, before: Option<ProxyModel>)
    ensures
        ({
            let host = environment::text_at(env, "LAVALINK_SERVER_HTTP_CONFIG_PROXY_HOST"@);
            let port = environment::u16_at(env, "LAVALINK_SERVER_HTTP_CONFIG_PROXY_PORT"@);
            let user = environment::text_at(env, "LAVALINK_SERVER_HTTP_CONFIG_PROXY_USER"@);
            let password = environment::text_at(env, "LAVALINK_SERVER_HTTP_CONFIG_PROXY_PASSWORD"@);
            let after = config::proxy_env(env, before);
            &&& after is Some <==> before is Some || host is Some || port is Some || user is Some
                || password is Some
            &&& host is None && port is None && user is None && password is None ==> after == before
            &&& host matches Some(host) ==> after->0.host == host@
            &&& host is None && before is Some ==> after->0.host == before->0.host
            &&& port matches Some(port) ==> after->0.port == port
            &&& port is None && before is Some ==> after->0.port == before->0.port
            &&& user matches Some(user) ==> after->0.username == Some(user@)
            &&& user is None && host is Some ==> after->0.username is None
            &&& user is None && host is None && before is Some ==> after->0.username
                == before->0.username
            &&& password matches Some(password) ==> after->0.password == Some(password@)
            &&& password is None && host is Some ==> after->0.password is None
            &&& password is None && host is None && before is Some ==> after->0.password
                == before->0.password
        }),
{
}

/// A file gives the planner its strategy, its blocks, the addresses it leaves
/// out and when it gives up; a search counts as a failure unless it says not.
pub proof fn a_file_gives_a_planner(file: FileRateLimit)
    ensures
        ({
            let route = config::file_route(file);
            &&& file.strategy matches Some(name) ==> (config::strategy_of(name@) matches Some(
                strategy,
            ) ==> route.strategy == strategy)
            &&& file.ip_blocks matches Some(blocks) ==> route.ip_blocks == blocks@.map_values(
                |block: String| block@,
            )
            &&& file.ip_blocks is None ==> route.ip_blocks.len() == 0
            &&& file.excluded_ips matches Some(addresses) ==> route.excluded_ips == addresses@
            &&& file.excluded_ips is None ==> route.excluded_ips.len() == 0
            &&& file.search_triggers_fail matches Some(triggers) ==> route.search_triggers_fail
                == triggers
            &&& file.search_triggers_fail is None ==> route.search_triggers_fail
            &&& route.retry_limit == file.retry_limit
            &&& route.max_failures == 4_096
        }),
{
}

/// The environment changes the parts of a planner that it names and keeps the
/// others.
pub proof fn the_environment_changes_a_planner(env: Seq<EnvEntry>, before: RouteModel)
    ensures
        ({
            let after = config::route_switches_env(env, Some(before));
            let limit = environment::i32_at(env, "LAVALINK_SERVER_RATELIMIT_RETRY_LIMIT"@);
            let triggers = environment::bool_at(
                env,
                "LAVALINK_SERVER_RATELIMIT_SEARCH_TRIGGERS_FAIL"@,
            );
            &&& after is Some
            &&& limit is Some ==> after->0.retry_limit == limit
            &&& limit is None ==> after->0.retry_limit == before.retry_limit
            &&& triggers matches Some(value) ==> after->0.search_triggers_fail == value
            &&& triggers is None ==> after->0.search_triggers_fail == before.search_triggers_fail
            &&& after->0.strategy == before.strategy && after->0.ip_blocks == before.ip_blocks
            &&& after->0.excluded_ips == before.excluded_ips && after->0.max_failures
                == before.max_failures
        }),
        ({
            let after = config::route_lists_env(env, Some(before));
            let name = environment::text_at(env, "LAVALINK_SERVER_RATELIMIT_STRATEGY"@);
            &&& after is Some
            &&& name matches Some(name) ==> (config::strategy_of(name@) matches Some(strategy)
                ==> after->0.strategy == strategy)
            &&& name is None ==> after->0.strategy == before.strategy
            &&& config::blocks_entry(env) matches Some(entry) ==> after->0.ip_blocks
                == text::listed(entry.value@)
            &&& config::blocks_entry(env) is None ==> after->0.ip_blocks == before.ip_blocks
            &&& config::excluded_entry(env) is None ==> after->0.excluded_ips == before.excluded_ips
            &&& after->0.retry_limit == before.retry_limit && after->0.max_failures
                == before.max_failures
        }),
{
}

/// Strategies go by their names, and no two names are the same.
pub proof fn strategies_go_by_their_names(name: Seq<char>)
    ensures
        ({
            let strategy = config::strategy_of(name);
            &&& strategy is Some && strategy->0 is RotateOnBan <==> name == "RotateOnBan"@
            &&& strategy is Some && strategy->0 is LoadBalance <==> name == "LoadBalance"@
            &&& strategy is Some && strategy->0 is NanoSwitch <==> name == "NanoSwitch"@
            &&& strategy is Some && strategy->0 is RotatingNanoSwitch <==> name
                == "RotatingNanoSwitch"@
        }),
{
    reveal_strlit("RotateOnBan");
    reveal_strlit("LoadBalance");
    reveal_strlit("NanoSwitch");
    reveal_strlit("RotatingNanoSwitch");
    assert("RotateOnBan"@[0] != "LoadBalance"@[0]);
    assert("RotateOnBan"@[0] != "NanoSwitch"@[0]);
    assert("LoadBalance"@[0] != "NanoSwitch"@[0]);
    assert("RotatingNanoSwitch"@.len() == 18);
    assert("RotateOnBan"@.len() == 11);
    assert("LoadBalance"@.len() == 11);
    assert("NanoSwitch"@.len() == 10);
}

/// Qualities go by their names in any case.
pub proof fn qualities_go_by_their_names(name: Seq<char>)
    ensures
        ({
            let quality = config::quality_of(name);
            &&& quality is Some && quality->0 is Low <==> text::same_ignoring_case(name, "LOW"@)
            &&& quality is Some && quality->0 is Medium <==> text::same_ignoring_case(
                name,
                "MEDIUM"@,
            )
            &&& quality is Some && quality->0 is High <==> text::same_ignoring_case(name, "HIGH"@)
        }),
{
    reveal_strlit("LOW");
    reveal_strlit("MEDIUM");
    reveal_strlit("HIGH");
    assert("LOW"@.len() == 3);
    assert("MEDIUM"@.len() == 6);
    assert("HIGH"@.len() == 4);
}

/// The environment is refused exactly where a variable of it does not parse, and
/// a number or a truth value that is there and is taken was the one written.
pub proof fn variables_are_read_as_written(env: Seq<EnvEntry>, name: Seq<char>)
    ensures
        environment::bad_bool(env, name) <==> environment::entry_at(env, name) is Some
            && environment::bool_at(env, name) is None,
        environment::bool_at(env, name) == Some(true) <==> environment::entry_at(env, name) is Some
            && environment::entry_at(env, name)->0.value@ == "true"@,
        environment::bad_u64(env, name) <==> environment::entry_at(env, name) is Some
            && environment::u64_at(env, name) is None,
        environment::bad_usize(env, name) <==> environment::entry_at(env, name) is Some
            && environment::usize_at(env, name) is None,
        environment::bad_u16(env, name) <==> environment::entry_at(env, name) is Some
            && environment::u16_at(env, name) is None,
        environment::bad_u8(env, name) <==> environment::entry_at(env, name) is Some
            && environment::u8_at(env, name) is None,
        environment::bad_i32(env, name) <==> environment::entry_at(env, name) is Some
            && environment::i32_at(env, name) is None,
        environment::u16_at(env, name) matches Some(number) ==> text::read_unsigned(
            environment::entry_at(env, name)->0.value@,
            65_535,
        ) == Some(number as int),
        environment::u8_at(env, name) matches Some(number) ==> text::read_unsigned(
            environment::entry_at(env, name)->0.value@,
            255,
        ) == Some(number as int),
{
    reveal_strlit("true");
    reveal_strlit("false");
}

/// A variable has the value of an entry of its name.
pub proof fn variables_are_found_by_name(env: Seq<EnvEntry>, name: Seq<char>)
    ensures
        environment::entry_at(env, name) is Some <==> exists|i: int|
            0 <= i < env.len() && (#[trigger] env[i]).name@ == name,
        environment::entry_at(env, name) matches Some(entry) ==> entry.name@ == name
            && env.contains(entry),
    decreases env.len(),
{
    if env.len() > 0 {
        variables_are_found_by_name(env.drop_first(), name);
        variables_are_found_by_name(env.drop_last(), name);
        if exists|i: int| 0 <= i < env.len() && (#[trigger] env[i]).name@ == name {
            let i = choose|i: int| 0 <= i < env.len() && (#[trigger] env[i]).name@ == name;
            if i > 0 {
                assert(env.drop_first()[i - 1] == env[i]);
            }
            if i < env.len() - 1 {
                assert(env.drop_last()[i] == env[i]);
            }
        }
        assert forall|i: int| 0 <= i < env.len() - 1 implies #[trigger] env.drop_first()[i]
            == env[i + 1] by {}
        assert forall|i: int| 0 <= i < env.len() - 1 implies #[trigger] env.drop_last()[i]
            == env[i] by {}
    }
}

} // verus!
