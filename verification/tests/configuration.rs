use crust_node::config::{
    parse_strategy, validate_timeout, Address, CliOverrides, ConfigError, ConfigFile, FileCrust,
    FileFilters, FileHttp2, FileHttpConfig, FileLavalink, FileLavalinkServer, FileLogging,
    FileLoggingLevel, FileMetrics, FilePrometheus, FileRateLimit, FileRequestLogging, FileServer,
    FileSources, FileTimeouts, ProxyConfig, ResamplingQuality, RoutePlannerStrategy, ServerConfig,
    MAX_INTERVAL_NANOS, MAX_TIMEOUT_NANOS,
};
use crust_node::config_debug::span_text;
use crust_node::environment::{env_bool, env_text, env_u16, env_u64, find_entry, AddressText, EnvEntry};
use crust_node::span::Span;
use serde_json::Value;

fn section<'a>(value: &'a Value, key: &str) -> Option<&'a Value> {
    value.get(key).filter(|inner| !inner.is_null())
}

fn flag(value: &Value, key: &str) -> Option<bool> {
    section(value, key).map(|inner| inner.as_bool().unwrap())
}

fn count(value: &Value, key: &str) -> Option<u64> {
    section(value, key).map(|inner| inner.as_u64().unwrap())
}

fn size(value: &Value, key: &str) -> Option<usize> {
    count(value, key).map(|number| usize::try_from(number).unwrap())
}

fn words(value: &Value, key: &str) -> Option<String> {
    section(value, key).map(|inner| inner.as_str().unwrap().to_owned())
}

fn address(text: &str) -> Address {
    let mut bits: u32 = 0;
    for part in text.split('.') {
        bits = bits * 256 + part.parse::<u32>().unwrap();
    }
    Address::V4(bits)
}

fn list(value: &Value, key: &str) -> Option<Vec<String>> {
    section(value, key).map(|inner| {
        let items = inner.as_array().unwrap();
        items.iter().map(|item| item.as_str().unwrap().to_owned()).collect()
    })
}

fn sources(value: &Value) -> FileSources {
    FileSources {
        youtube: flag(value, "youtube"),
        bandcamp: flag(value, "bandcamp"),
        soundcloud: flag(value, "soundcloud"),
        twitch: flag(value, "twitch"),
        vimeo: flag(value, "vimeo"),
        nico: flag(value, "nico"),
        http: flag(value, "http"),
        local: flag(value, "local"),
    }
}

fn filters(value: &Value) -> FileFilters {
    FileFilters {
        volume: flag(value, "volume"),
        equalizer: flag(value, "equalizer"),
        karaoke: flag(value, "karaoke"),
        timescale: flag(value, "timescale"),
        tremolo: flag(value, "tremolo"),
        vibrato: flag(value, "vibrato"),
        distortion: flag(value, "distortion"),
        rotation: flag(value, "rotation"),
        channel_mix: flag(value, "channelMix"),
        low_pass: flag(value, "lowPass"),
    }
}

fn rate_limit(value: &Value) -> FileRateLimit {
    FileRateLimit {
        ip_blocks: list(value, "ipBlocks"),
        excluded_ips: list(value, "excludedIps")
            .map(|items| items.iter().map(|item| address(item)).collect()),
        strategy: words(value, "strategy"),
        search_triggers_fail: flag(value, "searchTriggersFail"),
        retry_limit: None,
    }
}

fn lavalink_server(value: &Value) -> FileLavalinkServer {
    FileLavalinkServer {
        password: words(value, "password"),
        sources: section(value, "sources").map(sources),
        filters: section(value, "filters").map(filters),
        non_allocating_frame_buffer: flag(value, "nonAllocatingFrameBuffer"),
        buffer_duration_ms: count(value, "bufferDurationMs"),
        frame_buffer_duration_ms: count(value, "frameBufferDurationMs"),
        opus_encoding_quality: count(value, "opusEncodingQuality").map(|n| n as u8),
        resampling_quality: words(value, "resamplingQuality"),
        track_stuck_threshold_ms: count(value, "trackStuckThresholdMs"),
        use_seek_ghosting: flag(value, "useSeekGhosting"),
        youtube_playlist_load_limit: size(value, "youtubePlaylistLoadLimit"),
        player_update_interval: count(value, "playerUpdateInterval"),
        youtube_search_enabled: flag(value, "youtubeSearchEnabled"),
        soundcloud_search_enabled: flag(value, "soundcloudSearchEnabled"),
        soundcloud_filter_out_preview_tracks: flag(value, "soundcloudFilterOutPreviewTracks"),
        rate_limit: section(value, "ratelimit").map(rate_limit),
        http_config: None,
        timeouts: section(value, "timeouts").map(|inner| FileTimeouts {
            connect_timeout_ms: count(inner, "connectTimeoutMs"),
            connection_request_timeout_ms: count(inner, "connectionRequestTimeoutMs"),
            socket_timeout_ms: count(inner, "socketTimeoutMs"),
        }),
    }
}

fn crust(value: &Value) -> FileCrust {
    FileCrust {
        max_request_body_bytes: size(value, "maxRequestBodyBytes"),
        websocket_critical_capacity: size(value, "websocketCriticalCapacity"),
        max_sessions: size(value, "maxSessions"),
        max_players: size(value, "maxPlayers"),
        max_concurrent_session_resumes: size(value, "maxConcurrentSessionResumes"),
        player_executor_shards: size(value, "playerExecutorShards"),
        player_command_capacity: size(value, "playerCommandCapacity"),
        max_concurrent_loads: size(value, "maxConcurrentLoads"),
        max_batch_decode_tracks: size(value, "maxBatchDecodeTracks"),
        max_concurrent_source_requests: size(value, "maxConcurrentSourceRequests"),
        max_concurrent_voice_connects: size(value, "maxConcurrentVoiceConnects"),
        player_update_interval_ms: count(value, "playerUpdateIntervalMs"),
        stats_interval_ms: count(value, "statsIntervalMs"),
        shutdown_timeout_ms: count(value, "shutdownTimeoutMs"),
    }
}

fn logging_request(value: &Value) -> FileRequestLogging {
    FileRequestLogging {
        enabled: flag(value, "enabled"),
        include_client_info: flag(value, "includeClientInfo"),
        include_headers: flag(value, "includeHeaders"),
        include_query_string: flag(value, "includeQueryString"),
        include_payload: flag(value, "includePayload"),
        max_payload_length: size(value, "maxPayloadLength"),
        before_request: flag(value, "beforeRequest"),
    }
}

fn config_file(yaml: &str) -> ConfigFile {
    let root: Value = serde_saphyr::from_str(yaml).unwrap();
    ConfigFile {
        server: section(&root, "server").map(|value| FileServer {
            address: words(value, "address").map(|text| address(&text)),
            port: count(value, "port").map(|number| number as u16),
            http2: section(value, "http2")
                .map(|inner| FileHttp2 { enabled: flag(inner, "enabled") }),
        }),
        lavalink: section(&root, "lavalink").map(|value| FileLavalink {
            server: section(value, "server").map(lavalink_server),
        }),
        metrics: section(&root, "metrics").map(|value| FileMetrics {
            prometheus: section(value, "prometheus").map(|inner| FilePrometheus {
                enabled: flag(inner, "enabled"),
                endpoint: words(inner, "endpoint"),
            }),
        }),
        logging: section(&root, "logging").map(|value| FileLogging {
            level: section(value, "level").map(|inner| FileLoggingLevel {
                root: words(inner, "root"),
                lavalink: words(inner, "lavalink"),
            }),
            request: section(value, "request").map(logging_request),
        }),
        crust: section(&root, "crust").map(crust),
    }
}

fn defaults() -> ServerConfig {
    ServerConfig::new(4)
}

fn entry(name: &str, value: &str) -> EnvEntry {
    EnvEntry {
        name: name.to_owned(),
        value: value.to_owned(),
        readings: Vec::new(),
    }
}

fn loopback() -> AddressText {
    AddressText { text: "127.0.0.1".to_owned(), address: Address::V4(0x7f00_0001) }
}

#[test]
fn debug_redacts_password_and_proxy_secret() {
    let mut config = defaults().with_password("not-for-logs".to_owned()).unwrap();
    config.http_source.proxy = Some(ProxyConfig {
        host: "proxy".to_owned(),
        port: 3128,
        username: Some("user".to_owned()),
        password: Some("proxy-secret".to_owned()),
    });
    let debug = config.debug_text("0.0.0.0");
    assert!(!debug.contains("not-for-logs"));
    assert!(!debug.contains("proxy-secret"));
    assert!(debug.contains("<redacted>"));
}

#[test]
fn representative_lavalink_config_maps() {
    let yaml = "server:\n  port: 2444\n  address: 127.0.0.1\n  http2:\n    enabled: true\nplugins: {}\nlavalink:\n  plugins: []\n  pluginsDir: ./plugins\n  server:\n    password: secret\n    sources: {youtube: true, http: false}\n    filters: {timescale: false, lowPass: false}\n    nonAllocatingFrameBuffer: true\n    bufferDurationMs: 400\n    frameBufferDurationMs: 1000\n    opusEncodingQuality: 7\n    resamplingQuality: HIGH\n    trackStuckThresholdMs: 9000\n    useSeekGhosting: false\n    youtubePlaylistLoadLimit: 8\n    playerUpdateInterval: 4\n    youtubeSearchEnabled: false\n    timeouts: {connectTimeoutMs: 2000, connectionRequestTimeoutMs: 2500, socketTimeoutMs: 3000}\nmetrics:\n  prometheus: {enabled: true, endpoint: /custom-metrics}\nlogging:\n  request: {enabled: false, maxPayloadLength: 500}\n";
    let mut config = defaults();
    config.apply_file(config_file(yaml)).unwrap();
    assert_eq!(config.port, 2444);
    assert!(config.http2.enabled);
    assert!(config.sources.youtube);
    assert!(!config.filters.timescale);
    assert_eq!(config.media.opus_encoding_quality, 7);
    assert_eq!(config.media.resampling_quality, ResamplingQuality::High);
    assert_eq!(config.search.youtube_playlist_load_limit, 8);
    assert_eq!(config.http_source.timeouts.connect, Span::from_secs(2));
    assert!(config.metrics.prometheus.enabled);
    assert_eq!(config.metrics.endpoint, "/custom-metrics");
    assert!(!config.logging.request.enabled);
    assert_eq!(config.listen_address, Address::V4(0x7f00_0001));
    assert!(config.validate().is_ok());
}

#[test]
fn precedence_is_defaults_then_yaml_then_environment_then_cli() {
    let file =
        config_file("server:\n  port: 2400\nlavalink:\n  server:\n    password: yaml-secret\n");
    let env = vec![
        entry("SERVER_PORT", "2500"),
        entry("LAVALINK_SERVER_PASSWORD", "environment-secret"),
    ];
    let cli = CliOverrides {
        port: Some(2600),
        password: Some("cli-secret".to_owned()),
        ..CliOverrides::default()
    };
    let config = ServerConfig::load_with_cli(4, Some(file), &env, &cli).ok().unwrap();
    assert_eq!(config.port, 2600);
    assert_eq!(config.password(), "cli-secret");
}

#[test]
fn the_environment_stands_before_the_file() {
    let file =
        config_file("server:\n  port: 2400\nlavalink:\n  server:\n    password: yaml-secret\n");
    let env = vec![entry("SERVER_PORT", "2500")];
    let config =
        ServerConfig::load_with_cli(4, Some(file), &env, &CliOverrides::default()).ok().unwrap();
    assert_eq!(config.port, 2500);
    assert_eq!(config.password(), "yaml-secret");
    assert_eq!(config.max_sessions, 1_024);
}

#[test]
fn routeplanner_yaml_is_typed_and_family_checked() {
    let file = config_file("lavalink:\n  server:\n    ratelimit:\n      ipBlocks: [127.0.0.0/30]\n      excludedIps: [127.0.0.1]\n      strategy: LoadBalance\n      searchTriggersFail: false\n");
    let mut config = defaults();
    config.apply_file(file).unwrap();
    let planner = config.route_planner().unwrap();
    assert_eq!(planner.strategy, RoutePlannerStrategy::LoadBalance);
    assert_eq!(planner.ip_blocks, vec!["127.0.0.0/30".to_owned()]);
    assert_eq!(planner.excluded_ips, vec![Address::V4(0x7f00_0001)]);
    assert!(config.route_planner.as_ref().is_some_and(|value| !value.search_triggers_fail));
}

#[test]
fn p08_media_limits_load_from_yaml_and_reject_zero() {
    let file = config_file("crust:\n  maxConcurrentLoads: 2\n  maxBatchDecodeTracks: 3\n  maxConcurrentSourceRequests: 4\n  maxConcurrentVoiceConnects: 5\n");
    let mut config = defaults();
    config.apply_file(file).unwrap();
    assert_eq!(config.max_concurrent_loads, 2);
    assert_eq!(config.max_batch_decode_tracks, 3);
    assert_eq!(config.max_concurrent_source_requests, 4);
    assert_eq!(config.max_concurrent_voice_connects, 5);
    assert!(config.validate().is_ok());
    config.max_batch_decode_tracks = 0;
    assert!(matches!(
        config.validate(),
        Err(ConfigError::Invalid("max_batch_decode_tracks must be 1..=1048576"))
    ));
}

#[test]
fn p11_player_update_interval_supports_lavalink_seconds_and_crust_milliseconds() {
    let file = config_file("lavalink:\n  server:\n    playerUpdateInterval: 7\ncrust:\n  playerUpdateIntervalMs: 125\n");
    let mut config = defaults();
    config.apply_file(file).unwrap();
    assert_eq!(config.player_update_interval, Span::from_millis(125));
    assert!(config.validate().is_ok());
    let file = config_file("lavalink:\n  server:\n    playerUpdateInterval: 7\n");
    config.apply_file(file).unwrap();
    assert_eq!(config.player_update_interval, Span::from_secs(7));
    config.player_update_interval = Span::zero();
    assert!(config.validate().is_err());
    config.player_update_interval = Span { nanos: MAX_INTERVAL_NANOS + 1_000_000 };
    assert!(config.validate().is_err());
}

#[test]
fn p12_stats_interval_is_bounded_and_configurable() {
    let file = config_file("crust:\n  statsIntervalMs: 25\n");
    let mut config = defaults();
    config.apply_file(file).unwrap();
    assert_eq!(config.stats_interval, Span::from_millis(25));
    assert!(config.validate().is_ok());
    config.stats_interval = Span::zero();
    assert!(config.validate().is_err());
    config.stats_interval = Span { nanos: MAX_INTERVAL_NANOS + 1_000_000 };
    assert!(config.validate().is_err());
}

#[test]
fn defaults_are_those_of_the_protocol() {
    let config = ServerConfig::new(32);
    assert!(config.validate().is_ok());
    assert_eq!(config.socket_address(), (Address::V4(0x7f00_0001), 2_333));
    assert_eq!(config.password(), "youshallnotpass");
    assert_eq!(config.player_executor_shards, 16);
    assert_eq!(ServerConfig::new(0).player_executor_shards, 1);
    assert_eq!(ServerConfig::new(3).player_executor_shards, 3);
    assert!(config.route_planner().is_none());
}

#[test]
fn a_planner_that_cannot_be_built_is_refused() {
    let taken = ServerConfig::accept_planner(defaults(), Ok(())).unwrap();
    assert_eq!(taken.port, defaults().port);
    match ServerConfig::accept_planner(defaults(), Err("bad block".to_owned())) {
        Err(ConfigError::RoutePlanner(words)) => assert_eq!(words, "bad block"),
        _ => panic!("the words of the planner are handed on"),
    }
    let error = ConfigError::RoutePlanner("bad block".to_owned());
    assert_eq!(error.to_text(), "invalid RoutePlanner configuration: bad block");
}

#[test]
fn addresses_of_variables_are_those_that_their_texts_read_as() {
    let mut config = defaults();
    let mut listen = entry("SERVER_ADDRESS", "10.0.0.1");
    let refused = config.apply_environment(&vec![entry("SERVER_ADDRESS", "10.0.0.1")]);
    assert!(matches!(refused, Err(ConfigError::Environment("SERVER_ADDRESS"))));
    listen.readings = vec![
        loopback(),
        AddressText { text: "10.0.0.1".to_owned(), address: Address::V4(0x0a00_0001) },
    ];
    let mut excluded =
        entry("LAVALINK_SERVER_RATELIMIT_EXCLUDEDIPS", " ::1 ,, 127.0.0.1,::1");
    excluded.readings =
        vec![loopback(), AddressText { text: "::1".to_owned(), address: Address::V6(1) }];
    config.apply_environment(&vec![listen, excluded]).unwrap();
    assert_eq!(config.listen_address, Address::V4(0x0a00_0001));
    assert_eq!(
        config.route_planner().unwrap().excluded_ips,
        vec![Address::V6(1), Address::V4(0x7f00_0001), Address::V6(1)]
    );
}

#[test]
fn each_bound_is_kept() {
    let mut config = defaults();
    config.port = 0;
    assert!(matches!(config.validate(), Err(ConfigError::Invalid("port must be non-zero"))));
    let mut config = defaults();
    config.metrics.endpoint = "/metrics/{id}".to_owned();
    assert!(matches!(
        config.validate(),
        Err(ConfigError::Invalid("metrics endpoint must be an absolute path"))
    ));
    let mut config = defaults();
    config.http_source.proxy =
        Some(ProxyConfig { host: String::new(), port: 1, username: None, password: None });
    assert!(matches!(
        config.validate(),
        Err(ConfigError::Invalid("proxy host and port are invalid"))
    ));
    let mut config = defaults();
    config.search.youtube_playlist_load_limit = 65;
    assert!(matches!(
        config.validate(),
        Err(ConfigError::Invalid("youtube_playlist_load_limit must be 1..=64"))
    ));
    let mut config = defaults();
    config.media.opus_encoding_quality = 11;
    assert!(matches!(
        config.validate(),
        Err(ConfigError::Invalid("media settings are outside their bounded ranges"))
    ));
    assert!(defaults().with_password(String::new()).is_err());
    assert!(defaults().with_password("p".repeat(16_384)).is_ok());
    assert!(defaults().with_password("p".repeat(16_385)).is_err());
    assert!(validate_timeout(Span::from_secs(300), "connect_timeout").is_ok());
    assert!(validate_timeout(Span { nanos: MAX_TIMEOUT_NANOS + 1 }, "connect_timeout").is_err());
}

#[test]
fn unreadable_variables_are_named() {
    let mut config = defaults();
    let refused = config.apply_environment(&vec![entry("SERVER_PORT", "high")]);
    assert!(matches!(refused, Err(ConfigError::Environment("SERVER_PORT"))));
    let refused =
        config.apply_environment(&vec![entry("LAVALINK_SERVER_RATELIMIT_STRATEGY", "Guess")]);
    assert!(matches!(
        refused,
        Err(ConfigError::Environment("LAVALINK_SERVER_RATELIMIT_STRATEGY"))
    ));
    let mut excluded = entry("LAVALINK_SERVER_RATELIMIT_EXCLUDED_IPS", "127.0.0.1, host");
    excluded.readings = vec![loopback()];
    let refused = config.apply_environment(&vec![excluded]);
    assert!(matches!(
        refused,
        Err(ConfigError::Environment("LAVALINK_SERVER_RATELIMIT_EXCLUDEDIPS"))
    ));
}

#[test]
fn variables_set_up_the_planner_and_the_proxy() {
    let mut excluded = entry("LAVALINK_SERVER_RATELIMIT_EXCLUDEDIPS", "127.0.0.1");
    excluded.readings = vec![loopback()];
    let env = vec![
        entry("LAVALINK_SERVER_RATELIMIT_STRATEGY", "NanoSwitch"),
        entry("LAVALINK_SERVER_RATELIMIT_IP_BLOCKS", " 10.0.0.0/8 ,, ::/64"),
        excluded,
        entry("LAVALINK_SERVER_RATELIMIT_RETRY_LIMIT", "-1"),
        entry("LAVALINK_SERVER_HTTP_CONFIG_PROXY_HOST", "proxy"),
        entry("LAVALINK_SERVER_HTTP_CONFIG_PROXY_USER", "user"),
    ];
    let mut config = defaults();
    config.apply_environment(&env).unwrap();
    let planner = config.route_planner().unwrap();
    assert_eq!(planner.ip_blocks, vec!["10.0.0.0/8".to_owned(), "::/64".to_owned()]);
    assert_eq!(planner.excluded_ips, vec![Address::V4(0x7f00_0001)]);
    assert_eq!(planner.retry_limit, Some(-1));
    let proxy = config.http_source.proxy.as_ref().unwrap();
    assert_eq!(proxy.host, "proxy");
    assert_eq!(proxy.port, 3_128);
    assert_eq!(proxy.username(), Some("user"));
    assert_eq!(proxy.password(), None);
}

#[test]
fn a_file_proxy_stands_on_any_of_its_settings() {
    let without = FileHttpConfig {
        proxy_host: None,
        proxy_port: None,
        proxy_user: None,
        proxy_password: None,
    };
    assert!(without.into_proxy().is_none());
    let local = FileHttpConfig {
        proxy_host: None,
        proxy_port: Some(1),
        proxy_user: None,
        proxy_password: None,
    };
    let proxy = local.into_proxy().unwrap();
    assert_eq!(proxy.host, "localhost");
    assert_eq!(proxy.port, 1);
    let with = FileHttpConfig {
        proxy_host: Some("proxy".to_owned()),
        proxy_port: None,
        proxy_user: None,
        proxy_password: Some("secret".to_owned()),
    };
    let proxy = with.into_proxy().unwrap();
    assert_eq!(proxy.port, 3_128);
    assert_eq!(proxy.password(), Some("secret"));
    let debug = proxy.debug_text();
    assert!(!debug.contains("secret"));
    assert!(debug.contains("\"proxy\""));
}

#[test]
fn debug_texts_are_those_of_the_standard_library() {
    assert_eq!(span_text(Span::from_millis(1_500)), "1.5s");
    assert_eq!(span_text(Span::from_secs(5)), "5s");
    assert_eq!(span_text(Span { nanos: 7 }), "7ns");
    let mut config = defaults();
    config.metrics.endpoint = "/a\"b".to_owned();
    let debug = config.debug_text("0.0.0.0");
    assert!(debug.contains("/a\\\"b"));
    assert!(debug.starts_with("ServerConfig {"));
}

#[test]
fn errors_are_told_in_words() {
    assert_eq!(
        ConfigError::Read("gone".to_owned()).to_text(),
        "failed to read configuration: gone"
    );
    assert_eq!(
        ConfigError::Yaml("line 1".to_owned()).to_text(),
        "invalid YAML configuration: line 1"
    );
    assert_eq!(ConfigError::Environment("PORT").to_text(), "invalid environment value: PORT");
    assert_eq!(ConfigError::Invalid("low").to_text(), "invalid configuration: low");
    assert_eq!(
        ConfigError::RoutePlanner("none".to_owned()).to_text(),
        "invalid RoutePlanner configuration: none"
    );
}

#[test]
fn strategies_and_qualities_have_names() {
    assert_eq!(parse_strategy("RotateOnBan"), Some(RoutePlannerStrategy::RotateOnBan));
    assert_eq!(
        parse_strategy("RotatingNanoSwitch"),
        Some(RoutePlannerStrategy::RotatingNanoSwitch)
    );
    assert_eq!(parse_strategy("rotateonban"), None);
    assert_eq!(ResamplingQuality::from_name("medium"), Some(ResamplingQuality::Medium));
    assert_eq!(ResamplingQuality::from_name("best"), None);
    let mut config = defaults();
    let yaml = "lavalink:\n  server:\n    resamplingQuality: BEST\n";
    assert!(config.apply_file(config_file(yaml)).is_err());
}

#[test]
fn variables_are_read_by_name() {
    let env = vec![entry("A", "1"), entry("B", "yes"), entry("C", "70000")];
    assert_eq!(env_text(&env, "A"), Some("1".to_owned()));
    assert!(find_entry(&env, "D").is_none());
    assert_eq!(env_u64(&env, "A").ok(), Some(Some(1)));
    assert_eq!(env_u64(&env, "D").ok(), Some(None));
    assert!(env_bool(&env, "A").is_err());
    assert!(env_bool(&env, "B").is_err());
    assert!(env_u16(&env, "C").is_err());
}
