//! The operator's settings: defaults, the configuration file, the environment,
//! the command line, and the bounds that the result must keep.

use crate::environment;
use crate::environment::{
    env_bool, env_i32, env_text, env_u16, env_u64, env_u8, env_usize, find_entry, find_reading,
    EnvEntry,
};
use crate::span::Span;
use crate::text;
use crate::text::{
    bytes_in, chars_of, comma_list, eq_ignore_case, is_control, is_whitespace, owned, same_text,
};
use vstd::prelude::*;
use vstd::string::*;

verus! {

broadcast use vstd::string::group_string_axioms;

pub const MAX_PASSWORD_BYTES: usize = 16_384;

pub const MAX_REQUEST_BODY_BYTES: usize = 16_777_216;

/// One day.
pub const MAX_INTERVAL_NANOS: u128 = 86_400_000_000_000;

/// Five minutes.
pub const MAX_TIMEOUT_NANOS: u128 = 300_000_000_000;

pub const MAX_PLAYER_EXECUTOR_SHARDS: usize = 1_024;

/// The most that any of the request limits may be.
pub const MAX_CAPACITY: usize = 1_048_576;

pub const MAX_BUFFER_NANOS: u128 = 60_000_000_000;

pub const MAX_FRAME_BUFFER_NANOS: u128 = 120_000_000_000;

pub const MAX_PLAYLIST_LOAD_LIMIT: usize = 64;

pub const MAX_PROXY_HOST_BYTES: usize = 4_096;

pub const MAX_ENDPOINT_BYTES: usize = 256;

pub const DEFAULT_PROXY_PORT: u16 = 3_128;

pub const DEFAULT_MAX_FAILURES: usize = 4_096;

/// A network address, by its bits.
#[derive(Clone, Copy, Debug, PartialEq, Eq, Structural, Hash)]
pub enum Address {
    V4(u32),
    V6(u128),
}

/// Why a configuration was not taken.
#[derive(Debug)]
pub enum ConfigError {
    /// The file could not be read; the system's words.
    Read(String),
    /// The file does not parse; the parser's words.
    Yaml(String),
    /// The environment variable does not parse.
    Environment(&'static str),
    /// The setting is out of its bounds.
    Invalid(&'static str),
    /// The planner refused its settings; its words.
    RoutePlanner(String),
}

impl ConfigError {
    pub open spec fn message(&self) -> Seq<char> {
        match *self {
            ConfigError::Read(error) => "failed to read configuration: "@ + error@,
            ConfigError::Yaml(error) => "invalid YAML configuration: "@ + error@,
            ConfigError::Environment(name) => "invalid environment value: "@ + name@,
            ConfigError::Invalid(message) => "invalid configuration: "@ + message@,
            ConfigError::RoutePlanner(message) => "invalid RoutePlanner configuration: "@ + message@,
        }
    }

    /// The error in words.
    pub fn to_text(&self) -> (r: String)
        ensures
            r@ == self.message(),
    {
        match self {
            ConfigError::Read(error) => text::joined(
                "failed to read configuration: ",
                error.as_str(),
            ),
            ConfigError::Yaml(error) => text::joined(
                "invalid YAML configuration: ",
                error.as_str(),
            ),
            ConfigError::Environment(name) => text::joined("invalid environment value: ", name),
            ConfigError::Invalid(message) => text::joined("invalid configuration: ", message),
            ConfigError::RoutePlanner(message) => text::joined(
                "invalid RoutePlanner configuration: ",
                message.as_str(),
            ),
        }
    }
}

/// Whether the result is the refusal of the named environment variable.
pub open spec fn env_failed<T>(r: Result<T, ConfigError>, name: Seq<char>) -> bool {
    r matches Err(ConfigError::Environment(shown)) && shown@ == name
}

/// Whether the result is the refusal with the message.
pub open spec fn invalid<T>(r: Result<T, ConfigError>, message: Seq<char>) -> bool {
    r matches Err(ConfigError::Invalid(shown)) && shown@ == message
}

#[derive(Clone, Copy, Debug, PartialEq, Eq, Structural)]
pub enum ResamplingQuality {
    Low,
    Medium,
    High,
}

impl Default for ResamplingQuality {
    fn default() -> (r: ResamplingQuality)
        ensures
            r == ResamplingQuality::Low,
    {
        ResamplingQuality::Low
    }
}

/// The quality that a name stands for, in any case of its letters.
pub open spec fn quality_of(name: Seq<char>) -> Option<ResamplingQuality> {
    if text::same_ignoring_case(name, "LOW"@) {
        Some(ResamplingQuality::Low)
    } else if text::same_ignoring_case(name, "MEDIUM"@) {
        Some(ResamplingQuality::Medium)
    } else if text::same_ignoring_case(name, "HIGH"@) {
        Some(ResamplingQuality::High)
    } else {
        None
    }
}

impl ResamplingQuality {
    pub fn from_name(value: &str) -> (r: Option<ResamplingQuality>)
        ensures
            r == quality_of(value@),
    {
        if eq_ignore_case(value, "LOW") {
            Some(ResamplingQuality::Low)
        } else if eq_ignore_case(value, "MEDIUM") {
            Some(ResamplingQuality::Medium)
        } else if eq_ignore_case(value, "HIGH") {
            Some(ResamplingQuality::High)
        } else {
            None
        }
    }
}

#[derive(Clone, Copy, Debug, PartialEq, Eq, Structural)]
pub struct Http2Config {
    pub enabled: bool,
}

impl Default for Http2Config {
    fn default() -> (r: Http2Config)
        ensures
            r == (Http2Config { enabled: false }),
    {
        Http2Config { enabled: false }
    }
}

/// Which sources are enabled.
#[derive(Clone, Copy, Debug, PartialEq, Eq, Structural)]
pub struct SourceConfig {
    pub youtube: bool,
    pub bandcamp: bool,
    pub soundcloud: bool,
    pub twitch: bool,
    pub vimeo: bool,
    pub nico: bool,
    pub http: bool,
    pub local: bool,
}

impl Default for SourceConfig {
    fn default() -> (r: SourceConfig)
        ensures
            r == (SourceConfig { youtube: true, bandcamp: true, soundcloud: true, twitch: true, vimeo: true, nico: false, http: true, local: false }),
    {
        SourceConfig { youtube: true, bandcamp: true, soundcloud: true, twitch: true, vimeo: true, nico: false, http: true, local: false }
    }
}

/// Which filters are enabled.
#[derive(Clone, Copy, Debug, PartialEq, Eq, Structural)]
pub struct FilterConfig {
    pub volume: bool,
    pub equalizer: bool,
    pub karaoke: bool,
    pub timescale: bool,
    pub tremolo: bool,
    pub vibrato: bool,
    pub distortion: bool,
    pub rotation: bool,
    pub channel_mix: bool,
    pub low_pass: bool,
}

impl Default for FilterConfig {
    fn default() -> (r: FilterConfig)
        ensures
            r == (FilterConfig { volume: true, equalizer: true, karaoke: true, timescale: true, tremolo: true, vibrato: true, distortion: true, rotation: true, channel_mix: true, low_pass: true }),
    {
        FilterConfig { volume: true, equalizer: true, karaoke: true, timescale: true, tremolo: true, vibrato: true, distortion: true, rotation: true, channel_mix: true, low_pass: true }
    }
}

/// Media settings.
#[derive(Clone, Copy, Debug, PartialEq, Eq, Structural)]
pub struct MediaConfig {
    pub non_allocating_frame_buffer: bool,
    pub buffer_duration: Span,
    pub frame_buffer_duration: Span,
    pub opus_encoding_quality: u8,
    pub resampling_quality: ResamplingQuality,
    pub track_stuck_threshold: Span,
    pub use_seek_ghosting: bool,
}

impl Default for MediaConfig {
    fn default() -> (r: MediaConfig)
        ensures
            r == (MediaConfig { non_allocating_frame_buffer: false, buffer_duration: Span { nanos: 400_000_000 }, frame_buffer_duration: Span { nanos: 5_000_000_000 }, opus_encoding_quality: 10, resampling_quality: ResamplingQuality::Low, track_stuck_threshold: Span { nanos: 10_000_000_000 }, use_seek_ghosting: true }),
    {
        MediaConfig { non_allocating_frame_buffer: false, buffer_duration: Span { nanos: 400_000_000 }, frame_buffer_duration: Span { nanos: 5_000_000_000 }, opus_encoding_quality: 10, resampling_quality: ResamplingQuality::Low, track_stuck_threshold: Span { nanos: 10_000_000_000 }, use_seek_ghosting: true }
    }
}

#[derive(Clone, Copy, Debug, PartialEq, Eq, Structural)]
pub struct SearchConfig {
    pub youtube_playlist_load_limit: usize,
    pub youtube_enabled: bool,
    pub soundcloud_enabled: bool,
    pub soundcloud_filter_out_preview_tracks: bool,
}

impl Default for SearchConfig {
    fn default() -> (r: SearchConfig)
        ensures
            r == (SearchConfig { youtube_playlist_load_limit: 6, youtube_enabled: true, soundcloud_enabled: true, soundcloud_filter_out_preview_tracks: false }),
    {
        SearchConfig { youtube_playlist_load_limit: 6, youtube_enabled: true, soundcloud_enabled: true, soundcloud_filter_out_preview_tracks: false }
    }
}

#[derive(Clone, Copy, Debug, PartialEq, Eq, Structural)]
pub struct TimeoutConfig {
    pub connect: Span,
    pub connection_request: Span,
    pub socket: Span,
}

impl Default for TimeoutConfig {
    fn default() -> (r: TimeoutConfig)
        ensures
            r == (TimeoutConfig { connect: Span { nanos: 3_000_000_000 }, connection_request: Span { nanos: 3_000_000_000 }, socket: Span { nanos: 3_000_000_000 } }),
    {
        TimeoutConfig { connect: Span { nanos: 3_000_000_000 }, connection_request: Span { nanos: 3_000_000_000 }, socket: Span { nanos: 3_000_000_000 } }
    }
}

#[derive(Clone, Copy, Debug, PartialEq, Eq, Structural)]
pub struct PrometheusConfig {
    pub enabled: bool,
}

impl Default for PrometheusConfig {
    fn default() -> (r: PrometheusConfig)
        ensures
            r == (PrometheusConfig { enabled: false }),
    {
        PrometheusConfig { enabled: false }
    }
}

#[derive(Clone, Copy, Debug, PartialEq, Eq, Structural)]
pub struct RequestLoggingConfig {
    pub enabled: bool,
    pub include_client_info: bool,
    pub include_headers: bool,
    pub include_query_string: bool,
    pub include_payload: bool,
    pub max_payload_length: usize,
    pub before_request: bool,
}

impl Default for RequestLoggingConfig {
    fn default() -> (r: RequestLoggingConfig)
        ensures
            r == (RequestLoggingConfig { enabled: true, include_client_info: true, include_headers: false, include_query_string: true, include_payload: true, max_payload_length: 10_000, before_request: false }),
    {
        RequestLoggingConfig { enabled: true, include_client_info: true, include_headers: false, include_query_string: true, include_payload: true, max_payload_length: 10_000, before_request: false }
    }
}

/// A proxy for source requests.
#[derive(Clone, PartialEq, Eq)]
pub struct ProxyConfig {
    pub host: String,
    pub port: u16,
    pub username: Option<String>,
    pub password: Option<String>,
}

#[verifier::ext_equal]
pub struct ProxyModel {
    pub host: Seq<char>,
    pub port: u16,
    pub username: Option<Seq<char>>,
    pub password: Option<Seq<char>>,
}

pub open spec fn text_or_none(value: Option<String>) -> Option<Seq<char>> {
    match value {
        Some(value) => Some(value@),
        None => None,
    }
}

pub open spec fn str_or_none(value: Option<&str>) -> Option<Seq<char>> {
    match value {
        Some(value) => Some(value@),
        None => None,
    }
}

impl View for ProxyConfig {
    type V = ProxyModel;

    open spec fn view(&self) -> ProxyModel {
        ProxyModel {
            host: self.host@,
            port: self.port,
            username: text_or_none(self.username),
            password: text_or_none(self.password),
        }
    }
}

pub open spec fn proxy_model(proxy: Option<ProxyConfig>) -> Option<ProxyModel> {
    match proxy {
        Some(proxy) => Some(proxy@),
        None => None,
    }
}

/// The proxy that stands where only part of one is configured.
pub open spec fn local_proxy() -> ProxyModel {
    ProxyModel {
        host: "localhost"@,
        port: DEFAULT_PROXY_PORT,
        username: None,
        password: None,
    }
}

impl ProxyConfig {
    pub fn username(&self) -> (r: Option<&str>)
        ensures
            str_or_none(r) == self@.username,
    {
        match &self.username {
            Some(name) => Some(name.as_str()),
            None => None,
        }
    }

    pub fn password(&self) -> (r: Option<&str>)
        ensures
            str_or_none(r) == self@.password,
    {
        match &self.password {
            Some(password) => Some(password.as_str()),
            None => None,
        }
    }
}

pub struct HttpSourceConfig {
    pub proxy: Option<ProxyConfig>,
    pub timeouts: TimeoutConfig,
}

#[derive(Clone, Copy, Debug, PartialEq, Eq, Structural)]
pub enum RoutePlannerStrategy {
    RotateOnBan,
    LoadBalance,
    NanoSwitch,
    RotatingNanoSwitch,
}

/// The strategy of a name.
pub open spec fn strategy_of(name: Seq<char>) -> Option<RoutePlannerStrategy> {
    if name == "RotateOnBan"@ {
        Some(RoutePlannerStrategy::RotateOnBan)
    } else if name == "LoadBalance"@ {
        Some(RoutePlannerStrategy::LoadBalance)
    } else if name == "NanoSwitch"@ {
        Some(RoutePlannerStrategy::NanoSwitch)
    } else if name == "RotatingNanoSwitch"@ {
        Some(RoutePlannerStrategy::RotatingNanoSwitch)
    } else {
        None
    }
}

pub fn parse_strategy(value: &str) -> (r: Option<RoutePlannerStrategy>)
    ensures
        r == strategy_of(value@),
{
    if same_text(value, "RotateOnBan") {
        Some(RoutePlannerStrategy::RotateOnBan)
    } else if same_text(value, "LoadBalance") {
        Some(RoutePlannerStrategy::LoadBalance)
    } else if same_text(value, "NanoSwitch") {
        Some(RoutePlannerStrategy::NanoSwitch)
    } else if same_text(value, "RotatingNanoSwitch") {
        Some(RoutePlannerStrategy::RotatingNanoSwitch)
    } else {
        None
    }
}

pub struct RoutePlannerSettings {
    pub strategy: RoutePlannerStrategy,
    pub ip_blocks: Vec<String>,
    pub excluded_ips: Vec<Address>,
    pub search_triggers_fail: bool,
    pub retry_limit: Option<i32>,
    pub max_failures: usize,
}

#[verifier::ext_equal]
pub struct RouteModel {
    pub strategy: RoutePlannerStrategy,
    pub ip_blocks: Seq<Seq<char>>,
    pub excluded_ips: Seq<Address>,
    pub search_triggers_fail: bool,
    pub retry_limit: Option<i32>,
    pub max_failures: usize,
}

impl View for RoutePlannerSettings {
    type V = RouteModel;

    open spec fn view(&self) -> RouteModel {
        RouteModel {
            strategy: self.strategy,
            ip_blocks: text::texts(self.ip_blocks@),
            excluded_ips: self.excluded_ips@,
            search_triggers_fail: self.search_triggers_fail,
            retry_limit: self.retry_limit,
            max_failures: self.max_failures,
        }
    }
}

pub open spec fn route_model(settings: Option<RoutePlannerSettings>) -> Option<RouteModel> {
    match settings {
        Some(settings) => Some(settings@),
        None => None,
    }
}

/// The planner settings that stand where only part of them is configured.
pub open spec fn default_route() -> RouteModel {
    RouteModel {
        strategy: RoutePlannerStrategy::RotateOnBan,
        ip_blocks: Seq::empty(),
        excluded_ips: Seq::empty(),
        search_triggers_fail: true,
        retry_limit: None,
        max_failures: DEFAULT_MAX_FAILURES,
    }
}

pub fn default_route_settings() -> (r: RoutePlannerSettings)
    ensures
        r@ == default_route(),
{
    let r: RoutePlannerSettings = RoutePlannerSettings {
        strategy: RoutePlannerStrategy::RotateOnBan,
        ip_blocks: Vec::new(),
        excluded_ips: Vec::new(),
        search_triggers_fail: true,
        retry_limit: None,
        max_failures: DEFAULT_MAX_FAILURES,
    };
    assert(r@ =~= default_route());
    r
}

pub struct MetricsConfig {
    pub prometheus: PrometheusConfig,
    pub endpoint: String,
}

impl Default for MetricsConfig {
    fn default() -> (r: MetricsConfig)
        ensures
            !r.prometheus.enabled,
            r.endpoint@ == "/metrics"@,
    {
        MetricsConfig {
            prometheus: PrometheusConfig { enabled: false },
            endpoint: owned("/metrics"),
        }
    }
}

pub struct LoggingConfig {
    pub request: RequestLoggingConfig,
    pub root_level: String,
    pub lavalink_level: String,
}

impl Default for LoggingConfig {
    fn default() -> (r: LoggingConfig)
        ensures
            r.request == (RequestLoggingConfig {
                enabled: true,
                include_client_info: true,
                include_headers: false,
                include_query_string: true,
                include_payload: true,
                max_payload_length: 10_000,
                before_request: false,
            }),
            r.root_level@ == "INFO"@,
            r.lavalink_level@ == "INFO"@,
    {
        LoggingConfig {
            request: RequestLoggingConfig::default(),
            root_level: owned("INFO"),
            lavalink_level: owned("INFO"),
        }
    }
}

/// What the command line sets.
pub struct CliOverrides {
    pub address: Option<Address>,
    pub port: Option<u16>,
    pub password: Option<String>,
    pub http2: Option<bool>,
}

impl Default for CliOverrides {
    fn default() -> (r: CliOverrides)
        ensures
            r == (CliOverrides { address: None, port: None, password: None, http2: None }),
    {
        CliOverrides { address: None, port: None, password: None, http2: None }
    }
}

pub struct ServerConfig {
    pub listen_address: Address,
    pub port: u16,
    pub password: String,
    pub http2: Http2Config,
    pub sources: SourceConfig,
    pub filters: FilterConfig,
    pub media: MediaConfig,
    pub search: SearchConfig,
    pub http_source: HttpSourceConfig,
    pub route_planner: Option<RoutePlannerSettings>,
    pub metrics: MetricsConfig,
    pub logging: LoggingConfig,
    pub max_request_body_bytes: usize,
    pub websocket_critical_capacity: usize,
    pub max_sessions: usize,
    pub max_players: usize,
    pub max_concurrent_session_resumes: usize,
    pub player_executor_shards: usize,
    pub player_command_capacity: usize,
    pub max_concurrent_loads: usize,
    pub max_batch_decode_tracks: usize,
    pub max_concurrent_source_requests: usize,
    pub max_concurrent_voice_connects: usize,
    pub player_update_interval: Span,
    pub stats_interval: Span,
    pub shutdown_timeout: Span,
}

/// The number of executor shards for a machine: its parallelism, between one
/// and sixteen.
pub open spec fn default_shards(parallelism: usize) -> usize {
    if parallelism < 1 {
        1
    } else if parallelism > 16 {
        16
    } else {
        parallelism
    }
}

/// Whether the configuration holds the defaults for a machine.
pub open spec fn is_default(config: ServerConfig, parallelism: usize) -> bool {
    &&& config.listen_address == Address::V4(0x7f00_0001)
    &&& config.port == 2_333
    &&& config.password@ == "youshallnotpass"@
    &&& !config.http2.enabled
    &&& config.sources == (SourceConfig { youtube: true, bandcamp: true, soundcloud: true, twitch: true, vimeo: true, nico: false, http: true, local: false })
    &&& config.filters == (FilterConfig { volume: true, equalizer: true, karaoke: true, timescale: true, tremolo: true, vibrato: true, distortion: true, rotation: true, channel_mix: true, low_pass: true })
    &&& config.media == (MediaConfig { non_allocating_frame_buffer: false, buffer_duration: Span { nanos: 400_000_000 }, frame_buffer_duration: Span { nanos: 5_000_000_000 }, opus_encoding_quality: 10, resampling_quality: ResamplingQuality::Low, track_stuck_threshold: Span { nanos: 10_000_000_000 }, use_seek_ghosting: true })
    &&& config.search == (SearchConfig { youtube_playlist_load_limit: 6, youtube_enabled: true, soundcloud_enabled: true, soundcloud_filter_out_preview_tracks: false })
    &&& config.http_source.proxy is None
    &&& config.http_source.timeouts == (TimeoutConfig { connect: Span { nanos: 3_000_000_000 }, connection_request: Span { nanos: 3_000_000_000 }, socket: Span { nanos: 3_000_000_000 } })
    &&& config.route_planner is None
    &&& !config.metrics.prometheus.enabled
    &&& config.metrics.endpoint@ == "/metrics"@
    &&& config.logging.request == (RequestLoggingConfig { enabled: true, include_client_info: true, include_headers: false, include_query_string: true, include_payload: true, max_payload_length: 10_000, before_request: false })
    &&& config.logging.root_level@ == "INFO"@
    &&& config.logging.lavalink_level@ == "INFO"@
    &&& config.max_request_body_bytes == 1_048_576
    &&& config.websocket_critical_capacity == 64
    &&& config.max_sessions == 1_024
    &&& config.max_players == 4_096
    &&& config.max_concurrent_session_resumes == 64
    &&& config.player_executor_shards == default_shards(parallelism)
    &&& config.player_command_capacity == 256
    &&& config.max_concurrent_loads == 64
    &&& config.max_batch_decode_tracks == 1_000
    &&& config.max_concurrent_source_requests == 64
    &&& config.max_concurrent_voice_connects == 16
    &&& config.player_update_interval.nanos == 5_000_000_000
    &&& config.stats_interval.nanos == 60_000_000_000
    &&& config.shutdown_timeout.nanos == 30_000_000_000
}

impl ServerConfig {
    /// The defaults for a machine with the parallelism.
    pub fn new(parallelism: usize) -> (r: ServerConfig)
        ensures
            is_default(r, parallelism),
    {
        let shards: usize = if parallelism < 1 {
            1
        } else if parallelism > 16 {
            16
        } else {
            parallelism
        };
        ServerConfig {
            listen_address: Address::V4(0x7f00_0001),
            port: 2_333,
            password: owned("youshallnotpass"),
            http2: Http2Config::default(),
            sources: SourceConfig::default(),
            filters: FilterConfig::default(),
            media: MediaConfig::default(),
            search: SearchConfig::default(),
            http_source: HttpSourceConfig { proxy: None, timeouts: TimeoutConfig::default() },
            route_planner: None,
            metrics: MetricsConfig::default(),
            logging: LoggingConfig::default(),
            max_request_body_bytes: 1_048_576,
            websocket_critical_capacity: 64,
            max_sessions: 1_024,
            max_players: 4_096,
            max_concurrent_session_resumes: 64,
            player_executor_shards: shards,
            player_command_capacity: 256,
            max_concurrent_loads: 64,
            max_batch_decode_tracks: 1_000,
            max_concurrent_source_requests: 64,
            max_concurrent_voice_connects: 16,
            player_update_interval: Span { nanos: 5_000_000_000 },
            stats_interval: Span { nanos: 60_000_000_000 },
            shutdown_timeout: Span { nanos: 30_000_000_000 },
        }
    }

    pub fn password(&self) -> (r: &str)
        ensures
            r@ == self.password@,
    {
        self.password.as_str()
    }

    /// The settings that outgoing addresses are planned by; none where they
    /// are not planned.
    pub fn route_planner(&self) -> (r: Option<&RoutePlannerSettings>)
        ensures
            r == (match self.route_planner {
                Some(settings) => Some(&settings),
                None => None,
            }),
    {
        self.route_planner.as_ref()
    }

    /// Takes a configuration whose planner settings were tried: they stand
    /// where a planner could be built from them, and otherwise the words say
    /// what was wrong with them.
    pub fn accept_planner(config: ServerConfig, built: Result<(), String>) -> (r: Result<
        ServerConfig,
        ConfigError,
    >)
        ensures
            r == (match built {
                Ok(()) => Ok::<ServerConfig, ConfigError>(config),
                Err(words) => Err(ConfigError::RoutePlanner(words)),
            }),
    {
        match built {
            Ok(()) => Ok(config),
            Err(words) => Err(ConfigError::RoutePlanner(words)),
        }
    }

    /// The address and the port that the server listens on.
    pub fn socket_address(&self) -> (r: (Address, u16))
        ensures
            r == (self.listen_address, self.port),
    {
        (self.listen_address, self.port)
    }
}


/// A timeout lies above nothing and within five minutes.
pub open spec fn bad_timeout(value: Span) -> bool {
    value.nanos == 0 || value.nanos > MAX_TIMEOUT_NANOS
}

pub fn validate_timeout(value: Span, name: &'static str) -> (r: Result<(), ConfigError>)
    ensures
        bad_timeout(value) ==> invalid(r, name@),
        !bad_timeout(value) ==> r is Ok,
{
    if value.nanos == 0 || value.nanos > MAX_TIMEOUT_NANOS {
        return Err(ConfigError::Invalid(name));
    }
    Ok(())
}

pub open spec fn bad_proxy(proxy: Option<ProxyConfig>) -> bool {
    proxy matches Some(proxy) && (proxy.host@.len() == 0 || text::byte_len(proxy.host@)
        > MAX_PROXY_HOST_BYTES || proxy.port == 0)
}

fn is_bad_proxy(proxy: &Option<ProxyConfig>) -> (r: bool)
    ensures
        r == bad_proxy(*proxy),
{
    match proxy {
        Some(proxy) => proxy.host.as_str().is_empty() || bytes_in(proxy.host.as_str())
            > MAX_PROXY_HOST_BYTES || proxy.port == 0,
        None => false,
    }
}

/// Whether the character may stand in the path of the metrics.
pub open spec fn path_char(c: char) -> bool {
    !text::is_space(c) && !text::is_control_char(c) && c != '{' && c != '}' && c != '*'
}

/// A path begins with a slash, is short, and holds no white space, control
/// character, brace or star.
pub open spec fn good_endpoint(path: Seq<char>) -> bool {
    &&& path.len() > 0
    &&& text::byte_len(path) <= MAX_ENDPOINT_BYTES
    &&& path[0] == '/'
    &&& forall|i: int| 0 <= i < path.len() ==> path_char(#[trigger] path[i])
}

fn is_good_endpoint(path: &str) -> (r: bool)
    ensures
        r == good_endpoint(path@),
{
    let chars: Vec<char> = chars_of(path);
    if chars.len() == 0 || bytes_in(path) > MAX_ENDPOINT_BYTES || chars[0] != '/' {
        return false;
    }
    let mut i: usize = 0;
    while i < chars.len()
        invariant
            i <= chars@.len(),
            chars@ == path@,
            forall|k: int| 0 <= k < i ==> path_char(#[trigger] chars@[k]),
        decreases chars@.len() - i,
    {
        let c: char = chars[i];
        if is_whitespace(c) || is_control(c) || c == '{' || c == '}' || c == '*' {
            assert(!path_char(path@[i as int]));
            return false;
        }
        i = i + 1;
    }
    true
}

/// The first of the limits that is out of its bounds, in words.
pub open spec fn limit_fault(config: ServerConfig) -> Option<Seq<char>> {
    if config.port == 0 {
        Some("port must be non-zero"@)
    } else if config.password@.len() == 0 || text::byte_len(config.password@) > MAX_PASSWORD_BYTES {
        Some("password must be 1..=16384 bytes"@)
    } else if config.max_request_body_bytes == 0 || config.max_request_body_bytes > MAX_REQUEST_BODY_BYTES {
        Some("max_request_body_bytes must be 1..=16777216"@)
    } else if config.websocket_critical_capacity == 0 {
        Some("websocket_critical_capacity must be non-zero"@)
    } else if config.max_sessions == 0 {
        Some("max_sessions must be non-zero"@)
    } else if config.max_players == 0 {
        Some("max_players must be non-zero"@)
    } else if config.max_concurrent_session_resumes == 0 {
        Some("max_concurrent_session_resumes must be non-zero"@)
    } else if config.player_executor_shards == 0 || config.player_executor_shards > MAX_PLAYER_EXECUTOR_SHARDS {
        Some("player_executor_shards must be 1..=1024"@)
    } else if config.player_command_capacity == 0 || config.player_command_capacity > MAX_CAPACITY {
        Some("player_command_capacity must be 1..=1048576"@)
    } else if config.max_concurrent_loads == 0 || config.max_concurrent_loads > MAX_CAPACITY {
        Some("max_concurrent_loads must be 1..=1048576"@)
    } else if config.max_batch_decode_tracks == 0 || config.max_batch_decode_tracks > MAX_CAPACITY {
        Some("max_batch_decode_tracks must be 1..=1048576"@)
    } else if config.max_concurrent_source_requests == 0 || config.max_concurrent_source_requests > MAX_CAPACITY {
        Some("max_concurrent_source_requests must be 1..=1048576"@)
    } else if config.max_concurrent_voice_connects == 0 || config.max_concurrent_voice_connects > MAX_CAPACITY {
        Some("max_concurrent_voice_connects must be 1..=1048576"@)
    } else if config.player_update_interval.nanos == 0 || config.player_update_interval.nanos > MAX_INTERVAL_NANOS {
        Some("player_update_interval must be between 1 ms and 24 hours"@)
    } else {
        None
    }
}

/// The first of the other settings that is out of its bounds, in words.
pub open spec fn setting_fault(config: ServerConfig) -> Option<Seq<char>> {
    if config.stats_interval.nanos == 0 || config.stats_interval.nanos > MAX_INTERVAL_NANOS {
        Some("stats_interval must be between 1 ms and 24 hours"@)
    } else if config.shutdown_timeout.nanos == 0 || config.shutdown_timeout.nanos > MAX_TIMEOUT_NANOS {
        Some("shutdown_timeout must be between 1 ms and 5 minutes"@)
    } else if config.media.buffer_duration.nanos > MAX_BUFFER_NANOS || config.media.frame_buffer_duration.nanos == 0 || config.media.frame_buffer_duration.nanos > MAX_FRAME_BUFFER_NANOS || config.media.opus_encoding_quality > 10 || config.media.track_stuck_threshold.nanos == 0 || config.media.track_stuck_threshold.nanos > MAX_INTERVAL_NANOS {
        Some("media settings are outside their bounded ranges"@)
    } else if config.search.youtube_playlist_load_limit == 0 || config.search.youtube_playlist_load_limit > MAX_PLAYLIST_LOAD_LIMIT {
        Some("youtube_playlist_load_limit must be 1..=64"@)
    } else if bad_timeout(config.http_source.timeouts.connect) {
        Some("connect_timeout"@)
    } else if bad_timeout(config.http_source.timeouts.connection_request) {
        Some("connection_request_timeout"@)
    } else if bad_timeout(config.http_source.timeouts.socket) {
        Some("socket_timeout"@)
    } else if bad_proxy(config.http_source.proxy) {
        Some("proxy host and port are invalid"@)
    } else if !good_endpoint(config.metrics.endpoint@) {
        Some("metrics endpoint must be an absolute path"@)
    } else if config.logging.request.max_payload_length > MAX_REQUEST_BODY_BYTES {
        Some("max_payload_length exceeds request-body bound"@)
    } else if config.route_planner matches Some(route) && route.ip_blocks@.len() == 0 {
        Some("RoutePlanner requires at least one ip block"@)
    } else if config.route_planner matches Some(route) && (route.retry_limit matches Some(limit) && limit < -1) {
        Some("RoutePlanner retry_limit must be -1 or non-negative"@)
    } else {
        None
    }
}

/// The first setting that is out of its bounds, in words.
pub open spec fn config_fault(config: ServerConfig) -> Option<Seq<char>> {
    if limit_fault(config) is Some {
        limit_fault(config)
    } else {
        setting_fault(config)
    }
}

impl ServerConfig {
    fn validate_limits(&self) -> (r: Result<(), ConfigError>)
        ensures
            match limit_fault(*self) {
                Some(message) => invalid(r, message),
                None => r is Ok,
            },
    {
        if self.port == 0 {
            return Err(ConfigError::Invalid("port must be non-zero"));
        }
        if self.password.as_str().is_empty() || bytes_in(self.password.as_str()) > MAX_PASSWORD_BYTES {
            return Err(ConfigError::Invalid("password must be 1..=16384 bytes"));
        }
        if self.max_request_body_bytes == 0 || self.max_request_body_bytes > MAX_REQUEST_BODY_BYTES {
            return Err(ConfigError::Invalid("max_request_body_bytes must be 1..=16777216"));
        }
        if self.websocket_critical_capacity == 0 {
            return Err(ConfigError::Invalid("websocket_critical_capacity must be non-zero"));
        }
        if self.max_sessions == 0 {
            return Err(ConfigError::Invalid("max_sessions must be non-zero"));
        }
        if self.max_players == 0 {
            return Err(ConfigError::Invalid("max_players must be non-zero"));
        }
        if self.max_concurrent_session_resumes == 0 {
            return Err(ConfigError::Invalid("max_concurrent_session_resumes must be non-zero"));
        }
        if self.player_executor_shards == 0 || self.player_executor_shards > MAX_PLAYER_EXECUTOR_SHARDS {
            return Err(ConfigError::Invalid("player_executor_shards must be 1..=1024"));
        }
        if self.player_command_capacity == 0 || self.player_command_capacity > MAX_CAPACITY {
            return Err(ConfigError::Invalid("player_command_capacity must be 1..=1048576"));
        }
        if self.max_concurrent_loads == 0 || self.max_concurrent_loads > MAX_CAPACITY {
            return Err(ConfigError::Invalid("max_concurrent_loads must be 1..=1048576"));
        }
        if self.max_batch_decode_tracks == 0 || self.max_batch_decode_tracks > MAX_CAPACITY {
            return Err(ConfigError::Invalid("max_batch_decode_tracks must be 1..=1048576"));
        }
        if self.max_concurrent_source_requests == 0 || self.max_concurrent_source_requests > MAX_CAPACITY {
            return Err(ConfigError::Invalid("max_concurrent_source_requests must be 1..=1048576"));
        }
        if self.max_concurrent_voice_connects == 0 || self.max_concurrent_voice_connects > MAX_CAPACITY {
            return Err(ConfigError::Invalid("max_concurrent_voice_connects must be 1..=1048576"));
        }
        if self.player_update_interval.nanos == 0 || self.player_update_interval.nanos > MAX_INTERVAL_NANOS {
            return Err(ConfigError::Invalid("player_update_interval must be between 1 ms and 24 hours"));
        }
        Ok(())
    }

    fn validate_settings(&self) -> (r: Result<(), ConfigError>)
        ensures
            match setting_fault(*self) {
                Some(message) => invalid(r, message),
                None => r is Ok,
            },
    {
        if self.stats_interval.nanos == 0 || self.stats_interval.nanos > MAX_INTERVAL_NANOS {
            return Err(ConfigError::Invalid("stats_interval must be between 1 ms and 24 hours"));
        }
        if self.shutdown_timeout.nanos == 0 || self.shutdown_timeout.nanos > MAX_TIMEOUT_NANOS {
            return Err(ConfigError::Invalid("shutdown_timeout must be between 1 ms and 5 minutes"));
        }
        if self.media.buffer_duration.nanos > MAX_BUFFER_NANOS || self.media.frame_buffer_duration.nanos == 0 || self.media.frame_buffer_duration.nanos > MAX_FRAME_BUFFER_NANOS || self.media.opus_encoding_quality > 10 || self.media.track_stuck_threshold.nanos == 0 || self.media.track_stuck_threshold.nanos > MAX_INTERVAL_NANOS {
            return Err(ConfigError::Invalid("media settings are outside their bounded ranges"));
        }
        if self.search.youtube_playlist_load_limit == 0 || self.search.youtube_playlist_load_limit > MAX_PLAYLIST_LOAD_LIMIT {
            return Err(ConfigError::Invalid("youtube_playlist_load_limit must be 1..=64"));
        }
        match validate_timeout(self.http_source.timeouts.connect, "connect_timeout") {
            Ok(()) => {},
            Err(error) => {
                return Err(error);
            },
        }
        match validate_timeout(self.http_source.timeouts.connection_request, "connection_request_timeout") {
            Ok(()) => {},
            Err(error) => {
                return Err(error);
            },
        }
        match validate_timeout(self.http_source.timeouts.socket, "socket_timeout") {
            Ok(()) => {},
            Err(error) => {
                return Err(error);
            },
        }
        if is_bad_proxy(&self.http_source.proxy) {
            return Err(ConfigError::Invalid("proxy host and port are invalid"));
        }
        if !is_good_endpoint(self.metrics.endpoint.as_str()) {
            return Err(ConfigError::Invalid("metrics endpoint must be an absolute path"));
        }
        if self.logging.request.max_payload_length > MAX_REQUEST_BODY_BYTES {
            return Err(ConfigError::Invalid("max_payload_length exceeds request-body bound"));
        }
        let bad: bool = match &self.route_planner { Some(route) => route.ip_blocks.len() == 0, None => false };
        if bad {
            return Err(ConfigError::Invalid("RoutePlanner requires at least one ip block"));
        }
        let bad: bool = match &self.route_planner { Some(route) => match route.retry_limit { Some(limit) => limit < -1, None => false }, None => false };
        if bad {
            return Err(ConfigError::Invalid("RoutePlanner retry_limit must be -1 or non-negative"));
        }
        Ok(())
    }

    /// Holds the configuration to its bounds.
    pub fn validate(&self) -> (r: Result<(), ConfigError>)
        ensures
            match config_fault(*self) {
                Some(message) => invalid(r, message),
                None => r is Ok,
            },
    {
        match self.validate_limits() {
            Ok(()) => self.validate_settings(),
            Err(error) => Err(error),
        }
    }

    /// The configuration with another password, held to its bounds.
    pub fn with_password(self, password: String) -> (r: Result<ServerConfig, ConfigError>)
        ensures
            ({
                let changed = ServerConfig { password, ..self };
                match config_fault(changed) {
                    Some(message) => invalid(r, message),
                    None => r == Ok::<ServerConfig, ConfigError>(changed),
                }
            }),
    {
        let mut changed: ServerConfig = self;
        changed.password = password;
        match changed.validate() {
            Ok(()) => Ok(changed),
            Err(error) => Err(error),
        }
    }

    /// What the command line sets stands over everything else.
    pub fn apply_cli(&mut self, cli: &CliOverrides)
        ensures
            *final(self) == cli_applied(*old(self), *cli),
    {
        let password: Option<String> = match &cli.password {
            Some(value) => Some(value.clone()),
            None => None,
        };
        set(&mut self.listen_address, cli.address);
        set(&mut self.port, cli.port);
        set(&mut self.password, password);
        set(&mut self.http2.enabled, cli.http2);
    }
}

pub open spec fn or_old<T>(value: Option<T>, before: T) -> T {
    match value {
        Some(value) => value,
        None => before,
    }
}

pub open spec fn cli_applied(before: ServerConfig, cli: CliOverrides) -> ServerConfig {
    ServerConfig {
        listen_address: or_old(cli.address, before.listen_address),
        port: or_old(cli.port, before.port),
        password: or_old(cli.password, before.password),
        http2: Http2Config { enabled: or_old(cli.http2, before.http2.enabled) },
        ..before
    }
}

/// A number of milliseconds as a span.
pub open spec fn ms_span(millis: u64) -> Span {
    Span { nanos: (millis * 1_000_000) as u128 }
}

/// A number of seconds as a span.
pub open spec fn s_span(seconds: u64) -> Span {
    Span { nanos: (seconds * 1_000_000_000) as u128 }
}

pub open spec fn or_old_ms(value: Option<u64>, before: Span) -> Span {
    match value {
        Some(value) => ms_span(value),
        None => before,
    }
}

/// The value, or the one before where there is none.
fn pick<T>(value: Option<T>, before: T) -> (r: T)
    ensures
        r == or_old(value, before),
{
    match value {
        Some(value) => value,
        None => before,
    }
}

/// The milliseconds as a span, or the one before where there are none.
fn pick_ms(value: Option<u64>, before: Span) -> (r: Span)
    ensures
        r == or_old_ms(value, before),
{
    match value {
        Some(value) => Span::from_millis(value),
        None => before,
    }
}

/// Puts the value in place where there is one.
fn set<T>(target: &mut T, value: Option<T>)
    ensures
        *final(target) == or_old(value, *old(target)),
{
    match value {
        Some(value) => {
            *target = value;
        },
        None => {},
    }
}

/// Puts a number of seconds in place where there is one.
fn set_s(target: &mut Span, value: Option<u64>)
    ensures
        *final(target) == match value {
            Some(value) => s_span(value),
            None => *old(target),
        },
{
    match value {
        Some(value) => {
            *target = Span::from_secs(value);
        },
        None => {},
    }
}

/// Puts a number of milliseconds in place where there is one.
fn set_ms(target: &mut Span, value: Option<u64>)
    ensures
        *final(target) == or_old_ms(value, *old(target)),
{
    match value {
        Some(value) => {
            *target = Span::from_millis(value);
        },
        None => {},
    }
}

/// The source switches of the file.
pub struct FileSources {
    pub youtube: Option<bool>,
    pub bandcamp: Option<bool>,
    pub soundcloud: Option<bool>,
    pub twitch: Option<bool>,
    pub vimeo: Option<bool>,
    pub nico: Option<bool>,
    pub http: Option<bool>,
    pub local: Option<bool>,
}

pub open spec fn file_sources(file: FileSources, before: SourceConfig) -> SourceConfig {
    SourceConfig {
        youtube: or_old(file.youtube, before.youtube),
        bandcamp: or_old(file.bandcamp, before.bandcamp),
        soundcloud: or_old(file.soundcloud, before.soundcloud),
        twitch: or_old(file.twitch, before.twitch),
        vimeo: or_old(file.vimeo, before.vimeo),
        nico: or_old(file.nico, before.nico),
        http: or_old(file.http, before.http),
        local: or_old(file.local, before.local),
    }
}

impl FileSources {
    /// Each setting that is there replaces the one before.
    pub fn apply_to(self, target: &mut SourceConfig)
        ensures
            *final(target) == file_sources(self, *old(target)),
    {
        *target = SourceConfig {
            youtube: pick(self.youtube, target.youtube),
            bandcamp: pick(self.bandcamp, target.bandcamp),
            soundcloud: pick(self.soundcloud, target.soundcloud),
            twitch: pick(self.twitch, target.twitch),
            vimeo: pick(self.vimeo, target.vimeo),
            nico: pick(self.nico, target.nico),
            http: pick(self.http, target.http),
            local: pick(self.local, target.local),
        };
    }
}

fn file_sources_over(file: Option<FileSources>, target: &mut SourceConfig)
    ensures
        *final(target) == match file {
            Some(file) => file_sources(file, *old(target)),
            None => *old(target),
        },
{
    match file {
        Some(file) => file.apply_to(target),
        None => {},
    }
}

/// The filter switches of the file.
pub struct FileFilters {
    pub volume: Option<bool>,
    pub equalizer: Option<bool>,
    pub karaoke: Option<bool>,
    pub timescale: Option<bool>,
    pub tremolo: Option<bool>,
    pub vibrato: Option<bool>,
    pub distortion: Option<bool>,
    pub rotation: Option<bool>,
    pub channel_mix: Option<bool>,
    pub low_pass: Option<bool>,
}

pub open spec fn file_filters(file: FileFilters, before: FilterConfig) -> FilterConfig {
    FilterConfig {
        volume: or_old(file.volume, before.volume),
        equalizer: or_old(file.equalizer, before.equalizer),
        karaoke: or_old(file.karaoke, before.karaoke),
        timescale: or_old(file.timescale, before.timescale),
        tremolo: or_old(file.tremolo, before.tremolo),
        vibrato: or_old(file.vibrato, before.vibrato),
        distortion: or_old(file.distortion, before.distortion),
        rotation: or_old(file.rotation, before.rotation),
        channel_mix: or_old(file.channel_mix, before.channel_mix),
        low_pass: or_old(file.low_pass, before.low_pass),
    }
}

impl FileFilters {
    /// Each setting that is there replaces the one before.
    pub fn apply_to(self, target: &mut FilterConfig)
        ensures
            *final(target) == file_filters(self, *old(target)),
    {
        *target = FilterConfig {
            volume: pick(self.volume, target.volume),
            equalizer: pick(self.equalizer, target.equalizer),
            karaoke: pick(self.karaoke, target.karaoke),
            timescale: pick(self.timescale, target.timescale),
            tremolo: pick(self.tremolo, target.tremolo),
            vibrato: pick(self.vibrato, target.vibrato),
            distortion: pick(self.distortion, target.distortion),
            rotation: pick(self.rotation, target.rotation),
            channel_mix: pick(self.channel_mix, target.channel_mix),
            low_pass: pick(self.low_pass, target.low_pass),
        };
    }
}

fn file_filters_over(file: Option<FileFilters>, target: &mut FilterConfig)
    ensures
        *final(target) == match file {
            Some(file) => file_filters(file, *old(target)),
            None => *old(target),
        },
{
    match file {
        Some(file) => file.apply_to(target),
        None => {},
    }
}

/// The timeouts of the file.
pub struct FileTimeouts {
    pub connect_timeout_ms: Option<u64>,
    pub connection_request_timeout_ms: Option<u64>,
    pub socket_timeout_ms: Option<u64>,
}

pub open spec fn file_timeouts(file: FileTimeouts, before: TimeoutConfig) -> TimeoutConfig {
    TimeoutConfig {
        connect: or_old_ms(file.connect_timeout_ms, before.connect),
        connection_request: or_old_ms(file.connection_request_timeout_ms, before.connection_request),
        socket: or_old_ms(file.socket_timeout_ms, before.socket),
    }
}

impl FileTimeouts {
    /// Each setting that is there replaces the one before.
    pub fn apply_to(self, target: &mut TimeoutConfig)
        ensures
            *final(target) == file_timeouts(self, *old(target)),
    {
        *target = TimeoutConfig {
            connect: pick_ms(self.connect_timeout_ms, target.connect),
            connection_request: pick_ms(self.connection_request_timeout_ms, target.connection_request),
            socket: pick_ms(self.socket_timeout_ms, target.socket),
        };
    }
}

fn file_timeouts_over(file: Option<FileTimeouts>, target: &mut TimeoutConfig)
    ensures
        *final(target) == match file {
            Some(file) => file_timeouts(file, *old(target)),
            None => *old(target),
        },
{
    match file {
        Some(file) => file.apply_to(target),
        None => {},
    }
}

/// The request logging of the file.
pub struct FileRequestLogging {
    pub enabled: Option<bool>,
    pub include_client_info: Option<bool>,
    pub include_headers: Option<bool>,
    pub include_query_string: Option<bool>,
    pub include_payload: Option<bool>,
    pub max_payload_length: Option<usize>,
    pub before_request: Option<bool>,
}

pub open spec fn file_request_logging(file: FileRequestLogging, before: RequestLoggingConfig) -> RequestLoggingConfig {
    RequestLoggingConfig {
        enabled: or_old(file.enabled, before.enabled),
        include_client_info: or_old(file.include_client_info, before.include_client_info),
        include_headers: or_old(file.include_headers, before.include_headers),
        include_query_string: or_old(file.include_query_string, before.include_query_string),
        include_payload: or_old(file.include_payload, before.include_payload),
        max_payload_length: or_old(file.max_payload_length, before.max_payload_length),
        before_request: or_old(file.before_request, before.before_request),
    }
}

impl FileRequestLogging {
    /// Each setting that is there replaces the one before.
    pub fn apply_to(self, target: &mut RequestLoggingConfig)
        ensures
            *final(target) == file_request_logging(self, *old(target)),
    {
        *target = RequestLoggingConfig {
            enabled: pick(self.enabled, target.enabled),
            include_client_info: pick(self.include_client_info, target.include_client_info),
            include_headers: pick(self.include_headers, target.include_headers),
            include_query_string: pick(self.include_query_string, target.include_query_string),
            include_payload: pick(self.include_payload, target.include_payload),
            max_payload_length: pick(self.max_payload_length, target.max_payload_length),
            before_request: pick(self.before_request, target.before_request),
        };
    }
}

fn file_request_logging_over(file: Option<FileRequestLogging>, target: &mut RequestLoggingConfig)
    ensures
        *final(target) == match file {
            Some(file) => file_request_logging(file, *old(target)),
            None => *old(target),
        },
{
    match file {
        Some(file) => file.apply_to(target),
        None => {},
    }
}

/// The node's own limits in the file.
pub struct FileCrust {
    pub max_request_body_bytes: Option<usize>,
    pub websocket_critical_capacity: Option<usize>,
    pub max_sessions: Option<usize>,
    pub max_players: Option<usize>,
    pub max_concurrent_session_resumes: Option<usize>,
    pub player_executor_shards: Option<usize>,
    pub player_command_capacity: Option<usize>,
    pub max_concurrent_loads: Option<usize>,
    pub max_batch_decode_tracks: Option<usize>,
    pub max_concurrent_source_requests: Option<usize>,
    pub max_concurrent_voice_connects: Option<usize>,
    pub player_update_interval_ms: Option<u64>,
    pub stats_interval_ms: Option<u64>,
    pub shutdown_timeout_ms: Option<u64>,
}

pub open spec fn file_crust(file: FileCrust, before: ServerConfig) -> ServerConfig {
    ServerConfig {
        max_request_body_bytes: or_old(file.max_request_body_bytes, before.max_request_body_bytes),
        websocket_critical_capacity: or_old(file.websocket_critical_capacity, before.websocket_critical_capacity),
        max_sessions: or_old(file.max_sessions, before.max_sessions),
        max_players: or_old(file.max_players, before.max_players),
        max_concurrent_session_resumes: or_old(file.max_concurrent_session_resumes, before.max_concurrent_session_resumes),
        player_executor_shards: or_old(file.player_executor_shards, before.player_executor_shards),
        player_command_capacity: or_old(file.player_command_capacity, before.player_command_capacity),
        max_concurrent_loads: or_old(file.max_concurrent_loads, before.max_concurrent_loads),
        max_batch_decode_tracks: or_old(file.max_batch_decode_tracks, before.max_batch_decode_tracks),
        max_concurrent_source_requests: or_old(file.max_concurrent_source_requests, before.max_concurrent_source_requests),
        max_concurrent_voice_connects: or_old(file.max_concurrent_voice_connects, before.max_concurrent_voice_connects),
        player_update_interval: or_old_ms(file.player_update_interval_ms, before.player_update_interval),
        stats_interval: or_old_ms(file.stats_interval_ms, before.stats_interval),
        shutdown_timeout: or_old_ms(file.shutdown_timeout_ms, before.shutdown_timeout),
        ..before
    }
}

impl FileCrust {
    /// Each setting that is there replaces the one before.
    pub fn apply_to(self, target: &mut ServerConfig)
        ensures
            *final(target) == file_crust(self, *old(target)),
    {
        set(&mut target.max_request_body_bytes, self.max_request_body_bytes);
        set(&mut target.websocket_critical_capacity, self.websocket_critical_capacity);
        set(&mut target.max_sessions, self.max_sessions);
        set(&mut target.max_players, self.max_players);
        set(&mut target.max_concurrent_session_resumes, self.max_concurrent_session_resumes);
        set(&mut target.player_executor_shards, self.player_executor_shards);
        set(&mut target.player_command_capacity, self.player_command_capacity);
        set(&mut target.max_concurrent_loads, self.max_concurrent_loads);
        set(&mut target.max_batch_decode_tracks, self.max_batch_decode_tracks);
        set(&mut target.max_concurrent_source_requests, self.max_concurrent_source_requests);
        set(&mut target.max_concurrent_voice_connects, self.max_concurrent_voice_connects);
        set_ms(&mut target.player_update_interval, self.player_update_interval_ms);
        set_ms(&mut target.stats_interval, self.stats_interval_ms);
        set_ms(&mut target.shutdown_timeout, self.shutdown_timeout_ms);
    }
}

fn file_crust_over(file: Option<FileCrust>, target: &mut ServerConfig)
    ensures
        *final(target) == match file {
            Some(file) => file_crust(file, *old(target)),
            None => *old(target),
        },
{
    match file {
        Some(file) => file.apply_to(target),
        None => {},
    }
}

pub struct FileHttp2 {
    pub enabled: Option<bool>,
}

pub struct FileServer {
    pub address: Option<Address>,
    pub port: Option<u16>,
    pub http2: Option<FileHttp2>,
}

pub struct FileRateLimit {
    pub ip_blocks: Option<Vec<String>>,
    pub excluded_ips: Option<Vec<Address>>,
    pub strategy: Option<String>,
    pub search_triggers_fail: Option<bool>,
    pub retry_limit: Option<i32>,
}

pub struct FileHttpConfig {
    pub proxy_host: Option<String>,
    pub proxy_port: Option<u16>,
    pub proxy_user: Option<String>,
    pub proxy_password: Option<String>,
}

pub struct FileLavalinkServer {
    pub password: Option<String>,
    pub sources: Option<FileSources>,
    pub filters: Option<FileFilters>,
    pub non_allocating_frame_buffer: Option<bool>,
    pub buffer_duration_ms: Option<u64>,
    pub frame_buffer_duration_ms: Option<u64>,
    pub opus_encoding_quality: Option<u8>,
    pub resampling_quality: Option<String>,
    pub track_stuck_threshold_ms: Option<u64>,
    pub use_seek_ghosting: Option<bool>,
    pub youtube_playlist_load_limit: Option<usize>,
    pub player_update_interval: Option<u64>,
    pub youtube_search_enabled: Option<bool>,
    pub soundcloud_search_enabled: Option<bool>,
    pub soundcloud_filter_out_preview_tracks: Option<bool>,
    pub rate_limit: Option<FileRateLimit>,
    pub http_config: Option<FileHttpConfig>,
    pub timeouts: Option<FileTimeouts>,
}

pub struct FileLavalink {
    pub server: Option<FileLavalinkServer>,
}

pub struct FilePrometheus {
    pub enabled: Option<bool>,
    pub endpoint: Option<String>,
}

pub struct FileMetrics {
    pub prometheus: Option<FilePrometheus>,
}

pub struct FileLoggingLevel {
    pub root: Option<String>,
    pub lavalink: Option<String>,
}

pub struct FileLogging {
    pub level: Option<FileLoggingLevel>,
    pub request: Option<FileRequestLogging>,
}

/// The settings of a configuration file, each where the file has it.
pub struct ConfigFile {
    pub server: Option<FileServer>,
    pub lavalink: Option<FileLavalink>,
    pub metrics: Option<FileMetrics>,
    pub logging: Option<FileLogging>,
    pub crust: Option<FileCrust>,
}

impl ConfigFile {
    /// A file that sets nothing.
    pub fn empty() -> (r: ConfigFile)
        ensures
            r == (ConfigFile {
                server: None,
                lavalink: None,
                metrics: None,
                logging: None,
                crust: None,
            }),
    {
        ConfigFile { server: None, lavalink: None, metrics: None, logging: None, crust: None }
    }
}

/// The refusal of a planner without a known strategy.
pub open spec fn strategy_message() -> Seq<char> {
    "RoutePlanner strategy is required and must be one of RotateOnBan, LoadBalance, NanoSwitch, RotatingNanoSwitch"@
}

/// The strategy that the file names.
pub open spec fn file_strategy(file: FileRateLimit) -> Option<RoutePlannerStrategy> {
    match file.strategy {
        Some(name) => strategy_of(name@),
        None => None,
    }
}

pub open spec fn file_route(file: FileRateLimit) -> RouteModel {
    RouteModel {
        strategy: file_strategy(file)->0,
        ip_blocks: match file.ip_blocks {
            Some(blocks) => text::texts(blocks@),
            None => Seq::empty(),
        },
        excluded_ips: match file.excluded_ips {
            Some(addresses) => addresses@,
            None => Seq::empty(),
        },
        search_triggers_fail: or_old(file.search_triggers_fail, true),
        retry_limit: file.retry_limit,
        max_failures: DEFAULT_MAX_FAILURES,
    }
}

impl FileRateLimit {
    /// The planner settings of the file; a known strategy must be named.
    pub fn into_settings(self) -> (r: Result<RoutePlannerSettings, ConfigError>)
        ensures
            match file_strategy(self) {
                None => invalid(r, strategy_message()),
                Some(_) => r matches Ok(settings) && settings@ == file_route(self),
            },
    {
        let strategy: Option<RoutePlannerStrategy> = match &self.strategy {
            Some(name) => parse_strategy(name.as_str()),
            None => None,
        };
        match strategy {
            None => Err(
                ConfigError::Invalid(
                    "RoutePlanner strategy is required and must be one of RotateOnBan, LoadBalance, NanoSwitch, RotatingNanoSwitch",
                ),
            ),
            Some(strategy) => {
                let settings: RoutePlannerSettings = RoutePlannerSettings {
                    strategy,
                    ip_blocks: match self.ip_blocks {
                        Some(blocks) => blocks,
                        None => Vec::new(),
                    },
                    excluded_ips: match self.excluded_ips {
                        Some(addresses) => addresses,
                        None => Vec::new(),
                    },
                    search_triggers_fail: match self.search_triggers_fail {
                        Some(value) => value,
                        None => true,
                    },
                    retry_limit: self.retry_limit,
                    max_failures: DEFAULT_MAX_FAILURES,
                };
                assert(settings@ =~= file_route(self));
                Ok(settings)
            },
        }
    }
}

/// The proxy of the file: none where it says nothing of one.
pub open spec fn file_proxy(file: FileHttpConfig) -> Option<ProxyModel> {
    if file.proxy_host is None && file.proxy_port is None && file.proxy_user is None
        && file.proxy_password is None {
        None
    } else {
        Some(
            ProxyModel {
                host: match file.proxy_host {
                    Some(host) => host@,
                    None => "localhost"@,
                },
                port: or_old(file.proxy_port, DEFAULT_PROXY_PORT),
                username: text_or_none(file.proxy_user),
                password: text_or_none(file.proxy_password),
            },
        )
    }
}

impl FileHttpConfig {
    pub fn into_proxy(self) -> (r: Option<ProxyConfig>)
        ensures
            proxy_model(r) == file_proxy(self),
    {
        if self.proxy_host.is_none() && self.proxy_port.is_none() && self.proxy_user.is_none()
            && self.proxy_password.is_none() {
            return None;
        }
        let proxy: ProxyConfig = ProxyConfig {
            host: match self.proxy_host {
                Some(host) => host,
                None => owned("localhost"),
            },
            port: match self.proxy_port {
                Some(port) => port,
                None => DEFAULT_PROXY_PORT,
            },
            username: self.proxy_user,
            password: self.proxy_password,
        };
        Some(proxy)
    }
}

/// The settings of a file's server section, which all are optional.
pub open spec fn lavalink_server(file: ConfigFile) -> Option<FileLavalinkServer> {
    match file.lavalink {
        Some(lavalink) => lavalink.server,
        None => None,
    }
}

/// What the file holds that cannot be taken, in words.
pub open spec fn server_fault(server: FileLavalinkServer) -> Option<Seq<char>> {
    if server.resampling_quality matches Some(name) && quality_of(name@) is None {
        Some("resampling_quality must be LOW, MEDIUM, or HIGH"@)
    } else if server.rate_limit matches Some(rate_limit) && file_strategy(rate_limit) is None {
        Some(strategy_message())
    } else {
        None
    }
}

pub open spec fn file_fault(file: ConfigFile) -> Option<Seq<char>> {
    match lavalink_server(file) {
        Some(server) => server_fault(server),
        None => None,
    }
}

pub open spec fn file_media(server: FileLavalinkServer, before: MediaConfig) -> MediaConfig {
    MediaConfig {
        non_allocating_frame_buffer: or_old(
            server.non_allocating_frame_buffer,
            before.non_allocating_frame_buffer,
        ),
        buffer_duration: or_old_ms(server.buffer_duration_ms, before.buffer_duration),
        frame_buffer_duration: or_old_ms(
            server.frame_buffer_duration_ms,
            before.frame_buffer_duration,
        ),
        opus_encoding_quality: or_old(server.opus_encoding_quality, before.opus_encoding_quality),
        resampling_quality: match server.resampling_quality {
            Some(name) => quality_of(name@)->0,
            None => before.resampling_quality,
        },
        track_stuck_threshold: or_old_ms(
            server.track_stuck_threshold_ms,
            before.track_stuck_threshold,
        ),
        use_seek_ghosting: or_old(server.use_seek_ghosting, before.use_seek_ghosting),
    }
}

pub open spec fn file_search(server: FileLavalinkServer, before: SearchConfig) -> SearchConfig {
    SearchConfig {
        youtube_playlist_load_limit: or_old(
            server.youtube_playlist_load_limit,
            before.youtube_playlist_load_limit,
        ),
        youtube_enabled: or_old(server.youtube_search_enabled, before.youtube_enabled),
        soundcloud_enabled: or_old(server.soundcloud_search_enabled, before.soundcloud_enabled),
        soundcloud_filter_out_preview_tracks: or_old(
            server.soundcloud_filter_out_preview_tracks,
            before.soundcloud_filter_out_preview_tracks,
        ),
    }
}

fn apply_media_section(server: &FileLavalinkServer, before: MediaConfig) -> (r: Result<
    MediaConfig,
    ConfigError,
>)
    ensures
        if server.resampling_quality matches Some(name) && quality_of(name@) is None {
            invalid(r, "resampling_quality must be LOW, MEDIUM, or HIGH"@)
        } else {
            r == Ok::<MediaConfig, ConfigError>(file_media(*server, before))
        },
{
    let resampling_quality: ResamplingQuality = match &server.resampling_quality {
        Some(name) => match ResamplingQuality::from_name(name.as_str()) {
            Some(quality) => quality,
            None => {
                return Err(
                    ConfigError::Invalid("resampling_quality must be LOW, MEDIUM, or HIGH"),
                );
            },
        },
        None => before.resampling_quality,
    };
    Ok(
        MediaConfig {
            non_allocating_frame_buffer: pick(
                server.non_allocating_frame_buffer,
                before.non_allocating_frame_buffer,
            ),
            buffer_duration: pick_ms(server.buffer_duration_ms, before.buffer_duration),
            frame_buffer_duration: pick_ms(
                server.frame_buffer_duration_ms,
                before.frame_buffer_duration,
            ),
            opus_encoding_quality: pick(server.opus_encoding_quality, before.opus_encoding_quality),
            resampling_quality,
            track_stuck_threshold: pick_ms(
                server.track_stuck_threshold_ms,
                before.track_stuck_threshold,
            ),
            use_seek_ghosting: pick(server.use_seek_ghosting, before.use_seek_ghosting),
        },
    )
}

fn apply_search_section(server: &FileLavalinkServer, before: SearchConfig) -> (r: SearchConfig)
    ensures
        r == file_search(*server, before),
{
    SearchConfig {
        youtube_playlist_load_limit: pick(
            server.youtube_playlist_load_limit,
            before.youtube_playlist_load_limit,
        ),
        youtube_enabled: pick(server.youtube_search_enabled, before.youtube_enabled),
        soundcloud_enabled: pick(server.soundcloud_search_enabled, before.soundcloud_enabled),
        soundcloud_filter_out_preview_tracks: pick(
            server.soundcloud_filter_out_preview_tracks,
            before.soundcloud_filter_out_preview_tracks,
        ),
    }
}

/// Whether the configuration took the server section in: each setting that is
/// there replaced the one before.
pub open spec fn server_section_applied(
    before: ServerConfig,
    after: ServerConfig,
    server: FileLavalinkServer,
) -> bool {
    &&& after.password == or_old(server.password, before.password)
    &&& after.player_update_interval == match server.player_update_interval {
        Some(seconds) => s_span(seconds),
        None => before.player_update_interval,
    }
    &&& after.sources == match server.sources {
        Some(sources) => file_sources(sources, before.sources),
        None => before.sources,
    }
    &&& after.filters == match server.filters {
        Some(filters) => file_filters(filters, before.filters),
        None => before.filters,
    }
    &&& after.media == file_media(server, before.media)
    &&& after.search == file_search(server, before.search)
    &&& after.http_source.timeouts == match server.timeouts {
        Some(timeouts) => file_timeouts(timeouts, before.http_source.timeouts),
        None => before.http_source.timeouts,
    }
    &&& proxy_model(after.http_source.proxy) == match server.http_config {
        Some(http) => file_proxy(http),
        None => proxy_model(before.http_source.proxy),
    }
    &&& route_model(after.route_planner) == match server.rate_limit {
        Some(rate_limit) => Some(file_route(rate_limit)),
        None => route_model(before.route_planner),
    }
    &&& after == (ServerConfig {
        password: after.password,
        player_update_interval: after.player_update_interval,
        sources: after.sources,
        filters: after.filters,
        media: after.media,
        search: after.search,
        http_source: after.http_source,
        route_planner: after.route_planner,
        ..before
    })
}

pub open spec fn file_metrics(section: Option<FileMetrics>, before: MetricsConfig) -> MetricsConfig {
    match section {
        Some(section) => match section.prometheus {
            Some(prometheus) => MetricsConfig {
                prometheus: PrometheusConfig {
                    enabled: or_old(prometheus.enabled, before.prometheus.enabled),
                },
                endpoint: or_old(prometheus.endpoint, before.endpoint),
            },
            None => before,
        },
        None => before,
    }
}

fn apply_metrics_section(target: &mut MetricsConfig, section: Option<FileMetrics>)
    ensures
        *final(target) == file_metrics(section, *old(target)),
{
    match section {
        Some(section) => match section.prometheus {
            Some(prometheus) => {
                set(&mut target.prometheus.enabled, prometheus.enabled);
                set(&mut target.endpoint, prometheus.endpoint);
            },
            None => {},
        },
        None => {},
    }
}

pub open spec fn file_logging(section: Option<FileLogging>, before: LoggingConfig) -> LoggingConfig {
    match section {
        Some(section) => LoggingConfig {
            request: match section.request {
                Some(request) => file_request_logging(request, before.request),
                None => before.request,
            },
            root_level: match section.level {
                Some(level) => or_old(level.root, before.root_level),
                None => before.root_level,
            },
            lavalink_level: match section.level {
                Some(level) => or_old(level.lavalink, before.lavalink_level),
                None => before.lavalink_level,
            },
        },
        None => before,
    }
}

fn apply_logging_section(target: &mut LoggingConfig, section: Option<FileLogging>)
    ensures
        *final(target) == file_logging(section, *old(target)),
{
    match section {
        Some(section) => {
            file_request_logging_over(section.request, &mut target.request);
            match section.level {
                Some(level) => {
                    set(&mut target.root_level, level.root);
                    set(&mut target.lavalink_level, level.lavalink);
                },
                None => {},
            }
        },
        None => {},
    }
}

/// The file's settings outside the server section, put over those before it.
pub open spec fn other_sections(before: ServerConfig, file: ConfigFile) -> ServerConfig {
    let metrics = file_metrics(file.metrics, before.metrics);
    let logging = file_logging(file.logging, before.logging);
    let shown = ServerConfig { metrics, logging, ..before };
    match file.crust {
        Some(crust) => file_crust(crust, shown),
        None => shown,
    }
}

/// The listening settings of the file, put over those before it.
pub open spec fn listen_section(before: ServerConfig, file: ConfigFile) -> ServerConfig {
    match file.server {
        Some(server) => ServerConfig {
            listen_address: or_old(server.address, before.listen_address),
            port: or_old(server.port, before.port),
            http2: Http2Config {
                enabled: match server.http2 {
                    Some(http2) => or_old(http2.enabled, before.http2.enabled),
                    None => before.http2.enabled,
                },
            },
            ..before
        },
        None => before,
    }
}

/// Whether the configuration took the whole file in.
pub open spec fn file_applied(before: ServerConfig, after: ServerConfig, file: ConfigFile) -> bool {
    match lavalink_server(file) {
        Some(server) => exists|middle: ServerConfig| #[trigger]
            server_section_applied(listen_section(before, file), middle, server) && after
                == other_sections(middle, file),
        None => after == other_sections(listen_section(before, file), file),
    }
}

impl ServerConfig {
    fn apply_server_section(&mut self, server: FileLavalinkServer) -> (r: Result<(), ConfigError>)
        ensures
            match server_fault(server) {
                Some(message) => invalid(r, message),
                None => r is Ok && server_section_applied(*old(self), *final(self), server),
            },
    {
        let media: MediaConfig = match apply_media_section(&server, self.media) {
            Ok(media) => media,
            Err(error) => {
                return Err(error);
            },
        };
        let search: SearchConfig = apply_search_section(&server, self.search);
        let mut http_source: HttpSourceConfig = HttpSourceConfig {
            proxy: self.http_source.proxy.take(),
            timeouts: self.http_source.timeouts,
        };
        match server.http_config {
            Some(http) => {
                http_source.proxy = http.into_proxy();
            },
            None => {},
        }
        file_timeouts_over(server.timeouts, &mut http_source.timeouts);
        let mut route_planner: Option<RoutePlannerSettings> = self.route_planner.take();
        match server.rate_limit {
            Some(rate_limit) => match rate_limit.into_settings() {
                Ok(settings) => {
                    route_planner = Some(settings);
                },
                Err(error) => {
                    return Err(error);
                },
            },
            None => {},
        }
        let mut sources: SourceConfig = self.sources;
        file_sources_over(server.sources, &mut sources);
        let mut filters: FilterConfig = self.filters;
        file_filters_over(server.filters, &mut filters);
        set(&mut self.password, server.password);
        set_s(&mut self.player_update_interval, server.player_update_interval);
        self.sources = sources;
        self.filters = filters;
        self.media = media;
        self.search = search;
        self.http_source = http_source;
        self.route_planner = route_planner;
        Ok(())
    }

    /// Takes a configuration file in. Where it is refused the configuration is
    /// changed only in part and is not to be used.
    pub fn apply_file(&mut self, file: ConfigFile) -> (r: Result<(), ConfigError>)
        ensures
            match file_fault(file) {
                Some(message) => invalid(r, message),
                None => r is Ok && file_applied(*old(self), *final(self), file),
            },
    {
        match file.server {
            Some(server) => {
                set(&mut self.listen_address, server.address);
                set(&mut self.port, server.port);
                match server.http2 {
                    Some(http2) => set(&mut self.http2.enabled, http2.enabled),
                    None => {},
                }
            },
            None => {},
        }
        let ghost listening = *self;
        assert(listening == listen_section(*old(self), file));
        if let Some(lavalink) = file.lavalink {
            if let Some(server) = lavalink.server {
                match self.apply_server_section(server) {
                    Ok(()) => {},
                    Err(error) => {
                        return Err(error);
                    },
                }
            }
        }
        let ghost middle = *self;
        apply_metrics_section(&mut self.metrics, file.metrics);
        apply_logging_section(&mut self.logging, file.logging);
        file_crust_over(file.crust, self);
        assert(*self == other_sections(middle, file));
        Ok(())
    }
}

/// The first variable of the limits that does not parse.
pub open spec fn limits_env_fault(env: Seq<EnvEntry>) -> Option<Seq<char>> {
    if environment::bad_usize(env, "CRUST_MAX_REQUEST_BODY_BYTES"@) {
        Some("CRUST_MAX_REQUEST_BODY_BYTES"@)
    } else if environment::bad_usize(env, "CRUST_WEBSOCKET_CRITICAL_CAPACITY"@) {
        Some("CRUST_WEBSOCKET_CRITICAL_CAPACITY"@)
    } else if environment::bad_usize(env, "CRUST_MAX_SESSIONS"@) {
        Some("CRUST_MAX_SESSIONS"@)
    } else if environment::bad_usize(env, "CRUST_MAX_PLAYERS"@) {
        Some("CRUST_MAX_PLAYERS"@)
    } else if environment::bad_usize(env, "CRUST_MAX_CONCURRENT_SESSION_RESUMES"@) {
        Some("CRUST_MAX_CONCURRENT_SESSION_RESUMES"@)
    } else if environment::bad_usize(env, "CRUST_PLAYER_EXECUTOR_SHARDS"@) {
        Some("CRUST_PLAYER_EXECUTOR_SHARDS"@)
    } else if environment::bad_usize(env, "CRUST_PLAYER_COMMAND_CAPACITY"@) {
        Some("CRUST_PLAYER_COMMAND_CAPACITY"@)
    } else if environment::bad_usize(env, "CRUST_MAX_CONCURRENT_LOADS"@) {
        Some("CRUST_MAX_CONCURRENT_LOADS"@)
    } else if environment::bad_usize(env, "CRUST_MAX_BATCH_DECODE_TRACKS"@) {
        Some("CRUST_MAX_BATCH_DECODE_TRACKS"@)
    } else if environment::bad_usize(env, "CRUST_MAX_CONCURRENT_SOURCE_REQUESTS"@) {
        Some("CRUST_MAX_CONCURRENT_SOURCE_REQUESTS"@)
    } else if environment::bad_usize(env, "CRUST_MAX_CONCURRENT_VOICE_CONNECTS"@) {
        Some("CRUST_MAX_CONCURRENT_VOICE_CONNECTS"@)
    } else {
        None
    }
}

/// The limits with what the environment sets.
pub open spec fn limits_env(env: Seq<EnvEntry>, before: ServerConfig) -> ServerConfig {
    ServerConfig {
        max_request_body_bytes: or_old(environment::usize_at(env, "CRUST_MAX_REQUEST_BODY_BYTES"@), before.max_request_body_bytes),
        websocket_critical_capacity: or_old(environment::usize_at(env, "CRUST_WEBSOCKET_CRITICAL_CAPACITY"@), before.websocket_critical_capacity),
        max_sessions: or_old(environment::usize_at(env, "CRUST_MAX_SESSIONS"@), before.max_sessions),
        max_players: or_old(environment::usize_at(env, "CRUST_MAX_PLAYERS"@), before.max_players),
        max_concurrent_session_resumes: or_old(environment::usize_at(env, "CRUST_MAX_CONCURRENT_SESSION_RESUMES"@), before.max_concurrent_session_resumes),
        player_executor_shards: or_old(environment::usize_at(env, "CRUST_PLAYER_EXECUTOR_SHARDS"@), before.player_executor_shards),
        player_command_capacity: or_old(environment::usize_at(env, "CRUST_PLAYER_COMMAND_CAPACITY"@), before.player_command_capacity),
        max_concurrent_loads: or_old(environment::usize_at(env, "CRUST_MAX_CONCURRENT_LOADS"@), before.max_concurrent_loads),
        max_batch_decode_tracks: or_old(environment::usize_at(env, "CRUST_MAX_BATCH_DECODE_TRACKS"@), before.max_batch_decode_tracks),
        max_concurrent_source_requests: or_old(environment::usize_at(env, "CRUST_MAX_CONCURRENT_SOURCE_REQUESTS"@), before.max_concurrent_source_requests),
        max_concurrent_voice_connects: or_old(environment::usize_at(env, "CRUST_MAX_CONCURRENT_VOICE_CONNECTS"@), before.max_concurrent_voice_connects),
        ..before
    }
}

fn apply_limits_environment(target: &mut ServerConfig, env: &Vec<EnvEntry>) -> (r: Result<(), ConfigError>)
    ensures
        match limits_env_fault(env@) {
            Some(name) => env_failed(r, name),
            None => r is Ok && *final(target) == limits_env(env@, *old(target)),
        },
{
    match env_usize(env, "CRUST_MAX_REQUEST_BODY_BYTES") {
        Ok(value) => set(&mut target.max_request_body_bytes, value),
        Err(error) => {
            return Err(error);
        },
    }
    match env_usize(env, "CRUST_WEBSOCKET_CRITICAL_CAPACITY") {
        Ok(value) => set(&mut target.websocket_critical_capacity, value),
        Err(error) => {
            return Err(error);
        },
    }
    match env_usize(env, "CRUST_MAX_SESSIONS") {
        Ok(value) => set(&mut target.max_sessions, value),
        Err(error) => {
            return Err(error);
        },
    }
    match env_usize(env, "CRUST_MAX_PLAYERS") {
        Ok(value) => set(&mut target.max_players, value),
        Err(error) => {
            return Err(error);
        },
    }
    match env_usize(env, "CRUST_MAX_CONCURRENT_SESSION_RESUMES") {
        Ok(value) => set(&mut target.max_concurrent_session_resumes, value),
        Err(error) => {
            return Err(error);
        },
    }
    match env_usize(env, "CRUST_PLAYER_EXECUTOR_SHARDS") {
        Ok(value) => set(&mut target.player_executor_shards, value),
        Err(error) => {
            return Err(error);
        },
    }
    match env_usize(env, "CRUST_PLAYER_COMMAND_CAPACITY") {
        Ok(value) => set(&mut target.player_command_capacity, value),
        Err(error) => {
            return Err(error);
        },
    }
    match env_usize(env, "CRUST_MAX_CONCURRENT_LOADS") {
        Ok(value) => set(&mut target.max_concurrent_loads, value),
        Err(error) => {
            return Err(error);
        },
    }
    match env_usize(env, "CRUST_MAX_BATCH_DECODE_TRACKS") {
        Ok(value) => set(&mut target.max_batch_decode_tracks, value),
        Err(error) => {
            return Err(error);
        },
    }
    match env_usize(env, "CRUST_MAX_CONCURRENT_SOURCE_REQUESTS") {
        Ok(value) => set(&mut target.max_concurrent_source_requests, value),
        Err(error) => {
            return Err(error);
        },
    }
    match env_usize(env, "CRUST_MAX_CONCURRENT_VOICE_CONNECTS") {
        Ok(value) => set(&mut target.max_concurrent_voice_connects, value),
        Err(error) => {
            return Err(error);
        },
    }
    Ok(())
}

/// The first variable of the source switches that does not parse.
pub open spec fn sources_env_fault(env: Seq<EnvEntry>) -> Option<Seq<char>> {
    if environment::bad_bool(env, "LAVALINK_SERVER_SOURCES_YOUTUBE"@) {
        Some("LAVALINK_SERVER_SOURCES_YOUTUBE"@)
    } else if environment::bad_bool(env, "LAVALINK_SERVER_SOURCES_BANDCAMP"@) {
        Some("LAVALINK_SERVER_SOURCES_BANDCAMP"@)
    } else if environment::bad_bool(env, "LAVALINK_SERVER_SOURCES_SOUNDCLOUD"@) {
        Some("LAVALINK_SERVER_SOURCES_SOUNDCLOUD"@)
    } else if environment::bad_bool(env, "LAVALINK_SERVER_SOURCES_TWITCH"@) {
        Some("LAVALINK_SERVER_SOURCES_TWITCH"@)
    } else if environment::bad_bool(env, "LAVALINK_SERVER_SOURCES_VIMEO"@) {
        Some("LAVALINK_SERVER_SOURCES_VIMEO"@)
    } else if environment::bad_bool(env, "LAVALINK_SERVER_SOURCES_NICO"@) {
        Some("LAVALINK_SERVER_SOURCES_NICO"@)
    } else if environment::bad_bool(env, "LAVALINK_SERVER_SOURCES_HTTP"@) {
        Some("LAVALINK_SERVER_SOURCES_HTTP"@)
    } else if environment::bad_bool(env, "LAVALINK_SERVER_SOURCES_LOCAL"@) {
        Some("LAVALINK_SERVER_SOURCES_LOCAL"@)
    } else {
        None
    }
}

/// The source switches with what the environment sets.
pub open spec fn sources_env(env: Seq<EnvEntry>, before: SourceConfig) -> SourceConfig {
    SourceConfig {
        youtube: or_old(environment::bool_at(env, "LAVALINK_SERVER_SOURCES_YOUTUBE"@), before.youtube),
        bandcamp: or_old(environment::bool_at(env, "LAVALINK_SERVER_SOURCES_BANDCAMP"@), before.bandcamp),
        soundcloud: or_old(environment::bool_at(env, "LAVALINK_SERVER_SOURCES_SOUNDCLOUD"@), before.soundcloud),
        twitch: or_old(environment::bool_at(env, "LAVALINK_SERVER_SOURCES_TWITCH"@), before.twitch),
        vimeo: or_old(environment::bool_at(env, "LAVALINK_SERVER_SOURCES_VIMEO"@), before.vimeo),
        nico: or_old(environment::bool_at(env, "LAVALINK_SERVER_SOURCES_NICO"@), before.nico),
        http: or_old(environment::bool_at(env, "LAVALINK_SERVER_SOURCES_HTTP"@), before.http),
        local: or_old(environment::bool_at(env, "LAVALINK_SERVER_SOURCES_LOCAL"@), before.local),
    }
}

fn apply_sources_environment(target: &mut SourceConfig, env: &Vec<EnvEntry>) -> (r: Result<(), ConfigError>)
    ensures
        match sources_env_fault(env@) {
            Some(name) => env_failed(r, name),
            None => r is Ok && *final(target) == sources_env(env@, *old(target)),
        },
{
    match env_bool(env, "LAVALINK_SERVER_SOURCES_YOUTUBE") {
        Ok(value) => set(&mut target.youtube, value),
        Err(error) => {
            return Err(error);
        },
    }
    match env_bool(env, "LAVALINK_SERVER_SOURCES_BANDCAMP") {
        Ok(value) => set(&mut target.bandcamp, value),
        Err(error) => {
            return Err(error);
        },
    }
    match env_bool(env, "LAVALINK_SERVER_SOURCES_SOUNDCLOUD") {
        Ok(value) => set(&mut target.soundcloud, value),
        Err(error) => {
            return Err(error);
        },
    }
    match env_bool(env, "LAVALINK_SERVER_SOURCES_TWITCH") {
        Ok(value) => set(&mut target.twitch, value),
        Err(error) => {
            return Err(error);
        },
    }
    match env_bool(env, "LAVALINK_SERVER_SOURCES_VIMEO") {
        Ok(value) => set(&mut target.vimeo, value),
        Err(error) => {
            return Err(error);
        },
    }
    match env_bool(env, "LAVALINK_SERVER_SOURCES_NICO") {
        Ok(value) => set(&mut target.nico, value),
        Err(error) => {
            return Err(error);
        },
    }
    match env_bool(env, "LAVALINK_SERVER_SOURCES_HTTP") {
        Ok(value) => set(&mut target.http, value),
        Err(error) => {
            return Err(error);
        },
    }
    match env_bool(env, "LAVALINK_SERVER_SOURCES_LOCAL") {
        Ok(value) => set(&mut target.local, value),
        Err(error) => {
            return Err(error);
        },
    }
    Ok(())
}

/// The first variable of the filter switches that does not parse.
pub open spec fn filters_env_fault(env: Seq<EnvEntry>) -> Option<Seq<char>> {
    if environment::bad_bool(env, "LAVALINK_SERVER_FILTERS_VOLUME"@) {
        Some("LAVALINK_SERVER_FILTERS_VOLUME"@)
    } else if environment::bad_bool(env, "LAVALINK_SERVER_FILTERS_EQUALIZER"@) {
        Some("LAVALINK_SERVER_FILTERS_EQUALIZER"@)
    } else if environment::bad_bool(env, "LAVALINK_SERVER_FILTERS_KARAOKE"@) {
        Some("LAVALINK_SERVER_FILTERS_KARAOKE"@)
    } else if environment::bad_bool(env, "LAVALINK_SERVER_FILTERS_TIMESCALE"@) {
        Some("LAVALINK_SERVER_FILTERS_TIMESCALE"@)
    } else if environment::bad_bool(env, "LAVALINK_SERVER_FILTERS_TREMOLO"@) {
        Some("LAVALINK_SERVER_FILTERS_TREMOLO"@)
    } else if environment::bad_bool(env, "LAVALINK_SERVER_FILTERS_VIBRATO"@) {
        Some("LAVALINK_SERVER_FILTERS_VIBRATO"@)
    } else if environment::bad_bool(env, "LAVALINK_SERVER_FILTERS_DISTORTION"@) {
        Some("LAVALINK_SERVER_FILTERS_DISTORTION"@)
    } else if environment::bad_bool(env, "LAVALINK_SERVER_FILTERS_ROTATION"@) {
        Some("LAVALINK_SERVER_FILTERS_ROTATION"@)
    } else if environment::bad_bool(env, "LAVALINK_SERVER_FILTERS_CHANNEL_MIX"@) {
        Some("LAVALINK_SERVER_FILTERS_CHANNEL_MIX"@)
    } else if environment::bad_bool(env, "LAVALINK_SERVER_FILTERS_CHANNELMIX"@) {
        Some("LAVALINK_SERVER_FILTERS_CHANNELMIX"@)
    } else if environment::bad_bool(env, "LAVALINK_SERVER_FILTERS_LOW_PASS"@) {
        Some("LAVALINK_SERVER_FILTERS_LOW_PASS"@)
    } else if environment::bad_bool(env, "LAVALINK_SERVER_FILTERS_LOWPASS"@) {
        Some("LAVALINK_SERVER_FILTERS_LOWPASS"@)
    } else {
        None
    }
}

/// The filter switches with what the environment sets.
pub open spec fn filters_env(env: Seq<EnvEntry>, before: FilterConfig) -> FilterConfig {
    FilterConfig {
        volume: or_old(environment::bool_at(env, "LAVALINK_SERVER_FILTERS_VOLUME"@), before.volume),
        equalizer: or_old(environment::bool_at(env, "LAVALINK_SERVER_FILTERS_EQUALIZER"@), before.equalizer),
        karaoke: or_old(environment::bool_at(env, "LAVALINK_SERVER_FILTERS_KARAOKE"@), before.karaoke),
        timescale: or_old(environment::bool_at(env, "LAVALINK_SERVER_FILTERS_TIMESCALE"@), before.timescale),
        tremolo: or_old(environment::bool_at(env, "LAVALINK_SERVER_FILTERS_TREMOLO"@), before.tremolo),
        vibrato: or_old(environment::bool_at(env, "LAVALINK_SERVER_FILTERS_VIBRATO"@), before.vibrato),
        distortion: or_old(environment::bool_at(env, "LAVALINK_SERVER_FILTERS_DISTORTION"@), before.distortion),
        rotation: or_old(environment::bool_at(env, "LAVALINK_SERVER_FILTERS_ROTATION"@), before.rotation),
        channel_mix: match environment::bool_at(env, "LAVALINK_SERVER_FILTERS_CHANNEL_MIX"@) { Some(value) => value, None => or_old(environment::bool_at(env, "LAVALINK_SERVER_FILTERS_CHANNELMIX"@), before.channel_mix) },
        low_pass: match environment::bool_at(env, "LAVALINK_SERVER_FILTERS_LOW_PASS"@) { Some(value) => value, None => or_old(environment::bool_at(env, "LAVALINK_SERVER_FILTERS_LOWPASS"@), before.low_pass) },
    }
}

fn apply_filters_environment(target: &mut FilterConfig, env: &Vec<EnvEntry>) -> (r: Result<(), ConfigError>)
    ensures
        match filters_env_fault(env@) {
            Some(name) => env_failed(r, name),
            None => r is Ok && *final(target) == filters_env(env@, *old(target)),
        },
{
    match env_bool(env, "LAVALINK_SERVER_FILTERS_VOLUME") {
        Ok(value) => set(&mut target.volume, value),
        Err(error) => {
            return Err(error);
        },
    }
    match env_bool(env, "LAVALINK_SERVER_FILTERS_EQUALIZER") {
        Ok(value) => set(&mut target.equalizer, value),
        Err(error) => {
            return Err(error);
        },
    }
    match env_bool(env, "LAVALINK_SERVER_FILTERS_KARAOKE") {
        Ok(value) => set(&mut target.karaoke, value),
        Err(error) => {
            return Err(error);
        },
    }
    match env_bool(env, "LAVALINK_SERVER_FILTERS_TIMESCALE") {
        Ok(value) => set(&mut target.timescale, value),
        Err(error) => {
            return Err(error);
        },
    }
    match env_bool(env, "LAVALINK_SERVER_FILTERS_TREMOLO") {
        Ok(value) => set(&mut target.tremolo, value),
        Err(error) => {
            return Err(error);
        },
    }
    match env_bool(env, "LAVALINK_SERVER_FILTERS_VIBRATO") {
        Ok(value) => set(&mut target.vibrato, value),
        Err(error) => {
            return Err(error);
        },
    }
    match env_bool(env, "LAVALINK_SERVER_FILTERS_DISTORTION") {
        Ok(value) => set(&mut target.distortion, value),
        Err(error) => {
            return Err(error);
        },
    }
    match env_bool(env, "LAVALINK_SERVER_FILTERS_ROTATION") {
        Ok(value) => set(&mut target.rotation, value),
        Err(error) => {
            return Err(error);
        },
    }
    let first: Option<bool> = match env_bool(env, "LAVALINK_SERVER_FILTERS_CHANNEL_MIX") {
        Ok(value) => value,
        Err(error) => {
            return Err(error);
        },
    };
    let second: Option<bool> = match env_bool(env, "LAVALINK_SERVER_FILTERS_CHANNELMIX") {
        Ok(value) => value,
        Err(error) => {
            return Err(error);
        },
    };
    set(&mut target.channel_mix, second);
    set(&mut target.channel_mix, first);
    let first: Option<bool> = match env_bool(env, "LAVALINK_SERVER_FILTERS_LOW_PASS") {
        Ok(value) => value,
        Err(error) => {
            return Err(error);
        },
    };
    let second: Option<bool> = match env_bool(env, "LAVALINK_SERVER_FILTERS_LOWPASS") {
        Ok(value) => value,
        Err(error) => {
            return Err(error);
        },
    };
    set(&mut target.low_pass, second);
    set(&mut target.low_pass, first);
    Ok(())
}

/// The first variable of the search settings that does not parse.
pub open spec fn search_env_fault(env: Seq<EnvEntry>) -> Option<Seq<char>> {
    if environment::bad_usize(env, "LAVALINK_SERVER_YOUTUBE_PLAYLIST_LOAD_LIMIT"@) {
        Some("LAVALINK_SERVER_YOUTUBE_PLAYLIST_LOAD_LIMIT"@)
    } else if environment::bad_bool(env, "LAVALINK_SERVER_YOUTUBE_SEARCH_ENABLED"@) {
        Some("LAVALINK_SERVER_YOUTUBE_SEARCH_ENABLED"@)
    } else if environment::bad_bool(env, "LAVALINK_SERVER_SOUNDCLOUD_SEARCH_ENABLED"@) {
        Some("LAVALINK_SERVER_SOUNDCLOUD_SEARCH_ENABLED"@)
    } else if environment::bad_bool(env, "LAVALINK_SERVER_SOUNDCLOUD_FILTER_OUT_PREVIEW_TRACKS"@) {
        Some("LAVALINK_SERVER_SOUNDCLOUD_FILTER_OUT_PREVIEW_TRACKS"@)
    } else {
        None
    }
}

/// The search settings with what the environment sets.
pub open spec fn search_env(env: Seq<EnvEntry>, before: SearchConfig) -> SearchConfig {
    SearchConfig {
        youtube_playlist_load_limit: or_old(environment::usize_at(env, "LAVALINK_SERVER_YOUTUBE_PLAYLIST_LOAD_LIMIT"@), before.youtube_playlist_load_limit),
        youtube_enabled: or_old(environment::bool_at(env, "LAVALINK_SERVER_YOUTUBE_SEARCH_ENABLED"@), before.youtube_enabled),
        soundcloud_enabled: or_old(environment::bool_at(env, "LAVALINK_SERVER_SOUNDCLOUD_SEARCH_ENABLED"@), before.soundcloud_enabled),
        soundcloud_filter_out_preview_tracks: or_old(environment::bool_at(env, "LAVALINK_SERVER_SOUNDCLOUD_FILTER_OUT_PREVIEW_TRACKS"@), before.soundcloud_filter_out_preview_tracks),
    }
}

fn apply_search_environment(target: &mut SearchConfig, env: &Vec<EnvEntry>) -> (r: Result<(), ConfigError>)
    ensures
        match search_env_fault(env@) {
            Some(name) => env_failed(r, name),
            None => r is Ok && *final(target) == search_env(env@, *old(target)),
        },
{
    match env_usize(env, "LAVALINK_SERVER_YOUTUBE_PLAYLIST_LOAD_LIMIT") {
        Ok(value) => set(&mut target.youtube_playlist_load_limit, value),
        Err(error) => {
            return Err(error);
        },
    }
    match env_bool(env, "LAVALINK_SERVER_YOUTUBE_SEARCH_ENABLED") {
        Ok(value) => set(&mut target.youtube_enabled, value),
        Err(error) => {
            return Err(error);
        },
    }
    match env_bool(env, "LAVALINK_SERVER_SOUNDCLOUD_SEARCH_ENABLED") {
        Ok(value) => set(&mut target.soundcloud_enabled, value),
        Err(error) => {
            return Err(error);
        },
    }
    match env_bool(env, "LAVALINK_SERVER_SOUNDCLOUD_FILTER_OUT_PREVIEW_TRACKS") {
        Ok(value) => set(&mut target.soundcloud_filter_out_preview_tracks, value),
        Err(error) => {
            return Err(error);
        },
    }
    Ok(())
}

/// The first variable of the timeouts that does not parse.
pub open spec fn timeouts_env_fault(env: Seq<EnvEntry>) -> Option<Seq<char>> {
    if environment::bad_u64(env, "LAVALINK_SERVER_TIMEOUTS_CONNECT_TIMEOUT_MS"@) {
        Some("LAVALINK_SERVER_TIMEOUTS_CONNECT_TIMEOUT_MS"@)
    } else if environment::bad_u64(env, "LAVALINK_SERVER_TIMEOUTS_CONNECTION_REQUEST_TIMEOUT_MS"@) {
        Some("LAVALINK_SERVER_TIMEOUTS_CONNECTION_REQUEST_TIMEOUT_MS"@)
    } else if environment::bad_u64(env, "LAVALINK_SERVER_TIMEOUTS_SOCKET_TIMEOUT_MS"@) {
        Some("LAVALINK_SERVER_TIMEOUTS_SOCKET_TIMEOUT_MS"@)
    } else {
        None
    }
}

/// The timeouts with what the environment sets.
pub open spec fn timeouts_env(env: Seq<EnvEntry>, before: TimeoutConfig) -> TimeoutConfig {
    TimeoutConfig {
        connect: or_old_ms(environment::u64_at(env, "LAVALINK_SERVER_TIMEOUTS_CONNECT_TIMEOUT_MS"@), before.connect),
        connection_request: or_old_ms(environment::u64_at(env, "LAVALINK_SERVER_TIMEOUTS_CONNECTION_REQUEST_TIMEOUT_MS"@), before.connection_request),
        socket: or_old_ms(environment::u64_at(env, "LAVALINK_SERVER_TIMEOUTS_SOCKET_TIMEOUT_MS"@), before.socket),
    }
}

fn apply_timeouts_environment(target: &mut TimeoutConfig, env: &Vec<EnvEntry>) -> (r: Result<(), ConfigError>)
    ensures
        match timeouts_env_fault(env@) {
            Some(name) => env_failed(r, name),
            None => r is Ok && *final(target) == timeouts_env(env@, *old(target)),
        },
{
    match env_u64(env, "LAVALINK_SERVER_TIMEOUTS_CONNECT_TIMEOUT_MS") {
        Ok(value) => set_ms(&mut target.connect, value),
        Err(error) => {
            return Err(error);
        },
    }
    match env_u64(env, "LAVALINK_SERVER_TIMEOUTS_CONNECTION_REQUEST_TIMEOUT_MS") {
        Ok(value) => set_ms(&mut target.connection_request, value),
        Err(error) => {
            return Err(error);
        },
    }
    match env_u64(env, "LAVALINK_SERVER_TIMEOUTS_SOCKET_TIMEOUT_MS") {
        Ok(value) => set_ms(&mut target.socket, value),
        Err(error) => {
            return Err(error);
        },
    }
    Ok(())
}

/// The first variable of the request logging that does not parse.
pub open spec fn logging_env_fault(env: Seq<EnvEntry>) -> Option<Seq<char>> {
    if environment::bad_bool(env, "LOGGING_REQUEST_ENABLED"@) {
        Some("LOGGING_REQUEST_ENABLED"@)
    } else if environment::bad_bool(env, "LOGGING_REQUEST_INCLUDE_CLIENT_INFO"@) {
        Some("LOGGING_REQUEST_INCLUDE_CLIENT_INFO"@)
    } else if environment::bad_bool(env, "LOGGING_REQUEST_INCLUDE_HEADERS"@) {
        Some("LOGGING_REQUEST_INCLUDE_HEADERS"@)
    } else if environment::bad_bool(env, "LOGGING_REQUEST_INCLUDE_QUERY_STRING"@) {
        Some("LOGGING_REQUEST_INCLUDE_QUERY_STRING"@)
    } else if environment::bad_bool(env, "LOGGING_REQUEST_INCLUDE_PAYLOAD"@) {
        Some("LOGGING_REQUEST_INCLUDE_PAYLOAD"@)
    } else if environment::bad_usize(env, "LOGGING_REQUEST_MAX_PAYLOAD_LENGTH"@) {
        Some("LOGGING_REQUEST_MAX_PAYLOAD_LENGTH"@)
    } else if environment::bad_bool(env, "LOGGING_REQUEST_BEFORE_REQUEST"@) {
        Some("LOGGING_REQUEST_BEFORE_REQUEST"@)
    } else {
        None
    }
}

/// The request logging with what the environment sets.
pub open spec fn logging_env(env: Seq<EnvEntry>, before: RequestLoggingConfig) -> RequestLoggingConfig {
    RequestLoggingConfig {
        enabled: or_old(environment::bool_at(env, "LOGGING_REQUEST_ENABLED"@), before.enabled),
        include_client_info: or_old(environment::bool_at(env, "LOGGING_REQUEST_INCLUDE_CLIENT_INFO"@), before.include_client_info),
        include_headers: or_old(environment::bool_at(env, "LOGGING_REQUEST_INCLUDE_HEADERS"@), before.include_headers),
        include_query_string: or_old(environment::bool_at(env, "LOGGING_REQUEST_INCLUDE_QUERY_STRING"@), before.include_query_string),
        include_payload: or_old(environment::bool_at(env, "LOGGING_REQUEST_INCLUDE_PAYLOAD"@), before.include_payload),
        max_payload_length: or_old(environment::usize_at(env, "LOGGING_REQUEST_MAX_PAYLOAD_LENGTH"@), before.max_payload_length),
        before_request: or_old(environment::bool_at(env, "LOGGING_REQUEST_BEFORE_REQUEST"@), before.before_request),
    }
}

fn apply_logging_environment(target: &mut RequestLoggingConfig, env: &Vec<EnvEntry>) -> (r: Result<(), ConfigError>)
    ensures
        match logging_env_fault(env@) {
            Some(name) => env_failed(r, name),
            None => r is Ok && *final(target) == logging_env(env@, *old(target)),
        },
{
    match env_bool(env, "LOGGING_REQUEST_ENABLED") {
        Ok(value) => set(&mut target.enabled, value),
        Err(error) => {
            return Err(error);
        },
    }
    match env_bool(env, "LOGGING_REQUEST_INCLUDE_CLIENT_INFO") {
        Ok(value) => set(&mut target.include_client_info, value),
        Err(error) => {
            return Err(error);
        },
    }
    match env_bool(env, "LOGGING_REQUEST_INCLUDE_HEADERS") {
        Ok(value) => set(&mut target.include_headers, value),
        Err(error) => {
            return Err(error);
        },
    }
    match env_bool(env, "LOGGING_REQUEST_INCLUDE_QUERY_STRING") {
        Ok(value) => set(&mut target.include_query_string, value),
        Err(error) => {
            return Err(error);
        },
    }
    match env_bool(env, "LOGGING_REQUEST_INCLUDE_PAYLOAD") {
        Ok(value) => set(&mut target.include_payload, value),
        Err(error) => {
            return Err(error);
        },
    }
    match env_usize(env, "LOGGING_REQUEST_MAX_PAYLOAD_LENGTH") {
        Ok(value) => set(&mut target.max_payload_length, value),
        Err(error) => {
            return Err(error);
        },
    }
    match env_bool(env, "LOGGING_REQUEST_BEFORE_REQUEST") {
        Ok(value) => set(&mut target.before_request, value),
        Err(error) => {
            return Err(error);
        },
    }
    Ok(())
}

/// The first variable of the media settings that does not parse.
pub open spec fn media_env_fault(env: Seq<EnvEntry>) -> Option<Seq<char>> {
    if environment::bad_bool(env, "LAVALINK_SERVER_NON_ALLOCATING_FRAME_BUFFER"@) {
        Some("LAVALINK_SERVER_NON_ALLOCATING_FRAME_BUFFER"@)
    } else if environment::bad_u64(env, "LAVALINK_SERVER_BUFFER_DURATION_MS"@) {
        Some("LAVALINK_SERVER_BUFFER_DURATION_MS"@)
    } else if environment::bad_u64(env, "LAVALINK_SERVER_FRAME_BUFFER_DURATION_MS"@) {
        Some("LAVALINK_SERVER_FRAME_BUFFER_DURATION_MS"@)
    } else if environment::bad_u8(env, "LAVALINK_SERVER_OPUS_ENCODING_QUALITY"@) {
        Some("LAVALINK_SERVER_OPUS_ENCODING_QUALITY"@)
    } else if environment::text_at(env, "LAVALINK_SERVER_RESAMPLING_QUALITY"@) matches Some(name) && quality_of(name@) is None {
        Some("LAVALINK_SERVER_RESAMPLING_QUALITY"@)
    } else if environment::bad_u64(env, "LAVALINK_SERVER_TRACK_STUCK_THRESHOLD_MS"@) {
        Some("LAVALINK_SERVER_TRACK_STUCK_THRESHOLD_MS"@)
    } else if environment::bad_bool(env, "LAVALINK_SERVER_USE_SEEK_GHOSTING"@) {
        Some("LAVALINK_SERVER_USE_SEEK_GHOSTING"@)
    } else {
        None
    }
}

/// The media settings with what the environment sets.
pub open spec fn media_env(env: Seq<EnvEntry>, before: MediaConfig) -> MediaConfig {
    MediaConfig {
        non_allocating_frame_buffer: or_old(
            environment::bool_at(env, "LAVALINK_SERVER_NON_ALLOCATING_FRAME_BUFFER"@),
            before.non_allocating_frame_buffer,
        ),
        buffer_duration: or_old_ms(
            environment::u64_at(env, "LAVALINK_SERVER_BUFFER_DURATION_MS"@),
            before.buffer_duration,
        ),
        frame_buffer_duration: or_old_ms(
            environment::u64_at(env, "LAVALINK_SERVER_FRAME_BUFFER_DURATION_MS"@),
            before.frame_buffer_duration,
        ),
        opus_encoding_quality: or_old(
            environment::u8_at(env, "LAVALINK_SERVER_OPUS_ENCODING_QUALITY"@),
            before.opus_encoding_quality,
        ),
        resampling_quality: match environment::text_at(env, "LAVALINK_SERVER_RESAMPLING_QUALITY"@) {
            Some(name) => quality_of(name@)->0,
            None => before.resampling_quality,
        },
        track_stuck_threshold: or_old_ms(
            environment::u64_at(env, "LAVALINK_SERVER_TRACK_STUCK_THRESHOLD_MS"@),
            before.track_stuck_threshold,
        ),
        use_seek_ghosting: or_old(
            environment::bool_at(env, "LAVALINK_SERVER_USE_SEEK_GHOSTING"@),
            before.use_seek_ghosting,
        ),
    }
}

fn apply_media_environment(target: &mut MediaConfig, env: &Vec<EnvEntry>) -> (r: Result<
    (),
    ConfigError,
>)
    ensures
        match media_env_fault(env@) {
            Some(name) => env_failed(r, name),
            None => r is Ok && *final(target) == media_env(env@, *old(target)),
        },
{
    match env_bool(env, "LAVALINK_SERVER_NON_ALLOCATING_FRAME_BUFFER") {
        Ok(value) => set(&mut target.non_allocating_frame_buffer, value),
        Err(error) => {
            return Err(error);
        },
    }
    match env_u64(env, "LAVALINK_SERVER_BUFFER_DURATION_MS") {
        Ok(value) => set_ms(&mut target.buffer_duration, value),
        Err(error) => {
            return Err(error);
        },
    }
    match env_u64(env, "LAVALINK_SERVER_FRAME_BUFFER_DURATION_MS") {
        Ok(value) => set_ms(&mut target.frame_buffer_duration, value),
        Err(error) => {
            return Err(error);
        },
    }
    match env_u8(env, "LAVALINK_SERVER_OPUS_ENCODING_QUALITY") {
        Ok(value) => set(&mut target.opus_encoding_quality, value),
        Err(error) => {
            return Err(error);
        },
    }
    match env_text(env, "LAVALINK_SERVER_RESAMPLING_QUALITY") {
        Some(name) => match ResamplingQuality::from_name(name.as_str()) {
            Some(quality) => {
                target.resampling_quality = quality;
            },
            None => {
                return Err(ConfigError::Environment("LAVALINK_SERVER_RESAMPLING_QUALITY"));
            },
        },
        None => {},
    }
    match env_u64(env, "LAVALINK_SERVER_TRACK_STUCK_THRESHOLD_MS") {
        Ok(value) => set_ms(&mut target.track_stuck_threshold, value),
        Err(error) => {
            return Err(error);
        },
    }
    match env_bool(env, "LAVALINK_SERVER_USE_SEEK_GHOSTING") {
        Ok(value) => set(&mut target.use_seek_ghosting, value),
        Err(error) => {
            return Err(error);
        },
    }
    Ok(())
}

/// The first variable of the listening and timing settings that does not parse.
pub open spec fn listen_env_fault(env: Seq<EnvEntry>) -> Option<Seq<char>> {
    if environment::bad_address(env, "SERVER_ADDRESS"@) {
        Some("SERVER_ADDRESS"@)
    } else if environment::bad_u16(env, "SERVER_PORT"@) {
        Some("SERVER_PORT"@)
    } else if environment::bad_bool(env, "SERVER_HTTP2_ENABLED"@) {
        Some("SERVER_HTTP2_ENABLED"@)
    } else if environment::bad_bool(env, "CRUST_HTTP2_ENABLED"@) {
        Some("CRUST_HTTP2_ENABLED"@)
    } else if environment::bad_u64(env, "LAVALINK_SERVER_PLAYER_UPDATE_INTERVAL"@) {
        Some("LAVALINK_SERVER_PLAYER_UPDATE_INTERVAL"@)
    } else if environment::bad_u64(env, "CRUST_PLAYER_UPDATE_INTERVAL_MS"@) {
        Some("CRUST_PLAYER_UPDATE_INTERVAL_MS"@)
    } else if environment::bad_u64(env, "CRUST_STATS_INTERVAL_MS"@) {
        Some("CRUST_STATS_INTERVAL_MS"@)
    } else if environment::bad_u64(env, "CRUST_SHUTDOWN_TIMEOUT_MS"@) {
        Some("CRUST_SHUTDOWN_TIMEOUT_MS"@)
    } else {
        None
    }
}

/// The listening and timing settings with what the environment sets.
pub open spec fn listen_env(env: Seq<EnvEntry>, before: ServerConfig) -> ServerConfig {
    ServerConfig {
        listen_address: or_old(
            environment::address_at(env, "SERVER_ADDRESS"@),
            before.listen_address,
        ),
        port: or_old(environment::u16_at(env, "SERVER_PORT"@), before.port),
        password: match environment::text_at(env, "LAVALINK_SERVER_PASSWORD"@) {
            Some(password) => password,
            None => or_old(environment::text_at(env, "CRUST_PASSWORD"@), before.password),
        },
        http2: Http2Config {
            enabled: match environment::bool_at(env, "SERVER_HTTP2_ENABLED"@) {
                Some(enabled) => enabled,
                None => or_old(
                    environment::bool_at(env, "CRUST_HTTP2_ENABLED"@),
                    before.http2.enabled,
                ),
            },
        },
        player_update_interval: match environment::u64_at(
            env,
            "CRUST_PLAYER_UPDATE_INTERVAL_MS"@,
        ) {
            Some(millis) => ms_span(millis),
            None => match environment::u64_at(env, "LAVALINK_SERVER_PLAYER_UPDATE_INTERVAL"@) {
                Some(seconds) => s_span(seconds),
                None => before.player_update_interval,
            },
        },
        stats_interval: or_old_ms(
            environment::u64_at(env, "CRUST_STATS_INTERVAL_MS"@),
            before.stats_interval,
        ),
        shutdown_timeout: or_old_ms(
            environment::u64_at(env, "CRUST_SHUTDOWN_TIMEOUT_MS"@),
            before.shutdown_timeout,
        ),
        ..before
    }
}

fn apply_listen_environment(target: &mut ServerConfig, env: &Vec<EnvEntry>) -> (r: Result<
    (),
    ConfigError,
>)
    ensures
        match listen_env_fault(env@) {
            Some(name) => env_failed(r, name),
            None => r is Ok && *final(target) == listen_env(env@, *old(target)),
        },
{
    match find_entry(env, "SERVER_ADDRESS") {
        Some(entry) => match find_reading(&entry.readings, entry.value.as_str()) {
            Some(address) => {
                target.listen_address = address;
            },
            None => {
                return Err(ConfigError::Environment("SERVER_ADDRESS"));
            },
        },
        None => {},
    }
    match env_u16(env, "SERVER_PORT") {
        Ok(value) => set(&mut target.port, value),
        Err(error) => {
            return Err(error);
        },
    }
    set(&mut target.password, env_text(env, "CRUST_PASSWORD"));
    set(&mut target.password, env_text(env, "LAVALINK_SERVER_PASSWORD"));
    let first: Option<bool> = match env_bool(env, "SERVER_HTTP2_ENABLED") {
        Ok(value) => value,
        Err(error) => {
            return Err(error);
        },
    };
    let second: Option<bool> = match env_bool(env, "CRUST_HTTP2_ENABLED") {
        Ok(value) => value,
        Err(error) => {
            return Err(error);
        },
    };
    set(&mut target.http2.enabled, second);
    set(&mut target.http2.enabled, first);
    match env_u64(env, "LAVALINK_SERVER_PLAYER_UPDATE_INTERVAL") {
        Ok(value) => set_s(&mut target.player_update_interval, value),
        Err(error) => {
            return Err(error);
        },
    }
    match env_u64(env, "CRUST_PLAYER_UPDATE_INTERVAL_MS") {
        Ok(value) => set_ms(&mut target.player_update_interval, value),
        Err(error) => {
            return Err(error);
        },
    }
    match env_u64(env, "CRUST_STATS_INTERVAL_MS") {
        Ok(value) => set_ms(&mut target.stats_interval, value),
        Err(error) => {
            return Err(error);
        },
    }
    match env_u64(env, "CRUST_SHUTDOWN_TIMEOUT_MS") {
        Ok(value) => set_ms(&mut target.shutdown_timeout, value),
        Err(error) => {
            return Err(error);
        },
    }
    Ok(())
}

/// The proxy with what the environment sets: a host starts it anew but for its
/// port, and any other part starts it where there is none.
pub open spec fn proxy_env(env: Seq<EnvEntry>, before: Option<ProxyModel>) -> Option<ProxyModel> {
    let hosted = match environment::text_at(env, "LAVALINK_SERVER_HTTP_CONFIG_PROXY_HOST"@) {
        Some(host) => Some(
            ProxyModel {
                host: host@,
                port: match before {
                    Some(proxy) => proxy.port,
                    None => DEFAULT_PROXY_PORT,
                },
                username: None,
                password: None,
            },
        ),
        None => before,
    };
    let with_port = match environment::u16_at(env, "LAVALINK_SERVER_HTTP_CONFIG_PROXY_PORT"@) {
        Some(port) => Some(ProxyModel { port, ..or_old(hosted, local_proxy()) }),
        None => hosted,
    };
    let named = match environment::text_at(env, "LAVALINK_SERVER_HTTP_CONFIG_PROXY_USER"@) {
        Some(user) => Some(ProxyModel { username: Some(user@), ..or_old(with_port, local_proxy()) }),
        None => with_port,
    };
    match environment::text_at(env, "LAVALINK_SERVER_HTTP_CONFIG_PROXY_PASSWORD"@) {
        Some(password) => Some(
            ProxyModel { password: Some(password@), ..or_old(named, local_proxy()) },
        ),
        None => named,
    }
}

fn proxy_or_local(proxy: Option<ProxyConfig>) -> (r: ProxyConfig)
    ensures
        r@ == or_old(proxy_model(proxy), local_proxy()),
{
    match proxy {
        Some(proxy) => proxy,
        None => ProxyConfig {
            host: owned("localhost"),
            port: DEFAULT_PROXY_PORT,
            username: None,
            password: None,
        },
    }
}

pub open spec fn proxy_env_fault(env: Seq<EnvEntry>) -> Option<Seq<char>> {
    if environment::bad_u16(env, "LAVALINK_SERVER_HTTP_CONFIG_PROXY_PORT"@) {
        Some("LAVALINK_SERVER_HTTP_CONFIG_PROXY_PORT"@)
    } else {
        None
    }
}

fn apply_proxy_environment(target: &mut Option<ProxyConfig>, env: &Vec<EnvEntry>) -> (r: Result<
    (),
    ConfigError,
>)
    ensures
        match proxy_env_fault(env@) {
            Some(name) => env_failed(r, name),
            None => r is Ok && proxy_model(*final(target)) == proxy_env(
                env@,
                proxy_model(*old(target)),
            ),
        },
{
    match env_text(env, "LAVALINK_SERVER_HTTP_CONFIG_PROXY_HOST") {
        Some(host) => {
            let port: u16 = match target {
                Some(proxy) => proxy.port,
                None => DEFAULT_PROXY_PORT,
            };
            *target = Some(ProxyConfig { host, port, username: None, password: None });
        },
        None => {},
    }
    match env_u16(env, "LAVALINK_SERVER_HTTP_CONFIG_PROXY_PORT") {
        Ok(Some(port)) => {
            let mut proxy: ProxyConfig = proxy_or_local(target.take());
            proxy.port = port;
            *target = Some(proxy);
        },
        Ok(None) => {},
        Err(error) => {
            return Err(error);
        },
    }
    match env_text(env, "LAVALINK_SERVER_HTTP_CONFIG_PROXY_USER") {
        Some(user) => {
            let mut proxy: ProxyConfig = proxy_or_local(target.take());
            proxy.username = Some(user);
            *target = Some(proxy);
        },
        None => {},
    }
    match env_text(env, "LAVALINK_SERVER_HTTP_CONFIG_PROXY_PASSWORD") {
        Some(password) => {
            let mut proxy: ProxyConfig = proxy_or_local(target.take());
            proxy.password = Some(password);
            *target = Some(proxy);
        },
        None => {},
    }
    assert(proxy_model(*target) =~= proxy_env(env@, proxy_model(*old(target))));
    Ok(())
}

/// The entry under the first of two names that the environment has.
pub open spec fn either_entry(
    env: Seq<EnvEntry>,
    first: Seq<char>,
    second: Seq<char>,
) -> Option<EnvEntry> {
    match environment::entry_at(env, first) {
        Some(entry) => Some(entry),
        None => environment::entry_at(env, second),
    }
}

pub open spec fn blocks_entry(env: Seq<EnvEntry>) -> Option<EnvEntry> {
    either_entry(env, "LAVALINK_SERVER_RATELIMIT_IPBLOCKS"@, "LAVALINK_SERVER_RATELIMIT_IP_BLOCKS"@)
}

pub open spec fn excluded_entry(env: Seq<EnvEntry>) -> Option<EnvEntry> {
    either_entry(env, "LAVALINK_SERVER_RATELIMIT_EXCLUDEDIPS"@, "LAVALINK_SERVER_RATELIMIT_EXCLUDED_IPS"@)
}

/// What the entries of a variable's comma-separated list read as.
pub open spec fn listed_addresses(entry: EnvEntry) -> Seq<Option<Address>> {
    text::listed(entry.value@).map_values(
        |part: Seq<char>| environment::reading_of(entry.readings@, part),
    )
}

/// Whether every text of the list was an address.
pub open spec fn all_addresses(list: Seq<Option<Address>>) -> bool {
    forall|i: int| 0 <= i < list.len() ==> (#[trigger] list[i]) is Some
}

/// The first of the planner's strategy and lists that does not parse.
pub open spec fn route_lists_fault(env: Seq<EnvEntry>) -> Option<Seq<char>> {
    if environment::text_at(env, "LAVALINK_SERVER_RATELIMIT_STRATEGY"@) matches Some(name) && strategy_of(
        name@,
    ) is None {
        Some("LAVALINK_SERVER_RATELIMIT_STRATEGY"@)
    } else if excluded_entry(env) matches Some(entry) && !all_addresses(
        listed_addresses(entry),
    ) {
        Some("LAVALINK_SERVER_RATELIMIT_EXCLUDEDIPS"@)
    } else {
        None
    }
}

/// The first of the planner's limit and switch that does not parse.
pub open spec fn route_switches_fault(env: Seq<EnvEntry>) -> Option<Seq<char>> {
    if environment::bad_i32(env, "LAVALINK_SERVER_RATELIMIT_RETRY_LIMIT"@) {
        Some("LAVALINK_SERVER_RATELIMIT_RETRY_LIMIT"@)
    } else if environment::bad_bool(env, "LAVALINK_SERVER_RATELIMIT_SEARCH_TRIGGERS_FAIL"@) {
        Some("LAVALINK_SERVER_RATELIMIT_SEARCH_TRIGGERS_FAIL"@)
    } else {
        None
    }
}

/// The first variable of the planner that does not parse.
pub open spec fn route_env_fault(env: Seq<EnvEntry>) -> Option<Seq<char>> {
    match route_lists_fault(env) {
        Some(name) => Some(name),
        None => route_switches_fault(env),
    }
}

/// The planner with the strategy and the lists that the environment sets.
pub open spec fn route_lists_env(env: Seq<EnvEntry>, before: Option<RouteModel>) -> Option<
    RouteModel,
> {
    let named = match environment::text_at(env, "LAVALINK_SERVER_RATELIMIT_STRATEGY"@) {
        Some(name) => Some(
            RouteModel { strategy: strategy_of(name@)->0, ..or_old(before, default_route()) },
        ),
        None => before,
    };
    let blocked = match blocks_entry(env) {
        Some(entry) => Some(
            RouteModel {
                ip_blocks: text::listed(entry.value@),
                ..or_old(named, default_route())
            },
        ),
        None => named,
    };
    match excluded_entry(env) {
        Some(entry) => Some(
            RouteModel {
                excluded_ips: listed_addresses(entry).map_values(
                    |address: Option<Address>| address->0,
                ),
                ..or_old(blocked, default_route())
            },
        ),
        None => blocked,
    }
}

/// The planner with the limit and the switch that the environment sets.
pub open spec fn route_switches_env(env: Seq<EnvEntry>, before: Option<RouteModel>) -> Option<
    RouteModel,
> {
    let limited = match environment::i32_at(env, "LAVALINK_SERVER_RATELIMIT_RETRY_LIMIT"@) {
        Some(limit) => Some(
            RouteModel { retry_limit: Some(limit), ..or_old(before, default_route()) },
        ),
        None => before,
    };
    match environment::bool_at(env, "LAVALINK_SERVER_RATELIMIT_SEARCH_TRIGGERS_FAIL"@) {
        Some(value) => Some(
            RouteModel { search_triggers_fail: value, ..or_old(limited, default_route()) },
        ),
        None => limited,
    }
}

/// The planner with what the environment sets; any setting starts one where
/// there is none.
pub open spec fn route_env(env: Seq<EnvEntry>, before: Option<RouteModel>) -> Option<RouteModel> {
    route_switches_env(env, route_lists_env(env, before))
}

fn route_or_default(settings: Option<RoutePlannerSettings>) -> (r: RoutePlannerSettings)
    ensures
        r@ == or_old(route_model(settings), default_route()),
{
    match settings {
        Some(settings) => settings,
        None => default_route_settings(),
    }
}

fn address_list(entry: &EnvEntry) -> (r: Option<Vec<Address>>)
    ensures
        r is Some <==> all_addresses(listed_addresses(*entry)),
        r matches Some(out) ==> out@ == listed_addresses(*entry).map_values(
            |address: Option<Address>| address->0,
        ),
{
    let parts: Vec<String> = comma_list(entry.value.as_str());
    let ghost list = listed_addresses(*entry);
    let mut out: Vec<Address> = Vec::new();
    let mut i: usize = 0;
    while i < parts.len()
        invariant
            list == listed_addresses(*entry),
            text::texts(parts@) == text::listed(entry.value@),
            i <= parts@.len(),
            out@.len() == i,
            forall|k: int| 0 <= k < i ==> (#[trigger] list[k]) == Some(out@[k]),
        decreases parts@.len() - i,
    {
        assert(text::texts(parts@)[i as int] == parts@[i as int]@);
        match find_reading(&entry.readings, parts[i].as_str()) {
            Some(address) => {
                out.push(address);
            },
            None => {
                assert(list[i as int] is None);
                return None;
            },
        }
        i = i + 1;
    }
    assert(text::texts(parts@).len() == parts@.len());
    assert(out@ =~= list.map_values(|address: Option<Address>| address->0));
    Some(out)
}

fn apply_route_lists(
    target: &mut Option<RoutePlannerSettings>,
    env: &Vec<EnvEntry>,
) -> (r: Result<(), ConfigError>)
    ensures
        match route_lists_fault(env@) {
            Some(name) => env_failed(r, name),
            None => r is Ok && route_model(*final(target)) == route_lists_env(
                env@,
                route_model(*old(target)),
            ),
        },
{
    let ghost before = route_model(*target);
    match env_text(env, "LAVALINK_SERVER_RATELIMIT_STRATEGY") {
        Some(name) => {
            let mut settings: RoutePlannerSettings = route_or_default(target.take());
            match parse_strategy(name.as_str()) {
                Some(strategy) => {
                    settings.strategy = strategy;
                },
                None => {
                    return Err(ConfigError::Environment("LAVALINK_SERVER_RATELIMIT_STRATEGY"));
                },
            }
            *target = Some(settings);
        },
        None => {},
    }
    let blocks: Option<&EnvEntry> = match find_entry(env, "LAVALINK_SERVER_RATELIMIT_IPBLOCKS") {
        Some(entry) => Some(entry),
        None => find_entry(env, "LAVALINK_SERVER_RATELIMIT_IP_BLOCKS"),
    };
    match blocks {
        Some(entry) => {
            let mut settings: RoutePlannerSettings = route_or_default(target.take());
            settings.ip_blocks = comma_list(entry.value.as_str());
            *target = Some(settings);
        },
        None => {},
    }
    let excluded: Option<&EnvEntry> = match find_entry(env, "LAVALINK_SERVER_RATELIMIT_EXCLUDEDIPS") {
        Some(entry) => Some(entry),
        None => find_entry(env, "LAVALINK_SERVER_RATELIMIT_EXCLUDED_IPS"),
    };
    match excluded {
        Some(entry) => {
            let mut settings: RoutePlannerSettings = route_or_default(target.take());
            match address_list(entry) {
                Some(addresses) => {
                    settings.excluded_ips = addresses;
                },
                None => {
                    return Err(ConfigError::Environment("LAVALINK_SERVER_RATELIMIT_EXCLUDEDIPS"));
                },
            }
            *target = Some(settings);
        },
        None => {},
    }
    assert(route_model(*target) =~= route_lists_env(env@, before));
    Ok(())
}

fn apply_route_switches(
    target: &mut Option<RoutePlannerSettings>,
    env: &Vec<EnvEntry>,
) -> (r: Result<(), ConfigError>)
    ensures
        match route_switches_fault(env@) {
            Some(name) => env_failed(r, name),
            None => r is Ok && route_model(*final(target)) == route_switches_env(
                env@,
                route_model(*old(target)),
            ),
        },
{
    let ghost before = route_model(*target);
    match env_i32(env, "LAVALINK_SERVER_RATELIMIT_RETRY_LIMIT") {
        Ok(Some(value)) => {
            let mut settings: RoutePlannerSettings = route_or_default(target.take());
            settings.retry_limit = Some(value);
            *target = Some(settings);
        },
        Ok(None) => {},
        Err(error) => {
            return Err(error);
        },
    }
    match env_bool(env, "LAVALINK_SERVER_RATELIMIT_SEARCH_TRIGGERS_FAIL") {
        Ok(Some(value)) => {
            let mut settings: RoutePlannerSettings = route_or_default(target.take());
            settings.search_triggers_fail = value;
            *target = Some(settings);
        },
        Ok(None) => {},
        Err(error) => {
            return Err(error);
        },
    }
    assert(route_model(*target) =~= route_switches_env(env@, before));
    Ok(())
}

fn apply_route_environment(
    target: &mut Option<RoutePlannerSettings>,
    env: &Vec<EnvEntry>,
) -> (r: Result<(), ConfigError>)
    ensures
        match route_env_fault(env@) {
            Some(name) => env_failed(r, name),
            None => r is Ok && route_model(*final(target)) == route_env(
                env@,
                route_model(*old(target)),
            ),
        },
{
    match apply_route_lists(target, env) {
        Ok(()) => apply_route_switches(target, env),
        Err(error) => Err(error),
    }
}

pub open spec fn metrics_env_fault(env: Seq<EnvEntry>) -> Option<Seq<char>> {
    if environment::bad_bool(env, "METRICS_PROMETHEUS_ENABLED"@) {
        Some("METRICS_PROMETHEUS_ENABLED"@)
    } else {
        None
    }
}

/// The first variable of the environment that does not parse, in the order in
/// which they are read.
pub open spec fn env_fault(env: Seq<EnvEntry>) -> Option<Seq<char>> {
    if listen_env_fault(env) is Some {
        listen_env_fault(env)
    } else if limits_env_fault(env) is Some {
        limits_env_fault(env)
    } else if sources_env_fault(env) is Some {
        sources_env_fault(env)
    } else if filters_env_fault(env) is Some {
        filters_env_fault(env)
    } else if media_env_fault(env) is Some {
        media_env_fault(env)
    } else if search_env_fault(env) is Some {
        search_env_fault(env)
    } else if timeouts_env_fault(env) is Some {
        timeouts_env_fault(env)
    } else if proxy_env_fault(env) is Some {
        proxy_env_fault(env)
    } else if metrics_env_fault(env) is Some {
        metrics_env_fault(env)
    } else if logging_env_fault(env) is Some {
        logging_env_fault(env)
    } else if route_env_fault(env) is Some {
        route_env_fault(env)
    } else {
        None
    }
}

/// Whether the configuration took the environment in.
pub open spec fn env_applied(before: ServerConfig, after: ServerConfig, env: Seq<EnvEntry>) -> bool {
    let listening = limits_env(env, listen_env(env, before));
    &&& proxy_model(after.http_source.proxy) == proxy_env(
        env,
        proxy_model(before.http_source.proxy),
    )
    &&& route_model(after.route_planner) == route_env(env, route_model(before.route_planner))
    &&& after == (ServerConfig {
        sources: sources_env(env, before.sources),
        filters: filters_env(env, before.filters),
        media: media_env(env, before.media),
        search: search_env(env, before.search),
        http_source: HttpSourceConfig {
            proxy: after.http_source.proxy,
            timeouts: timeouts_env(env, before.http_source.timeouts),
        },
        metrics: MetricsConfig {
            prometheus: PrometheusConfig {
                enabled: or_old(
                    environment::bool_at(env, "METRICS_PROMETHEUS_ENABLED"@),
                    before.metrics.prometheus.enabled,
                ),
            },
            endpoint: or_old(
                environment::text_at(env, "METRICS_PROMETHEUS_ENDPOINT"@),
                before.metrics.endpoint,
            ),
        },
        logging: LoggingConfig {
            request: logging_env(env, before.logging.request),
            ..before.logging
        },
        route_planner: after.route_planner,
        ..listening
    })
}

impl ServerConfig {
    /// Takes the environment in. Where a variable is refused the configuration
    /// is changed only in part and is not to be used.
    pub fn apply_environment(&mut self, env: &Vec<EnvEntry>) -> (r: Result<(), ConfigError>)
        ensures
            match env_fault(env@) {
                Some(name) => env_failed(r, name),
                None => r is Ok && env_applied(*old(self), *final(self), env@),
            },
    {
        match apply_listen_environment(self, env) {
            Ok(()) => {},
            Err(error) => {
                return Err(error);
            },
        }
        match apply_limits_environment(self, env) {
            Ok(()) => {},
            Err(error) => {
                return Err(error);
            },
        }
        match apply_sources_environment(&mut self.sources, env) {
            Ok(()) => {},
            Err(error) => {
                return Err(error);
            },
        }
        match apply_filters_environment(&mut self.filters, env) {
            Ok(()) => {},
            Err(error) => {
                return Err(error);
            },
        }
        match apply_media_environment(&mut self.media, env) {
            Ok(()) => {},
            Err(error) => {
                return Err(error);
            },
        }
        match apply_search_environment(&mut self.search, env) {
            Ok(()) => {},
            Err(error) => {
                return Err(error);
            },
        }
        match apply_timeouts_environment(&mut self.http_source.timeouts, env) {
            Ok(()) => {},
            Err(error) => {
                return Err(error);
            },
        }
        match apply_proxy_environment(&mut self.http_source.proxy, env) {
            Ok(()) => {},
            Err(error) => {
                return Err(error);
            },
        }
        match env_bool(env, "METRICS_PROMETHEUS_ENABLED") {
            Ok(value) => set(&mut self.metrics.prometheus.enabled, value),
            Err(error) => {
                return Err(error);
            },
        }
        set(&mut self.metrics.endpoint, env_text(env, "METRICS_PROMETHEUS_ENDPOINT"));
        match apply_logging_environment(&mut self.logging.request, env) {
            Ok(()) => {},
            Err(error) => {
                return Err(error);
            },
        }
        match apply_route_environment(&mut self.route_planner, env) {
            Ok(()) => {},
            Err(error) => {
                return Err(error);
            },
        }
        Ok(())
    }

    /// Whether `loaded` is the defaults of the machine with the file, the
    /// environment and the command line over them, in this order.
    pub open spec fn layered(
        loaded: ServerConfig,
        parallelism: usize,
        file: Option<ConfigFile>,
        env: Seq<EnvEntry>,
        cli: CliOverrides,
    ) -> bool {
        exists|start: ServerConfig, filed: ServerConfig, set: ServerConfig|
            #![trigger is_default(start, parallelism), env_applied(filed, set, env)]
            is_default(start, parallelism) && (match file {
                Some(file) => file_applied(start, filed, file),
                None => filed == start,
            }) && env_applied(filed, set, env) && loaded == cli_applied(set, cli)
    }

    /// Puts the configuration together: the defaults, then the file, then the
    /// environment, then the command line; what results is held to its bounds.
    pub fn load_with_cli(
        parallelism: usize,
        file: Option<ConfigFile>,
        env: &Vec<EnvEntry>,
        cli: &CliOverrides,
    ) -> (r: Result<ServerConfig, ConfigError>)
        ensures
            ({
                let refused = match file {
                    Some(file) => file_fault(file),
                    None => None,
                };
                if refused is Some {
                    invalid(r, refused->0)
                } else if env_fault(env@) is Some {
                    env_failed(r, env_fault(env@)->0)
                } else {
                    exists|loaded: ServerConfig|
                        {
                            &&& #[trigger] ServerConfig::layered(
                                loaded,
                                parallelism,
                                file,
                                env@,
                                *cli,
                            )
                            &&& match config_fault(loaded) {
                                Some(message) => invalid(r, message),
                                None => r == Ok::<ServerConfig, ConfigError>(loaded),
                            }
                        }
                }
            }),
    {
        let mut config: ServerConfig = ServerConfig::new(parallelism);
        let ghost start = config;
        if let Some(file) = file {
            match config.apply_file(file) {
                Ok(()) => {},
                Err(error) => {
                    return Err(error);
                },
            }
        }
        let ghost filed = config;
        match config.apply_environment(env) {
            Ok(()) => {},
            Err(error) => {
                return Err(error);
            },
        }
        let ghost set = config;
        config.apply_cli(cli);
        proof {
            assert(is_default(start, parallelism));
            assert(env_applied(filed, set, env@));
            assert(ServerConfig::layered(config, parallelism, file, env@, *cli));
        }
        match config.validate() {
            Ok(()) => Ok(config),
            Err(error) => Err(error),
        }
    }
}

} // verus!
