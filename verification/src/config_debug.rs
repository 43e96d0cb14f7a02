//! The configuration as it is shown to operators, without its secrets.

use crate::config::{
    FilterConfig, HttpSourceConfig, LoggingConfig, MediaConfig, MetricsConfig, ProxyConfig,
    RequestLoggingConfig, ResamplingQuality, RoutePlannerSettings, SearchConfig, ServerConfig,
    SourceConfig, TimeoutConfig,
};
use crate::outside;
use crate::outside::{debug_duration_text, debug_text_of};
use crate::session;
use crate::span::Span;
use crate::text;
use crate::text::{decimal_text, owned};
use vstd::prelude::*;
use vstd::string::*;

verus! {

/// A span as it is shown; one past the longest shows as the longest.
pub open spec fn shown_span(span: Span) -> Seq<char> {
    if span.valid() {
        outside::debug_duration(
            (span.nanos / 1_000_000_000) as u64,
            (span.nanos % 1_000_000_000) as u32,
        )
    } else {
        outside::debug_duration(u64::MAX, 999_999_999)
    }
}

pub fn span_text(span: Span) -> (r: String)
    ensures
        r@ == shown_span(span),
{
    if span.nanos <= crate::span::MAX_SPAN_NANOS {
        let seconds: u64 = (span.nanos / 1_000_000_000) as u64;
        let nanos: u32 = (span.nanos % 1_000_000_000) as u32;
        debug_duration_text(seconds, nanos)
    } else {
        debug_duration_text(u64::MAX, 999_999_999)
    }
}

fn truth_text(value: bool) -> (r: String)
    ensures
        r@ == session::bool_text(value),
{
    if value {
        owned("true")
    } else {
        owned("false")
    }
}

pub open spec fn shown_quality(quality: ResamplingQuality) -> Seq<char> {
    match quality {
        ResamplingQuality::Low => "Low"@,
        ResamplingQuality::Medium => "Medium"@,
        ResamplingQuality::High => "High"@,
    }
}

fn quality_text(quality: ResamplingQuality) -> (r: String)
    ensures
        r@ == shown_quality(quality),
{
    match quality {
        ResamplingQuality::Low => owned("Low"),
        ResamplingQuality::Medium => owned("Medium"),
        ResamplingQuality::High => owned("High"),
    }
}

/// An optional text as it is shown.
pub open spec fn shown_option(value: Option<String>) -> Seq<char> {
    match value {
        Some(value) => "Some("@ + outside::debug_str(value@) + ")"@,
        None => "None"@,
    }
}

fn option_text(value: &Option<String>) -> (r: String)
    ensures
        r@ == shown_option(*value),
{
    match value {
        Some(value) => {
            let mut out: String = owned("Some(");
            out.append(debug_text_of(value.as_str()).as_str());
            out.append(")");
            out
        },
        None => owned("None"),
    }
}

pub open spec fn shown_sources(value: SourceConfig) -> Seq<char> {
    let s = "SourceConfig { youtube: "@ + session::bool_text(value.youtube);
    let s = s + ", bandcamp: "@ + session::bool_text(value.bandcamp);
    let s = s + ", soundcloud: "@ + session::bool_text(value.soundcloud);
    let s = s + ", twitch: "@ + session::bool_text(value.twitch);
    let s = s + ", vimeo: "@ + session::bool_text(value.vimeo);
    let s = s + ", nico: "@ + session::bool_text(value.nico);
    let s = s + ", http: "@ + session::bool_text(value.http);
    let s = s + ", local: "@ + session::bool_text(value.local);
    s + " }"@
}

fn sources_text(value: &SourceConfig) -> (r: String)
    ensures
        r@ == shown_sources(*value),
{
    let mut out: String = owned("SourceConfig { youtube: ");
    out.append(truth_text(value.youtube).as_str());
    out.append(", bandcamp: ");
    out.append(truth_text(value.bandcamp).as_str());
    out.append(", soundcloud: ");
    out.append(truth_text(value.soundcloud).as_str());
    out.append(", twitch: ");
    out.append(truth_text(value.twitch).as_str());
    out.append(", vimeo: ");
    out.append(truth_text(value.vimeo).as_str());
    out.append(", nico: ");
    out.append(truth_text(value.nico).as_str());
    out.append(", http: ");
    out.append(truth_text(value.http).as_str());
    out.append(", local: ");
    out.append(truth_text(value.local).as_str());
    out.append(" }");
    out
}

pub open spec fn shown_filters(value: FilterConfig) -> Seq<char> {
    let s = "FilterConfig { volume: "@ + session::bool_text(value.volume);
    let s = s + ", equalizer: "@ + session::bool_text(value.equalizer);
    let s = s + ", karaoke: "@ + session::bool_text(value.karaoke);
    let s = s + ", timescale: "@ + session::bool_text(value.timescale);
    let s = s + ", tremolo: "@ + session::bool_text(value.tremolo);
    let s = s + ", vibrato: "@ + session::bool_text(value.vibrato);
    let s = s + ", distortion: "@ + session::bool_text(value.distortion);
    let s = s + ", rotation: "@ + session::bool_text(value.rotation);
    let s = s + ", channel_mix: "@ + session::bool_text(value.channel_mix);
    let s = s + ", low_pass: "@ + session::bool_text(value.low_pass);
    s + " }"@
}

fn filters_text(value: &FilterConfig) -> (r: String)
    ensures
        r@ == shown_filters(*value),
{
    let mut out: String = owned("FilterConfig { volume: ");
    out.append(truth_text(value.volume).as_str());
    out.append(", equalizer: ");
    out.append(truth_text(value.equalizer).as_str());
    out.append(", karaoke: ");
    out.append(truth_text(value.karaoke).as_str());
    out.append(", timescale: ");
    out.append(truth_text(value.timescale).as_str());
    out.append(", tremolo: ");
    out.append(truth_text(value.tremolo).as_str());
    out.append(", vibrato: ");
    out.append(truth_text(value.vibrato).as_str());
    out.append(", distortion: ");
    out.append(truth_text(value.distortion).as_str());
    out.append(", rotation: ");
    out.append(truth_text(value.rotation).as_str());
    out.append(", channel_mix: ");
    out.append(truth_text(value.channel_mix).as_str());
    out.append(", low_pass: ");
    out.append(truth_text(value.low_pass).as_str());
    out.append(" }");
    out
}

pub open spec fn shown_media(value: MediaConfig) -> Seq<char> {
    let s = "MediaConfig { non_allocating_frame_buffer: "@ + session::bool_text(value.non_allocating_frame_buffer);
    let s = s + ", buffer_duration: "@ + shown_span(value.buffer_duration);
    let s = s + ", frame_buffer_duration: "@ + shown_span(value.frame_buffer_duration);
    let s = s + ", opus_encoding_quality: "@ + text::decimal(value.opus_encoding_quality as nat);
    let s = s + ", resampling_quality: "@ + shown_quality(value.resampling_quality);
    let s = s + ", track_stuck_threshold: "@ + shown_span(value.track_stuck_threshold);
    let s = s + ", use_seek_ghosting: "@ + session::bool_text(value.use_seek_ghosting);
    s + " }"@
}

fn media_text(value: &MediaConfig) -> (r: String)
    ensures
        r@ == shown_media(*value),
{
    let mut out: String = owned("MediaConfig { non_allocating_frame_buffer: ");
    out.append(truth_text(value.non_allocating_frame_buffer).as_str());
    out.append(", buffer_duration: ");
    out.append(span_text(value.buffer_duration).as_str());
    out.append(", frame_buffer_duration: ");
    out.append(span_text(value.frame_buffer_duration).as_str());
    out.append(", opus_encoding_quality: ");
    out.append(decimal_text(value.opus_encoding_quality as u64).as_str());
    out.append(", resampling_quality: ");
    out.append(quality_text(value.resampling_quality).as_str());
    out.append(", track_stuck_threshold: ");
    out.append(span_text(value.track_stuck_threshold).as_str());
    out.append(", use_seek_ghosting: ");
    out.append(truth_text(value.use_seek_ghosting).as_str());
    out.append(" }");
    out
}

pub open spec fn shown_search(value: SearchConfig) -> Seq<char> {
    let s = "SearchConfig { youtube_playlist_load_limit: "@ + text::decimal(value.youtube_playlist_load_limit as nat);
    let s = s + ", youtube_enabled: "@ + session::bool_text(value.youtube_enabled);
    let s = s + ", soundcloud_enabled: "@ + session::bool_text(value.soundcloud_enabled);
    let s = s + ", soundcloud_filter_out_preview_tracks: "@ + session::bool_text(value.soundcloud_filter_out_preview_tracks);
    s + " }"@
}

fn search_text(value: &SearchConfig) -> (r: String)
    ensures
        r@ == shown_search(*value),
{
    let mut out: String = owned("SearchConfig { youtube_playlist_load_limit: ");
    out.append(decimal_text(value.youtube_playlist_load_limit as u64).as_str());
    out.append(", youtube_enabled: ");
    out.append(truth_text(value.youtube_enabled).as_str());
    out.append(", soundcloud_enabled: ");
    out.append(truth_text(value.soundcloud_enabled).as_str());
    out.append(", soundcloud_filter_out_preview_tracks: ");
    out.append(truth_text(value.soundcloud_filter_out_preview_tracks).as_str());
    out.append(" }");
    out
}

pub open spec fn shown_timeouts(value: TimeoutConfig) -> Seq<char> {
    let s = "TimeoutConfig { connect: "@ + shown_span(value.connect);
    let s = s + ", connection_request: "@ + shown_span(value.connection_request);
    let s = s + ", socket: "@ + shown_span(value.socket);
    s + " }"@
}

fn timeouts_text(value: &TimeoutConfig) -> (r: String)
    ensures
        r@ == shown_timeouts(*value),
{
    let mut out: String = owned("TimeoutConfig { connect: ");
    out.append(span_text(value.connect).as_str());
    out.append(", connection_request: ");
    out.append(span_text(value.connection_request).as_str());
    out.append(", socket: ");
    out.append(span_text(value.socket).as_str());
    out.append(" }");
    out
}

pub open spec fn shown_request(value: RequestLoggingConfig) -> Seq<char> {
    let s = "RequestLoggingConfig { enabled: "@ + session::bool_text(value.enabled);
    let s = s + ", include_client_info: "@ + session::bool_text(value.include_client_info);
    let s = s + ", include_headers: "@ + session::bool_text(value.include_headers);
    let s = s + ", include_query_string: "@ + session::bool_text(value.include_query_string);
    let s = s + ", include_payload: "@ + session::bool_text(value.include_payload);
    let s = s + ", max_payload_length: "@ + text::decimal(value.max_payload_length as nat);
    let s = s + ", before_request: "@ + session::bool_text(value.before_request);
    s + " }"@
}

fn request_text(value: &RequestLoggingConfig) -> (r: String)
    ensures
        r@ == shown_request(*value),
{
    let mut out: String = owned("RequestLoggingConfig { enabled: ");
    out.append(truth_text(value.enabled).as_str());
    out.append(", include_client_info: ");
    out.append(truth_text(value.include_client_info).as_str());
    out.append(", include_headers: ");
    out.append(truth_text(value.include_headers).as_str());
    out.append(", include_query_string: ");
    out.append(truth_text(value.include_query_string).as_str());
    out.append(", include_payload: ");
    out.append(truth_text(value.include_payload).as_str());
    out.append(", max_payload_length: ");
    out.append(decimal_text(value.max_payload_length as u64).as_str());
    out.append(", before_request: ");
    out.append(truth_text(value.before_request).as_str());
    out.append(" }");
    out
}

/// A proxy as it is shown: of its password only whether there is one.
pub open spec fn shown_redacted(password: Option<String>) -> Seq<char> {
    match password {
        Some(_) => "Some(\"<redacted>\")"@,
        None => "None"@,
    }
}

fn redacted_text(password: &Option<String>) -> (r: String)
    ensures
        r@ == shown_redacted(*password),
{
    match password {
        Some(_) => owned("Some(\"<redacted>\")"),
        None => owned("None"),
    }
}

pub open spec fn shown_proxy(value: ProxyConfig) -> Seq<char> {
    let s = "ProxyConfig { host: "@ + outside::debug_str(value.host@);
    let s = s + ", port: "@ + text::decimal(value.port as nat);
    let s = s + ", username: "@ + shown_option(value.username);
    let s = s + ", password: "@ + shown_redacted(value.password);
    s + " }"@
}

fn proxy_text(value: &ProxyConfig) -> (r: String)
    ensures
        r@ == shown_proxy(*value),
{
    let mut out: String = owned("ProxyConfig { host: ");
    out.append(debug_text_of(value.host.as_str()).as_str());
    out.append(", port: ");
    out.append(decimal_text(value.port as u64).as_str());
    out.append(", username: ");
    out.append(option_text(&value.username).as_str());
    out.append(", password: ");
    out.append(redacted_text(&value.password).as_str());
    out.append(" }");
    out
}

impl ProxyConfig {
    /// The proxy as it is shown.
    pub fn debug_text(&self) -> (r: String)
        ensures
            r@ == shown_proxy(*self),
    {
        proxy_text(self)
    }
}

pub open spec fn shown_proxy_option(proxy: Option<ProxyConfig>) -> Seq<char> {
    match proxy {
        Some(proxy) => "Some("@ + shown_proxy(proxy) + ")"@,
        None => "None"@,
    }
}

fn proxy_option_text(proxy: &Option<ProxyConfig>) -> (r: String)
    ensures
        r@ == shown_proxy_option(*proxy),
{
    match proxy {
        Some(proxy) => {
            let mut out: String = owned("Some(");
            out.append(proxy_text(proxy).as_str());
            out.append(")");
            out
        },
        None => owned("None"),
    }
}

pub open spec fn shown_http_source(value: HttpSourceConfig) -> Seq<char> {
    let s = "HttpSourceConfig { proxy: "@ + shown_proxy_option(value.proxy);
    let s = s + ", timeouts: "@ + shown_timeouts(value.timeouts);
    s + " }"@
}

fn http_source_text(value: &HttpSourceConfig) -> (r: String)
    ensures
        r@ == shown_http_source(*value),
{
    let mut out: String = owned("HttpSourceConfig { proxy: ");
    out.append(proxy_option_text(&value.proxy).as_str());
    out.append(", timeouts: ");
    out.append(timeouts_text(&value.timeouts).as_str());
    out.append(" }");
    out
}

pub open spec fn shown_metrics(value: MetricsConfig) -> Seq<char> {
    let s = "MetricsConfig { prometheus: "@ + ("PrometheusConfig { enabled: "@ + session::bool_text(value.prometheus.enabled) + " }"@);
    let s = s + ", endpoint: "@ + outside::debug_str(value.endpoint@);
    s + " }"@
}

fn metrics_text(value: &MetricsConfig) -> (r: String)
    ensures
        r@ == shown_metrics(*value),
{
    let mut out: String = owned("MetricsConfig { prometheus: ");
    out.append(prometheus_text(value.prometheus.enabled).as_str());
    out.append(", endpoint: ");
    out.append(debug_text_of(value.endpoint.as_str()).as_str());
    out.append(" }");
    out
}

fn prometheus_text(enabled: bool) -> (r: String)
    ensures
        r@ == "PrometheusConfig { enabled: "@ + session::bool_text(enabled) + " }"@,
{
    let mut out: String = owned("PrometheusConfig { enabled: ");
    out.append(truth_text(enabled).as_str());
    out.append(" }");
    out
}

fn http2_text(enabled: bool) -> (r: String)
    ensures
        r@ == "Http2Config { enabled: "@ + session::bool_text(enabled) + " }"@,
{
    let mut out: String = owned("Http2Config { enabled: ");
    out.append(truth_text(enabled).as_str());
    out.append(" }");
    out
}

/// Of the planner only whether it is configured is shown.
pub open spec fn shown_route(settings: Option<RoutePlannerSettings>) -> Seq<char> {
    match settings {
        Some(_) => "Some(\"configured\")"@,
        None => "None"@,
    }
}

fn route_text(settings: &Option<RoutePlannerSettings>) -> (r: String)
    ensures
        r@ == shown_route(*settings),
{
    match settings {
        Some(_) => owned("Some(\"configured\")"),
        None => owned("None"),
    }
}

pub open spec fn shown_logging(value: LoggingConfig) -> Seq<char> {
    let s = "LoggingConfig { request: "@ + shown_request(value.request);
    let s = s + ", root_level: "@ + outside::debug_str(value.root_level@);
    let s = s + ", lavalink_level: "@ + outside::debug_str(value.lavalink_level@);
    s + " }"@
}

fn logging_text(value: &LoggingConfig) -> (r: String)
    ensures
        r@ == shown_logging(*value),
{
    let mut out: String = owned("LoggingConfig { request: ");
    out.append(request_text(&value.request).as_str());
    out.append(", root_level: ");
    out.append(debug_text_of(value.root_level.as_str()).as_str());
    out.append(", lavalink_level: ");
    out.append(debug_text_of(value.lavalink_level.as_str()).as_str());
    out.append(" }");
    out
}

/// The configuration as it is shown behind its listening address.
pub open spec fn shown_tail(value: ServerConfig) -> Seq<char> {
    let s = ", port: "@ + text::decimal(value.port as nat);
    let s = s + ", password: "@ + "\"<redacted>\""@;
    let s = s + ", http2: "@ + ("Http2Config { enabled: "@ + session::bool_text(value.http2.enabled) + " }"@);
    let s = s + ", sources: "@ + shown_sources(value.sources);
    let s = s + ", filters: "@ + shown_filters(value.filters);
    let s = s + ", media: "@ + shown_media(value.media);
    let s = s + ", search: "@ + shown_search(value.search);
    let s = s + ", http_source: "@ + shown_http_source(value.http_source);
    let s = s + ", route_planner: "@ + shown_route(value.route_planner);
    let s = s + ", metrics: "@ + shown_metrics(value.metrics);
    let s = s + ", logging: "@ + shown_logging(value.logging);
    let s = s + ", max_request_body_bytes: "@ + text::decimal(value.max_request_body_bytes as nat);
    let s = s + ", websocket_critical_capacity: "@ + text::decimal(value.websocket_critical_capacity as nat);
    let s = s + ", max_sessions: "@ + text::decimal(value.max_sessions as nat);
    let s = s + ", max_players: "@ + text::decimal(value.max_players as nat);
    let s = s + ", max_concurrent_session_resumes: "@ + text::decimal(value.max_concurrent_session_resumes as nat);
    let s = s + ", player_executor_shards: "@ + text::decimal(value.player_executor_shards as nat);
    let s = s + ", player_command_capacity: "@ + text::decimal(value.player_command_capacity as nat);
    let s = s + ", max_concurrent_loads: "@ + text::decimal(value.max_concurrent_loads as nat);
    let s = s + ", max_batch_decode_tracks: "@ + text::decimal(value.max_batch_decode_tracks as nat);
    let s = s + ", max_concurrent_source_requests: "@ + text::decimal(value.max_concurrent_source_requests as nat);
    let s = s + ", max_concurrent_voice_connects: "@ + text::decimal(value.max_concurrent_voice_connects as nat);
    let s = s + ", player_update_interval: "@ + shown_span(value.player_update_interval);
    let s = s + ", stats_interval: "@ + shown_span(value.stats_interval);
    let s = s + ", shutdown_timeout: "@ + shown_span(value.shutdown_timeout);
    s + " }"@
}

fn tail_text(value: &ServerConfig) -> (r: String)
    ensures
        r@ == shown_tail(*value),
{
    let mut out: String = String::new();
    out.append(", port: ");
    out.append(decimal_text(value.port as u64).as_str());
    out.append(", password: ");
    out.append(owned("\"<redacted>\"").as_str());
    out.append(", http2: ");
    out.append(http2_text(value.http2.enabled).as_str());
    out.append(", sources: ");
    out.append(sources_text(&value.sources).as_str());
    out.append(", filters: ");
    out.append(filters_text(&value.filters).as_str());
    out.append(", media: ");
    out.append(media_text(&value.media).as_str());
    out.append(", search: ");
    out.append(search_text(&value.search).as_str());
    out.append(", http_source: ");
    out.append(http_source_text(&value.http_source).as_str());
    out.append(", route_planner: ");
    out.append(route_text(&value.route_planner).as_str());
    out.append(", metrics: ");
    out.append(metrics_text(&value.metrics).as_str());
    out.append(", logging: ");
    out.append(logging_text(&value.logging).as_str());
    out.append(", max_request_body_bytes: ");
    out.append(decimal_text(value.max_request_body_bytes as u64).as_str());
    out.append(", websocket_critical_capacity: ");
    out.append(decimal_text(value.websocket_critical_capacity as u64).as_str());
    out.append(", max_sessions: ");
    out.append(decimal_text(value.max_sessions as u64).as_str());
    out.append(", max_players: ");
    out.append(decimal_text(value.max_players as u64).as_str());
    out.append(", max_concurrent_session_resumes: ");
    out.append(decimal_text(value.max_concurrent_session_resumes as u64).as_str());
    out.append(", player_executor_shards: ");
    out.append(decimal_text(value.player_executor_shards as u64).as_str());
    out.append(", player_command_capacity: ");
    out.append(decimal_text(value.player_command_capacity as u64).as_str());
    out.append(", max_concurrent_loads: ");
    out.append(decimal_text(value.max_concurrent_loads as u64).as_str());
    out.append(", max_batch_decode_tracks: ");
    out.append(decimal_text(value.max_batch_decode_tracks as u64).as_str());
    out.append(", max_concurrent_source_requests: ");
    out.append(decimal_text(value.max_concurrent_source_requests as u64).as_str());
    out.append(", max_concurrent_voice_connects: ");
    out.append(decimal_text(value.max_concurrent_voice_connects as u64).as_str());
    out.append(", player_update_interval: ");
    out.append(span_text(value.player_update_interval).as_str());
    out.append(", stats_interval: ");
    out.append(span_text(value.stats_interval).as_str());
    out.append(", shutdown_timeout: ");
    out.append(span_text(value.shutdown_timeout).as_str());
    out.append(" }");
    out
}

impl ServerConfig {
    /// The configuration as it is shown to operators; the text of the listening
    /// address comes with the call.
    pub fn debug_text(&self, listen_address: &str) -> (r: String)
        ensures
            r@ == "ServerConfig { listen_address: "@ + listen_address@ + shown_tail(*self),
    {
        let mut out: String = owned("ServerConfig { listen_address: ");
        out.append(listen_address);
        out.append(tail_text(self).as_str());
        out
    }
}

/// The configuration with other secrets.
pub open spec fn with_secrets(
    config: ServerConfig,
    password: String,
    proxy_password: String,
) -> ServerConfig {
    ServerConfig {
        password,
        http_source: HttpSourceConfig {
            proxy: match config.http_source.proxy {
                Some(proxy) => Some(
                    ProxyConfig {
                        password: match proxy.password {
                            Some(_) => Some(proxy_password),
                            None => None,
                        },
                        ..proxy
                    },
                ),
                None => None,
            },
            ..config.http_source
        },
        ..config
    }
}

/// What is shown does not depend on the password nor on the proxy's: two
/// configurations that differ in them alone show the same.
pub proof fn secrets_are_not_shown(config: ServerConfig, password: String, proxy_password: String)
    ensures
        shown_tail(with_secrets(config, password, proxy_password)) == shown_tail(config),
{
    match config.http_source.proxy {
        Some(proxy) => {
            let other = with_secrets(config, password, proxy_password).http_source.proxy->0;
            assert(shown_redacted(other.password) == shown_redacted(proxy.password));
            assert(shown_proxy(other) == shown_proxy(proxy));
        },
        None => {},
    }
}

} // verus!
