//! Which of the places that a setting may come from decides, setting by setting,
//! and which settings are accepted.

use crate::config;
use crate::config_laws;
use crate::config::{
    CliOverrides, ConfigFile, FileFilters, FileLavalinkServer, FileRequestLogging, FileSources,
    FileTimeouts, FilterConfig, MediaConfig, RequestLoggingConfig, ResamplingQuality, SearchConfig,
    ServerConfig, SourceConfig, TimeoutConfig,
};
use crate::environment;
use crate::environment::EnvEntry;
use crate::span::Span;
use crate::text;
use vstd::prelude::*;

verus! {

/// Whether a setting has the value of the environment, else that of the file,
/// else its default.
pub open spec fn settles<T>(value: T, env: Option<T>, file: Option<T>, default: T) -> bool {
    &&& env matches Some(given) ==> value == given
    &&& env is None ==> (file matches Some(given) ==> value == given)
    &&& env is None && file is None ==> value == default
}

/// Whether a time has the milliseconds of the environment, else those of the
/// file, else its default.
pub open spec fn settles_ms(value: Span, env: Option<u64>, file: Option<u64>, default: int) -> bool {
    &&& env matches Some(given) ==> value.nanos == given * 1_000_000
    &&& env is None ==> (file matches Some(given) ==> value.nanos == given * 1_000_000)
    &&& env is None && file is None ==> value.nanos == default * 1_000_000
}

/// The section of a file on the node, where there is one.
pub open spec fn server_of(file: Option<ConfigFile>) -> Option<FileLavalinkServer> {
    if file is Some && file->0.lavalink is Some {
        file->0.lavalink->0.server
    } else {
        None
    }
}

pub open spec fn sources_of(file: Option<ConfigFile>) -> Option<FileSources> {
    if server_of(file) is Some {
        server_of(file)->0.sources
    } else {
        None
    }
}

pub open spec fn filters_of(file: Option<ConfigFile>) -> Option<FileFilters> {
    if server_of(file) is Some {
        server_of(file)->0.filters
    } else {
        None
    }
}

pub open spec fn timeouts_of(file: Option<ConfigFile>) -> Option<FileTimeouts> {
    if server_of(file) is Some {
        server_of(file)->0.timeouts
    } else {
        None
    }
}

pub open spec fn request_logging_of(file: Option<ConfigFile>) -> Option<FileRequestLogging> {
    if file is Some && file->0.logging is Some {
        file->0.logging->0.request
    } else {
        None
    }
}

/// Whether these settings come from where they should.
pub open spec fn sources_settled(
    value: SourceConfig,
    env: Seq<EnvEntry>,
    section: Option<FileSources>,
) -> bool {
    &&& settles(
            value.youtube,
            environment::bool_at(env, "LAVALINK_SERVER_SOURCES_YOUTUBE"@),
            if section is Some {
                section->0.youtube
            } else {
                None
            },
            true,
        )
    &&& settles(
            value.bandcamp,
            environment::bool_at(env, "LAVALINK_SERVER_SOURCES_BANDCAMP"@),
            if section is Some {
                section->0.bandcamp
            } else {
                None
            },
            true,
        )
    &&& settles(
            value.soundcloud,
            environment::bool_at(env, "LAVALINK_SERVER_SOURCES_SOUNDCLOUD"@),
            if section is Some {
                section->0.soundcloud
            } else {
                None
            },
            true,
        )
    &&& settles(
            value.twitch,
            environment::bool_at(env, "LAVALINK_SERVER_SOURCES_TWITCH"@),
            if section is Some {
                section->0.twitch
            } else {
                None
            },
            true,
        )
    &&& settles(
            value.vimeo,
            environment::bool_at(env, "LAVALINK_SERVER_SOURCES_VIMEO"@),
            if section is Some {
                section->0.vimeo
            } else {
                None
            },
            true,
        )
    &&& settles(
            value.nico,
            environment::bool_at(env, "LAVALINK_SERVER_SOURCES_NICO"@),
            if section is Some {
                section->0.nico
            } else {
                None
            },
            false,
        )
    &&& settles(
            value.http,
            environment::bool_at(env, "LAVALINK_SERVER_SOURCES_HTTP"@),
            if section is Some {
                section->0.http
            } else {
                None
            },
            true,
        )
    &&& settles(
            value.local,
            environment::bool_at(env, "LAVALINK_SERVER_SOURCES_LOCAL"@),
            if section is Some {
                section->0.local
            } else {
                None
            },
            false,
        )
}

proof fn lemma_sources(value: SourceConfig, env: Seq<EnvEntry>, section: Option<FileSources>)
    requires
        value == config::sources_env(
            env,
            match section {
                Some(section) => config::file_sources(section, default_sources()),
                None => default_sources(),
            },
        ),
    ensures
        sources_settled(value, env, section),
{
}

spec fn default_sources() -> SourceConfig {
    SourceConfig {
        youtube: true,
        bandcamp: true,
        soundcloud: true,
        twitch: true,
        vimeo: true,
        nico: false,
        http: true,
        local: false,
    }
}

proof fn lemma_sources_layers(
    loaded: ServerConfig,
    parallelism: usize,
    file: Option<ConfigFile>,
    env: Seq<EnvEntry>,
    cli: CliOverrides,
)
    requires
        ServerConfig::layered(loaded, parallelism, file, env, cli),
    ensures
        loaded.sources == config::sources_env(
            env,
            match sources_of(file) {
                Some(section) => config::file_sources(section, default_sources()),
                None => default_sources(),
            },
        ),
{
    let (start, filed, set) = choose|start: ServerConfig, filed: ServerConfig, set: ServerConfig|
        #![trigger config::is_default(start, parallelism), config::env_applied(filed, set, env)]
        config::is_default(start, parallelism) && (match file {
            Some(file) => config::file_applied(start, filed, file),
            None => filed == start,
        }) && config::env_applied(filed, set, env) && loaded == config::cli_applied(set, cli);
}

/// Each source is switched as the environment says, else as the file does; the
/// nico and the local source are off otherwise, and the others on.
pub proof fn sources_are_switched(
    loaded: ServerConfig,
    parallelism: usize,
    file: Option<ConfigFile>,
    env: Seq<EnvEntry>,
    cli: CliOverrides,
)
    requires
        ServerConfig::layered(loaded, parallelism, file, env, cli),
    ensures
        sources_settled(loaded.sources, env, sources_of(file)),
{
    lemma_sources_layers(loaded, parallelism, file, env, cli);
    lemma_sources(loaded.sources, env, sources_of(file));
}

/// Whether these settings come from where they should.
pub open spec fn filters_settled(
    value: FilterConfig,
    env: Seq<EnvEntry>,
    section: Option<FileFilters>,
) -> bool {
    &&& settles(
            value.volume,
            environment::bool_at(env, "LAVALINK_SERVER_FILTERS_VOLUME"@),
            if section is Some {
                section->0.volume
            } else {
                None
            },
            true,
        )
    &&& settles(
            value.equalizer,
            environment::bool_at(env, "LAVALINK_SERVER_FILTERS_EQUALIZER"@),
            if section is Some {
                section->0.equalizer
            } else {
                None
            },
            true,
        )
    &&& settles(
            value.karaoke,
            environment::bool_at(env, "LAVALINK_SERVER_FILTERS_KARAOKE"@),
            if section is Some {
                section->0.karaoke
            } else {
                None
            },
            true,
        )
    &&& settles(
            value.timescale,
            environment::bool_at(env, "LAVALINK_SERVER_FILTERS_TIMESCALE"@),
            if section is Some {
                section->0.timescale
            } else {
                None
            },
            true,
        )
    &&& settles(
            value.tremolo,
            environment::bool_at(env, "LAVALINK_SERVER_FILTERS_TREMOLO"@),
            if section is Some {
                section->0.tremolo
            } else {
                None
            },
            true,
        )
    &&& settles(
            value.vibrato,
            environment::bool_at(env, "LAVALINK_SERVER_FILTERS_VIBRATO"@),
            if section is Some {
                section->0.vibrato
            } else {
                None
            },
            true,
        )
    &&& settles(
            value.distortion,
            environment::bool_at(env, "LAVALINK_SERVER_FILTERS_DISTORTION"@),
            if section is Some {
                section->0.distortion
            } else {
                None
            },
            true,
        )
    &&& settles(
            value.rotation,
            environment::bool_at(env, "LAVALINK_SERVER_FILTERS_ROTATION"@),
            if section is Some {
                section->0.rotation
            } else {
                None
            },
            true,
        )
    &&& settles(
            value.channel_mix,
            if environment::bool_at(env, "LAVALINK_SERVER_FILTERS_CHANNEL_MIX"@) is Some {
                environment::bool_at(env, "LAVALINK_SERVER_FILTERS_CHANNEL_MIX"@)
            } else {
                environment::bool_at(env, "LAVALINK_SERVER_FILTERS_CHANNELMIX"@)
            },
            if section is Some {
                section->0.channel_mix
            } else {
                None
            },
            true,
        )
    &&& settles(
            value.low_pass,
            if environment::bool_at(env, "LAVALINK_SERVER_FILTERS_LOW_PASS"@) is Some {
                environment::bool_at(env, "LAVALINK_SERVER_FILTERS_LOW_PASS"@)
            } else {
                environment::bool_at(env, "LAVALINK_SERVER_FILTERS_LOWPASS"@)
            },
            if section is Some {
                section->0.low_pass
            } else {
                None
            },
            true,
        )
}

proof fn lemma_filters(value: FilterConfig, env: Seq<EnvEntry>, section: Option<FileFilters>)
    requires
        value == config::filters_env(
            env,
            match section {
                Some(section) => config::file_filters(section, default_filters()),
                None => default_filters(),
            },
        ),
    ensures
        filters_settled(value, env, section),
{
}

spec fn default_filters() -> FilterConfig {
    FilterConfig {
        volume: true,
        equalizer: true,
        karaoke: true,
        timescale: true,
        tremolo: true,
        vibrato: true,
        distortion: true,
        rotation: true,
        channel_mix: true,
        low_pass: true,
    }
}

proof fn lemma_filters_layers(
    loaded: ServerConfig,
    parallelism: usize,
    file: Option<ConfigFile>,
    env: Seq<EnvEntry>,
    cli: CliOverrides,
)
    requires
        ServerConfig::layered(loaded, parallelism, file, env, cli),
    ensures
        loaded.filters == config::filters_env(
            env,
            match filters_of(file) {
                Some(section) => config::file_filters(section, default_filters()),
                None => default_filters(),
            },
        ),
{
    let (start, filed, set) = choose|start: ServerConfig, filed: ServerConfig, set: ServerConfig|
        #![trigger config::is_default(start, parallelism), config::env_applied(filed, set, env)]
        config::is_default(start, parallelism) && (match file {
            Some(file) => config::file_applied(start, filed, file),
            None => filed == start,
        }) && config::env_applied(filed, set, env) && loaded == config::cli_applied(set, cli);
}

/// Each filter is switched as the environment says, else as the file does, and is
/// on otherwise.
pub proof fn filters_are_switched(
    loaded: ServerConfig,
    parallelism: usize,
    file: Option<ConfigFile>,
    env: Seq<EnvEntry>,
    cli: CliOverrides,
)
    requires
        ServerConfig::layered(loaded, parallelism, file, env, cli),
    ensures
        filters_settled(loaded.filters, env, filters_of(file)),
{
    lemma_filters_layers(loaded, parallelism, file, env, cli);
    lemma_filters(loaded.filters, env, filters_of(file));
}

/// Whether these settings come from where they should.
pub open spec fn search_settled(
    value: SearchConfig,
    env: Seq<EnvEntry>,
    section: Option<FileLavalinkServer>,
) -> bool {
    &&& settles(
            value.youtube_playlist_load_limit,
            environment::usize_at(env, "LAVALINK_SERVER_YOUTUBE_PLAYLIST_LOAD_LIMIT"@),
            if section is Some {
                section->0.youtube_playlist_load_limit
            } else {
                None
            },
            6usize,
        )
    &&& settles(
            value.youtube_enabled,
            environment::bool_at(env, "LAVALINK_SERVER_YOUTUBE_SEARCH_ENABLED"@),
            if section is Some {
                section->0.youtube_search_enabled
            } else {
                None
            },
            true,
        )
    &&& settles(
            value.soundcloud_enabled,
            environment::bool_at(env, "LAVALINK_SERVER_SOUNDCLOUD_SEARCH_ENABLED"@),
            if section is Some {
                section->0.soundcloud_search_enabled
            } else {
                None
            },
            true,
        )
    &&& settles(
            value.soundcloud_filter_out_preview_tracks,
            environment::bool_at(env, "LAVALINK_SERVER_SOUNDCLOUD_FILTER_OUT_PREVIEW_TRACKS"@),
            if section is Some {
                section->0.soundcloud_filter_out_preview_tracks
            } else {
                None
            },
            false,
        )
}

proof fn lemma_search(value: SearchConfig, env: Seq<EnvEntry>, section: Option<FileLavalinkServer>)
    requires
        value == config::search_env(
            env,
            match section {
                Some(section) => config::file_search(section, default_search()),
                None => default_search(),
            },
        ),
    ensures
        search_settled(value, env, section),
{
}

spec fn default_search() -> SearchConfig {
    SearchConfig {
        youtube_playlist_load_limit: 6,
        youtube_enabled: true,
        soundcloud_enabled: true,
        soundcloud_filter_out_preview_tracks: false,
    }
}

proof fn lemma_search_layers(
    loaded: ServerConfig,
    parallelism: usize,
    file: Option<ConfigFile>,
    env: Seq<EnvEntry>,
    cli: CliOverrides,
)
    requires
        ServerConfig::layered(loaded, parallelism, file, env, cli),
    ensures
        loaded.search == config::search_env(
            env,
            match server_of(file) {
                Some(section) => config::file_search(section, default_search()),
                None => default_search(),
            },
        ),
{
    let (start, filed, set) = choose|start: ServerConfig, filed: ServerConfig, set: ServerConfig|
        #![trigger config::is_default(start, parallelism), config::env_applied(filed, set, env)]
        config::is_default(start, parallelism) && (match file {
            Some(file) => config::file_applied(start, filed, file),
            None => filed == start,
        }) && config::env_applied(filed, set, env) && loaded == config::cli_applied(set, cli);
}

/// Searching is set by the environment, else by the file.
pub proof fn searching_is_set(
    loaded: ServerConfig,
    parallelism: usize,
    file: Option<ConfigFile>,
    env: Seq<EnvEntry>,
    cli: CliOverrides,
)
    requires
        ServerConfig::layered(loaded, parallelism, file, env, cli),
    ensures
        search_settled(loaded.search, env, server_of(file)),
{
    lemma_search_layers(loaded, parallelism, file, env, cli);
    lemma_search(loaded.search, env, server_of(file));
}

/// Whether these settings come from where they should.
pub open spec fn timeouts_settled(
    value: TimeoutConfig,
    env: Seq<EnvEntry>,
    section: Option<FileTimeouts>,
) -> bool {
    &&& settles_ms(
            value.connect,
            environment::u64_at(env, "LAVALINK_SERVER_TIMEOUTS_CONNECT_TIMEOUT_MS"@),
            if section is Some {
                section->0.connect_timeout_ms
            } else {
                None
            },
            3_000,
        )
    &&& settles_ms(
            value.connection_request,
            environment::u64_at(env, "LAVALINK_SERVER_TIMEOUTS_CONNECTION_REQUEST_TIMEOUT_MS"@),
            if section is Some {
                section->0.connection_request_timeout_ms
            } else {
                None
            },
            3_000,
        )
    &&& settles_ms(
            value.socket,
            environment::u64_at(env, "LAVALINK_SERVER_TIMEOUTS_SOCKET_TIMEOUT_MS"@),
            if section is Some {
                section->0.socket_timeout_ms
            } else {
                None
            },
            3_000,
        )
}

proof fn lemma_timeouts(value: TimeoutConfig, env: Seq<EnvEntry>, section: Option<FileTimeouts>)
    requires
        value == config::timeouts_env(
            env,
            match section {
                Some(section) => config::file_timeouts(section, default_timeouts()),
                None => default_timeouts(),
            },
        ),
    ensures
        timeouts_settled(value, env, section),
{
}

spec fn default_timeouts() -> TimeoutConfig {
    TimeoutConfig {
        connect: Span { nanos: 3_000_000_000 },
        connection_request: Span { nanos: 3_000_000_000 },
        socket: Span { nanos: 3_000_000_000 },
    }
}

proof fn lemma_timeouts_layers(
    loaded: ServerConfig,
    parallelism: usize,
    file: Option<ConfigFile>,
    env: Seq<EnvEntry>,
    cli: CliOverrides,
)
    requires
        ServerConfig::layered(loaded, parallelism, file, env, cli),
    ensures
        loaded.http_source.timeouts == config::timeouts_env(
            env,
            match timeouts_of(file) {
                Some(section) => config::file_timeouts(section, default_timeouts()),
                None => default_timeouts(),
            },
        ),
{
    let (start, filed, set) = choose|start: ServerConfig, filed: ServerConfig, set: ServerConfig|
        #![trigger config::is_default(start, parallelism), config::env_applied(filed, set, env)]
        config::is_default(start, parallelism) && (match file {
            Some(file) => config::file_applied(start, filed, file),
            None => filed == start,
        }) && config::env_applied(filed, set, env) && loaded == config::cli_applied(set, cli);
}

/// Timeouts are set in milliseconds by the environment, else by the file, and are
/// three seconds otherwise.
pub proof fn timeouts_are_set(
    loaded: ServerConfig,
    parallelism: usize,
    file: Option<ConfigFile>,
    env: Seq<EnvEntry>,
    cli: CliOverrides,
)
    requires
        ServerConfig::layered(loaded, parallelism, file, env, cli),
    ensures
        timeouts_settled(loaded.http_source.timeouts, env, timeouts_of(file)),
{
    lemma_timeouts_layers(loaded, parallelism, file, env, cli);
    lemma_timeouts(loaded.http_source.timeouts, env, timeouts_of(file));
}

/// Whether these settings come from where they should.
pub open spec fn media_settled(
    value: MediaConfig,
    env: Seq<EnvEntry>,
    section: Option<FileLavalinkServer>,
) -> bool {
    &&& settles(
            value.non_allocating_frame_buffer,
            environment::bool_at(env, "LAVALINK_SERVER_NON_ALLOCATING_FRAME_BUFFER"@),
            if section is Some {
                section->0.non_allocating_frame_buffer
            } else {
                None
            },
            false,
        )
    &&& settles_ms(
            value.buffer_duration,
            environment::u64_at(env, "LAVALINK_SERVER_BUFFER_DURATION_MS"@),
            if section is Some {
                section->0.buffer_duration_ms
            } else {
                None
            },
            400,
        )
    &&& settles_ms(
            value.frame_buffer_duration,
            environment::u64_at(env, "LAVALINK_SERVER_FRAME_BUFFER_DURATION_MS"@),
            if section is Some {
                section->0.frame_buffer_duration_ms
            } else {
                None
            },
            5_000,
        )
    &&& settles(
            value.opus_encoding_quality,
            environment::u8_at(env, "LAVALINK_SERVER_OPUS_ENCODING_QUALITY"@),
            if section is Some {
                section->0.opus_encoding_quality
            } else {
                None
            },
            10u8,
        )
    &&& settles_ms(
            value.track_stuck_threshold,
            environment::u64_at(env, "LAVALINK_SERVER_TRACK_STUCK_THRESHOLD_MS"@),
            if section is Some {
                section->0.track_stuck_threshold_ms
            } else {
                None
            },
            10_000,
        )
    &&& settles(
            value.use_seek_ghosting,
            environment::bool_at(env, "LAVALINK_SERVER_USE_SEEK_GHOSTING"@),
            if section is Some {
                section->0.use_seek_ghosting
            } else {
                None
            },
            true,
        )
}

proof fn lemma_media(value: MediaConfig, env: Seq<EnvEntry>, section: Option<FileLavalinkServer>)
    requires
        value == config::media_env(
            env,
            match section {
                Some(section) => config::file_media(section, default_media()),
                None => default_media(),
            },
        ),
    ensures
        media_settled(value, env, section),
{
}

spec fn default_media() -> MediaConfig {
    MediaConfig {
        non_allocating_frame_buffer: false,
        buffer_duration: Span { nanos: 400_000_000 },
        frame_buffer_duration: Span { nanos: 5_000_000_000 },
        opus_encoding_quality: 10,
        resampling_quality: ResamplingQuality::Low,
        track_stuck_threshold: Span { nanos: 10_000_000_000 },
        use_seek_ghosting: true,
    }
}

proof fn lemma_media_layers(
    loaded: ServerConfig,
    parallelism: usize,
    file: Option<ConfigFile>,
    env: Seq<EnvEntry>,
    cli: CliOverrides,
)
    requires
        ServerConfig::layered(loaded, parallelism, file, env, cli),
    ensures
        loaded.media == config::media_env(
            env,
            match server_of(file) {
                Some(section) => config::file_media(section, default_media()),
                None => default_media(),
            },
        ),
{
    let (start, filed, set) = choose|start: ServerConfig, filed: ServerConfig, set: ServerConfig|
        #![trigger config::is_default(start, parallelism), config::env_applied(filed, set, env)]
        config::is_default(start, parallelism) && (match file {
            Some(file) => config::file_applied(start, filed, file),
            None => filed == start,
        }) && config::env_applied(filed, set, env) && loaded == config::cli_applied(set, cli);
}

/// The media are set by the environment, else by the file.
pub proof fn media_are_set(
    loaded: ServerConfig,
    parallelism: usize,
    file: Option<ConfigFile>,
    env: Seq<EnvEntry>,
    cli: CliOverrides,
)
    requires
        ServerConfig::layered(loaded, parallelism, file, env, cli),
    ensures
        media_settled(loaded.media, env, server_of(file)),
{
    lemma_media_layers(loaded, parallelism, file, env, cli);
    lemma_media(loaded.media, env, server_of(file));
}

/// Whether these settings come from where they should.
pub open spec fn logging_settled(
    value: RequestLoggingConfig,
    env: Seq<EnvEntry>,
    section: Option<FileRequestLogging>,
) -> bool {
    &&& settles(
            value.enabled,
            environment::bool_at(env, "LOGGING_REQUEST_ENABLED"@),
            if section is Some {
                section->0.enabled
            } else {
                None
            },
            true,
        )
    &&& settles(
            value.include_client_info,
            environment::bool_at(env, "LOGGING_REQUEST_INCLUDE_CLIENT_INFO"@),
            if section is Some {
                section->0.include_client_info
            } else {
                None
            },
            true,
        )
    &&& settles(
            value.include_headers,
            environment::bool_at(env, "LOGGING_REQUEST_INCLUDE_HEADERS"@),
            if section is Some {
                section->0.include_headers
            } else {
                None
            },
            false,
        )
    &&& settles(
            value.include_query_string,
            environment::bool_at(env, "LOGGING_REQUEST_INCLUDE_QUERY_STRING"@),
            if section is Some {
                section->0.include_query_string
            } else {
                None
            },
            true,
        )
    &&& settles(
            value.include_payload,
            environment::bool_at(env, "LOGGING_REQUEST_INCLUDE_PAYLOAD"@),
            if section is Some {
                section->0.include_payload
            } else {
                None
            },
            true,
        )
    &&& settles(
            value.max_payload_length,
            environment::usize_at(env, "LOGGING_REQUEST_MAX_PAYLOAD_LENGTH"@),
            if section is Some {
                section->0.max_payload_length
            } else {
                None
            },
            10_000usize,
        )
    &&& settles(
            value.before_request,
            environment::bool_at(env, "LOGGING_REQUEST_BEFORE_REQUEST"@),
            if section is Some {
                section->0.before_request
            } else {
                None
            },
            false,
        )
}

proof fn lemma_logging(value: RequestLoggingConfig, env: Seq<EnvEntry>, section: Option<FileRequestLogging>)
    requires
        value == config::logging_env(
            env,
            match section {
                Some(section) => config::file_request_logging(section, default_logging()),
                None => default_logging(),
            },
        ),
    ensures
        logging_settled(value, env, section),
{
}

spec fn default_logging() -> RequestLoggingConfig {
    RequestLoggingConfig {
        enabled: true,
        include_client_info: true,
        include_headers: false,
        include_query_string: true,
        include_payload: true,
        max_payload_length: 10_000,
        before_request: false,
    }
}

proof fn lemma_logging_of_file(before: ServerConfig, after: ServerConfig, file: ConfigFile)
    requires
        config::file_applied(before, after, file),
    ensures
        after.logging == config::file_logging(file.logging, before.logging),
{
    let listening = config::listen_section(before, file);
    assert(listening.logging == before.logging);
    if config::lavalink_server(file) is Some {
        let server = config::lavalink_server(file)->0;
        let middle = choose|middle: ServerConfig| #[trigger]
            config::server_section_applied(listening, middle, server) && after
                == config::other_sections(middle, file);
        assert(middle.logging == listening.logging);
    }
}

proof fn lemma_logging_of_env(before: ServerConfig, after: ServerConfig, env: Seq<EnvEntry>)
    requires
        config::env_applied(before, after, env),
    ensures
        after.logging.request == config::logging_env(env, before.logging.request),
{
}

proof fn lemma_logging_layers(
    loaded: ServerConfig,
    parallelism: usize,
    file: Option<ConfigFile>,
    env: Seq<EnvEntry>,
    cli: CliOverrides,
)
    requires
        ServerConfig::layered(loaded, parallelism, file, env, cli),
    ensures
        loaded.logging.request == config::logging_env(
            env,
            match request_logging_of(file) {
                Some(section) => config::file_request_logging(section, default_logging()),
                None => default_logging(),
            },
        ),
{
    let (start, filed, set) = choose|start: ServerConfig, filed: ServerConfig, set: ServerConfig|
        #![trigger config::is_default(start, parallelism), config::env_applied(filed, set, env)]
        config::is_default(start, parallelism) && (match file {
            Some(file) => config::file_applied(start, filed, file),
            None => filed == start,
        }) && config::env_applied(filed, set, env) && loaded == config::cli_applied(set, cli);
    lemma_logging_of_env(filed, set, env);
    if file is Some {
        lemma_logging_of_file(start, filed, file->0);
    }
    assert(start.logging.request == default_logging());
}

/// The logging of requests is set by the environment, else by the file.
pub proof fn logging_is_set(
    loaded: ServerConfig,
    parallelism: usize,
    file: Option<ConfigFile>,
    env: Seq<EnvEntry>,
    cli: CliOverrides,
)
    requires
        ServerConfig::layered(loaded, parallelism, file, env, cli),
    ensures
        logging_settled(loaded.logging.request, env, request_logging_of(file)),
{
    lemma_logging_layers(loaded, parallelism, file, env, cli);
    lemma_logging(loaded.logging.request, env, request_logging_of(file));
}

/// The node tells statistics each minute and waits half a minute for its end,
/// unless the environment or the file say otherwise.
pub proof fn intervals_are_set(
    loaded: ServerConfig,
    parallelism: usize,
    file: Option<ConfigFile>,
    env: Seq<EnvEntry>,
    cli: CliOverrides,
)
    requires
        ServerConfig::layered(loaded, parallelism, file, env, cli),
    ensures
        settles_ms(
            loaded.stats_interval,
            environment::u64_at(env, "CRUST_STATS_INTERVAL_MS"@),
            if config_laws::file_limits(file) is Some {
                config_laws::file_limits(file)->0.stats_interval_ms
            } else {
                None
            },
            60_000,
        ),
        settles_ms(
            loaded.shutdown_timeout,
            environment::u64_at(env, "CRUST_SHUTDOWN_TIMEOUT_MS"@),
            if config_laws::file_limits(file) is Some {
                config_laws::file_limits(file)->0.shutdown_timeout_ms
            } else {
                None
            },
            30_000,
        ),
        environment::u64_at(env, "CRUST_PLAYER_UPDATE_INTERVAL_MS"@) matches Some(millis)
            ==> loaded.player_update_interval.nanos == millis * 1_000_000,
        environment::u64_at(env, "CRUST_PLAYER_UPDATE_INTERVAL_MS"@) is None ==> (
        environment::u64_at(env, "LAVALINK_SERVER_PLAYER_UPDATE_INTERVAL"@) matches Some(seconds)
            ==> loaded.player_update_interval.nanos == seconds * 1_000_000_000),
        environment::u64_at(env, "CRUST_PLAYER_UPDATE_INTERVAL_MS"@) is None
            && environment::u64_at(env, "LAVALINK_SERVER_PLAYER_UPDATE_INTERVAL"@) is None && file
            is None ==> loaded.player_update_interval.nanos == 5_000_000_000,
{
    let (start, filed, set) = choose|start: ServerConfig, filed: ServerConfig, set: ServerConfig|
        #![trigger config::is_default(start, parallelism), config::env_applied(filed, set, env)]
        config::is_default(start, parallelism) && (match file {
            Some(file) => config::file_applied(start, filed, file),
            None => filed == start,
        }) && config::env_applied(filed, set, env) && loaded == config::cli_applied(set, cli);
}

/// Metrics are shown where the environment, else the file, says so, and are off
/// otherwise.
pub proof fn metrics_are_set(
    loaded: ServerConfig,
    parallelism: usize,
    file: Option<ConfigFile>,
    env: Seq<EnvEntry>,
    cli: CliOverrides,
)
    requires
        ServerConfig::layered(loaded, parallelism, file, env, cli),
    ensures
        settles(
            loaded.metrics.prometheus.enabled,
            environment::bool_at(env, "METRICS_PROMETHEUS_ENABLED"@),
            if config_section(file) is Some {
                config_section(file)->0.enabled
            } else {
                None
            },
            false,
        ),
        environment::text_at(env, "METRICS_PROMETHEUS_ENDPOINT"@) matches Some(path)
            ==> loaded.metrics.endpoint == path,
        environment::text_at(env, "METRICS_PROMETHEUS_ENDPOINT"@) is None && config_section(file)
            is None ==> loaded.metrics.endpoint@ == "/metrics"@,
{
    let (start, filed, set) = choose|start: ServerConfig, filed: ServerConfig, set: ServerConfig|
        #![trigger config::is_default(start, parallelism), config::env_applied(filed, set, env)]
        config::is_default(start, parallelism) && (match file {
            Some(file) => config::file_applied(start, filed, file),
            None => filed == start,
        }) && config::env_applied(filed, set, env) && loaded == config::cli_applied(set, cli);
}

/// The section of a file on metrics.
pub open spec fn config_section(file: Option<ConfigFile>) -> Option<config::FilePrometheus> {
    if file is Some && file->0.metrics is Some {
        file->0.metrics->0.prometheus
    } else {
        None
    }
}

/// A configuration is accepted exactly where each setting is within its bounds.
pub proof fn configurations_are_accepted_within_bounds(c: ServerConfig)
    ensures
        config::config_fault(c) is None <==> {
            &&& c.port > 0
            &&& c.password@.len() > 0 && text::byte_len(c.password@) <= 16_384
            &&& 0 < c.max_request_body_bytes <= 16_777_216
            &&& c.websocket_critical_capacity > 0 && c.max_sessions > 0 && c.max_players > 0
            &&& c.max_concurrent_session_resumes > 0
            &&& 0 < c.player_executor_shards <= 1_024
            &&& 0 < c.player_command_capacity <= 1_048_576
            &&& 0 < c.max_concurrent_loads <= 1_048_576
            &&& 0 < c.max_batch_decode_tracks <= 1_048_576
            &&& 0 < c.max_concurrent_source_requests <= 1_048_576
            &&& 0 < c.max_concurrent_voice_connects <= 1_048_576
            &&& 0 < c.player_update_interval.nanos <= 86_400_000_000_000
            &&& 0 < c.stats_interval.nanos <= 86_400_000_000_000
            &&& 0 < c.shutdown_timeout.nanos <= 300_000_000_000
            &&& c.media.buffer_duration.nanos <= 60_000_000_000
            &&& 0 < c.media.frame_buffer_duration.nanos <= 120_000_000_000
            &&& c.media.opus_encoding_quality <= 10
            &&& 0 < c.media.track_stuck_threshold.nanos <= 86_400_000_000_000
            &&& 0 < c.search.youtube_playlist_load_limit <= 64
            &&& 0 < c.http_source.timeouts.connect.nanos <= 300_000_000_000
            &&& 0 < c.http_source.timeouts.connection_request.nanos <= 300_000_000_000
            &&& 0 < c.http_source.timeouts.socket.nanos <= 300_000_000_000
            &&& c.http_source.proxy matches Some(proxy) ==> proxy.host@.len() > 0
                && text::byte_len(proxy.host@) <= 4_096 && proxy.port > 0
            &&& c.logging.request.max_payload_length <= 16_777_216
            &&& c.route_planner matches Some(route) ==> route.ip_blocks@.len() > 0 && (
            route.retry_limit matches Some(limit) ==> limit >= -1)
            &&& is_path(c.metrics.endpoint@)
        },
{
    let path = c.metrics.endpoint@;
    assert(config::good_endpoint(path) <==> is_path(path)) by {
        if config::good_endpoint(path) {
            assert forall|i: int| 0 <= i < path.len() implies is_plain(#[trigger] path[i]) by {
                assert(config::path_char(path[i]));
            }
        }
        if is_path(path) {
            assert forall|i: int| 0 <= i < path.len() implies config::path_char(
                #[trigger] path[i],
            ) by {
                assert(is_plain(path[i]));
            }
        }
    }
}

/// Whether a character may stand in the path of the metrics.
pub open spec fn is_plain(c: char) -> bool {
    !(c == '{' || c == '}' || c == '*' || text::is_space(c) || text::is_control_char(c))
}

/// Whether a text is the path of something: it begins with a slash, is not long
/// and holds no strange character.
pub open spec fn is_path(path: Seq<char>) -> bool {
    &&& 0 < path.len() && text::byte_len(path) <= 256
    &&& path[0] == '/'
    &&& forall|i: int| 0 <= i < path.len() ==> is_plain(#[trigger] path[i])
}

/// An address that is not set is one of the machine itself, and a machine has as
/// many executors as it works in parallel, up to sixteen.
pub proof fn defaults_suit_the_machine(start: ServerConfig, parallelism: usize)
    requires
        config::is_default(start, parallelism),
    ensures
        1 <= start.player_executor_shards <= 16,
        1 <= parallelism <= 16 ==> start.player_executor_shards == parallelism,
        parallelism > 16 ==> start.player_executor_shards == 16,
        start.http_source.proxy is None,
        start.route_planner is None,
        start.media.resampling_quality == ResamplingQuality::Low,
        start.logging.root_level@ == "INFO"@,
        start.logging.lavalink_level@ == "INFO"@,
{
}

} // verus!
