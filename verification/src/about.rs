//! What the server tells of itself: its version and build, what it offers,
//! its statistics, and the state of its route planner.

use crate::config::{FilterConfig, ServerConfig, SourceConfig};
use crate::filters;
use crate::http;
use crate::http::{bare, protocol_error, reference_internal_error, Content, Reply, Status};
use crate::outside;
use crate::outside::rfc3339_text;
use crate::span;
use crate::stats::{CpuStats, FrameStats, MemoryStats, StatsSnapshot};
use crate::text;
use crate::text::{decimal_text, joined, owned, parse_bool, parse_u64, same_text};
use crate::wire;
use crate::wire::{list, object, put, put_if, put_item, put_number, put_text, quote};
use vstd::prelude::*;

verus! {

/// How the program was built.
pub struct BuildInfo {
    pub version: String,
    pub profile: String,
    pub branch: String,
    pub commit: String,
    /// The time of the commit in seconds, as a text.
    pub commit_time: String,
    /// Whether there were changes on top of the commit, as a text.
    pub dirty: String,
    pub rust_version: String,
}

/// The time of the commit in milliseconds; zero where it is not known or does
/// not fit.
pub open spec fn commit_time_of(commit_time: Seq<char>) -> int {
    match text::read_unsigned(commit_time, u64::MAX as int) {
        Some(seconds) => if seconds * 1000 <= u64::MAX {
            seconds * 1000
        } else {
            0
        },
        None => 0,
    }
}

pub fn build_commit_time_ms(commit_time: &str) -> (r: u64)
    ensures
        r == commit_time_of(commit_time@),
{
    match parse_u64(commit_time) {
        Some(seconds) => match seconds.checked_mul(1000) {
            Some(millis) => millis,
            None => 0,
        },
        None => 0,
    }
}

/// The names that are switched on.
pub open spec fn on(name: &'static str, enabled: bool) -> Seq<&'static str> {
    if enabled {
        seq![name]
    } else {
        Seq::empty()
    }
}

fn note(names: &mut Vec<&'static str>, name: &'static str, enabled: bool)
    ensures
        final(names)@ == old(names)@ + on(name, enabled),
{
    if enabled {
        names.push(name);
    }
    assert(names@ =~= old(names)@ + on(name, enabled));
}

/// The sources that are offered: of those that can be configured, one exists.
pub open spec fn offered_sources(sources: SourceConfig) -> Seq<&'static str> {
    on("youtube", sources.youtube)
}

pub fn enabled_source_managers(sources: &SourceConfig) -> (r: Vec<&'static str>)
    ensures
        r@ == offered_sources(*sources),
{
    let mut names: Vec<&'static str> = Vec::new();
    note(&mut names, "youtube", sources.youtube);
    assert(names@ =~= offered_sources(*sources));
    names
}

/// The filters that are offered, in a fixed order.
pub open spec fn offered_filters(filters: FilterConfig) -> Seq<&'static str> {
    let s = Seq::<&'static str>::empty();
    let s = s + on("volume", filters.volume);
    let s = s + on("equalizer", filters.equalizer);
    let s = s + on("karaoke", filters.karaoke);
    let s = s + on("timescale", filters.timescale);
    let s = s + on("tremolo", filters.tremolo);
    let s = s + on("vibrato", filters.vibrato);
    let s = s + on("distortion", filters.distortion);
    let s = s + on("rotation", filters.rotation);
    let s = s + on("channelMix", filters.channel_mix);
    let s = s + on("lowPass", filters.low_pass);
    s
}

pub fn enabled_filters(filters: &FilterConfig) -> (r: Vec<&'static str>)
    ensures
        r@ == offered_filters(*filters),
{
    let mut names: Vec<&'static str> = Vec::new();
    note(&mut names, "volume", filters.volume);
    note(&mut names, "equalizer", filters.equalizer);
    note(&mut names, "karaoke", filters.karaoke);
    note(&mut names, "timescale", filters.timescale);
    note(&mut names, "tremolo", filters.tremolo);
    note(&mut names, "vibrato", filters.vibrato);
    note(&mut names, "distortion", filters.distortion);
    note(&mut names, "rotation", filters.rotation);
    note(&mut names, "channelMix", filters.channel_mix);
    note(&mut names, "lowPass", filters.low_pass);
    names
}

/// A filter is offered or refused, never both: what a request may ask for is
/// what the server says it offers.
pub proof fn offered_filters_are_not_refused(name: &'static str, enabled: bool, asked: bool)
    ensures
        asked ==> on(name, enabled).len() + filters::refused(name, enabled, asked).len() == 1,
{
}

/// The names as JSON strings with commas between them.
pub open spec fn quoted_names(names: Seq<&'static str>) -> Seq<char>
    decreases names.len(),
{
    if names.len() == 0 {
        Seq::empty()
    } else {
        wire::with_item(quoted_names(names.drop_last()), wire::json_quoted(names.last()@))
    }
}

pub open spec fn names_json(names: Seq<&'static str>) -> Seq<char> {
    wire::brackets(quoted_names(names))
}

fn names_value(names: &Vec<&'static str>) -> (r: String)
    ensures
        r@ == names_json(names@),
{
    let mut items = String::new();
    let mut i: usize = 0;
    while i < names.len()
        invariant
            i <= names@.len(),
            items@ == quoted_names(names@.take(i as int)),
        decreases names@.len() - i,
    {
        put_item(&mut items, quote(names[i]).as_str());
        assert(names@.take(i + 1).drop_last() =~= names@.take(i as int));
        i = i + 1;
    }
    assert(names@.take(i as int) =~= names@);
    list(items.as_str())
}

/// The version of the protocol.
pub open spec fn lavalink_version_json() -> Seq<char> {
    let m = Seq::<char>::empty();
    let m = wire::with_member(m, "major"@, text::decimal(4));
    let m = wire::with_member(m, "minor"@, text::decimal(2));
    let m = wire::with_member(m, "patch"@, text::decimal(2));
    let m = wire::with_member(m, "preRelease"@, wire::json_quoted(Seq::empty()));
    let m = wire::with_member(m, "semver"@, wire::json_quoted("4.2.2"@));
    wire::braces(m)
}

fn lavalink_version_value() -> (r: String)
    ensures
        r@ == lavalink_version_json(),
{
    let mut m = String::new();
    put_number(&mut m, "major", 4);
    put_number(&mut m, "minor", 2);
    put_number(&mut m, "patch", 2);
    put_text(&mut m, "preRelease", String::new().as_str());
    put_text(&mut m, "semver", "4.2.2");
    object(m.as_str())
}

/// The commit that was built.
pub open spec fn commit_json(build: BuildInfo) -> Seq<char> {
    let m = Seq::<char>::empty();
    let m = wire::with_member(m, "branch"@, wire::json_quoted(build.branch@));
    let m = wire::with_member(m, "commit"@, wire::json_quoted(build.commit@));
    let m = wire::with_member(m, "commitTime"@, text::decimal(commit_time_of(build.commit_time@) as nat));
    wire::braces(m)
}

fn commit_value(build: &BuildInfo) -> (r: String)
    ensures
        r@ == commit_json(*build),
{
    let mut m = String::new();
    put_text(&mut m, "branch", build.branch.as_str());
    put_text(&mut m, "commit", build.commit.as_str());
    put_number(&mut m, "commitTime", build_commit_time_ms(build.commit_time.as_str()));
    object(m.as_str())
}

/// What a client is told of the server.
pub open spec fn info_json(build: BuildInfo, sources: SourceConfig, filters: FilterConfig) -> Seq<char> {
    let m = Seq::<char>::empty();
    let m = wire::with_member(m, "buildTime"@, text::decimal(0));
    let m = wire::with_member(m, "filters"@, names_json(offered_filters(filters)));
    let m = wire::with_member(m, "git"@, commit_json(build));
    let m = wire::with_member(m, "jvm"@, wire::json_quoted("Rust "@ + build.rust_version@));
    let m = wire::with_member(m, "lavaplayer"@, wire::json_quoted("Mantle 55b718058a36"@));
    let m = wire::with_member(m, "plugins"@, wire::brackets(Seq::empty()));
    let m = wire::with_member(m, "sourceManagers"@, names_json(offered_sources(sources)));
    let m = wire::with_member(m, "version"@, lavalink_version_json());
    wire::braces(m)
}

pub fn info_value(build: &BuildInfo, sources: &SourceConfig, filters: &FilterConfig) -> (r: String)
    ensures
        r@ == info_json(*build, *sources, *filters),
{
    let mut m = String::new();
    put_number(&mut m, "buildTime", 0);
    put(&mut m, "filters", names_value(&enabled_filters(filters)).as_str());
    put(&mut m, "git", commit_value(build).as_str());
    put_text(&mut m, "jvm", joined("Rust ", build.rust_version.as_str()).as_str());
    put_text(&mut m, "lavaplayer", "Mantle 55b718058a36");
    put(&mut m, "plugins", list(String::new().as_str()).as_str());
    put(&mut m, "sourceManagers", names_value(&enabled_source_managers(sources)).as_str());
    put(&mut m, "version", lavalink_version_value().as_str());
    object(m.as_str())
}

/// Whether there were changes on top of the commit.
pub open spec fn dirty_json(dirty: Seq<char>) -> Seq<char> {
    match text::read_bool(dirty) {
        Some(dirty) => wire::json_bool(dirty),
        None => "null"@,
    }
}

fn dirty_value(dirty: &str) -> (r: String)
    ensures
        r@ == dirty_json(dirty@),
{
    match parse_bool(dirty) {
        Some(true) => owned("true"),
        Some(false) => owned("false"),
        None => owned("null"),
    }
}

/// The commit that was built, and whether there were changes on top.
pub open spec fn built_commit_json(build: BuildInfo) -> Seq<char> {
    let m = Seq::<char>::empty();
    let m = wire::with_member(m, "branch"@, wire::json_quoted(build.branch@));
    let m = wire::with_member(m, "commit"@, wire::json_quoted(build.commit@));
    let m = wire::with_member(m, "commitTime"@, text::decimal(commit_time_of(build.commit_time@) as nat));
    let m = wire::with_member(m, "dirty"@, dirty_json(build.dirty@));
    wire::braces(m)
}

fn built_commit_value(build: &BuildInfo) -> (r: String)
    ensures
        r@ == built_commit_json(*build),
{
    let mut m = String::new();
    put_text(&mut m, "branch", build.branch.as_str());
    put_text(&mut m, "commit", build.commit.as_str());
    put_number(&mut m, "commitTime", build_commit_time_ms(build.commit_time.as_str()));
    put(&mut m, "dirty", dirty_value(build.dirty.as_str()).as_str());
    object(m.as_str())
}

/// The build.
pub open spec fn built_json(build: BuildInfo) -> Seq<char> {
    let m = Seq::<char>::empty();
    let m = wire::with_member(m, "git"@, built_commit_json(build));
    let m = wire::with_member(m, "profile"@, wire::json_quoted(build.profile@));
    wire::braces(m)
}

fn built_value(build: &BuildInfo) -> (r: String)
    ensures
        r@ == built_json(*build),
{
    let mut m = String::new();
    put(&mut m, "git", built_commit_value(build).as_str());
    put_text(&mut m, "profile", build.profile.as_str());
    object(m.as_str())
}

/// What is switched on.
pub open spec fn offered_json(sources: SourceConfig, filters: FilterConfig) -> Seq<char> {
    let m = Seq::<char>::empty();
    let m = wire::with_member(m, "filters"@, names_json(offered_filters(filters)));
    let m = wire::with_member(m, "sourceManagers"@, names_json(offered_sources(sources)));
    wire::braces(m)
}

fn offered_value(sources: &SourceConfig, filters: &FilterConfig) -> (r: String)
    ensures
        r@ == offered_json(*sources, *filters),
{
    let mut m = String::new();
    put(&mut m, "filters", names_value(&enabled_filters(filters)).as_str());
    put(&mut m, "sourceManagers", names_value(&enabled_source_managers(sources)).as_str());
    object(m.as_str())
}

/// The limits of the server.
pub open spec fn limits_json(config: ServerConfig) -> Seq<char> {
    let m = Seq::<char>::empty();
    let m = wire::with_member(m, "playerCommandCapacity"@, text::decimal(config.player_command_capacity as nat));
    let m = wire::with_member(m, "players"@, text::decimal(config.max_players as nat));
    let m = wire::with_member(m, "requestBodyBytes"@, text::decimal(config.max_request_body_bytes as nat));
    let m = wire::with_member(m, "sessions"@, text::decimal(config.max_sessions as nat));
    wire::braces(m)
}

fn limits_value(config: &ServerConfig) -> (r: String)
    ensures
        r@ == limits_json(*config),
{
    let mut m = String::new();
    put_number(&mut m, "playerCommandCapacity", config.player_command_capacity as u64);
    put_number(&mut m, "players", config.max_players as u64);
    put_number(&mut m, "requestBodyBytes", config.max_request_body_bytes as u64);
    put_number(&mut m, "sessions", config.max_sessions as u64);
    object(m.as_str())
}

/// The media part.
pub open spec fn media_part_json() -> Seq<char> {
    let m = Seq::<char>::empty();
    let m = wire::with_member(m, "name"@, wire::json_quoted("Mantle"@));
    let m = wire::with_member(m, "revision"@, wire::json_quoted("55b718058a36731e1c757b5edf53f432dc01ce3e"@));
    let m = wire::with_member(m, "version"@, wire::json_quoted("0.0.0"@));
    wire::braces(m)
}

fn media_part_value() -> (r: String)
    ensures
        r@ == media_part_json(),
{
    let mut m = String::new();
    put_text(&mut m, "name", "Mantle");
    put_text(&mut m, "revision", "55b718058a36731e1c757b5edf53f432dc01ce3e");
    put_text(&mut m, "version", "0.0.0");
    object(m.as_str())
}

/// The protocol.
pub open spec fn protocol_part_json() -> Seq<char> {
    let m = Seq::<char>::empty();
    let m = wire::with_member(m, "apiVersion"@, text::decimal(4));
    let m = wire::with_member(m, "name"@, wire::json_quoted("Lavalink"@));
    let m = wire::with_member(m, "version"@, wire::json_quoted("4.2.2"@));
    wire::braces(m)
}

fn protocol_part_value() -> (r: String)
    ensures
        r@ == protocol_part_json(),
{
    let mut m = String::new();
    put_number(&mut m, "apiVersion", 4);
    put_text(&mut m, "name", "Lavalink");
    put_text(&mut m, "version", "4.2.2");
    object(m.as_str())
}

/// The runtime.
pub open spec fn runtime_part_json(build: BuildInfo) -> Seq<char> {
    let m = Seq::<char>::empty();
    let m = wire::with_member(m, "minimumVersion"@, wire::json_quoted(build.rust_version@));
    let m = wire::with_member(m, "name"@, wire::json_quoted("Rust"@));
    wire::braces(m)
}

fn runtime_part_value(build: &BuildInfo) -> (r: String)
    ensures
        r@ == runtime_part_json(*build),
{
    let mut m = String::new();
    put_text(&mut m, "minimumVersion", build.rust_version.as_str());
    put_text(&mut m, "name", "Rust");
    object(m.as_str())
}

/// Where the statistics of the machine come from.
pub open spec fn stats_provider(linux: bool) -> Seq<char> {
    if linux {
        "linux-procfs-cgroup"@
    } else {
        "unavailable-zero-fallback"@
    }
}

pub fn runtime_stats_provider(linux: bool) -> (r: &'static str)
    ensures
        r@ == stats_provider(linux),
{
    if linux {
        "linux-procfs-cgroup"
    } else {
        "unavailable-zero-fallback"
    }
}

/// How statistics are gathered.
pub open spec fn statistics_part_json(config: ServerConfig, linux: bool) -> Seq<char> {
    let m = Seq::<char>::empty();
    let m = wire::with_member(m, "runtimeProvider"@, wire::json_quoted(stats_provider(linux)));
    let m = wire::with_member(m, "runtimeRefreshIntervalMs"@, text::decimal(30000));
    let m = wire::with_member(m, "websocketIntervalMs"@, text::decimal(span::millis_of(config.stats_interval) as nat));
    wire::braces(m)
}

fn statistics_part_value(config: &ServerConfig, linux: bool) -> (r: String)
    ensures
        r@ == statistics_part_json(*config, linux),
{
    let mut m = String::new();
    put_text(&mut m, "runtimeProvider", runtime_stats_provider(linux));
    put_number(&mut m, "runtimeRefreshIntervalMs", 30000);
    put_number(&mut m, "websocketIntervalMs", config.stats_interval.as_millis());
    object(m.as_str())
}

/// The versions of the encryption that the voice part speaks.
pub open spec fn dave_versions_json() -> Seq<char> {
    wire::brackets(wire::with_item(Seq::empty(), text::decimal(1)))
}

fn dave_versions_value() -> (r: String)
    ensures
        r@ == dave_versions_json(),
{
    let mut items = String::new();
    put_item(&mut items, decimal_text(1).as_str());
    list(items.as_str())
}

/// The voice part.
pub open spec fn voice_part_json() -> Seq<char> {
    let m = Seq::<char>::empty();
    let m = wire::with_member(m, "daveProtocolVersions"@, dave_versions_json());
    let m = wire::with_member(m, "name"@, wire::json_quoted("Oto"@));
    let m = wire::with_member(m, "version"@, wire::json_quoted("1.0.0"@));
    let m = wire::with_member(m, "voiceGatewayVersion"@, text::decimal(8));
    wire::braces(m)
}

fn voice_part_value() -> (r: String)
    ensures
        r@ == voice_part_json(),
{
    let mut m = String::new();
    put(&mut m, "daveProtocolVersions", dave_versions_value().as_str());
    put_text(&mut m, "name", "Oto");
    put_text(&mut m, "version", "1.0.0");
    put_number(&mut m, "voiceGatewayVersion", 8);
    object(m.as_str())
}

/// What an extension is for.
#[derive(Clone, Copy, Debug, PartialEq, Eq, Structural)]
pub enum ExtensionKind {
    Media,
    Voice,
}

/// An adapter that is attached to the server.
pub struct Extension {
    pub id: &'static str,
    pub version: &'static str,
    pub kind: ExtensionKind,
    pub capabilities: Vec<&'static str>,
}

pub open spec fn kind_name(kind: ExtensionKind) -> Seq<char> {
    match kind {
        ExtensionKind::Media => "media"@,
        ExtensionKind::Voice => "voice"@,
    }
}

/// Whether an extension is the media adapter.
pub open spec fn is_media_extension(extension: Extension) -> bool {
    &&& extension.id == "crust.mantle"
    &&& extension.version == "55b718058a36731e1c757b5edf53f432dc01ce3e"
    &&& extension.kind is Media
    &&& extension.capabilities@ == seq!["source:youtube", "media:opus", "media:pcm-filters"]
}

/// Whether an extension is the voice adapter.
pub open spec fn is_voice_extension(extension: Extension) -> bool {
    &&& extension.id == "crust.oto"
    &&& extension.version == "1.0.0"
    &&& extension.kind is Voice
    &&& extension.capabilities@ == seq!["voice:discord", "voice:dave", "voice:opus-pacing"]
}

/// The adapters that are attached: the media adapter before the voice adapter.
pub fn registered_extensions(has_media: bool, has_voice: bool) -> (r: Vec<Extension>)
    ensures
        r@.len() == (if has_media {
            1int
        } else {
            0
        }) + (if has_voice {
            1int
        } else {
            0
        }),
        has_media ==> is_media_extension(r@[0]),
        has_voice ==> is_voice_extension(r@.last()),
{
    let mut extensions: Vec<Extension> = Vec::new();
    if has_media {
        let mut capabilities: Vec<&'static str> = Vec::new();
        capabilities.push("source:youtube");
        capabilities.push("media:opus");
        capabilities.push("media:pcm-filters");
        assert(capabilities@ =~= seq!["source:youtube", "media:opus", "media:pcm-filters"]);
        extensions.push(
            Extension {
                id: "crust.mantle",
                version: "55b718058a36731e1c757b5edf53f432dc01ce3e",
                kind: ExtensionKind::Media,
                capabilities,
            },
        );
    }
    if has_voice {
        let mut capabilities: Vec<&'static str> = Vec::new();
        capabilities.push("voice:discord");
        capabilities.push("voice:dave");
        capabilities.push("voice:opus-pacing");
        assert(capabilities@ =~= seq!["voice:discord", "voice:dave", "voice:opus-pacing"]);
        extensions.push(
            Extension {
                id: "crust.oto",
                version: "1.0.0",
                kind: ExtensionKind::Voice,
                capabilities,
            },
        );
    }
    extensions
}

fn kind_text(kind: ExtensionKind) -> (r: &'static str)
    ensures
        r@ == kind_name(kind),
{
    match kind {
        ExtensionKind::Media => "media",
        ExtensionKind::Voice => "voice",
    }
}

/// An extension.
pub open spec fn extension_json(extension: Extension) -> Seq<char> {
    let m = Seq::<char>::empty();
    let m = wire::with_member(m, "capabilities"@, names_json(extension.capabilities@));
    let m = wire::with_member(m, "id"@, wire::json_quoted(extension.id@));
    let m = wire::with_member(m, "kind"@, wire::json_quoted(kind_name(extension.kind)));
    let m = wire::with_member(m, "version"@, wire::json_quoted(extension.version@));
    wire::braces(m)
}

fn extension_value(extension: &Extension) -> (r: String)
    ensures
        r@ == extension_json(*extension),
{
    let mut m = String::new();
    put(&mut m, "capabilities", names_value(&extension.capabilities).as_str());
    put_text(&mut m, "id", extension.id);
    put_text(&mut m, "kind", kind_text(extension.kind));
    put_text(&mut m, "version", extension.version);
    object(m.as_str())
}

/// The extensions with commas between them.
pub open spec fn extension_items(extensions: Seq<Extension>) -> Seq<char>
    decreases extensions.len(),
{
    if extensions.len() == 0 {
        Seq::empty()
    } else {
        wire::with_item(
            extension_items(extensions.drop_last()),
            extension_json(extensions.last()),
        )
    }
}

pub fn extension_values(extensions: &Vec<Extension>) -> (r: String)
    ensures
        r@ == wire::brackets(extension_items(extensions@)),
{
    let mut items = String::new();
    let mut i: usize = 0;
    while i < extensions.len()
        invariant
            i <= extensions@.len(),
            items@ == extension_items(extensions@.take(i as int)),
        decreases extensions@.len() - i,
    {
        put_item(&mut items, extension_value(&extensions[i]).as_str());
        assert(extensions@.take(i + 1).drop_last() =~= extensions@.take(i as int));
        i = i + 1;
    }
    assert(extensions@.take(i as int) =~= extensions@);
    list(items.as_str())
}

/// Everything the server tells of itself.
pub open spec fn crust_info_json(build: BuildInfo, config: ServerConfig, extensions: Seq<Extension>, linux: bool) -> Seq<char> {
    let m = Seq::<char>::empty();
    let m = wire::with_member(m, "build"@, built_json(build));
    let m = wire::with_member(m, "enabled"@, offered_json(config.sources, config.filters));
    let m = wire::with_member(m, "extensions"@, wire::brackets(extension_items(extensions)));
    let m = wire::with_member(m, "limits"@, limits_json(config));
    let m = wire::with_member(m, "media"@, media_part_json());
    let m = wire::with_member(m, "name"@, wire::json_quoted("Crust"@));
    let m = wire::with_member(m, "protocol"@, protocol_part_json());
    let m = wire::with_member(m, "runtime"@, runtime_part_json(build));
    let m = wire::with_member(m, "statistics"@, statistics_part_json(config, linux));
    let m = wire::with_member(m, "version"@, wire::json_quoted(build.version@));
    let m = wire::with_member(m, "voice"@, voice_part_json());
    wire::braces(m)
}

pub fn crust_info_value(build: &BuildInfo, config: &ServerConfig, extensions: &Vec<Extension>, linux: bool) -> (r: String)
    ensures
        r@ == crust_info_json(*build, *config, extensions@, linux),
{
    let mut m = String::new();
    put(&mut m, "build", built_value(build).as_str());
    put(&mut m, "enabled", offered_value(&config.sources, &config.filters).as_str());
    put(&mut m, "extensions", extension_values(extensions).as_str());
    put(&mut m, "limits", limits_value(config).as_str());
    put(&mut m, "media", media_part_value().as_str());
    put_text(&mut m, "name", "Crust");
    put(&mut m, "protocol", protocol_part_value().as_str());
    put(&mut m, "runtime", runtime_part_value(build).as_str());
    put(&mut m, "statistics", statistics_part_value(config, linux).as_str());
    put_text(&mut m, "version", build.version.as_str());
    put(&mut m, "voice", voice_part_value().as_str());
    object(m.as_str())
}

/// The load of the machine. The texts are the loads as JSON numbers.
pub open spec fn cpu_json(cpu: CpuStats, system_load: Seq<char>, lavalink_load: Seq<char>) -> Seq<char> {
    let m = Seq::<char>::empty();
    let m = wire::with_member(m, "cores"@, text::decimal(cpu.cores as nat));
    let m = wire::with_member(m, "lavalinkLoad"@, lavalink_load);
    let m = wire::with_member(m, "systemLoad"@, system_load);
    wire::braces(m)
}

fn cpu_value(cpu: &CpuStats, system_load: &str, lavalink_load: &str) -> (r: String)
    ensures
        r@ == cpu_json(*cpu, system_load@, lavalink_load@),
{
    let mut m = String::new();
    put_number(&mut m, "cores", cpu.cores as u64);
    put(&mut m, "lavalinkLoad", lavalink_load);
    put(&mut m, "systemLoad", system_load);
    object(m.as_str())
}

/// The memory of the machine.
pub open spec fn memory_json(memory: MemoryStats) -> Seq<char> {
    let m = Seq::<char>::empty();
    let m = wire::with_member(m, "allocated"@, text::decimal(memory.allocated as nat));
    let m = wire::with_member(m, "free"@, text::decimal(memory.free as nat));
    let m = wire::with_member(m, "reservable"@, text::decimal(memory.reservable as nat));
    let m = wire::with_member(m, "used"@, text::decimal(memory.used as nat));
    wire::braces(m)
}

fn memory_value(memory: &MemoryStats) -> (r: String)
    ensures
        r@ == memory_json(*memory),
{
    let mut m = String::new();
    put_number(&mut m, "allocated", memory.allocated);
    put_number(&mut m, "free", memory.free);
    put_number(&mut m, "reservable", memory.reservable);
    put_number(&mut m, "used", memory.used);
    object(m.as_str())
}

/// The frames of a minute.
pub open spec fn frames_json(frames: FrameStats) -> Seq<char> {
    let m = Seq::<char>::empty();
    let m = wire::with_member(m, "deficit"@, text::decimal(frames.deficit as nat));
    let m = wire::with_member(m, "nulled"@, text::decimal(frames.nulled as nat));
    let m = wire::with_member(m, "sent"@, text::decimal(frames.sent as nat));
    wire::braces(m)
}

fn frames_value(frames: &FrameStats) -> (r: String)
    ensures
        r@ == frames_json(*frames),
{
    let mut m = String::new();
    put_number(&mut m, "deficit", frames.deficit as u64);
    put_number(&mut m, "nulled", frames.nulled as u64);
    put_number(&mut m, "sent", frames.sent as u64);
    object(m.as_str())
}

/// The frames of a minute, or null.
pub open spec fn optional_frames_json(frames: Option<FrameStats>) -> Seq<char> {
    match frames {
        Some(frames) => frames_json(frames),
        None => "null"@,
    }
}

fn optional_frames_value(frames: &Option<FrameStats>) -> (r: String)
    ensures
        r@ == optional_frames_json(*frames),
{
    match frames {
        Some(frames) => frames_value(frames),
        None => owned("null"),
    }
}

/// The statistics; over a WebSocket they say what they are.
pub open spec fn stats_json(
    snapshot: StatsSnapshot,
    system_load: Seq<char>,
    lavalink_load: Seq<char>,
    websocket: bool,
) -> Seq<char> {
    let m = wire::with_member(
        Seq::empty(),
        "cpu"@,
        cpu_json(snapshot.cpu, system_load, lavalink_load),
    );
    let m = wire::with_member(m, "frameStats"@, optional_frames_json(snapshot.frame_stats));
    let m = wire::with_member(m, "memory"@, memory_json(snapshot.memory));
    let m = wire::with_member_if(m, websocket, "op"@, wire::json_quoted("stats"@));
    let m = wire::with_member(m, "players"@, text::decimal(snapshot.players as nat));
    let m = wire::with_member(m, "playingPlayers"@, text::decimal(snapshot.playing_players as nat));
    wire::braces(wire::with_member(m, "uptime"@, text::decimal(snapshot.uptime as nat)))
}

pub fn stats_value(
    snapshot: &StatsSnapshot,
    system_load: &str,
    lavalink_load: &str,
    websocket: bool,
) -> (r: String)
    ensures
        r@ == stats_json(*snapshot, system_load@, lavalink_load@, websocket),
{
    let mut m = String::new();
    put(&mut m, "cpu", cpu_value(&snapshot.cpu, system_load, lavalink_load).as_str());
    put(&mut m, "frameStats", optional_frames_value(&snapshot.frame_stats).as_str());
    put(&mut m, "memory", memory_value(&snapshot.memory).as_str());
    put_if(&mut m, websocket, "op", quote("stats").as_str());
    put_number(&mut m, "players", snapshot.players as u64);
    put_number(&mut m, "playingPlayers", snapshot.playing_players as u64);
    put_number(&mut m, "uptime", snapshot.uptime);
    object(m.as_str())
}

/// When an address failed, in words; its milliseconds where there are none.
pub fn failing_time_text(timestamp_ms: u64, formatted: Option<String>) -> (r: String)
    ensures
        match formatted {
            Some(words) => r == words,
            None => r@ == text::decimal(timestamp_ms as nat),
        },
{
    match formatted {
        Some(words) => words,
        None => decimal_text(timestamp_ms),
    }
}

/// When an address failed.
pub open spec fn failing_time_of(timestamp_ms: u64) -> Seq<char> {
    match outside::rfc3339_of((timestamp_ms * 1_000_000) as i128) {
        Some(words) => words,
        None => text::decimal(timestamp_ms as nat),
    }
}

pub fn failing_time(timestamp_ms: u64) -> (r: String)
    ensures
        r@ == failing_time_of(timestamp_ms),
{
    let nanos: i128 = timestamp_ms as i128 * 1_000_000;
    failing_time_text(timestamp_ms, rfc3339_text(nanos))
}

/// An address that failed.
pub struct FailingAddress {
    pub address: String,
    pub timestamp_ms: u64,
}

/// What is particular to a strategy.
pub enum PlannerDetails {
    Rotating { rotate_index: String, ip_index: String, current_address: Option<String> },
    Nano { current_address_index: String },
    RotatingNano { block_index: String, current_address_index: String },
    Balancing,
}

/// The state of a route planner.
pub struct PlannerSnapshot {
    /// The name of the strategy.
    pub class: String,
    pub ip_block_type: String,
    pub ip_block_size: String,
    pub failing_addresses: Vec<FailingAddress>,
    pub details: PlannerDetails,
}

/// An address that failed.
pub open spec fn failing_json(failing: FailingAddress) -> Seq<char> {
    let m = Seq::<char>::empty();
    let m = wire::with_member(m, "failingAddress"@, wire::json_quoted("/"@ + failing.address@));
    let m = wire::with_member(m, "failingTime"@, wire::json_quoted(failing_time_of(failing.timestamp_ms)));
    let m = wire::with_member(m, "failingTimestamp"@, text::decimal(failing.timestamp_ms as nat));
    wire::braces(m)
}

fn failing_value(failing: &FailingAddress) -> (r: String)
    ensures
        r@ == failing_json(*failing),
{
    let mut m = String::new();
    put_text(&mut m, "failingAddress", joined("/", failing.address.as_str()).as_str());
    put_text(&mut m, "failingTime", failing_time(failing.timestamp_ms).as_str());
    put_number(&mut m, "failingTimestamp", failing.timestamp_ms);
    object(m.as_str())
}

/// The addresses that failed, with commas between them.
pub open spec fn failing_items(failing: Seq<FailingAddress>) -> Seq<char>
    decreases failing.len(),
{
    if failing.len() == 0 {
        Seq::empty()
    } else {
        wire::with_item(failing_items(failing.drop_last()), failing_json(failing.last()))
    }
}

fn failing_list(failing: &Vec<FailingAddress>) -> (r: String)
    ensures
        r@ == wire::brackets(failing_items(failing@)),
{
    let mut items = String::new();
    let mut i: usize = 0;
    while i < failing.len()
        invariant
            i <= failing@.len(),
            items@ == failing_items(failing@.take(i as int)),
        decreases failing@.len() - i,
    {
        put_item(&mut items, failing_value(&failing[i]).as_str());
        assert(failing@.take(i + 1).drop_last() =~= failing@.take(i as int));
        i = i + 1;
    }
    assert(failing@.take(i as int) =~= failing@);
    list(items.as_str())
}

/// The addresses that are planned with.
pub open spec fn ip_block_json(snapshot: PlannerSnapshot) -> Seq<char> {
    let m = Seq::<char>::empty();
    let m = wire::with_member(m, "size"@, wire::json_quoted(snapshot.ip_block_size@));
    let m = wire::with_member(m, "type"@, wire::json_quoted(snapshot.ip_block_type@));
    wire::braces(m)
}

fn ip_block_value(snapshot: &PlannerSnapshot) -> (r: String)
    ensures
        r@ == ip_block_json(*snapshot),
{
    let mut m = String::new();
    put_text(&mut m, "size", snapshot.ip_block_size.as_str());
    put_text(&mut m, "type", snapshot.ip_block_type.as_str());
    object(m.as_str())
}

/// The address that is in use.
pub open spec fn current_address_text(address: Option<String>) -> Seq<char> {
    match address {
        Some(address) => "/"@ + address@,
        None => "null"@,
    }
}

fn current_address_value(address: &Option<String>) -> (r: String)
    ensures
        r@ == current_address_text(*address),
{
    match address {
        Some(address) => joined("/", address.as_str()),
        None => owned("null"),
    }
}

/// The members that come before those that every strategy has.
pub open spec fn leading_details(details: PlannerDetails) -> Seq<char> {
    match details {
        PlannerDetails::Rotating { current_address, .. } => wire::with_member(
            Seq::empty(),
            "currentAddress"@,
            wire::json_quoted(current_address_text(current_address)),
        ),
        PlannerDetails::Nano { current_address_index } => wire::with_member(
            Seq::empty(),
            "currentAddressIndex"@,
            wire::json_quoted(current_address_index@),
        ),
        PlannerDetails::RotatingNano { block_index, current_address_index } => wire::with_member(
            wire::with_member(Seq::empty(), "blockIndex"@, wire::json_quoted(block_index@)),
            "currentAddressIndex"@,
            wire::json_quoted(current_address_index@),
        ),
        PlannerDetails::Balancing => Seq::empty(),
    }
}

/// What is told of a route planner.
pub open spec fn planner_json(snapshot: PlannerSnapshot) -> Seq<char> {
    let d = leading_details(snapshot.details);
    let d = wire::with_member(
        d,
        "failingAddresses"@,
        wire::brackets(failing_items(snapshot.failing_addresses@)),
    );
    let d = wire::with_member(d, "ipBlock"@, ip_block_json(snapshot));
    let d = match snapshot.details {
        PlannerDetails::Rotating { rotate_index, ip_index, .. } => wire::with_member(
            wire::with_member(d, "ipIndex"@, wire::json_quoted(ip_index@)),
            "rotateIndex"@,
            wire::json_quoted(rotate_index@),
        ),
        _ => d,
    };
    let m = wire::with_member(Seq::empty(), "class"@, wire::json_quoted(snapshot.class@));
    wire::braces(wire::with_member(m, "details"@, wire::braces(d)))
}

pub fn route_planner_value(snapshot: &PlannerSnapshot) -> (r: String)
    ensures
        r@ == planner_json(*snapshot),
{
    let mut d = String::new();
    match &snapshot.details {
        PlannerDetails::Rotating { current_address, .. } => {
            put_text(&mut d, "currentAddress", current_address_value(current_address).as_str());
        },
        PlannerDetails::Nano { current_address_index } => {
            put_text(&mut d, "currentAddressIndex", current_address_index.as_str());
        },
        PlannerDetails::RotatingNano { block_index, current_address_index } => {
            put_text(&mut d, "blockIndex", block_index.as_str());
            put_text(&mut d, "currentAddressIndex", current_address_index.as_str());
        },
        PlannerDetails::Balancing => {},
    }
    put(&mut d, "failingAddresses", failing_list(&snapshot.failing_addresses).as_str());
    put(&mut d, "ipBlock", ip_block_value(snapshot).as_str());
    match &snapshot.details {
        PlannerDetails::Rotating { rotate_index, ip_index, .. } => {
            put_text(&mut d, "ipIndex", ip_index.as_str());
            put_text(&mut d, "rotateIndex", rotate_index.as_str());
        },
        _ => {},
    }
    let mut m = String::new();
    put_text(&mut m, "class", snapshot.class.as_str());
    put(&mut m, "details", object(d.as_str()).as_str());
    object(m.as_str())
}

/// Whether a rotating planner has not chosen an address yet.
pub open spec fn has_no_address(snapshot: PlannerSnapshot) -> bool {
    snapshot.details matches PlannerDetails::Rotating { current_address, .. }
        && current_address is None
}

/// The answer to a question about the route planner.
pub fn route_planner_status(snapshot: &Option<PlannerSnapshot>, time_ms: u64) -> (r: Reply)
    ensures
        match *snapshot {
            None => http::is_bare(r, Status::NoContent),
            Some(snapshot) => if has_no_address(snapshot) {
                http::is_json(
                    r,
                    Status::InternalServerError,
                    http::internal_json("/v4/routeplanner/status"@, time_ms),
                )
            } else {
                http::is_json(r, Status::Success, planner_json(snapshot))
            },
        },
{
    match snapshot {
        None => bare(Status::NoContent),
        Some(snapshot) => {
            if let PlannerDetails::Rotating { current_address: None, .. } = &snapshot.details {
                return reference_internal_error("/v4/routeplanner/status", time_ms);
            }
            Reply {
                status: Status::Success,
                content: Content::Json,
                body: route_planner_value(snapshot),
            }
        },
    }
}

/// What a request to free an address carries: the address that it names where
/// that could be read.
pub enum FreeAddress {
    TooLarge,
    Invalid,
    Named { readable: bool },
}

/// What stands against freeing an address.
pub open spec fn free_refusal(body: FreeAddress, enabled: bool) -> Option<(Status, Seq<char>)> {
    match body {
        FreeAddress::TooLarge => Some(
            (Status::PayloadTooLarge, "RoutePlanner request body exceeds its limit"@),
        ),
        FreeAddress::Invalid => Some((Status::BadRequest, "Invalid RoutePlanner address body"@)),
        FreeAddress::Named { readable } => if !enabled {
            Some((Status::InternalServerError, "Can't access disabled route planner"@))
        } else if !readable {
            Some((Status::BadRequest, "Invalid RoutePlanner IP address"@))
        } else {
            None
        },
    }
}

/// Whether an address is freed: the answer, and whether anything is done.
pub fn route_planner_free_address(body: FreeAddress, enabled: bool, path: &str, time_ms: u64) -> (r:
    (Reply, bool))
    ensures
        match free_refusal(body, enabled) {
            Some((status, message)) => !r.1 && http::is_refusal(
                r.0,
                status,
                message,
                path@,
                false,
                time_ms,
            ),
            None => r.1 && http::is_bare(r.0, Status::NoContent),
        },
{
    match body {
        FreeAddress::TooLarge => (
            protocol_error(
                Status::PayloadTooLarge,
                "RoutePlanner request body exceeds its limit",
                path,
                false,
                time_ms,
            ),
            false,
        ),
        FreeAddress::Invalid => (
            protocol_error(
                Status::BadRequest,
                "Invalid RoutePlanner address body",
                path,
                false,
                time_ms,
            ),
            false,
        ),
        FreeAddress::Named { readable } => {
            if !enabled {
                return (disabled_planner(path, time_ms), false);
            }
            if !readable {
                return (
                    protocol_error(
                        Status::BadRequest,
                        "Invalid RoutePlanner IP address",
                        path,
                        false,
                        time_ms,
                    ),
                    false,
                );
            }
            (bare(Status::NoContent), true)
        },
    }
}

fn disabled_planner(path: &str, time_ms: u64) -> (r: Reply)
    ensures
        http::is_refusal(
            r,
            Status::InternalServerError,
            "Can't access disabled route planner"@,
            path@,
            false,
            time_ms,
        ),
{
    protocol_error(
        Status::InternalServerError,
        "Can't access disabled route planner",
        path,
        false,
        time_ms,
    )
}

/// Whether all addresses are freed: the answer, and whether anything is done.
pub fn route_planner_free_all(enabled: bool, path: &str, time_ms: u64) -> (r: (Reply, bool))
    ensures
        r.1 == enabled,
        enabled ==> http::is_bare(r.0, Status::NoContent),
        !enabled ==> http::is_refusal(
            r.0,
            Status::InternalServerError,
            "Can't access disabled route planner"@,
            path@,
            false,
            time_ms,
        ),
{
    if enabled {
        (bare(Status::NoContent), true)
    } else {
        (disabled_planner(path, time_ms), false)
    }
}

/// The path of the configuration that the arguments name.
pub fn config_path(arguments: &Vec<String>) -> (r: Result<Option<String>, &'static str>)
    ensures
        r == if arguments@.len() == 0 {
            Ok::<Option<String>, &'static str>(None)
        } else if arguments@[0]@ != "--config"@ {
            Err("usage: crust-server [--config PATH]")
        } else if arguments@.len() == 1 {
            Err("--config requires a path")
        } else if arguments@.len() > 2 {
            Err("usage: crust-server [--config PATH]")
        } else {
            Ok(Some(arguments@[1]))
        },
{
    if arguments.len() == 0 {
        return Ok(None);
    }
    if !same_text(arguments[0].as_str(), "--config") {
        return Err("usage: crust-server [--config PATH]");
    }
    if arguments.len() == 1 {
        return Err("--config requires a path");
    }
    if arguments.len() > 2 {
        return Err("usage: crust-server [--config PATH]");
    }
    Ok(Some(arguments[1].clone()))
}

} // verus!
