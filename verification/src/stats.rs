//! Statistics: frame windows, operational counters, process probes and the
//! limits that wire values are held to.

use crate::span::Span;
use crate::text;
use crate::text::decimal_text;
use crate::text_map;
use crate::text_map::TextMap;
use vstd::prelude::*;
use vstd::string::*;

verus! {

/// How long a reading of the process is kept.
pub const RUNTIME_REFRESH_SECONDS: u64 = 30;

/// The largest count that the wire carries.
pub const WIRE_COUNT_MAX: u64 = 2_147_483_647;

/// The largest amount that the wire carries.
pub const WIRE_AMOUNT_MAX: u64 = 9_223_372_036_854_775_807;

/// The counters of one player.
#[derive(Clone, Copy, Debug, PartialEq, Eq, Structural)]
pub struct SessionPlayerStats {
    pub playing: bool,
    pub sent: u64,
    pub nulled: u64,
    pub deficit: u64,
}

impl Default for SessionPlayerStats {
    fn default() -> (r: SessionPlayerStats)
        ensures
            r == (SessionPlayerStats { playing: false, sent: 0, nulled: 0, deficit: 0 }),
    {
        SessionPlayerStats { playing: false, sent: 0, nulled: 0, deficit: 0 }
    }
}

/// Frames per player over one window.
#[derive(Clone, Copy, Debug, PartialEq, Eq, Structural)]
pub struct FrameStats {
    pub sent: u32,
    pub nulled: u32,
    pub deficit: u32,
}

/// The counters of the window before, by guild.
pub struct FrameWindow {
    pub previous: TextMap<SessionPlayerStats>,
}

/// What a counter grew by. A counter that went back started over, and its
/// whole value is the growth.
pub open spec fn delta(current: u64, previous: u64) -> int {
    if current >= previous {
        current - previous
    } else {
        current as int
    }
}

pub fn counter_delta(current: u64, previous: u64) -> (r: u64)
    ensures
        r == delta(current, previous),
{
    if current >= previous {
        current - previous
    } else {
        current
    }
}

pub open spec fn capped(value: int, max: int) -> int {
    if value <= max {
        value
    } else {
        max
    }
}

pub fn wire_counter(value: u64) -> (r: u32)
    ensures
        r == capped(value as int, WIRE_COUNT_MAX as int),
{
    if value <= WIRE_COUNT_MAX {
        value as u32
    } else {
        2_147_483_647u32
    }
}

pub fn wire_count(value: usize) -> (r: u32)
    ensures
        r == capped(value as int, WIRE_COUNT_MAX as int),
{
    wire_counter(value as u64)
}

pub fn wire_milliseconds(value: Span) -> (r: u64)
    ensures
        r == capped(value.nanos as int / 1_000_000, WIRE_AMOUNT_MAX as int),
{
    let millis: u64 = value.as_millis();
    if millis <= WIRE_AMOUNT_MAX {
        millis
    } else {
        WIRE_AMOUNT_MAX
    }
}

/// Whole microseconds, held at `u64::MAX`.
pub open spec fn micros_of(span: Span) -> int {
    capped(span.nanos as int / 1_000, u64::MAX as int)
}

pub fn wire_micros(span: Span) -> (r: u64)
    ensures
        r == micros_of(span),
{
    let micros: u128 = span.nanos / 1_000;
    if micros <= 18_446_744_073_709_551_615u128 {
        micros as u64
    } else {
        u64::MAX
    }
}

/// A player counts where it played in both windows.
pub open spec fn counts_in(
    entry: text_map::TextEntry<SessionPlayerStats>,
    previous: Map<Seq<char>, SessionPlayerStats>,
) -> bool {
    previous.dom().contains(entry.key@) && previous[entry.key@].playing && entry.value.playing
}

/// How many players count.
pub open spec fn eligible_in(
    entries: Seq<text_map::TextEntry<SessionPlayerStats>>,
    previous: Map<Seq<char>, SessionPlayerStats>,
) -> nat
    decreases entries.len(),
{
    if entries.len() == 0 {
        0
    } else {
        eligible_in(entries.drop_last(), previous) + if counts_in(entries.last(), previous) {
            1nat
        } else {
            0
        }
    }
}

/// What one counter of the counting players grew by in all.
pub open spec fn grown_in(
    entries: Seq<text_map::TextEntry<SessionPlayerStats>>,
    previous: Map<Seq<char>, SessionPlayerStats>,
    counter: spec_fn(SessionPlayerStats) -> u64,
) -> int
    decreases entries.len(),
{
    if entries.len() == 0 {
        0
    } else {
        grown_in(entries.drop_last(), previous, counter) + if counts_in(entries.last(), previous) {
            delta(counter(entries.last().value), counter(previous[entries.last().key@]))
        } else {
            0
        }
    }
}

pub open spec fn sent_counter() -> spec_fn(SessionPlayerStats) -> u64 {
    |stats: SessionPlayerStats| stats.sent
}

pub open spec fn nulled_counter() -> spec_fn(SessionPlayerStats) -> u64 {
    |stats: SessionPlayerStats| stats.nulled
}

pub open spec fn deficit_counter() -> spec_fn(SessionPlayerStats) -> u64 {
    |stats: SessionPlayerStats| stats.deficit
}

/// The share of one player in a growth, as the wire carries it.
pub open spec fn frame_share(grown: int, eligible: nat) -> int {
    capped(capped(grown, u64::MAX as int) / eligible as int, WIRE_COUNT_MAX as int)
}

/// What a window shows against the one before: nothing where no player counts,
/// otherwise each growth shared by the players that count.
pub open spec fn window_shows(
    shown: Option<FrameStats>,
    entries: Seq<text_map::TextEntry<SessionPlayerStats>>,
    before: Map<Seq<char>, SessionPlayerStats>,
) -> bool {
    let eligible = eligible_in(entries, before);
    &&& shown is None <==> eligible == 0
    &&& shown matches Some(stats) ==> stats.sent == frame_share(
        grown_in(entries, before, sent_counter()),
        eligible,
    ) && stats.nulled == frame_share(grown_in(entries, before, nulled_counter()), eligible)
        && stats.deficit == frame_share(grown_in(entries, before, deficit_counter()), eligible)
}

/// The players of a list by guild; of two with one guild the later stands.
pub open spec fn by_guild(players: Seq<(String, SessionPlayerStats)>) -> Map<
    Seq<char>,
    SessionPlayerStats,
>
    decreases players.len(),
{
    if players.len() == 0 {
        Map::empty()
    } else {
        by_guild(players.drop_last()).insert(players.last().0@, players.last().1)
    }
}

fn saturating(total: u64, more: u64) -> (r: u64)
    ensures
        r == capped(total + more, u64::MAX as int),
{
    total.saturating_add(more)
}

impl FrameWindow {
    pub open spec fn wf(&self) -> bool {
        self.previous.wf()
    }

    pub fn new() -> (r: FrameWindow)
        ensures
            r.wf(),
            r.previous@ == Map::<Seq<char>, SessionPlayerStats>::empty(),
    {
        FrameWindow { previous: TextMap::new() }
    }

    /// Takes the counters of this window and compares them with the window
    /// before.
    pub fn update(&mut self, players: Vec<(String, SessionPlayerStats)>) -> (r: Option<FrameStats>)
        requires
            old(self).wf(),
        ensures
            final(self).wf(),
            final(self).previous@ == by_guild(players@),
            window_shows(r, final(self).previous.entries@, old(self).previous@),
    {
        let mut current: TextMap<SessionPlayerStats> = TextMap::new();
        let mut i: usize = 0;
        assert(players@.take(0) =~= Seq::<(String, SessionPlayerStats)>::empty());
        while i < players.len()
            invariant
                i <= players@.len(),
                current.wf(),
                current@ == by_guild(players@.take(i as int)),
            decreases players@.len() - i,
        {
            current.insert(players[i].0.clone(), players[i].1);
            assert(players@.take(i + 1).drop_last() =~= players@.take(i as int));
            assert(players@.take(i + 1).last() == players@[i as int]);
            i = i + 1;
        }
        assert(players@.take(i as int) =~= players@);
        let mut sent: u64 = 0;
        let mut nulled: u64 = 0;
        let mut deficit: u64 = 0;
        let mut eligible: u64 = 0;
        let ghost entries = current.entries@;
        let ghost before = self.previous@;
        let mut k: usize = 0;
        assert(entries.take(0) =~= Seq::<text_map::TextEntry<SessionPlayerStats>>::empty());
        while k < current.entries.len()
            invariant
                k <= entries.len(),
                entries == current.entries@,
                before == self.previous@,
                self.previous.wf(),
                eligible == eligible_in(entries.take(k as int), before),
                eligible <= k,
                grown_in(entries.take(k as int), before, sent_counter()) >= 0,
                grown_in(entries.take(k as int), before, nulled_counter()) >= 0,
                grown_in(entries.take(k as int), before, deficit_counter()) >= 0,
                sent == capped(
                    grown_in(entries.take(k as int), before, sent_counter()),
                    u64::MAX as int,
                ),
                nulled == capped(
                    grown_in(entries.take(k as int), before, nulled_counter()),
                    u64::MAX as int,
                ),
                deficit == capped(
                    grown_in(entries.take(k as int), before, deficit_counter()),
                    u64::MAX as int,
                ),
            decreases entries.len() - k,
        {
            let guild: &str = current.entries[k].key.as_str();
            let player: SessionPlayerStats = current.entries[k].value;
            assert(entries.take(k + 1).drop_last() =~= entries.take(k as int));
            assert(entries.take(k + 1).last() == entries[k as int]);
            match self.previous.get(guild) {
                Some(previous) => {
                    if previous.playing && player.playing {
                        eligible = eligible + 1;
                        sent = saturating(sent, counter_delta(player.sent, previous.sent));
                        nulled = saturating(nulled, counter_delta(player.nulled, previous.nulled));
                        deficit = saturating(
                            deficit,
                            counter_delta(player.deficit, previous.deficit),
                        );
                    }
                },
                None => {},
            }
            k = k + 1;
        }
        assert(entries.take(k as int) =~= entries);
        self.previous = current;
        if eligible == 0 {
            return None;
        }
        Some(
            FrameStats {
                sent: wire_counter(sent / eligible),
                nulled: wire_counter(nulled / eligible),
                deficit: wire_counter(deficit / eligible),
            },
        )
    }
}

/// A single player whose counter started over is credited its whole new value.
pub proof fn restarted_counter_counts_whole(current: u64, previous: u64)
    requires
        current < previous,
    ensures
        delta(current, previous) == current,
{
}

/// Operational counters of low cardinality.
#[derive(Clone, Copy, Debug, PartialEq, Eq, Structural)]
pub struct MetricsRegistry {
    pub rest_requests_total: u64,
    pub rest_errors_total: u64,
    pub rest_latency_micros_total: u64,
    pub rest_latency_samples: u64,
    pub loads_in_flight: u64,
    pub loads_total: u64,
    pub load_failures_total: u64,
    pub load_latency_micros_total: u64,
    pub load_latency_samples: u64,
    pub load_shed_total: u64,
    pub mantle_errors_total: u64,
    pub events_dropped_total: u64,
    pub events_coalesced_total: u64,
    pub dave_transitions_total: u64,
    pub dave_failures_total: u64,
    pub voice_connections: u64,
    pub voice_reconnects_total: u64,
    pub voice_ping_micros: u64,
    pub websocket_out_queue_depth: u64,
    pub critical_event_backlog: u64,
    pub player_command_queue_depth: u64,
    pub tasks_tracked: u64,
}

/// The sum in a counter, which starts over behind `u64::MAX`.
pub open spec fn counted(total: u64, more: int) -> int {
    let sum = total + more;
    if sum > u64::MAX {
        sum - 0x1_0000_0000_0000_0000
    } else if sum < 0 {
        sum + 0x1_0000_0000_0000_0000
    } else {
        sum
    }
}

/// The counters after a request was answered.
pub open spec fn rest_observed(before: MetricsRegistry, elapsed: Span, status: u16) -> MetricsRegistry {
    MetricsRegistry {
        rest_requests_total: counted(before.rest_requests_total, 1) as u64,
        rest_errors_total: counted(
            before.rest_errors_total,
            if status >= 400 {
                1
            } else {
                0
            },
        ) as u64,
        rest_latency_micros_total: counted(before.rest_latency_micros_total, micros_of(elapsed)) as u64,
        rest_latency_samples: counted(before.rest_latency_samples, 1) as u64,
        ..before
    }
}

/// The counters after a load started.
pub open spec fn with_load_started(before: MetricsRegistry) -> MetricsRegistry {
    MetricsRegistry {
        loads_in_flight: counted(before.loads_in_flight, 1) as u64,
        loads_total: counted(before.loads_total, 1) as u64,
        ..before
    }
}

/// The counters after a load finished.
pub open spec fn with_load_finished(before: MetricsRegistry, elapsed: Span, failed: bool) -> MetricsRegistry {
    MetricsRegistry {
        loads_in_flight: counted(before.loads_in_flight, -1) as u64,
        load_failures_total: counted(
            before.load_failures_total,
            if failed {
                1
            } else {
                0
            },
        ) as u64,
        load_latency_micros_total: counted(before.load_latency_micros_total, micros_of(elapsed)) as u64,
        load_latency_samples: counted(before.load_latency_samples, 1) as u64,
        ..before
    }
}

/// The counters after a load was turned away.
pub open spec fn with_load_shed(before: MetricsRegistry) -> MetricsRegistry {
    MetricsRegistry { load_shed_total: counted(before.load_shed_total, 1) as u64, ..before }
}

/// The counters after a media failure.
pub open spec fn with_mantle_error(before: MetricsRegistry) -> MetricsRegistry {
    MetricsRegistry { mantle_errors_total: counted(before.mantle_errors_total, 1) as u64, ..before }
}

impl MetricsRegistry {
    pub fn new() -> (r: MetricsRegistry)
        ensures
            r.rest_requests_total == 0 && r.rest_errors_total == 0,
            r.rest_latency_micros_total == 0 && r.rest_latency_samples == 0,
            r.loads_in_flight == 0 && r.loads_total == 0 && r.load_failures_total == 0,
            r.load_latency_micros_total == 0 && r.load_latency_samples == 0,
            r.load_shed_total == 0 && r.mantle_errors_total == 0,
            r.events_dropped_total == 0 && r.events_coalesced_total == 0,
            r.dave_transitions_total == 0 && r.dave_failures_total == 0,
            r.voice_connections == 0 && r.voice_reconnects_total == 0,
            r.voice_ping_micros == 0 && r.websocket_out_queue_depth == 0,
            r.critical_event_backlog == 0 && r.player_command_queue_depth == 0,
            r.tasks_tracked == 0,
    {
        MetricsRegistry {
            rest_requests_total: 0,
            rest_errors_total: 0,
            rest_latency_micros_total: 0,
            rest_latency_samples: 0,
            loads_in_flight: 0,
            loads_total: 0,
            load_failures_total: 0,
            load_latency_micros_total: 0,
            load_latency_samples: 0,
            load_shed_total: 0,
            mantle_errors_total: 0,
            events_dropped_total: 0,
            events_coalesced_total: 0,
            dave_transitions_total: 0,
            dave_failures_total: 0,
            voice_connections: 0,
            voice_reconnects_total: 0,
            voice_ping_micros: 0,
            websocket_out_queue_depth: 0,
            critical_event_backlog: 0,
            player_command_queue_depth: 0,
            tasks_tracked: 0,
        }
    }

    /// One request was answered with the status after the time.
    pub fn observe_rest(&mut self, elapsed: Span, status: u16)
        ensures
            *final(self) == rest_observed(*old(self), elapsed, status),
    {
        self.rest_requests_total = self.rest_requests_total.wrapping_add(1);
        if status >= 400 {
            self.rest_errors_total = self.rest_errors_total.wrapping_add(1);
        }
        self.rest_latency_micros_total = self.rest_latency_micros_total.wrapping_add(
            wire_micros(elapsed),
        );
        self.rest_latency_samples = self.rest_latency_samples.wrapping_add(1);
    }

    pub fn load_started(&mut self)
        ensures
            *final(self) == with_load_started(*old(self)),
    {
        self.loads_in_flight = self.loads_in_flight.wrapping_add(1);
        self.loads_total = self.loads_total.wrapping_add(1);
    }

    pub fn load_finished(&mut self, elapsed: Span, failed: bool)
        ensures
            *final(self) == with_load_finished(*old(self), elapsed, failed),
    {
        self.loads_in_flight = self.loads_in_flight.wrapping_sub(1);
        if failed {
            self.load_failures_total = self.load_failures_total.wrapping_add(1);
        }
        self.load_latency_micros_total = self.load_latency_micros_total.wrapping_add(
            wire_micros(elapsed),
        );
        self.load_latency_samples = self.load_latency_samples.wrapping_add(1);
    }

    pub fn load_shed(&mut self)
        ensures
            *final(self) == with_load_shed(*old(self)),
    {
        self.load_shed_total = self.load_shed_total.wrapping_add(1);
    }

    pub fn mantle_error(&mut self)
        ensures
            *final(self) == with_mantle_error(*old(self)),
    {
        self.mantle_errors_total = self.mantle_errors_total.wrapping_add(1);
    }
}

/// A load that starts and finishes leaves the number in flight as it was.
pub proof fn load_in_flight_balances(before: u64)
    ensures
        counted(counted(before, 1) as u64, -1) == before,
{
}

/// The mean, of a total over at least one sample.
pub open spec fn mean(total: u64, samples: u64) -> int {
    total as int / (if samples == 0 {
        1
    } else {
        samples as int
    })
}

pub fn average(total: u64, samples: u64) -> (r: u64)
    ensures
        r == mean(total, samples),
{
    if samples == 0 {
        total
    } else {
        total / samples
    }
}

/// How many sessions and players there are.
#[derive(Clone, Copy, Debug, PartialEq, Eq, Structural)]
pub struct SessionCounts {
    pub connected: usize,
    pub resumable: usize,
    pub players: usize,
}

/// The frames of all players.
#[derive(Clone, Copy, Debug, PartialEq, Eq, Structural)]
pub struct FrameTotals {
    pub sent: u64,
    pub nulled: u64,
    pub deficit: u64,
}

/// The sum of a counter over all players, in 64 bits.
pub open spec fn summed(
    players: Seq<SessionPlayerStats>,
    counter: spec_fn(SessionPlayerStats) -> u64,
) -> u64
    decreases players.len(),
{
    if players.len() == 0 {
        0
    } else {
        counted(summed(players.drop_last(), counter), counter(players.last()) as int) as u64
    }
}

/// The frames of all players, added up.
pub fn frame_totals(players: &Vec<SessionPlayerStats>) -> (r: FrameTotals)
    ensures
        r.sent == summed(players@, sent_counter()),
        r.nulled == summed(players@, nulled_counter()),
        r.deficit == summed(players@, deficit_counter()),
{
    let mut r: FrameTotals = FrameTotals { sent: 0, nulled: 0, deficit: 0 };
    let mut i: usize = 0;
    assert(players@.take(0) =~= Seq::<SessionPlayerStats>::empty());
    while i < players.len()
        invariant
            i <= players@.len(),
            r.sent == summed(players@.take(i as int), sent_counter()),
            r.nulled == summed(players@.take(i as int), nulled_counter()),
            r.deficit == summed(players@.take(i as int), deficit_counter()),
        decreases players@.len() - i,
    {
        assert(players@.take(i + 1).drop_last() =~= players@.take(i as int));
        assert(players@.take(i + 1).last() == players@[i as int]);
        r =
        FrameTotals {
            sent: r.sent.wrapping_add(players[i].sent),
            nulled: r.nulled.wrapping_add(players[i].nulled),
            deficit: r.deficit.wrapping_add(players[i].deficit),
        };
        i = i + 1;
    }
    assert(players@.take(i as int) =~= players@);
    r
}

/// How many players play.
pub open spec fn playing_in(players: Seq<SessionPlayerStats>) -> nat
    decreases players.len(),
{
    if players.len() == 0 {
        0
    } else {
        playing_in(players.drop_last()) + if players.last().playing {
            1nat
        } else {
            0
        }
    }
}

pub fn count_playing(players: &Vec<SessionPlayerStats>) -> (r: usize)
    ensures
        r == playing_in(players@),
{
    let mut n: usize = 0;
    let mut i: usize = 0;
    assert(players@.take(0) =~= Seq::<SessionPlayerStats>::empty());
    while i < players.len()
        invariant
            i <= players@.len(),
            n <= i,
            n == playing_in(players@.take(i as int)),
        decreases players@.len() - i,
    {
        assert(players@.take(i + 1).drop_last() =~= players@.take(i as int));
        assert(players@.take(i + 1).last() == players@[i as int]);
        if players[i].playing {
            n = n + 1;
        }
        i = i + 1;
    }
    assert(players@.take(i as int) =~= players@);
    n
}

/// One metric in the Prometheus text format.
pub open spec fn metric_text(name: Seq<char>, kind: Seq<char>, value: Seq<char>) -> Seq<char> {
    "# TYPE "@ + name + " "@ + kind + "\n"@ + name + " "@ + value + "\n"@
}

fn push_metric(out: &mut String, name: &str, kind: &str, value: &str)
    ensures
        final(out)@ == old(out)@ + metric_text(name@, kind@, value@),
{
    out.append("# TYPE ");
    out.append(name);
    out.append(" ");
    out.append(kind);
    out.append("\n");
    out.append(name);
    out.append(" ");
    out.append(value);
    out.append("\n");
    assert(out@ =~= old(out)@ + metric_text(name@, kind@, value@));
}

/// What a scrape shows besides the registry's own counters. The processor
/// share comes as text.
pub struct Scrape {
    pub playing_players: u32,
    pub frames: FrameTotals,
    pub routeplanner_enabled: bool,
    pub routeplanner_failures: usize,
    pub rss_bytes: u64,
    pub cpu_ratio: String,
}

pub open spec fn prometheus_head(
    metrics: MetricsRegistry,
    counts: SessionCounts,
    scrape: Scrape,
) -> Seq<char> {
    let s = Seq::<char>::empty();
    let s = s + metric_text("crust_sessions_active"@, "gauge"@, text::decimal(counts.connected as u64 as nat));
    let s = s + metric_text("crust_sessions_resumable"@, "gauge"@, text::decimal(counts.resumable as u64 as nat));
    let s = s + metric_text("crust_players_active"@, "gauge"@, text::decimal(counts.players as u64 as nat));
    let s = s + metric_text("crust_players_playing"@, "gauge"@, text::decimal(scrape.playing_players as u64 as nat));
    let s = s + metric_text("crust_loads_in_flight"@, "gauge"@, text::decimal(metrics.loads_in_flight as nat));
    let s = s + metric_text("crust_loads_total"@, "counter"@, text::decimal(metrics.loads_total as nat));
    let s = s + metric_text("crust_load_failures_total"@, "counter"@, text::decimal(metrics.load_failures_total as nat));
    let s = s + metric_text("crust_load_latency_average_microseconds"@, "gauge"@, text::decimal(mean(metrics.load_latency_micros_total, metrics.load_latency_samples) as nat));
    let s = s + metric_text("crust_rest_latency_average_microseconds"@, "gauge"@, text::decimal(mean(metrics.rest_latency_micros_total, metrics.rest_latency_samples) as nat));
    let s = s + metric_text("crust_rest_requests_total"@, "counter"@, text::decimal(metrics.rest_requests_total as nat));
    let s = s + metric_text("crust_rest_errors_total"@, "counter"@, text::decimal(metrics.rest_errors_total as nat));
    let s = s + metric_text("crust_websocket_out_queue_depth"@, "gauge"@, text::decimal(metrics.websocket_out_queue_depth as nat));
    let s = s + metric_text("crust_critical_event_backlog"@, "gauge"@, text::decimal(metrics.critical_event_backlog as nat));
    let s = s + metric_text("crust_player_command_queue_depth"@, "gauge"@, text::decimal(metrics.player_command_queue_depth as nat));
    let s = s + metric_text("crust_events_dropped_or_coalesced_total"@, "counter"@, text::decimal(counted(metrics.events_dropped_total, metrics.events_coalesced_total as int) as nat));
    s
}

/// The whole scrape, metric by metric.
pub open spec fn prometheus_text(
    metrics: MetricsRegistry,
    counts: SessionCounts,
    scrape: Scrape,
) -> Seq<char> {
    let s = prometheus_head(metrics, counts, scrape);
    let s = s + metric_text("crust_voice_connections"@, "gauge"@, text::decimal(metrics.voice_connections as nat));
    let s = s + metric_text("crust_voice_reconnects_total"@, "counter"@, text::decimal(metrics.voice_reconnects_total as nat));
    let s = s + metric_text("crust_voice_ping_microseconds"@, "gauge"@, text::decimal(metrics.voice_ping_micros as nat));
    let s = s + metric_text("crust_frames_sent_total"@, "counter"@, text::decimal(scrape.frames.sent as nat));
    let s = s + metric_text("crust_frames_nulled_total"@, "counter"@, text::decimal(scrape.frames.nulled as nat));
    let s = s + metric_text("crust_frames_deficit_total"@, "counter"@, text::decimal(scrape.frames.deficit as nat));
    let s = s + metric_text("crust_dave_transitions_total"@, "counter"@, text::decimal(metrics.dave_transitions_total as nat));
    let s = s + metric_text("crust_dave_failures_total"@, "counter"@, text::decimal(metrics.dave_failures_total as nat));
    let s = s + metric_text("crust_routeplanner_enabled"@, "gauge"@, text::decimal((if scrape.routeplanner_enabled { 1int } else { 0 }) as nat));
    let s = s + metric_text("crust_routeplanner_failures"@, "gauge"@, text::decimal(scrape.routeplanner_failures as u64 as nat));
    let s = s + metric_text("crust_routeplanner_selected_address_count"@, "gauge"@, text::decimal(0u64 as nat));
    let s = s + metric_text("crust_mantle_errors_total"@, "counter"@, text::decimal(metrics.mantle_errors_total as nat));
    let s = s + metric_text("crust_process_rss_bytes"@, "gauge"@, text::decimal(scrape.rss_bytes as nat));
    let s = s + metric_text("crust_process_cpu_ratio"@, "gauge"@, scrape.cpu_ratio@);
    let s = s + metric_text("crust_tasks_tracked"@, "gauge"@, text::decimal(metrics.tasks_tracked as nat));
    let s = s + metric_text("crust_load_shed_total"@, "counter"@, text::decimal(metrics.load_shed_total as nat));
    s
}

impl MetricsRegistry {
    fn render_head(&self, counts: SessionCounts, scrape: &Scrape) -> (r: String)
        ensures
            r@ == prometheus_head(*self, counts, *scrape),
    {
        let mut out: String = String::new();
        push_metric(&mut out, "crust_sessions_active", "gauge", decimal_text(counts.connected as u64).as_str());
        push_metric(&mut out, "crust_sessions_resumable", "gauge", decimal_text(counts.resumable as u64).as_str());
        push_metric(&mut out, "crust_players_active", "gauge", decimal_text(counts.players as u64).as_str());
        push_metric(&mut out, "crust_players_playing", "gauge", decimal_text(scrape.playing_players as u64).as_str());
        push_metric(&mut out, "crust_loads_in_flight", "gauge", decimal_text(self.loads_in_flight).as_str());
        push_metric(&mut out, "crust_loads_total", "counter", decimal_text(self.loads_total).as_str());
        push_metric(&mut out, "crust_load_failures_total", "counter", decimal_text(self.load_failures_total).as_str());
        push_metric(&mut out, "crust_load_latency_average_microseconds", "gauge", decimal_text(average(self.load_latency_micros_total, self.load_latency_samples)).as_str());
        push_metric(&mut out, "crust_rest_latency_average_microseconds", "gauge", decimal_text(average(self.rest_latency_micros_total, self.rest_latency_samples)).as_str());
        push_metric(&mut out, "crust_rest_requests_total", "counter", decimal_text(self.rest_requests_total).as_str());
        push_metric(&mut out, "crust_rest_errors_total", "counter", decimal_text(self.rest_errors_total).as_str());
        push_metric(&mut out, "crust_websocket_out_queue_depth", "gauge", decimal_text(self.websocket_out_queue_depth).as_str());
        push_metric(&mut out, "crust_critical_event_backlog", "gauge", decimal_text(self.critical_event_backlog).as_str());
        push_metric(&mut out, "crust_player_command_queue_depth", "gauge", decimal_text(self.player_command_queue_depth).as_str());
        push_metric(&mut out, "crust_events_dropped_or_coalesced_total", "counter", decimal_text(self.events_dropped_total.wrapping_add(self.events_coalesced_total)).as_str());
        out
    }

    /// The registry in the Prometheus text format.
    pub fn render_prometheus(&self, counts: SessionCounts, scrape: &Scrape) -> (r: String)
        ensures
            r@ == prometheus_text(*self, counts, *scrape),
    {
        let mut out: String = self.render_head(counts, scrape);
        push_metric(&mut out, "crust_voice_connections", "gauge", decimal_text(self.voice_connections).as_str());
        push_metric(&mut out, "crust_voice_reconnects_total", "counter", decimal_text(self.voice_reconnects_total).as_str());
        push_metric(&mut out, "crust_voice_ping_microseconds", "gauge", decimal_text(self.voice_ping_micros).as_str());
        push_metric(&mut out, "crust_frames_sent_total", "counter", decimal_text(scrape.frames.sent).as_str());
        push_metric(&mut out, "crust_frames_nulled_total", "counter", decimal_text(scrape.frames.nulled).as_str());
        push_metric(&mut out, "crust_frames_deficit_total", "counter", decimal_text(scrape.frames.deficit).as_str());
        push_metric(&mut out, "crust_dave_transitions_total", "counter", decimal_text(self.dave_transitions_total).as_str());
        push_metric(&mut out, "crust_dave_failures_total", "counter", decimal_text(self.dave_failures_total).as_str());
        push_metric(&mut out, "crust_routeplanner_enabled", "gauge", decimal_text(if scrape.routeplanner_enabled { 1 } else { 0 }).as_str());
        push_metric(&mut out, "crust_routeplanner_failures", "gauge", decimal_text(scrape.routeplanner_failures as u64).as_str());
        push_metric(&mut out, "crust_routeplanner_selected_address_count", "gauge", decimal_text(0u64).as_str());
        push_metric(&mut out, "crust_mantle_errors_total", "counter", decimal_text(self.mantle_errors_total).as_str());
        push_metric(&mut out, "crust_process_rss_bytes", "gauge", decimal_text(scrape.rss_bytes).as_str());
        push_metric(&mut out, "crust_process_cpu_ratio", "gauge", scrape.cpu_ratio.as_str());
        push_metric(&mut out, "crust_tasks_tracked", "gauge", decimal_text(self.tasks_tracked).as_str());
        push_metric(&mut out, "crust_load_shed_total", "counter", decimal_text(self.load_shed_total).as_str());
        out
    }
}

/// One reading of the process and of the machine.
#[derive(Clone, Copy, Debug, PartialEq, Eq, Structural)]
pub struct ProbeSnapshot {
    pub resident_bytes: Option<u64>,
    pub reservable_bytes: Option<u64>,
    pub system_busy: Option<u64>,
    pub system_total: Option<u64>,
    pub process_cpu_nanos: Option<u64>,
}

impl Default for ProbeSnapshot {
    fn default() -> (r: ProbeSnapshot)
        ensures
            r == (ProbeSnapshot {
                resident_bytes: None,
                reservable_bytes: None,
                system_busy: None,
                system_total: None,
                process_cpu_nanos: None,
            }),
    {
        ProbeSnapshot {
            resident_bytes: None,
            reservable_bytes: None,
            system_busy: None,
            system_total: None,
            process_cpu_nanos: None,
        }
    }
}

#[derive(Clone, Copy, Debug, PartialEq, Eq, Structural)]
pub struct MemoryStats {
    pub free: u64,
    pub used: u64,
    pub allocated: u64,
    pub reservable: u64,
}

/// A load between nothing and all: `part` out of `whole`, shared by `shares`.
#[derive(Clone, Copy, Debug, PartialEq, Eq, Structural)]
pub struct Load {
    pub part: u64,
    pub whole: u128,
    pub shares: u32,
}

impl Load {
    /// Whether the load is a fraction between zero and one.
    pub open spec fn is_fraction(self) -> bool {
        self.whole > 0 && self.shares > 0 && self.part <= self.whole * self.shares
    }
}

pub open spec fn no_load() -> Load {
    Load { part: 0, whole: 1, shares: 1 }
}

/// The fraction, held at one.
pub open spec fn held_load(part: u64, whole: u128, shares: u32) -> Load {
    if part <= whole * shares {
        Load { part, whole, shares }
    } else {
        Load { part: 1, whole: 1, shares: 1 }
    }
}

#[derive(Clone, Copy, Debug, PartialEq, Eq, Structural)]
pub struct CpuStats {
    pub cores: u32,
    pub system_load: Load,
    pub lavalink_load: Load,
}

#[derive(Clone, Copy, Debug, PartialEq, Eq, Structural)]
pub struct RuntimeStats {
    pub memory: MemoryStats,
    pub cpu: CpuStats,
}

pub open spec fn grown(current: u64, previous: u64) -> u64 {
    if current >= previous {
        (current - previous) as u64
    } else {
        0
    }
}

/// The share of the machine's time that was busy between two readings.
pub open spec fn system_share(previous: ProbeSnapshot, current: ProbeSnapshot) -> Load {
    match (previous.system_busy, previous.system_total, current.system_busy, current.system_total) {
        (Some(busy0), Some(total0), Some(busy1), Some(total1)) => {
            let total = grown(total1, total0);
            if total == 0 {
                no_load()
            } else {
                held_load(grown(busy1, busy0), total as u128, 1)
            }
        },
        _ => no_load(),
    }
}

pub fn system_load(previous: ProbeSnapshot, current: ProbeSnapshot) -> (r: Load)
    ensures
        r == system_share(previous, current),
        r.is_fraction(),
{
    match (previous.system_busy, previous.system_total, current.system_busy, current.system_total) {
        (Some(busy0), Some(total0), Some(busy1), Some(total1)) => {
            let busy: u64 = busy1.saturating_sub(busy0);
            let total: u64 = total1.saturating_sub(total0);
            if total == 0 {
                Load { part: 0, whole: 1, shares: 1 }
            } else if busy <= total {
                Load { part: busy, whole: total as u128, shares: 1 }
            } else {
                Load { part: 1, whole: 1, shares: 1 }
            }
        },
        _ => Load { part: 0, whole: 1, shares: 1 },
    }
}

/// The share of the cores' time that the process used between two readings.
pub open spec fn process_share(
    previous: ProbeSnapshot,
    current: ProbeSnapshot,
    elapsed: Span,
    cores: u32,
) -> Load {
    match (previous.process_cpu_nanos, current.process_cpu_nanos) {
        (Some(cpu0), Some(cpu1)) => if elapsed.nanos == 0 || cores == 0 {
            no_load()
        } else {
            held_load(grown(cpu1, cpu0), elapsed.nanos, cores)
        },
        _ => no_load(),
    }
}

pub fn process_load(
    previous: ProbeSnapshot,
    current: ProbeSnapshot,
    elapsed: Span,
    cores: u32,
) -> (r: Load)
    ensures
        r == process_share(previous, current, elapsed, cores),
        r.is_fraction(),
{
    match (previous.process_cpu_nanos, current.process_cpu_nanos) {
        (Some(cpu0), Some(cpu1)) => {
            if elapsed.nanos == 0 || cores == 0 {
                return Load { part: 0, whole: 1, shares: 1 };
            }
            let used: u64 = cpu1.saturating_sub(cpu0);
            let within: bool = match elapsed.nanos.checked_mul(cores as u128) {
                Some(available) => used as u128 <= available,
                None => true,
            };
            if within {
                Load { part: used, whole: elapsed.nanos, shares: cores }
            } else {
                Load { part: 1, whole: 1, shares: 1 }
            }
        },
        _ => Load { part: 0, whole: 1, shares: 1 },
    }
}

/// What reads the process.
pub trait RuntimeProbe {
    fn read(&self) -> ProbeSnapshot;
}

/// Readings of the process, kept for an interval.
pub struct RuntimeSampler {
    pub refresh_interval: Span,
    pub previous: Option<(Span, ProbeSnapshot)>,
    pub cached: Option<RuntimeStats>,
}

pub open spec fn span_between(later: Span, earlier: Span) -> Span {
    Span {
        nanos: if later.nanos >= earlier.nanos {
            (later.nanos - earlier.nanos) as u128
        } else {
            0
        },
    }
}

/// The memory that a reading shows.
pub open spec fn memory_of(current: ProbeSnapshot) -> MemoryStats {
    let used = capped(
        match current.resident_bytes {
            Some(bytes) => bytes as int,
            None => 0,
        },
        WIRE_AMOUNT_MAX as int,
    );
    let reservable = match current.reservable_bytes {
        Some(bytes) => if bytes >= used {
            bytes as int
        } else {
            used
        },
        None => used,
    };
    MemoryStats {
        free: 0,
        used: used as u64,
        allocated: used as u64,
        reservable: capped(reservable, WIRE_AMOUNT_MAX as int) as u64,
    }
}

/// What a reading gives: loads are shown once there was one before.
pub open spec fn stats_of(
    previous: Option<(Span, ProbeSnapshot)>,
    now: Span,
    current: ProbeSnapshot,
    parallelism: usize,
) -> RuntimeStats {
    let cores = capped(parallelism as int, WIRE_COUNT_MAX as int) as u32;
    RuntimeStats {
        memory: memory_of(current),
        cpu: match previous {
            None => CpuStats { cores, system_load: no_load(), lavalink_load: no_load() },
            Some((at, before)) => CpuStats {
                cores,
                system_load: system_share(before, current),
                lavalink_load: process_share(before, current, span_between(now, at), cores),
            },
        },
    }
}

impl RuntimeSampler {
    pub open spec fn wf(&self) -> bool {
        self.previous is Some <==> self.cached is Some
    }

    pub fn new(refresh_interval: Span) -> (r: RuntimeSampler)
        ensures
            r.wf(),
            r.refresh_interval == refresh_interval,
            r.previous is None,
            r.cached is None,
    {
        RuntimeSampler { refresh_interval, previous: None, cached: None }
    }

    /// Whether the kept reading still stands.
    pub open spec fn fresh_at(&self, now: Span) -> bool {
        self.previous matches Some((at, _)) && span_between(now, at).nanos
            < self.refresh_interval.nanos
    }

    /// The kept statistics, where they still stand.
    pub fn cached_at(&self, now: Span) -> (r: Option<RuntimeStats>)
        requires
            self.wf(),
        ensures
            r is Some <==> self.fresh_at(now),
            r is Some ==> r == self.cached,
    {
        match self.previous {
            Some((at, _)) => if now.saturating_sub(at).nanos < self.refresh_interval.nanos {
                self.cached
            } else {
                None
            },
            None => None,
        }
    }

    /// Takes a reading in.
    pub fn record(&mut self, now: Span, current: ProbeSnapshot, parallelism: usize) -> (r:
        RuntimeStats)
        requires
            old(self).wf(),
        ensures
            final(self).wf(),
            r == stats_of(old(self).previous, now, current, parallelism),
            final(self).refresh_interval == old(self).refresh_interval,
            final(self).previous == Some((now, current)),
            final(self).cached == Some(r),
    {
        let cores: u32 = wire_count(parallelism);
        let cpu: CpuStats = match self.previous {
            None => CpuStats {
                cores,
                system_load: Load { part: 0, whole: 1, shares: 1 },
                lavalink_load: Load { part: 0, whole: 1, shares: 1 },
            },
            Some((at, before)) => CpuStats {
                cores,
                system_load: system_load(before, current),
                lavalink_load: process_load(before, current, now.saturating_sub(at), cores),
            },
        };
        let resident: u64 = match current.resident_bytes {
            Some(bytes) => bytes,
            None => 0,
        };
        let used: u64 = if resident <= WIRE_AMOUNT_MAX {
            resident
        } else {
            WIRE_AMOUNT_MAX
        };
        let reservable: u64 = match current.reservable_bytes {
            Some(bytes) => if bytes >= used {
                bytes
            } else {
                used
            },
            None => used,
        };
        let sampled: RuntimeStats = RuntimeStats {
            memory: MemoryStats {
                free: 0,
                used,
                allocated: used,
                reservable: if reservable <= WIRE_AMOUNT_MAX {
                    reservable
                } else {
                    WIRE_AMOUNT_MAX
                },
            },
            cpu,
        };
        self.previous = Some((now, current));
        self.cached = Some(sampled);
        sampled
    }

    /// The statistics at the time. The probe is read only where the kept
    /// reading no longer stands.
    pub fn sample<P: RuntimeProbe>(&mut self, probe: &P, now: Span, parallelism: usize) -> (r:
        RuntimeStats)
        requires
            old(self).wf(),
        ensures
            final(self).wf(),
            old(self).fresh_at(now) ==> *final(self) == *old(self) && Some(r) == old(self).cached,
            !old(self).fresh_at(now) ==> exists|reading: ProbeSnapshot| #[trigger]
                call_ensures(P::read, (probe,), reading) && r == stats_of(
                    old(self).previous,
                    now,
                    reading,
                    parallelism,
                ) && final(self).previous == Some((now, reading)) && final(self).cached == Some(r)
                && final(self).refresh_interval == old(self).refresh_interval,
    {
        match self.cached_at(now) {
            Some(stats) => stats,
            None => {
                let reading: ProbeSnapshot = probe.read();
                self.record(now, reading, parallelism)
            },
        }
    }
}

/// Used memory never exceeds what can be reserved, and nothing is shown free.
pub proof fn memory_is_ordered(current: ProbeSnapshot)
    ensures
        ({
            let memory = memory_of(current);
            memory.free == 0 && memory.used == memory.allocated && memory.used <= memory.reservable
                <= WIRE_AMOUNT_MAX
        }),
{
}

/// The statistics that clients see.
#[derive(Clone, Copy, Debug, PartialEq, Eq, Structural)]
pub struct StatsSnapshot {
    pub frame_stats: Option<FrameStats>,
    pub players: u32,
    pub playing_players: u32,
    pub uptime: u64,
    pub memory: MemoryStats,
    pub cpu: CpuStats,
}

/// Puts the statistics together.
pub fn stats_snapshot(
    players: &Vec<SessionPlayerStats>,
    frame_stats: Option<FrameStats>,
    uptime: Span,
    runtime: RuntimeStats,
) -> (r: StatsSnapshot)
    ensures
        r.frame_stats == frame_stats,
        r.players == capped(players@.len() as int, WIRE_COUNT_MAX as int),
        r.playing_players == capped(playing_in(players@) as int, WIRE_COUNT_MAX as int),
        r.uptime == capped(uptime.nanos as int / 1_000_000, WIRE_AMOUNT_MAX as int),
        r.memory == runtime.memory,
        r.cpu == runtime.cpu,
{
    StatsSnapshot {
        frame_stats,
        players: wire_count(players.len()),
        playing_players: wire_count(count_playing(players)),
        uptime: wire_milliseconds(uptime),
        memory: runtime.memory,
        cpu: runtime.cpu,
    }
}

} // verus!
