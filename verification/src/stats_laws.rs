//! What statistics count, and how they are told.

use crate::span::Span;
use crate::stats;
use crate::stats::{
    FrameStats, MetricsRegistry, ProbeSnapshot, RuntimeStats, Scrape, SessionCounts,
    SessionPlayerStats,
};
use crate::text;
use crate::text_map;
use vstd::prelude::*;

verus! {

/// Whether a part stands in a text between what comes before it and behind it.
pub open spec fn stands(text: Seq<char>, before: Seq<char>, part: Seq<char>, after: Seq<char>) -> bool {
    text == before + part + after
}

/// The two lines of a metric: its type, and its value.
#[verifier::opaque]
pub open spec fn lines_of(name: Seq<char>, kind: Seq<char>, value: Seq<char>) -> Seq<char> {
    "# TYPE "@ + name + " "@ + kind + "\n"@ + name + " "@ + value + "\n"@
}

/// Whether a text holds the lines of a metric.
#[verifier::opaque]
pub open spec fn measures(text: Seq<char>, name: Seq<char>, kind: Seq<char>, value: Seq<char>) -> bool {
    exists|before: Seq<char>, after: Seq<char>| #[trigger]
        stands(text, before, lines_of(name, kind, value), after)
}

/// The metric that was told last is there.
pub broadcast proof fn the_last_metric_is_there(text: Seq<char>, name: Seq<char>, kind: Seq<char>, value: Seq<char>)
    ensures
        #[trigger] measures(text + stats::metric_text(name, kind, value), name, kind, value),
{
    reveal(measures);
    reveal(lines_of);
    let lines = lines_of(name, kind, value);
    let empty = Seq::<char>::empty();
    assert(stats::metric_text(name, kind, value) == lines);
    assert(text + lines =~= text + lines + empty);
    assert(stands(text + lines, text, lines, empty));
}

proof fn lemma_stands(text: Seq<char>, before: Seq<char>, part: Seq<char>, after: Seq<char>, more: Seq<char>)
    requires
        stands(text, before, part, after),
    ensures
        stands(text + more, before, part, after + more),
{
    assert(text + more =~= before + part + (after + more));
}

/// A metric stays when others are told behind it.
pub broadcast proof fn told_metrics_stay(
    text: Seq<char>,
    name: Seq<char>,
    kind: Seq<char>,
    value: Seq<char>,
    other: Seq<char>,
    other_kind: Seq<char>,
    other_value: Seq<char>,
)
    requires
        measures(text, name, kind, value),
    ensures
        #[trigger] measures(
            text + stats::metric_text(other, other_kind, other_value),
            name,
            kind,
            value,
        ),
{
    reveal(measures);
    let lines = lines_of(name, kind, value);
    let more = stats::metric_text(other, other_kind, other_value);
    let (before, after) = choose|before: Seq<char>, after: Seq<char>| #[trigger]
        stands(text, before, lines, after);
    lemma_stands(text, before, lines, after, more);
}

pub broadcast group group_metrics {
    the_last_metric_is_there,
    told_metrics_stay,
}

/// A number as it is told.
pub open spec fn told(number: int) -> Seq<char> {
    text::decimal(number as nat)
}

proof fn lemma_head(metrics: MetricsRegistry, counts: SessionCounts, scrape: Scrape)
    ensures
        ({
            let t = stats::prometheus_head(metrics, counts, scrape);
            &&& measures(t, "crust_sessions_active"@, "gauge"@, told(counts.connected as int))
            &&& measures(t, "crust_sessions_resumable"@, "gauge"@, told(counts.resumable as int))
            &&& measures(t, "crust_players_active"@, "gauge"@, told(counts.players as int))
            &&& measures(t, "crust_players_playing"@, "gauge"@, told(scrape.playing_players as int))
            &&& measures(t, "crust_loads_in_flight"@, "gauge"@, told(metrics.loads_in_flight as int))
            &&& measures(t, "crust_loads_total"@, "counter"@, told(metrics.loads_total as int))
            &&& measures(
                t,
                "crust_load_failures_total"@,
                "counter"@,
                told(metrics.load_failures_total as int),
            )
            &&& metrics.load_latency_samples > 0 ==> measures(
                t,
                "crust_load_latency_average_microseconds"@,
                "gauge"@,
                told(metrics.load_latency_micros_total as int / metrics.load_latency_samples as int),
            )
            &&& metrics.rest_latency_samples > 0 ==> measures(
                t,
                "crust_rest_latency_average_microseconds"@,
                "gauge"@,
                told(metrics.rest_latency_micros_total as int / metrics.rest_latency_samples as int),
            )
            &&& measures(
                t,
                "crust_rest_requests_total"@,
                "counter"@,
                told(metrics.rest_requests_total as int),
            )
            &&& measures(
                t,
                "crust_rest_errors_total"@,
                "counter"@,
                told(metrics.rest_errors_total as int),
            )
            &&& measures(
                t,
                "crust_websocket_out_queue_depth"@,
                "gauge"@,
                told(metrics.websocket_out_queue_depth as int),
            )
            &&& measures(
                t,
                "crust_critical_event_backlog"@,
                "gauge"@,
                told(metrics.critical_event_backlog as int),
            )
            &&& measures(
                t,
                "crust_player_command_queue_depth"@,
                "gauge"@,
                told(metrics.player_command_queue_depth as int),
            )
            &&& metrics.events_dropped_total + metrics.events_coalesced_total <= u64::MAX
                ==> measures(
                t,
                "crust_events_dropped_or_coalesced_total"@,
                "counter"@,
                told(metrics.events_dropped_total + metrics.events_coalesced_total),
            )
        }),
{
    broadcast use group_metrics;

}

/// What a scrape tells of sessions, players, loads and requests: each number
/// stands under its name, and times are told as their mean.
pub proof fn a_scrape_tells_the_load(
    metrics: MetricsRegistry,
    counts: SessionCounts,
    scrape: Scrape,
    name: Seq<char>,
    kind: Seq<char>,
    value: Seq<char>,
)
    requires
        measures(stats::prometheus_head(metrics, counts, scrape), name, kind, value),
    ensures
        measures(stats::prometheus_text(metrics, counts, scrape), name, kind, value),
{
    broadcast use told_metrics_stay;

}

/// A scrape begins with the counts of sessions, players, loads and requests,
/// each number under its name.
pub proof fn a_scrape_tells_the_counts(metrics: MetricsRegistry, counts: SessionCounts, scrape: Scrape)
    ensures
        ({
            let t = stats::prometheus_text(metrics, counts, scrape);
            &&& measures(t, "crust_sessions_active"@, "gauge"@, told(counts.connected as int))
            &&& measures(t, "crust_sessions_resumable"@, "gauge"@, told(counts.resumable as int))
            &&& measures(t, "crust_players_active"@, "gauge"@, told(counts.players as int))
            &&& measures(t, "crust_players_playing"@, "gauge"@, told(scrape.playing_players as int))
            &&& measures(t, "crust_loads_in_flight"@, "gauge"@, told(metrics.loads_in_flight as int))
            &&& measures(t, "crust_loads_total"@, "counter"@, told(metrics.loads_total as int))
            &&& measures(
                t,
                "crust_load_failures_total"@,
                "counter"@,
                told(metrics.load_failures_total as int),
            )
            &&& measures(
                t,
                "crust_rest_requests_total"@,
                "counter"@,
                told(metrics.rest_requests_total as int),
            )
            &&& measures(
                t,
                "crust_rest_errors_total"@,
                "counter"@,
                told(metrics.rest_errors_total as int),
            )
            &&& metrics.load_latency_samples > 0 ==> measures(
                t,
                "crust_load_latency_average_microseconds"@,
                "gauge"@,
                told(metrics.load_latency_micros_total as int / metrics.load_latency_samples as int),
            )
            &&& metrics.rest_latency_samples > 0 ==> measures(
                t,
                "crust_rest_latency_average_microseconds"@,
                "gauge"@,
                told(metrics.rest_latency_micros_total as int / metrics.rest_latency_samples as int),
            )
            &&& measures(
                t,
                "crust_websocket_out_queue_depth"@,
                "gauge"@,
                told(metrics.websocket_out_queue_depth as int),
            )
            &&& measures(
                t,
                "crust_critical_event_backlog"@,
                "gauge"@,
                told(metrics.critical_event_backlog as int),
            )
            &&& measures(
                t,
                "crust_player_command_queue_depth"@,
                "gauge"@,
                told(metrics.player_command_queue_depth as int),
            )
            &&& metrics.events_dropped_total + metrics.events_coalesced_total <= u64::MAX
                ==> measures(
                t,
                "crust_events_dropped_or_coalesced_total"@,
                "counter"@,
                told(metrics.events_dropped_total + metrics.events_coalesced_total),
            )
        }),
{
    lemma_head(metrics, counts, scrape);
    let head = stats::prometheus_head(metrics, counts, scrape);
    assert forall|name: Seq<char>, kind: Seq<char>, value: Seq<char>| #[trigger]
        measures(head, name, kind, value) implies measures(
        stats::prometheus_text(metrics, counts, scrape),
        name,
        kind,
        value,
    ) by {
        a_scrape_tells_the_load(metrics, counts, scrape, name, kind, value);
    }
}

/// A scrape ends with the numbers of voice, frames, the planner, failures and
/// the process, each under its name.
pub proof fn a_scrape_tells_the_process(metrics: MetricsRegistry, counts: SessionCounts, scrape: Scrape)
    ensures
        ({
            let t = stats::prometheus_text(metrics, counts, scrape);
            &&& measures(t, "crust_voice_connections"@, "gauge"@, told(metrics.voice_connections as int))
            &&& measures(
                t,
                "crust_voice_reconnects_total"@,
                "counter"@,
                told(metrics.voice_reconnects_total as int),
            )
            &&& measures(
                t,
                "crust_voice_ping_microseconds"@,
                "gauge"@,
                told(metrics.voice_ping_micros as int),
            )
            &&& measures(t, "crust_frames_sent_total"@, "counter"@, told(scrape.frames.sent as int))
            &&& measures(
                t,
                "crust_frames_nulled_total"@,
                "counter"@,
                told(scrape.frames.nulled as int),
            )
            &&& measures(
                t,
                "crust_frames_deficit_total"@,
                "counter"@,
                told(scrape.frames.deficit as int),
            )
            &&& measures(
                t,
                "crust_dave_transitions_total"@,
                "counter"@,
                told(metrics.dave_transitions_total as int),
            )
            &&& measures(
                t,
                "crust_dave_failures_total"@,
                "counter"@,
                told(metrics.dave_failures_total as int),
            )
            &&& scrape.routeplanner_enabled ==> measures(
                t,
                "crust_routeplanner_enabled"@,
                "gauge"@,
                told(1),
            )
            &&& !scrape.routeplanner_enabled ==> measures(
                t,
                "crust_routeplanner_enabled"@,
                "gauge"@,
                told(0),
            )
            &&& measures(
                t,
                "crust_routeplanner_failures"@,
                "gauge"@,
                told(scrape.routeplanner_failures as int),
            )
            &&& measures(t, "crust_routeplanner_selected_address_count"@, "gauge"@, told(0))
            &&& measures(
                t,
                "crust_mantle_errors_total"@,
                "counter"@,
                told(metrics.mantle_errors_total as int),
            )
            &&& measures(t, "crust_process_rss_bytes"@, "gauge"@, told(scrape.rss_bytes as int))
            &&& measures(t, "crust_process_cpu_ratio"@, "gauge"@, scrape.cpu_ratio@)
            &&& measures(t, "crust_tasks_tracked"@, "gauge"@, told(metrics.tasks_tracked as int))
            &&& measures(t, "crust_load_shed_total"@, "counter"@, told(metrics.load_shed_total as int))
        }),
{
    broadcast use group_metrics;

}

/// Each answer counts once, with the time that it took; those from 400 on count
/// as errors too. Nothing else is counted.
pub proof fn requests_are_counted(m: MetricsRegistry, elapsed: Span, status: u16)
    requires
        m.rest_requests_total < u64::MAX,
        m.rest_errors_total < u64::MAX,
        m.rest_latency_samples < u64::MAX,
        m.rest_latency_micros_total + elapsed.nanos / 1_000 <= u64::MAX,
    ensures
        ({
            let after = stats::rest_observed(m, elapsed, status);
            &&& after.rest_requests_total == m.rest_requests_total + 1
            &&& after.rest_latency_samples == m.rest_latency_samples + 1
            &&& after.rest_latency_micros_total == m.rest_latency_micros_total + elapsed.nanos
                / 1_000
            &&& status < 400 ==> after.rest_errors_total == m.rest_errors_total
            &&& status >= 400 ==> after.rest_errors_total == m.rest_errors_total + 1
            &&& after.loads_in_flight == m.loads_in_flight && after.loads_total == m.loads_total
            &&& after.load_failures_total == m.load_failures_total
            &&& after.load_shed_total == m.load_shed_total
            &&& after.mantle_errors_total == m.mantle_errors_total
        }),
{
}

/// A load that starts and ends was counted once, took its time, is no longer
/// under way, and counts as failed where it failed.
pub proof fn loads_are_counted(m: MetricsRegistry, elapsed: Span, failed: bool)
    requires
        m.loads_in_flight < u64::MAX,
        m.loads_total < u64::MAX,
        m.load_failures_total < u64::MAX,
        m.load_latency_samples < u64::MAX,
        m.load_latency_micros_total + elapsed.nanos / 1_000 <= u64::MAX,
    ensures
        ({
            let during = stats::with_load_started(m);
            let after = stats::with_load_finished(during, elapsed, failed);
            &&& during.loads_in_flight == m.loads_in_flight + 1
            &&& during.loads_total == m.loads_total + 1
            &&& during.load_failures_total == m.load_failures_total
            &&& during.load_latency_samples == m.load_latency_samples
            &&& after.loads_in_flight == m.loads_in_flight
            &&& after.loads_total == m.loads_total + 1
            &&& after.load_latency_samples == m.load_latency_samples + 1
            &&& after.load_latency_micros_total == m.load_latency_micros_total + elapsed.nanos
                / 1_000
            &&& failed ==> after.load_failures_total == m.load_failures_total + 1
            &&& !failed ==> after.load_failures_total == m.load_failures_total
            &&& after.rest_requests_total == m.rest_requests_total
            &&& after.load_shed_total == m.load_shed_total
        }),
{
}

/// Loads that are turned away and media failures count once each.
pub proof fn failures_are_counted(m: MetricsRegistry)
    requires
        m.load_shed_total < u64::MAX,
        m.mantle_errors_total < u64::MAX,
    ensures
        stats::with_load_shed(m).load_shed_total == m.load_shed_total + 1,
        stats::with_load_shed(m).mantle_errors_total == m.mantle_errors_total,
        stats::with_load_shed(m).loads_total == m.loads_total,
        stats::with_mantle_error(m).mantle_errors_total == m.mantle_errors_total + 1,
        stats::with_mantle_error(m).load_shed_total == m.load_shed_total,
        stats::with_mantle_error(m).load_failures_total == m.load_failures_total,
{
}

/// A window shows, for one player that played in it and in the one before, what
/// each of its counters grew by, held at the largest count.
pub proof fn a_window_shows_growth(
    shown: Option<FrameStats>,
    entry: text_map::TextEntry<SessionPlayerStats>,
    before: Map<Seq<char>, SessionPlayerStats>,
)
    requires
        stats::window_shows(shown, seq![entry], before),
        before.dom().contains(entry.key@),
        before[entry.key@].playing,
        entry.value.playing,
        before[entry.key@].sent <= entry.value.sent <= before[entry.key@].sent + 2_147_483_647,
        before[entry.key@].nulled <= entry.value.nulled <= before[entry.key@].nulled
            + 2_147_483_647,
        before[entry.key@].deficit <= entry.value.deficit <= before[entry.key@].deficit
            + 2_147_483_647,
    ensures
        shown matches Some(frames) && frames.sent == entry.value.sent - before[entry.key@].sent
            && frames.nulled == entry.value.nulled - before[entry.key@].nulled && frames.deficit
            == entry.value.deficit - before[entry.key@].deficit,
{
    let entries = seq![entry];
    assert(entries.drop_last() =~= Seq::empty());
    assert(entries.last() == entry);
    reveal_with_fuel(stats::eligible_in, 2);
    reveal_with_fuel(stats::grown_in, 2);
    assert(stats::eligible_in(entries, before) == 1);
}

/// A window in which no player went on playing shows nothing.
pub proof fn a_window_without_players_shows_nothing(
    shown: Option<FrameStats>,
    entries: Seq<text_map::TextEntry<SessionPlayerStats>>,
    before: Map<Seq<char>, SessionPlayerStats>,
)
    requires
        stats::window_shows(shown, entries, before),
        forall|i: int|
            0 <= i < entries.len() ==> !((#[trigger] entries[i]).value.playing
                && before.dom().contains(entries[i].key@) && before[entries[i].key@].playing),
    ensures
        shown is None,
{
    lemma_none_counts(entries, before);
}

proof fn lemma_none_counts(
    entries: Seq<text_map::TextEntry<SessionPlayerStats>>,
    before: Map<Seq<char>, SessionPlayerStats>,
)
    requires
        forall|i: int|
            0 <= i < entries.len() ==> !((#[trigger] entries[i]).value.playing
                && before.dom().contains(entries[i].key@) && before[entries[i].key@].playing),
    ensures
        stats::eligible_in(entries, before) == 0,
    decreases entries.len(),
{
    if entries.len() > 0 {
        assert(entries[entries.len() - 1] == entries.last());
        assert forall|i: int| 0 <= i < entries.len() - 1 implies !((
        #[trigger] entries.drop_last()[i]).value.playing && before.dom().contains(
            entries.drop_last()[i].key@,
        ) && before[entries.drop_last()[i].key@].playing) by {
            assert(entries.drop_last()[i] == entries[i]);
        }
        lemma_none_counts(entries.drop_last(), before);
    }
}

/// Two players share what their counters grew by: a window shows the mean.
pub proof fn a_window_shows_the_mean(
    shown: Option<FrameStats>,
    one: text_map::TextEntry<SessionPlayerStats>,
    other: text_map::TextEntry<SessionPlayerStats>,
    before: Map<Seq<char>, SessionPlayerStats>,
)
    requires
        stats::window_shows(shown, seq![one, other], before),
        before.dom().contains(one.key@) && before[one.key@].playing && one.value.playing,
        before.dom().contains(other.key@) && before[other.key@].playing && other.value.playing,
        before[one.key@].sent <= one.value.sent <= before[one.key@].sent + 1_000_000,
        before[other.key@].sent <= other.value.sent <= before[other.key@].sent + 1_000_000,
    ensures
        shown matches Some(frames) && frames.sent == (one.value.sent - before[one.key@].sent
            + other.value.sent - before[other.key@].sent) / 2,
{
    let entries = seq![one, other];
    assert(entries.drop_last() =~= seq![one]);
    assert(seq![one].drop_last() =~= Seq::empty());
    assert(entries.last() == other && seq![one].last() == one);
    reveal_with_fuel(stats::eligible_in, 3);
    reveal_with_fuel(stats::grown_in, 3);
    assert(stats::eligible_in(entries, before) == 2);
}

/// The share of the processor is what was used of what there was between two
/// readings; a first reading, or one that lacks something, shows none.
pub proof fn the_process_shows_what_it_used(
    previous: Option<(Span, ProbeSnapshot)>,
    now: Span,
    current: ProbeSnapshot,
    parallelism: usize,
)
    requires
        0 < parallelism <= 1_000,
    ensures
        ({
            let shown = stats::stats_of(previous, now, current, parallelism);
            &&& shown.cpu.cores == parallelism
            &&& previous is None ==> shown.cpu.system_load.part == 0 && shown.cpu.lavalink_load.part
                == 0
            &&& previous matches Some((at, before)) ==> {
                &&& current.process_cpu_nanos is None || before.process_cpu_nanos is None
                    ==> shown.cpu.lavalink_load.part == 0
                &&& before.process_cpu_nanos is Some && current.process_cpu_nanos is Some
                    && at.nanos < now.nanos && before.process_cpu_nanos->0
                    <= current.process_cpu_nanos->0 && current.process_cpu_nanos->0
                    - before.process_cpu_nanos->0 <= now.nanos - at.nanos
                    ==> shown.cpu.lavalink_load.part == current.process_cpu_nanos->0
                    - before.process_cpu_nanos->0 && shown.cpu.lavalink_load.whole == now.nanos
                    - at.nanos && shown.cpu.lavalink_load.shares == parallelism
                &&& before.system_busy is Some && before.system_total is Some
                    && current.system_busy is Some && current.system_total is Some
                    && before.system_busy->0 <= current.system_busy->0 && before.system_total->0
                    < current.system_total->0 && current.system_busy->0 - before.system_busy->0
                    <= current.system_total->0 - before.system_total->0
                    ==> shown.cpu.system_load.part == current.system_busy->0 - before.system_busy->0
                    && shown.cpu.system_load.whole == current.system_total->0
                    - before.system_total->0 && shown.cpu.system_load.shares == 1
            }
        }),
{
    if previous is Some {
        let (at, _) = previous->0;
        let n = now.nanos - at.nanos;
        assert(n >= 0 ==> n <= n * parallelism) by (nonlinear_arith)
            requires
                parallelism >= 1,
        ;
    }
}

/// Memory that is in use is told as allocated, none of it as free, and as much
/// as may be reserved, at least what is used.
pub proof fn memory_is_told_as_used(current: ProbeSnapshot)
    ensures
        ({
            let shown = stats::memory_of(current);
            &&& shown.free == 0
            &&& shown.used == shown.allocated
            &&& shown.reservable >= shown.used
            &&& current.resident_bytes matches Some(bytes) ==> (bytes
                <= 9_223_372_036_854_775_807 ==> shown.used == bytes)
            &&& current.resident_bytes is None ==> shown.used == 0
            &&& current.reservable_bytes matches Some(bytes) ==> (shown.used <= bytes
                <= 9_223_372_036_854_775_807 ==> shown.reservable == bytes)
        }),
{
}

/// A snapshot tells how many players there are and how many of them play, the
/// whole milliseconds that the node is up, and what was measured.
pub proof fn a_snapshot_tells_the_node(
    players: Vec<SessionPlayerStats>,
    frame_stats: Option<FrameStats>,
    uptime: Span,
    runtime: RuntimeStats,
    shown: stats::StatsSnapshot,
)
    requires
        call_ensures(stats::stats_snapshot, (&players, frame_stats, uptime, runtime), shown),
        players@.len() <= 2_147_483_647,
        uptime.nanos < 1_000_000_000_000_000_000_000_000,
    ensures
        shown.players == players@.len(),
        shown.playing_players == players@.filter(|player: SessionPlayerStats| player.playing).len(),
        shown.uptime == uptime.nanos / 1_000_000,
        shown.frame_stats == frame_stats,
        shown.memory == runtime.memory,
        shown.cpu == runtime.cpu,
{
    lemma_playing(players@);
}

proof fn lemma_playing(players: Seq<SessionPlayerStats>)
    ensures
        stats::playing_in(players) == players.filter(
            |player: SessionPlayerStats| player.playing,
        ).len(),
        stats::playing_in(players) <= players.len(),
    decreases players.len(),
{
    reveal(Seq::filter);
    if players.len() > 0 {
        lemma_playing(players.drop_last());
    }
}

/// Counts and times are told as they are, up to the largest that clients read.
pub proof fn numbers_are_told_as_they_are(value: u64, count: u32, span: Span, millis: u64)
    requires
        call_ensures(stats::wire_counter, (value,), count),
        call_ensures(stats::wire_milliseconds, (span,), millis),
    ensures
        value <= 2_147_483_647 ==> count == value,
        value > 2_147_483_647 ==> count == 2_147_483_647,
        span.nanos / 1_000_000 <= 9_223_372_036_854_775_807 ==> millis == span.nanos / 1_000_000,
        span.nanos / 1_000_000 > 9_223_372_036_854_775_807 ==> millis == 9_223_372_036_854_775_807,
{
}

/// A reading of the process is kept for as long as it was set, and not longer.
pub proof fn readings_are_kept_for_their_time(sampler: stats::RuntimeSampler, at: Span, reading: ProbeSnapshot, now: Span)
    requires
        sampler.previous == Some((at, reading)),
        now.nanos >= at.nanos,
    ensures
        sampler.fresh_at(now) <==> now.nanos - at.nanos < sampler.refresh_interval.nanos,
{
}

/// The frames of all players are added up, each counter for itself.
pub proof fn frames_are_added_up(players: Seq<SessionPlayerStats>, player: SessionPlayerStats)
    ensures
        stats::summed(players, stats::sent_counter()) + player.sent <= u64::MAX ==> stats::summed(
            players.push(player),
            stats::sent_counter(),
        ) == stats::summed(players, stats::sent_counter()) + player.sent,
        stats::summed(players, stats::nulled_counter()) + player.nulled <= u64::MAX
            ==> stats::summed(players.push(player), stats::nulled_counter()) == stats::summed(
            players,
            stats::nulled_counter(),
        ) + player.nulled,
        stats::summed(players, stats::deficit_counter()) + player.deficit <= u64::MAX
            ==> stats::summed(players.push(player), stats::deficit_counter()) == stats::summed(
            players,
            stats::deficit_counter(),
        ) + player.deficit,
        stats::summed(Seq::empty(), stats::sent_counter()) == 0,
{
    assert(players.push(player).drop_last() =~= players);
    assert(players.push(player).last() == player);
}

} // verus!
