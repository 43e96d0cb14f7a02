use std::cell::Cell;

use crust_node::probe::{
    cgroup_memory_limit, memory_limit_file, native_probe, parse_finite_limit, parse_kib_field,
    parse_system_cpu, GroupVersion, ProbeTexts,
};
use crust_node::span::Span;
use crust_node::stats::{
    average, count_playing, counter_delta, frame_totals, stats_snapshot, wire_count, wire_counter,
    wire_micros, wire_milliseconds, FrameStats, FrameTotals, FrameWindow, Load, MetricsRegistry,
    ProbeSnapshot, RuntimeProbe, RuntimeSampler, Scrape, SessionCounts, SessionPlayerStats,
};

struct SequenceProbe {
    index: Cell<usize>,
    samples: Vec<ProbeSnapshot>,
}

impl RuntimeProbe for SequenceProbe {
    fn read(&self) -> ProbeSnapshot {
        let index = self.index.get();
        self.index.set(index + 1);
        self.samples[index.min(self.samples.len() - 1)]
    }
}

fn ratio(load: Load) -> f64 {
    load.part as f64 / load.whole as f64 / f64::from(load.shares)
}

fn playing(sent: u64, nulled: u64, deficit: u64) -> SessionPlayerStats {
    SessionPlayerStats { playing: true, sent, nulled, deficit }
}

#[test]
fn frame_windows_are_per_player_averages_and_survive_counter_reset() {
    let mut window = FrameWindow::new();
    assert_eq!(
        window.update(vec![
            ("1".to_owned(), playing(10, 2, 1)),
            ("2".to_owned(), playing(20, 4, 3)),
        ]),
        None
    );
    assert_eq!(
        window.update(vec![
            ("1".to_owned(), playing(20, 4, 3)),
            ("2".to_owned(), playing(40, 8, 7)),
        ]),
        Some(FrameStats { sent: 15, nulled: 3, deficit: 3 })
    );
    assert_eq!(
        window.update(vec![("1".to_owned(), playing(3, 1, 0))]),
        Some(FrameStats { sent: 3, nulled: 1, deficit: 0 })
    );
}

#[test]
fn runtime_sampler_maps_rss_and_bounded_cpu_deltas() {
    let probe = SequenceProbe {
        index: Cell::new(0),
        samples: vec![
            ProbeSnapshot {
                resident_bytes: Some(100),
                reservable_bytes: Some(1_000),
                system_busy: Some(20),
                system_total: Some(100),
                process_cpu_nanos: Some(10),
            },
            ProbeSnapshot {
                resident_bytes: Some(120),
                reservable_bytes: Some(1_000),
                system_busy: Some(70),
                system_total: Some(200),
                process_cpu_nanos: Some(u64::MAX),
            },
        ],
    };
    let mut sampler = RuntimeSampler::new(Span::zero());
    let first = sampler.sample(&probe, Span::from_millis(1), 4);
    assert_eq!(first.memory.used, 100);
    assert_eq!(first.memory.allocated, 100);
    assert_eq!(first.memory.free, 0);
    assert_eq!(first.memory.reservable, 1_000);
    assert_eq!(ratio(first.cpu.system_load), 0.0);
    let second = sampler.sample(&probe, Span::from_millis(2), 4);
    assert_eq!(second.memory.used, 120);
    assert_eq!(ratio(second.cpu.system_load), 0.5);
    assert!((0.0..=1.0).contains(&ratio(second.cpu.lavalink_load)));
}

#[test]
fn runtime_probe_is_cached_for_the_bounded_refresh_interval() {
    let probe = SequenceProbe {
        index: Cell::new(0),
        samples: vec![ProbeSnapshot { resident_bytes: Some(100), ..ProbeSnapshot::default() }],
    };
    let mut sampler = RuntimeSampler::new(Span::from_secs(30));
    assert_eq!(sampler.sample(&probe, Span::zero(), 1).memory.used, 100);
    assert_eq!(sampler.sample(&probe, Span::from_secs(1), 1).memory.used, 100);
    assert_eq!(probe.index.get(), 1);
}

#[test]
fn unavailable_runtime_values_and_wire_overflow_degrade_safely() {
    let probe = SequenceProbe { index: Cell::new(0), samples: vec![ProbeSnapshot::default()] };
    let mut sampler = RuntimeSampler::new(Span::from_secs(30));
    let sample = sampler.sample(&probe, Span::zero(), 1);
    assert_eq!(sample.memory.used, 0);
    assert_eq!(sample.memory.allocated, 0);
    assert_eq!(sample.memory.free, 0);
    assert_eq!(sample.memory.reservable, 0);
    assert_eq!(ratio(sample.cpu.system_load), 0.0);
    assert_eq!(ratio(sample.cpu.lavalink_load), 0.0);
    assert_eq!(wire_counter(u64::MAX), i32::MAX as u32);
    assert_eq!(wire_count(usize::MAX), i32::MAX as u32);
    assert_eq!(
        wire_milliseconds(Span { nanos: 18_446_744_073_709_551_615_999_999_999 }),
        i64::MAX as u64
    );
}

#[test]
fn linux_probe_parsers_reject_malformed_or_unbounded_values() {
    assert_eq!(parse_kib_field("VmRSS: 12 kB\n", "VmRSS:"), Some(12_288));
    assert_eq!(parse_kib_field("VmRSS: nope kB\n", "VmRSS:"), None);
    assert_eq!(parse_system_cpu("cpu  10 2 3 80 5 0 0 0\ncpu0 1 1 1 1"), Some((15, 100)));
    assert_eq!(parse_finite_limit("max"), None);
    assert_eq!(parse_finite_limit("1152921504606846976"), None);
    assert_eq!(parse_finite_limit("4096"), Some(4096));
}

#[test]
fn the_probe_is_refreshed_when_the_interval_is_over() {
    let probe = SequenceProbe { index: Cell::new(0), samples: vec![ProbeSnapshot::default()] };
    let mut sampler = RuntimeSampler::new(Span::from_secs(30));
    sampler.sample(&probe, Span::zero(), 1);
    assert!(sampler.cached_at(Span { nanos: 29_999_999_999 }).is_some());
    assert!(sampler.cached_at(Span::from_secs(30)).is_none());
    sampler.sample(&probe, Span::from_secs(30), 1);
    assert_eq!(probe.index.get(), 2);
}

#[test]
fn the_load_of_the_process_is_shared_over_the_cores() {
    let mut sampler = RuntimeSampler::new(Span::zero());
    let at = |nanos| ProbeSnapshot { process_cpu_nanos: Some(nanos), ..ProbeSnapshot::default() };
    sampler.record(Span::zero(), at(0), 4);
    let stats = sampler.record(Span::from_secs(1), at(2_000_000_000), 4);
    assert_eq!(stats.cpu.cores, 4);
    assert_eq!(ratio(stats.cpu.lavalink_load), 0.5);
}

#[test]
fn a_counter_that_went_back_counts_from_zero() {
    assert_eq!(counter_delta(7, 3), 4);
    assert_eq!(counter_delta(3, 7), 3);
    assert_eq!(wire_counter(9), 9);
    assert_eq!(wire_micros(Span::from_millis(3)), 3_000);
    assert_eq!(average(7, 2), 3);
    assert_eq!(average(7, 0), 7);
}

#[test]
fn totals_are_over_all_players() {
    let players = vec![
        playing(1, 2, 3),
        SessionPlayerStats::default(),
        playing(u64::MAX - 1, 4, 5),
    ];
    assert_eq!(frame_totals(&players), FrameTotals { sent: u64::MAX, nulled: 6, deficit: 8 });
    assert_eq!(count_playing(&players), 2);
}

#[test]
fn loads_in_flight_balance() {
    let mut metrics = MetricsRegistry::new();
    metrics.load_started();
    metrics.load_started();
    assert_eq!(metrics.loads_in_flight, 2);
    metrics.load_finished(Span::from_millis(2), true);
    metrics.load_finished(Span::from_millis(4), false);
    assert_eq!(metrics.loads_in_flight, 0);
    assert_eq!(metrics.load_failures_total, 1);
    assert_eq!(metrics.load_latency_micros_total, 6_000);
    metrics.load_shed();
    metrics.mantle_error();
    assert_eq!(metrics.load_shed_total, 1);
    assert_eq!(metrics.mantle_errors_total, 1);
}

#[test]
fn refused_requests_are_errors() {
    let mut metrics = MetricsRegistry::new();
    metrics.observe_rest(Span::from_millis(1), 200);
    metrics.observe_rest(Span::from_millis(1), 399);
    metrics.observe_rest(Span::from_millis(1), 400);
    assert_eq!(metrics.rest_requests_total, 3);
    assert_eq!(metrics.rest_errors_total, 1);
    assert_eq!(metrics.rest_latency_micros_total, 3_000);
}

#[test]
fn the_scrape_names_its_metrics() {
    let mut metrics = MetricsRegistry::new();
    metrics.observe_rest(Span::from_millis(5), 500);
    let counts = SessionCounts { connected: 3, resumable: 2, players: 4 };
    let scrape = Scrape {
        playing_players: 1,
        frames: FrameTotals { sent: 10, nulled: 11, deficit: 12 },
        routeplanner_enabled: true,
        routeplanner_failures: 9,
        rss_bytes: 4_096,
        cpu_ratio: "0.25".to_owned(),
    };
    let text = metrics.render_prometheus(counts, &scrape);
    assert!(text.ends_with('\n'));
    assert!(text.lines().any(|line| line.ends_with(" 4096")));
    assert!(text.lines().any(|line| line.ends_with(" 0.25")));
    for line in text.lines().filter(|line| !line.starts_with('#')) {
        assert_eq!(line.split(' ').count(), 2, "{line}");
    }
}

#[test]
fn snapshots_clip_what_the_wire_cannot_hold() {
    let mut sampler = RuntimeSampler::new(Span::zero());
    let runtime = sampler.record(Span::zero(), ProbeSnapshot::default(), 2);
    let snapshot = stats_snapshot(&vec![playing(1, 1, 1)], None, Span::from_secs(3), runtime);
    assert_eq!(snapshot.players, 1);
    assert_eq!(snapshot.playing_players, 1);
    assert_eq!(snapshot.uptime, 3_000);
    assert_eq!(snapshot.frame_stats, None);
}

#[test]
fn memory_is_bounded_by_the_tightest_limit() {
    assert_eq!(cgroup_memory_limit(Some("4096"), Some("8192")), Some(4096));
    assert_eq!(cgroup_memory_limit(Some("max"), Some("8192")), Some(8192));
    assert_eq!(cgroup_memory_limit(None, None), None);
    let texts = ProbeTexts {
        status: Some("Name:\tnode\nVmRSS:\t  2 kB\n"),
        meminfo: Some("MemTotal: 8 kB\n"),
        stat: Some("cpu  1 1 1 1 1 1 1 1\n"),
        schedstat: Some("700 1 1\n"),
        limit_v2: Some("4096\n"),
        limit_v1: None,
    };
    let probe = native_probe(&texts);
    assert_eq!(probe.resident_bytes, Some(2_048));
    assert_eq!(probe.reservable_bytes, Some(4_096));
    assert_eq!(probe.process_cpu_nanos, Some(700));
    assert_eq!(probe.system_total, Some(8));
}

#[test]
fn limit_files_follow_the_hierarchy() {
    assert_eq!(
        memory_limit_file(None, GroupVersion::V2),
        "/sys/fs/cgroup/memory.max"
    );
    assert_eq!(
        memory_limit_file(None, GroupVersion::V1),
        "/sys/fs/cgroup/memory/memory.limit_in_bytes"
    );
    assert_eq!(
        memory_limit_file(Some("0::/node\n"), GroupVersion::V2),
        "/sys/fs/cgroup/node/memory.max"
    );
}

#[test]
fn spans_saturate_and_round_trip() {
    assert_eq!(Span::from_millis(1_234).as_millis(), 1_234);
    assert_eq!(Span::from_secs(2), Span::from_millis(2_000));
    assert_eq!(Span::zero().saturating_sub(Span::from_secs(1)), Span::zero());
    assert!(Span::zero().is_zero());
    let longest = Span { nanos: 18_446_744_073_709_551_615_999_999_999 };
    assert_eq!(longest.saturating_add(longest), longest);
}
