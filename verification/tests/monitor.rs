use performance_monitor::display::{build_tooltip, compose_tooltip, MemoryTexts, StatusDisplay};
use performance_monitor::fraction::{fraction, Percent};
use performance_monitor::monitor::{
    take_snapshot, Lookup, MetricsSnapshot, PerformanceMonitor, ProcessReading,
};
use performance_monitor::sampler::{
    Command, Sampler, SamplerEvent, SamplerState, Warning, REFRESH_INTERVAL_SECS,
};
use performance_monitor::severity::{Color, Severity, Thresholds};
use performance_monitor::text::format_percent;

const MB: u64 = 1_000_000;
const GB: u64 = 1_000_000_000;

fn scale(bytes: u64) -> String {
    human_bytes::human_bytes(bytes as f64)
}

fn reading(process_rss: u64) -> ProcessReading {
    ProcessReading {
        process_rss,
        process_virtual: 4 * GB,
        system_used_memory: 3 * GB,
        system_total_memory: 8 * GB,
        raw_cpu_millipercent: 50_000,
    }
}

fn snapshot(process_rss: u64, system_total_memory: u64) -> MetricsSnapshot {
    MetricsSnapshot {
        process_rss,
        process_virtual: 2 * GB,
        system_used_memory: 600 * MB,
        system_total_memory,
        process_cpu_percent: Percent::from_ratio(125, 10),
    }
}

#[test]
fn a_new_monitor_has_no_snapshot_and_no_peak() {
    let monitor = PerformanceMonitor::new();
    assert!(monitor.snapshot().is_none());
    assert_eq!(monitor.peak_rss(), 0);
    let monitor = PerformanceMonitor::default();
    assert!(monitor.snapshot().is_none());
    assert_eq!(monitor.peak_rss(), 0);
}

#[test]
fn the_default_snapshot_is_all_zero() {
    let snapshot = MetricsSnapshot::default();
    assert_eq!(snapshot.process_rss, 0);
    assert_eq!(snapshot.process_virtual, 0);
    assert_eq!(snapshot.system_used_memory, 0);
    assert_eq!(snapshot.system_total_memory, 0);
    assert_eq!(snapshot.process_cpu_percent.share.num, 0);
    assert_eq!(format_percent(snapshot.process_cpu_percent), "0.0%");
}

#[test]
fn publishing_replaces_the_snapshot_whole() {
    let mut monitor = PerformanceMonitor::new();
    monitor.publish(snapshot(500 * MB, GB));
    let second = MetricsSnapshot {
        process_rss: 300 * MB,
        process_virtual: 7,
        system_used_memory: 8,
        system_total_memory: 9,
        process_cpu_percent: Percent::from_ratio(99, 1),
    };
    monitor.publish(second);
    let latest = monitor.snapshot().unwrap();
    assert_eq!(latest.process_rss, 300 * MB);
    assert_eq!(latest.process_virtual, 7);
    assert_eq!(latest.system_used_memory, 8);
    assert_eq!(latest.system_total_memory, 9);
    assert_eq!(format_percent(latest.process_cpu_percent), "99%");
}

#[test]
fn the_peak_stays_when_a_later_sample_is_smaller() {
    let mut monitor = PerformanceMonitor::new();
    assert!(monitor.observe(&Lookup::Found(reading(500 * MB)), 4));
    assert_eq!(monitor.peak_rss(), 500 * MB);
    assert!(monitor.observe(&Lookup::Found(reading(300 * MB)), 4));
    assert_eq!(monitor.peak_rss(), 500 * MB);
    assert_eq!(monitor.snapshot().unwrap().process_rss, 300 * MB);
}

#[test]
fn the_peak_is_the_maximum_of_all_published() {
    let values = [3u64, 9, 2, 9, 11, 0, 10, u64::MAX, 5];
    let mut monitor = PerformanceMonitor::new();
    let mut largest = 0;
    for value in values {
        let before = monitor.peak_rss();
        monitor.publish(snapshot(value, GB));
        largest = largest.max(value);
        assert!(monitor.peak_rss() >= before);
        assert_eq!(monitor.peak_rss(), largest);
        assert_eq!(monitor.snapshot().unwrap().process_rss, value);
    }
    assert_eq!(monitor.peak_rss(), u64::MAX);
}

#[test]
fn a_miss_changes_neither_snapshot_nor_peak() {
    let mut monitor = PerformanceMonitor::new();
    assert!(!monitor.observe(&Lookup::Missing, 4));
    assert!(monitor.snapshot().is_none());
    assert_eq!(monitor.peak_rss(), 0);
    monitor.observe(&Lookup::Found(reading(500 * MB)), 4);
    assert!(!monitor.observe(&Lookup::Missing, 4));
    assert!(!monitor.observe(&Lookup::Missing, 4));
    assert_eq!(monitor.peak_rss(), 500 * MB);
    let latest = monitor.snapshot().unwrap();
    assert_eq!(latest.process_rss, 500 * MB);
    assert_eq!(latest.process_virtual, 4 * GB);
    assert_eq!(latest.system_used_memory, 3 * GB);
    assert_eq!(latest.system_total_memory, 8 * GB);
    assert_eq!(latest.process_cpu_percent.share.num, 50_000);
    assert_eq!(latest.process_cpu_percent.share.den, 400_000);
}

#[test]
fn a_snapshot_copies_the_counters_and_normalizes_the_cpu() {
    let taken = take_snapshot(&reading(123), 2);
    assert_eq!(taken.process_rss, 123);
    assert_eq!(taken.process_virtual, 4 * GB);
    assert_eq!(taken.system_used_memory, 3 * GB);
    assert_eq!(taken.system_total_memory, 8 * GB);
    assert_eq!(format_percent(taken.process_cpu_percent), "25%");
    let no_cores = take_snapshot(&reading(123), 0);
    assert_eq!(format_percent(no_cores.process_cpu_percent), "0.0%");
    let saturated = take_snapshot(
        &ProcessReading { raw_cpu_millipercent: 900_000, ..reading(1) },
        8,
    );
    assert_eq!(format_percent(saturated.process_cpu_percent), "100%");
}

#[test]
fn seven_hundred_megabytes_of_a_gigabyte_is_a_warning_shown_as_seventy_percent() {
    let share = fraction(700 * MB, GB);
    assert!(share.same_value(&fraction(70, 100)));
    assert_eq!(Thresholds::memory().classify(share), Severity::Warning);
    assert_eq!(format_percent(Percent::from_fraction(share)), "70%");

    let mut monitor = PerformanceMonitor::new();
    monitor.publish(snapshot(700 * MB, GB));
    match monitor.render(&scale) {
        StatusDisplay::Usage { memory_label, memory_color, cpu_label, cpu_color, .. } => {
            assert_eq!(memory_color, Color::Warning);
            assert_eq!(memory_label, format!("RAM {} (70%)", scale(700 * MB)));
            assert_eq!(memory_label, "RAM 667.6 MiB (70%)");
            assert_eq!(cpu_color, Color::Muted);
            assert_eq!(cpu_label, "CPU 12%");
        },
        StatusDisplay::Initializing { .. } => panic!("a snapshot was published"),
    }
}

#[test]
fn a_monitor_without_a_snapshot_shows_that_it_is_starting() {
    let monitor = PerformanceMonitor::new();
    match monitor.render(&scale) {
        StatusDisplay::Initializing { label, color } => {
            assert_eq!(label, "监控初始化中…");
            assert_eq!(color, Color::Muted);
        },
        StatusDisplay::Usage { .. } => panic!("nothing was published"),
    }
}

#[test]
fn memory_and_cpu_are_coloured_separately() {
    let mut monitor = PerformanceMonitor::new();
    monitor.publish(MetricsSnapshot {
        process_rss: 10 * MB,
        process_virtual: 0,
        system_used_memory: 0,
        system_total_memory: GB,
        process_cpu_percent: Percent::from_ratio(95, 1),
    });
    match monitor.render(&scale) {
        StatusDisplay::Usage { memory_label, memory_color, cpu_label, cpu_color, tooltip } => {
            assert_eq!(memory_color, Color::Muted);
            assert_eq!(cpu_color, Color::Error);
            assert_eq!(memory_label, "RAM 9.5 MiB (1.0%)");
            assert_eq!(cpu_label, "CPU 95%");
            assert_eq!(
                tooltip,
                "进程物理内存: 9.5 MiB\n峰值物理内存: 9.5 MiB\n进程虚拟内存: 0 B\n系统内存: 0 B / 953.7 MiB\nCPU 占用: 95% (阈值 70%/90%)\nRAM 占用: 1.0% (阈值 70%/85%)"
            );
        },
        StatusDisplay::Initializing { .. } => panic!("a snapshot was published"),
    }
    monitor.publish(MetricsSnapshot {
        process_rss: 900 * MB,
        process_virtual: 0,
        system_used_memory: 0,
        system_total_memory: GB,
        process_cpu_percent: Percent::from_ratio(70, 1),
    });
    match monitor.render(&scale) {
        StatusDisplay::Usage { memory_color, cpu_color, .. } => {
            assert_eq!(memory_color, Color::Error);
            assert_eq!(cpu_color, Color::Warning);
        },
        StatusDisplay::Initializing { .. } => panic!("a snapshot was published"),
    }
}

#[test]
fn a_machine_without_memory_shows_zero_percent() {
    let mut monitor = PerformanceMonitor::new();
    monitor.publish(snapshot(5 * MB, 0));
    match monitor.render(&scale) {
        StatusDisplay::Usage { memory_label, memory_color, .. } => {
            assert_eq!(memory_color, Color::Muted);
            assert_eq!(memory_label, "RAM 4.8 MiB (0.0%)");
        },
        StatusDisplay::Initializing { .. } => panic!("a snapshot was published"),
    }
}

#[test]
fn the_tooltip_lists_every_counter() {
    let shown = snapshot(700 * MB, GB);
    let tooltip = build_tooltip(&shown, 800 * MB, &scale);
    let expected = format!(
        "进程物理内存: {}\n峰值物理内存: {}\n进程虚拟内存: {}\n系统内存: {} / {}\nCPU 占用: 12% (阈值 70%/90%)\nRAM 占用: 70% (阈值 70%/85%)",
        scale(700 * MB),
        scale(800 * MB),
        scale(2 * GB),
        scale(600 * MB),
        scale(GB),
    );
    assert_eq!(tooltip, expected);
    assert_eq!(
        tooltip,
        "进程物理内存: 667.6 MiB\n峰值物理内存: 762.9 MiB\n进程虚拟内存: 1.9 GiB\n系统内存: 572.2 MiB / 953.7 MiB\nCPU 占用: 12% (阈值 70%/90%)\nRAM 占用: 70% (阈值 70%/85%)"
    );
}

#[test]
fn the_tooltip_leaves_out_a_peak_of_zero() {
    let shown = MetricsSnapshot::default();
    let tooltip = build_tooltip(&shown, 0, &scale);
    assert_eq!(
        tooltip,
        "进程物理内存: 0 B\n进程虚拟内存: 0 B\n系统内存: 0 B / 0 B\nCPU 占用: 0.0% (阈值 70%/90%)\nRAM 占用: 0.0% (阈值 70%/85%)"
    );
    let with_peak = build_tooltip(&shown, 1, &scale);
    assert_eq!(
        with_peak,
        "进程物理内存: 0 B\n峰值物理内存: 1 B\n进程虚拟内存: 0 B\n系统内存: 0 B / 0 B\nCPU 占用: 0.0% (阈值 70%/90%)\nRAM 占用: 0.0% (阈值 70%/85%)"
    );
}

#[test]
fn the_tooltip_is_composed_from_the_given_texts() {
    let texts = MemoryTexts {
        process_rss: "a".to_string(),
        peak_rss: "b".to_string(),
        process_virtual: "c".to_string(),
        system_used: "d".to_string(),
        system_total: "e".to_string(),
    };
    let shown = snapshot(GB, 4 * GB);
    assert_eq!(
        compose_tooltip(&shown, 5, &texts),
        "进程物理内存: a\n峰值物理内存: b\n进程虚拟内存: c\n系统内存: d / e\nCPU 占用: 12% (阈值 70%/90%)\nRAM 占用: 25% (阈值 70%/85%)"
    );
    assert_eq!(
        compose_tooltip(&shown, 0, &texts),
        "进程物理内存: a\n进程虚拟内存: c\n系统内存: d / e\nCPU 占用: 12% (阈值 70%/90%)\nRAM 占用: 25% (阈值 70%/85%)"
    );
    let scaled = MemoryTexts::scaled(&shown, 0, &scale);
    assert_eq!(scaled.process_rss, "953.7 MiB");
    assert_eq!(scaled.peak_rss, "0 B");
    assert_eq!(scaled.system_total, "3.7 GiB");
}

#[test]
fn the_loop_samples_publishes_and_sleeps_in_turn() {
    let mut sampler = Sampler::new(4);
    assert_eq!(sampler.state(), SamplerState::Starting);
    assert_eq!(sampler.cpu_count(), 4);
    assert!(!sampler.is_stopped());

    let decided = sampler.step(SamplerEvent::ProcessResolved);
    assert!(matches!(decided.command, Command::Sample));
    assert_eq!(decided.warning, None);
    assert_eq!(sampler.state(), SamplerState::Sampling);

    let decided = sampler.step(SamplerEvent::Sampled(Lookup::Found(reading(500 * MB))));
    assert_eq!(decided.warning, None);
    assert_eq!(sampler.state(), SamplerState::Publishing);
    match decided.command {
        Command::Publish(published) => {
            assert_eq!(published.process_rss, 500 * MB);
            assert_eq!(published.process_virtual, 4 * GB);
            assert_eq!(published.system_used_memory, 3 * GB);
            assert_eq!(published.system_total_memory, 8 * GB);
            assert_eq!(format_percent(published.process_cpu_percent), "12%");
        },
        _ => panic!("a found process is published"),
    }

    let decided = sampler.step(SamplerEvent::Published);
    assert!(matches!(decided.command, Command::Sleep(2)));
    assert!(matches!(decided.command, Command::Sleep(REFRESH_INTERVAL_SECS)));
    assert_eq!(decided.warning, None);
    assert_eq!(sampler.state(), SamplerState::Sleeping);

    let decided = sampler.step(SamplerEvent::TimerElapsed);
    assert!(matches!(decided.command, Command::Sample));
    assert_eq!(sampler.state(), SamplerState::Sampling);
    assert_eq!(sampler.cpu_count(), 4);
}

#[test]
fn an_unresolved_process_ends_the_loop_for_good() {
    let mut sampler = Sampler::new(1);
    let decided = sampler.step(SamplerEvent::ProcessUnresolved);
    assert!(matches!(decided.command, Command::Stop));
    assert_eq!(decided.warning, Some(Warning::ProcessUnresolved));
    assert!(sampler.is_stopped());
    for event in [
        SamplerEvent::ProcessResolved,
        SamplerEvent::ProcessUnresolved,
        SamplerEvent::Sampled(Lookup::Missing),
        SamplerEvent::Sampled(Lookup::Found(reading(1))),
        SamplerEvent::Published,
        SamplerEvent::TargetGone,
        SamplerEvent::TimerElapsed,
    ] {
        let decided = sampler.step(event);
        assert!(matches!(decided.command, Command::Stop));
        assert_eq!(decided.warning, None);
        assert_eq!(sampler.state(), SamplerState::Stopped);
    }
}

#[test]
fn a_missing_process_costs_one_cycle_only() {
    let mut sampler = Sampler::new(2);
    sampler.step(SamplerEvent::ProcessResolved);
    let decided = sampler.step(SamplerEvent::Sampled(Lookup::Missing));
    assert!(matches!(decided.command, Command::Sleep(2)));
    assert_eq!(decided.warning, Some(Warning::ProcessMissing));
    assert_eq!(sampler.state(), SamplerState::Sleeping);
    let decided = sampler.step(SamplerEvent::TimerElapsed);
    assert!(matches!(decided.command, Command::Sample));
    assert_eq!(decided.warning, None);
    let decided = sampler.step(SamplerEvent::Sampled(Lookup::Found(reading(9))));
    assert!(matches!(decided.command, Command::Publish(_)));
}

#[test]
fn a_target_that_is_gone_ends_the_loop_silently() {
    let mut sampler = Sampler::new(2);
    sampler.step(SamplerEvent::ProcessResolved);
    sampler.step(SamplerEvent::Sampled(Lookup::Found(reading(9))));
    let decided = sampler.step(SamplerEvent::TargetGone);
    assert!(matches!(decided.command, Command::Stop));
    assert_eq!(decided.warning, None);
    assert!(sampler.is_stopped());
}

#[test]
fn an_event_out_of_turn_is_ignored() {
    let mut sampler = Sampler::new(2);
    for event in [
        SamplerEvent::Sampled(Lookup::Missing),
        SamplerEvent::Published,
        SamplerEvent::TargetGone,
        SamplerEvent::TimerElapsed,
    ] {
        let decided = sampler.step(event);
        assert!(matches!(decided.command, Command::Ignore));
        assert_eq!(decided.warning, None);
        assert_eq!(sampler.state(), SamplerState::Starting);
    }
    sampler.step(SamplerEvent::ProcessResolved);
    for event in [
        SamplerEvent::ProcessResolved,
        SamplerEvent::ProcessUnresolved,
        SamplerEvent::Published,
        SamplerEvent::TargetGone,
        SamplerEvent::TimerElapsed,
    ] {
        let decided = sampler.step(event);
        assert!(matches!(decided.command, Command::Ignore));
        assert_eq!(sampler.state(), SamplerState::Sampling);
    }
}

#[test]
fn a_run_of_the_loop_feeds_the_monitor() {
    let outcomes = [
        Lookup::Found(reading(500 * MB)),
        Lookup::Missing,
        Lookup::Found(reading(300 * MB)),
        Lookup::Missing,
    ];
    let mut sampler = Sampler::new(4);
    let mut monitor = PerformanceMonitor::new();
    let mut warnings = 0;
    let mut command = sampler.step(SamplerEvent::ProcessResolved).command;
    for outcome in outcomes {
        assert!(matches!(command, Command::Sample));
        let decided = sampler.step(SamplerEvent::Sampled(outcome));
        if decided.warning.is_some() {
            warnings += 1;
        }
        let after = match decided.command {
            Command::Publish(published) => {
                monitor.publish(published);
                sampler.step(SamplerEvent::Published).command
            },
            other => other,
        };
        assert!(matches!(after, Command::Sleep(2)));
        command = sampler.step(SamplerEvent::TimerElapsed).command;
    }
    assert_eq!(warnings, 2);
    assert_eq!(monitor.peak_rss(), 500 * MB);
    assert_eq!(monitor.snapshot().unwrap().process_rss, 300 * MB);
    assert!(!sampler.is_stopped());
}
