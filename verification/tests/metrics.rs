use voipswitchd::system_metrics::{
    calculate_cpu_load, parse_cpu_times, parse_memory, read_cpu_times, CpuTimes,
    SystemMetricsSampler,
};

#[test]
fn parses_cpu_and_calculates_delta_percentage() {
    let previous = parse_cpu_times("cpu  10 0 10 80 0 0 0 0\n").unwrap();
    let current = parse_cpu_times("cpu  20 0 20 160 0 0 0 0\n").unwrap();
    let load = calculate_cpu_load(previous, current);
    let percent = load.busy as f64 * 100.0 / load.total as f64;
    assert!((percent - 20.0).abs() < 0.001);
}

#[test]
fn parses_available_memory_as_used_memory() {
    let (used, total) = parse_memory("MemTotal: 1000 kB\nMemAvailable: 250 kB\n").unwrap();
    assert_eq!(total, 1_024_000);
    assert_eq!(used, 768_000);
}

#[test]
fn unreadable_input_gives_nothing() {
    assert!(parse_cpu_times("intr 1 2 3\n").is_none());
    assert!(read_cpu_times("cpu x\n").is_none());
    assert!(parse_memory("MemTotal: 1000 kB\n").is_none());
    assert!(read_cpu_times(&format!("cpu {} {} 0 0 0\n", u64::MAX, u64::MAX)).is_none());
}

#[test]
fn first_sample_has_no_load() {
    let mut sampler = SystemMetricsSampler::new();
    let times = CpuTimes {
        total: 100,
        idle: 80,
    };
    let first = sampler.sample(Some(times), Some((1, 2)));
    assert!(first.cpu.is_none());
    assert_eq!(first.memory_used_bytes, Some(1));
    let second = sampler.sample(
        Some(CpuTimes {
            total: 200,
            idle: 160,
        }),
        None,
    );
    assert_eq!(second.cpu.unwrap().busy, 20);
    assert_eq!(second.cpu.unwrap().total, 100);
    assert_eq!(second.memory_total_bytes, None);
}
