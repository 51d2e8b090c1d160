use pchecker::health::{CheckSummary, Conclusion};
use pchecker::cpu::{calculate_primes, calculate_variance, cpu_test_result, evaluate_cpu_health, frequency_drop_tenths, is_prime, mean_micros, CpuTemp};
use pchecker::disk::{bad_sectors_from_bytes, count_bad_bytes, evaluate_disk_health, merge_smart_status, seek_offset, SmartData, SmartStatus, DISK_PATTERN};
use pchecker::gpu::{evaluate_gpu_health, gpu_test_result, is_apple_silicon, run_gpu_compute_stress_sync, GpuTemp};
use pchecker::health::HealthStatus;
use pchecker::ram::{count_mismatches, evaluate_ram_health, fill_pattern, ram_test_result, standalone_test_size, torture_test_size, RamTestConfig, GIB, RAM_PATTERN};

#[test]
fn test_prime_calculation() {
    assert_eq!(calculate_primes(1), 1);
    assert_eq!(calculate_primes(3), 3);
}

#[test]
fn test_is_prime() {
    assert!(is_prime(2));
    assert!(is_prime(3));
    assert!(is_prime(5));
    assert!(!is_prime(4));
    assert!(!is_prime(9));
}

#[test]
fn primes_around_squares() {
    assert!(!is_prime(0));
    assert!(!is_prime(1));
    assert!(!is_prime(25));
    assert!(!is_prime(49));
    assert!(is_prime(97));
    assert!(is_prime(104729));
    assert_eq!(calculate_primes(0), 0);
    assert_eq!(calculate_primes(100), 100);
}

// Variance and temperatures are in tenths (10.0 % is 100; 90.0 °C is 900).
#[test]
fn test_evaluate_cpu_health() {
    assert!(matches!(evaluate_cpu_health(true, 100, None, 0), HealthStatus::Healthy));
    assert!(matches!(evaluate_cpu_health(true, 500, None, 0), HealthStatus::Healthy));
    assert!(matches!(evaluate_cpu_health(true, 1500, None, 0), HealthStatus::Healthy));

    let hot_temp = CpuTemp { current: 900 };
    assert!(matches!(evaluate_cpu_health(true, 100, Some(&hot_temp), 0), HealthStatus::IssuesDetected(_)));

    assert!(matches!(evaluate_cpu_health(true, 100, None, 150), HealthStatus::IssuesDetected(_)));

    assert!(matches!(evaluate_cpu_health(true, 2500, None, 0), HealthStatus::Failed(_)));

    assert!(matches!(evaluate_cpu_health(false, 0, None, 0), HealthStatus::Failed(_)));

    let overheat_temp = CpuTemp { current: 1000 };
    assert!(matches!(evaluate_cpu_health(true, 100, Some(&overheat_temp), 0), HealthStatus::Failed(_)));
}

#[test]
fn cpu_thresholds_and_messages() {
    // Nominal on every signal, boundaries included.
    let t85 = CpuTemp { current: 850 };
    assert!(matches!(evaluate_cpu_health(true, 2000, Some(&t85), 100), HealthStatus::Healthy));
    let t95 = CpuTemp { current: 950 };
    match evaluate_cpu_health(true, 0, Some(&t95), 0) {
        HealthStatus::IssuesDetected(v) => assert_eq!(v, vec!["CPU running hot (95.0°C) - check cooling".to_string()]),
        _ => panic!("expected issues"),
    }
    let t951 = CpuTemp { current: 951 };
    match evaluate_cpu_health(true, 0, Some(&t951), 0) {
        HealthStatus::Failed(m) => assert_eq!(m, "CPU overheating (95.1°C) - cooling system failure"),
        _ => panic!("expected failure"),
    }
    // Overheating fails whatever the variance.
    let t100 = CpuTemp { current: 1000 };
    assert!(matches!(evaluate_cpu_health(true, 0, Some(&t100), 0), HealthStatus::Failed(_)));
    assert!(matches!(evaluate_cpu_health(true, 2500, Some(&t100), 0), HealthStatus::Failed(_)));
    match evaluate_cpu_health(true, 100, Some(&CpuTemp { current: 900 }), 153) {
        HealthStatus::IssuesDetected(v) => {
            assert_eq!(v.len(), 2);
            assert_eq!(v[1], "CPU throttled by 15.3% - possible thermal or power limit");
        }
        _ => panic!("expected issues"),
    }
    match evaluate_cpu_health(true, 2501, None, 0) {
        HealthStatus::Failed(m) => assert_eq!(m, "Extreme instability detected (variance: 250.1%) - possible CPU fault"),
        _ => panic!("expected failure"),
    }
}

#[test]
fn frequency_drop_in_tenths() {
    assert_eq!(frequency_drop_tenths(3000, 2700), 100);
    assert_eq!(frequency_drop_tenths(3000, 2600), 133);
    assert_eq!(frequency_drop_tenths(3000, 3200), 0);
    assert_eq!(frequency_drop_tenths(0, 100), 0);
}

#[test]
fn variance_of_timings() {
    assert_eq!(mean_micros(&[]), 0);
    assert_eq!(calculate_variance(&[], 0), 0);
    assert_eq!(mean_micros(&[100, 100, 100]), 100);
    assert_eq!(calculate_variance(&[100, 100, 100], 100), 0);
    // Standard deviation 50 around a mean of 100: 50.0 %.
    assert_eq!(mean_micros(&[50, 150]), 100);
    assert_eq!(calculate_variance(&[50, 150], 100), 500);
    // Standard deviation 100 around 100: 100.0 %.
    assert_eq!(calculate_variance(&[0, 200], 100), 1000);
}

#[test]
fn cpu_result_from_run() {
    let r = cpu_test_result("Test CPU".to_string(), 2, 10, true, 1000, &[50, 150], &[], 3000, 2600);
    assert_eq!(r.ops_per_second, 100);
    assert_eq!(r.avg_op_time_us, 100);
    assert_eq!(r.variance_pct, 500);
    assert_eq!(r.freq_drop_pct, 133);
    assert!(matches!(r.health, HealthStatus::IssuesDetected(_)));
}

// Sizes in tenths of a GB, speeds in tenths of a GB/s.
#[test]
fn test_evaluate_ram_health() {
    assert!(matches!(evaluate_ram_health(80, 150, 200, 0), HealthStatus::Healthy));
    assert!(matches!(evaluate_ram_health(80, 5, 5, 0), HealthStatus::Healthy));
    assert!(matches!(evaluate_ram_health(80, 150, 200, 1), HealthStatus::Failed(_)));
    assert!(matches!(evaluate_ram_health(80, 2, 2, 0), HealthStatus::Failed(_)));
}

#[test]
fn ram_failure_messages() {
    match evaluate_ram_health(80, 150, 200, 3) {
        HealthStatus::Failed(m) => assert_eq!(m, "Memory errors detected (3 errors) - BAD RAM"),
        _ => panic!("expected failure"),
    }
    match evaluate_ram_health(0, 150, 200, 0) {
        HealthStatus::Failed(m) => assert_eq!(m, "Memory allocation failed"),
        _ => panic!("expected failure"),
    }
    match evaluate_ram_health(80, 150, 2, 0) {
        HealthStatus::Failed(m) => assert_eq!(m, "Extremely low read speed (0.2 GB/s) - faulty RAM or wrong slot"),
        _ => panic!("expected failure"),
    }
    assert!(matches!(evaluate_ram_health(1, 3, 3, 0), HealthStatus::Healthy));
}

#[test]
fn ram_round_trip_has_no_errors() {
    let mut buf = vec![0u64; 5000];
    let n = buf.len();
    fill_pattern(&mut buf, 0, n, RAM_PATTERN);
    let errors = count_mismatches(&buf, 0, n, RAM_PATTERN);
    assert_eq!(errors, 0);
    assert!(matches!(evaluate_ram_health(80, 150, 200, errors), HealthStatus::Healthy));
}

#[test]
fn ram_one_corrupted_word_fails() {
    let mut buf = vec![0u64; 5000];
    let n = buf.len();
    fill_pattern(&mut buf, 0, n, RAM_PATTERN);
    buf[1234] ^= 1;
    let errors = count_mismatches(&buf, 0, n, RAM_PATTERN);
    assert!(errors >= 1);
    assert_eq!(errors, 1);
    assert!(matches!(evaluate_ram_health(80, 999, 999, errors), HealthStatus::Failed(_)));
    assert_eq!(count_mismatches(&buf, 0, 1234, RAM_PATTERN), 0);
}

#[test]
fn fill_touches_only_its_range() {
    let mut buf = vec![7u64; 10];
    fill_pattern(&mut buf, 2, 5, 9);
    assert_eq!(buf, vec![7, 7, 9, 9, 9, 7, 7, 7, 7, 7]);
}

#[test]
fn ram_sizes_and_speeds() {
    assert_eq!(torture_test_size(2 * GIB), GIB);
    assert_eq!(torture_test_size(64 * GIB), 4 * GIB);
    assert_eq!(standalone_test_size(&RamTestConfig::default(), 32 * GIB, 10 * GIB), 8 * GIB);
    assert_eq!(standalone_test_size(&RamTestConfig { max_gb: Some(1) }, 32 * GIB, 10 * GIB), GIB / 10);
    assert_eq!(standalone_test_size(&RamTestConfig::default(), 64 * GIB, 64 * GIB), 16 * GIB);
    let r = ram_test_result(&RamTestConfig::default(), 160, GIB, 100_000_000, 200_000_000, 0);
    assert_eq!(r.tested_gb, 10);
    assert_eq!(r.write_speed_gb_s, 100);
    assert_eq!(r.read_speed_gb_s, 50);
    assert!(matches!(r.health, HealthStatus::Healthy));
}

// Speeds in tenths of a MB/s, seek time in tenths of a ms.
#[test]
fn test_evaluate_disk_health() {
    assert!(matches!(evaluate_disk_health(5000, 20000, 5, 0, true), HealthStatus::Healthy));
    assert!(matches!(evaluate_disk_health(1000, 800, 100, 0, false), HealthStatus::Healthy));
    assert!(matches!(evaluate_disk_health(5000, 20000, 5, 1, true), HealthStatus::Failed(_)));
    assert!(matches!(evaluate_disk_health(5000, 200, 5, 0, true), HealthStatus::Failed(_)));
    assert!(matches!(evaluate_disk_health(50, 800, 100, 0, false), HealthStatus::Failed(_)));
    assert!(matches!(evaluate_disk_health(1000, 800, 250, 0, false), HealthStatus::IssuesDetected(_)));
}

#[test]
fn disk_bad_sector_beats_speed() {
    match evaluate_disk_health(5000, 20000, 0, 1, true) {
        HealthStatus::Failed(m) => assert_eq!(m, "Bad sectors detected (1 sectors) - disk failure imminent"),
        _ => panic!("expected failure"),
    }
    match evaluate_disk_health(5000, 900, 0, 0, true) {
        HealthStatus::IssuesDetected(v) => assert_eq!(v, vec!["SSD read speed below average (90.0 MB/s)".to_string()]),
        _ => panic!("expected issues"),
    }
}

#[test]
fn disk_one_corrupted_byte_fails() {
    let mut data = vec![DISK_PATTERN; 8192];
    assert_eq!(count_bad_bytes(&data, DISK_PATTERN), 0);
    assert_eq!(bad_sectors_from_bytes(0), 0);
    data[100] = 0;
    let bad = count_bad_bytes(&data, DISK_PATTERN);
    assert_eq!(bad, 1);
    let sectors = bad_sectors_from_bytes(bad);
    assert_eq!(sectors, 1);
    assert!(matches!(evaluate_disk_health(5000, 20000, 5, sectors, true), HealthStatus::Failed(_)));
    assert_eq!(bad_sectors_from_bytes(4096), 1);
    assert_eq!(bad_sectors_from_bytes(4097), 2);
}

#[test]
fn smart_failing_only_changes_outcome() {
    let mut smart = SmartData::default();
    assert!(matches!(merge_smart_status(HealthStatus::Healthy, Some(&smart)), HealthStatus::Healthy));
    smart.status = SmartStatus::Failing;
    assert!(matches!(merge_smart_status(HealthStatus::Healthy, Some(&smart)), HealthStatus::Failed(_)));
    match merge_smart_status(HealthStatus::Failed("x".to_string()), Some(&smart)) {
        HealthStatus::Failed(m) => assert_eq!(m, "x"),
        _ => panic!("expected failure"),
    }
}

#[test]
fn test_smart_data_default() {
    let data = SmartData::default();
    assert_eq!(data.status, SmartStatus::Unknown);
    assert!(data.temperature_c.is_none());
}

#[test]
fn test_smart_status_equality() {
    assert_eq!(SmartStatus::Verified, SmartStatus::Verified);
    assert_ne!(SmartStatus::Verified, SmartStatus::Failing);
}

#[test]
fn seek_offsets_are_aligned() {
    assert_eq!(seek_offset(5, 4096), None);
    assert_eq!(seek_offset(10_000, 1_048_576), Some(8192));
    assert_eq!(seek_offset(u64::MAX, 1_048_576) .unwrap() % 4096, 0);
}

// Temperatures in tenths of a degree.
#[test]
fn test_evaluate_gpu_health() {
    assert!(matches!(evaluate_gpu_health(Some(700), false), HealthStatus::Healthy));
    assert!(matches!(evaluate_gpu_health(Some(800), false), HealthStatus::Healthy));
    assert!(matches!(evaluate_gpu_health(Some(900), false), HealthStatus::IssuesDetected(_)));
    assert!(matches!(evaluate_gpu_health(Some(1000), false), HealthStatus::Failed(_)));
    assert!(matches!(evaluate_gpu_health(None, false), HealthStatus::IssuesDetected(_)));
    assert!(matches!(evaluate_gpu_health(None, true), HealthStatus::Healthy));
}

#[test]
fn gpu_result_from_readings() {
    assert!(is_apple_silicon("Integrated", "Apple M3 Max"));
    assert!(!is_apple_silicon("Discrete", "Apple M3 Max"));
    let r = gpu_test_result("Apple M1".to_string(), "Integrated".to_string(), Some(80), None, &[], None);
    assert!(r.is_apple_silicon);
    assert!(matches!(r.health, HealthStatus::Healthy));
    let r = gpu_test_result("Test GPU".to_string(), "Discrete".to_string(), None, Some(GpuTemp { current: 600 }), &[700, 905, 650], Some(GpuTemp { current: 640 }));
    assert_eq!(r.temperature_max, Some(905));
    match r.health {
        HealthStatus::IssuesDetected(v) => assert_eq!(v, vec!["GPU running hot (90.5°C) - check cooling system".to_string()]),
        _ => panic!("expected issues"),
    }
    assert!(run_gpu_compute_stress_sync(5, false).is_err());
}

#[test]
fn cpu_bands_scenarios() {
    // Nominal: variance 0-200 %, at most 85 °C, drop at most 10 %.
    for (v, t, d) in [(0u64, 850i64, 100u64), (2000, 600, 0), (1000, 849, 99)] {
        assert!(matches!(evaluate_cpu_health(true, v, Some(&CpuTemp { current: t }), d), HealthStatus::Healthy));
    }
    // (85, 95] °C is an issue.
    for t in [851i64, 900, 950] {
        assert!(matches!(evaluate_cpu_health(true, 100, Some(&CpuTemp { current: t }), 0), HealthStatus::IssuesDetected(_)));
    }
    // Above 95 °C fails whatever the variance.
    for v in [0u64, 2000, 5000] {
        assert!(matches!(evaluate_cpu_health(true, v, Some(&CpuTemp { current: 951 }), 0), HealthStatus::Failed(_)));
    }
}

#[test]
fn disk_bad_sector_with_fast_speeds() {
    // One bad sector at 500 MB/s write and 2000 MB/s read still fails.
    assert!(matches!(evaluate_disk_health(5000, 20000, 0, 1, true), HealthStatus::Failed(_)));
    assert!(matches!(evaluate_disk_health(5000, 20000, 0, 1, false), HealthStatus::Failed(_)));
}

#[test]
fn gpu_without_sensor() {
    assert!(matches!(evaluate_gpu_health(None, true), HealthStatus::Healthy));
    match evaluate_gpu_health(None, false) {
        HealthStatus::IssuesDetected(v) => assert_eq!(v, vec!["GPU temperature sensor not available - unable to verify thermal status".to_string()]),
        _ => panic!("expected issues"),
    }
}

#[test]
fn status_outcomes() {
    assert_eq!(HealthStatus::Healthy.outcome(), (true, vec![]));
    let issues = HealthStatus::IssuesDetected(vec!["a".to_string(), "b".to_string()]);
    assert_eq!(issues.outcome(), (false, vec!["a".to_string(), "b".to_string()]));
    assert_eq!(HealthStatus::Failed("x".to_string()).outcome(), (false, vec!["x".to_string()]));
    assert!(HealthStatus::Healthy.is_healthy());
    assert!(HealthStatus::Failed(String::new()).is_failed());
}

#[test]
fn check_summary_conclusions() {
    let mut s = CheckSummary::new();
    s.record("CPU", &HealthStatus::Healthy);
    assert_eq!(s.conclusion(), Conclusion::Good);
    s.record("Disk", &HealthStatus::IssuesDetected(vec!["slow".to_string()]));
    assert_eq!(s.conclusion(), Conclusion::SomeIssues);
    s.record("RAM", &HealthStatus::Failed("bad".to_string()));
    assert_eq!(s.conclusion(), Conclusion::NotRecommended);
    assert_eq!(s.issues, vec!["slow".to_string(), "bad".to_string()]);
    assert_eq!(s.critical, vec!["RAM: bad".to_string()]);
}

#[test]
fn test_ram_test_small() {
    // 0.1 GB on sound memory: the pattern goes in, comes back unchanged.
    let config = RamTestConfig { max_gb: Some(1) };
    let bytes = standalone_test_size(&config, 32 * GIB, 16 * GIB);
    let words = (bytes / 8) as usize;
    let mut buffer = vec![0u64; words];
    let start = std::time::Instant::now();
    fill_pattern(&mut buffer, 0, words, RAM_PATTERN);
    let write_nanos = start.elapsed().as_nanos() as u64;
    let start = std::time::Instant::now();
    let errors = count_mismatches(&buffer, 0, words, RAM_PATTERN);
    let read_nanos = start.elapsed().as_nanos() as u64;
    let result = ram_test_result(&config, 160, bytes, write_nanos, read_nanos, errors);
    assert!(result.tested_gb > 0);
    assert_eq!(result.tested_gb, 1);
    assert_eq!(result.ram_total_gb, 160);
    assert!(matches!(result.health, HealthStatus::Healthy));
    assert_eq!(result.errors, 0);
}

#[test]
fn ram_configured_amount_is_reported() {
    let cfg = RamTestConfig { max_gb: Some(1) };
    let r = ram_test_result(&cfg, 160, GIB / 10, 10_000_000, 10_000_000, 0);
    assert_eq!(r.tested_gb, 1);
    assert!(matches!(r.health, HealthStatus::Healthy));
    let big = RamTestConfig { max_gb: Some(500) };
    assert_eq!(ram_test_result(&big, 640, 16 * GIB, 1_000_000_000, 1_000_000_000, 0).tested_gb, 160);
}

#[test]
fn cpu_judged_on_peak_temperature() {
    // A brief spike above 95 °C fails the run although the last reading is nominal.
    let r = cpu_test_result("CPU".to_string(), 4, 10, true, 100, &[100, 100], &[700, 962, 710], 3000, 3000);
    assert_eq!(r.temperature, Some(CpuTemp { current: 962 }));
    match r.health {
        HealthStatus::Failed(m) => assert_eq!(m, "CPU overheating (96.2°C) - cooling system failure"),
        _ => panic!("expected failure"),
    }
    let r = cpu_test_result("CPU".to_string(), 4, 10, true, 100, &[100, 100], &[], 3000, 3000);
    assert_eq!(r.temperature, None);
    assert!(matches!(r.health, HealthStatus::Healthy));
}

#[test]
fn seek_average_in_tenths() {
    assert_eq!(pchecker::disk::seek_average_tenths_ms(0, 0), 0);
    // 10 seeks totalling 5 ms: 0.5 ms each.
    assert_eq!(pchecker::disk::seek_average_tenths_ms(5_000_000, 10), 5);
}

#[test]
fn gpu_compute_probe_message() {
    match run_gpu_compute_stress_sync(30, true) {
        Err(e) => assert_eq!(e, "GPU compute stress test not enabled. Build with --features gpu-compute"),
        Ok(_) => panic!("no compute backend in this build"),
    }
}
