use pchecker::lang::Text;
use pchecker::dashboard::{dashboard_lines, summary_lines, CpuMetrics};
use pchecker::disk_lane::{DiskAction, DiskPhase, DiskTortureTest};
use pchecker::gpu_lane::{gpu_work_unit, GpuTortureTest, StopOnce};
use pchecker::lang::Language;
use pchecker::ram::GIB;
use pchecker::ram_lane::{RamPhase, RamTortureTest};
use pchecker::torture::{
    chunk_ms, cpu_partial_result, cycle_pause_ms, disk_partial_result, gpu_partial_result, keep_running, next_state,
    ram_partial_result, round_to_tenths, TortureConfig, TortureEvent, TortureResult, TortureSchedule, TortureState,
};

#[test]
fn state_machine_paths() {
    let d = 5000;
    assert_eq!(next_state(TortureState::Prompt, TortureEvent::Answered(true), d, false), TortureState::Running);
    assert_eq!(next_state(TortureState::Prompt, TortureEvent::Answered(false), d, false), TortureState::Cancelled);
    assert_eq!(next_state(TortureState::Prompt, TortureEvent::Answered(false), d, true), TortureState::Running);
    assert_eq!(next_state(TortureState::Running, TortureEvent::Tick(4999), d, false), TortureState::Running);
    assert_eq!(next_state(TortureState::Running, TortureEvent::Tick(5000), d, false), TortureState::Stopping);
    assert_eq!(next_state(TortureState::Stopping, TortureEvent::AllStopped, d, false), TortureState::Summarized);
    assert_eq!(next_state(TortureState::Summarized, TortureEvent::Tick(0), d, false), TortureState::Summarized);
    assert_eq!(next_state(TortureState::Cancelled, TortureEvent::Answered(true), d, false), TortureState::Cancelled);
    let config = TortureConfig { duration_secs: 60, verbose: false, language: Language::English, skip_confirm: true };
    assert_eq!(config.initial_state(), TortureState::Running);
    assert_eq!(config.duration_ms(), 60_000);
}

#[test]
fn schedule_timing() {
    assert_eq!(chunk_ms(), 25);
    assert_eq!(cycle_pause_ms(30), 70);
    assert_eq!(cycle_pause_ms(100), 0);
    assert_eq!(cycle_pause_ms(250), 0);
    // A loop checking every 100 ms stops at the first check at or past the
    // duration, within one cycle of it, for 5 s and 60 s alike.
    for d in [5_000u64, 60_000u64] {
        let mut elapsed = 0u64;
        while keep_running(elapsed, d) {
            let work = 37;
            elapsed += work + cycle_pause_ms(work);
        }
        assert!(d <= elapsed && elapsed < d + 100);
    }
}

#[test]
fn schedule_renders_every_tenth_cycle() {
    let mut s = TortureSchedule::new();
    let mut renders = 0;
    for i in 0..30 {
        let temp = if i == 5 { Some(720) } else { Some(650) };
        if s.end_cycle(temp, None) {
            renders += 1;
            s.rendered();
        }
    }
    assert_eq!(renders, 3);
    assert!(!s.first_render);
    assert_eq!(s.max_cpu_temp, Some(720));
    assert_eq!(s.max_gpu_temp, None);
}

fn healthy_lanes() -> (pchecker::torture::CpuPartialResult, pchecker::torture::DiskPartialResult, pchecker::torture::GpuPartialResult) {
    (cpu_partial_result(10, Some(600), 3200), disk_partial_result(50_000, 80_000, 0), gpu_partial_result(None, 5, true))
}

#[test]
fn survival_is_and_of_lanes() {
    let (cpu, disk, gpu) = healthy_lanes();
    let r = TortureResult::completed(60, cpu, ram_partial_result(10, 0), disk, gpu);
    assert!(r.survived);
    let (cpu, disk, gpu) = healthy_lanes();
    let r = TortureResult::completed(60, cpu, ram_partial_result(10, 1), disk, gpu);
    assert!(!r.survived);
    assert_eq!(r.ram_result.as_ref().unwrap().status.as_deref(), Some("1 errors detected"));
    let c = TortureResult::cancelled();
    assert!(!c.survived && c.cpu_result.is_none());
}

#[test]
fn lane_outcome_messages() {
    let c = cpu_partial_result(1, Some(960), 3000);
    assert!(!c.healthy);
    assert_eq!(c.status.as_deref(), Some("Overheating: 96.0°C"));
    let c = cpu_partial_result(1, None, 3000);
    assert!(c.healthy);
    assert_eq!(c.status.as_deref(), Some("OK (no temp data)"));
    let g = gpu_partial_result(Some(860), 0, false);
    assert!(!g.healthy);
    assert_eq!(g.status.as_deref(), Some("Running hot: 86.0°C"));
    assert!(gpu_partial_result(Some(850), 0, false).healthy);
    let g = gpu_partial_result(Some(951), 0, true);
    assert_eq!(g.status.as_deref(), Some("Overheating: 95.1°C"));
    let g = gpu_partial_result(None, 0, false);
    assert!(!g.healthy);
    assert_eq!(g.status.as_deref(), Some("No temperature data - thermal status unknown"));
    assert!(gpu_partial_result(None, 0, true).healthy);
    let d = disk_partial_result(949, 5000, 0);
    assert!(!d.healthy);
    assert_eq!(d.status.as_deref(), Some("Very slow write: 0.9 MB/s"));
    let d = disk_partial_result(5000, 5000, 2);
    assert_eq!(d.status.as_deref(), Some("2 I/O errors"));
    assert_eq!(round_to_tenths(949), 9);
    assert_eq!(round_to_tenths(950), 10);
    let r = ram_partial_result(0, 0);
    assert_eq!(r.status.as_deref(), Some("Allocation failed"));
}

#[test]
fn ram_lane_round_trip() {
    let mut lane = RamTortureTest::new();
    assert!(lane.needs_memory_probe());
    // 0.3 GB available: 0.15 GB tested, a single chunk of words.
    lane.run_chunk(25, 3 * GIB / 10);
    assert_eq!(lane.phase, RamPhase::Write);
    assert_eq!(lane.tested_gb, 1);
    let mut passes = 0;
    for _ in 0..200 {
        let before = lane.phase;
        lane.run_chunk(25, 0);
        if before == RamPhase::Verify && lane.phase == RamPhase::Write {
            passes += 1;
        }
    }
    assert!(passes >= 1);
    assert_eq!(lane.errors, 0);
    let m = lane.get_metrics();
    assert_eq!(m.errors, 0);
    assert!(m.load_pct == 90 || m.load_pct == 85);
    let r = lane.get_result();
    assert!(r.healthy);
    lane.stop();
    lane.stop();
    assert_eq!(lane.phase, RamPhase::Done);
    assert!(lane.buffer.is_none());
    assert_eq!(lane.get_metrics().status, "Complete");
}

#[test]
fn ram_lane_gives_up_without_memory() {
    let mut lane = RamTortureTest::new();
    lane.run_chunk(25, GIB / 10);
    assert_eq!(lane.phase, RamPhase::Done);
    let r = lane.get_result();
    assert!(!r.healthy);
}

#[test]
fn disk_lane_cycle() {
    let mut lane = DiskTortureTest::new("/tmp/lane.tmp".to_string());
    assert_eq!(lane.next_action(), DiskAction::CreateFile);
    lane.file_created(true);
    assert_eq!(lane.next_action(), DiskAction::WriteChunk { rewind: true });
    for _ in 0..10 {
        lane.chunk_written(true, 1_000_000);
    }
    assert_eq!(lane.phase, DiskPhase::Read);
    assert_eq!(lane.next_action(), DiskAction::ReadChunk { rewind: true });
    let good = vec![0xA5u8; 16];
    lane.chunk_read(Some(&good), 1_000_000);
    assert_eq!(lane.errors, 0);
    assert_eq!(lane.next_action(), DiskAction::ReadChunk { rewind: false });
    let mut bad = good.clone();
    bad[3] = 0;
    lane.chunk_read(Some(&bad), 1_000_000);
    assert_eq!(lane.errors, 1);
    lane.chunk_read(None, 0);
    assert_eq!(lane.errors, 2);
    let m = lane.get_metrics();
    assert_eq!(m.status, "Reading 30%");
    // 10 MB written in 12 ms of I/O: 833.333 MB/s.
    assert_eq!(m.write_speed_mb_s, 833_333);
    let r = lane.get_result();
    assert!(!r.healthy);
    lane.stop();
    lane.stop();
    assert_eq!(lane.next_action(), DiskAction::Idle);
}

#[test]
fn disk_lane_without_file() {
    let mut lane = DiskTortureTest::new("/nonexistent/x".to_string());
    lane.file_created(false);
    assert_eq!(lane.next_action(), DiskAction::Idle);
    assert_eq!(lane.get_metrics().status, "Complete");
    assert!(!lane.get_result().healthy);
}

#[test]
fn gpu_lane_and_cpu_stop() {
    let mut lane = GpuTortureTest::new(60, false);
    assert_eq!(lane.get_metrics(None).load_pct, 50);
    lane.record_temperature(Some(700));
    lane.record_temperature(None);
    lane.record_temperature(Some(650));
    assert_eq!(lane.max_temp, Some(700));
    assert_eq!(lane.temp_samples, vec![700, 650]);
    let a = lane.work_unit();
    assert_eq!(a, gpu_work_unit());
    assert_eq!(lane.frame_count, 1);
    assert_eq!(lane.get_metrics(Some(1)).load_pct, 71);
    lane.stop();
    lane.stop();
    assert!(!lane.running && lane.completed);
    assert_eq!(lane.get_metrics(None).load_pct, 0);
    let r = lane.get_result(Some(990));
    assert_eq!(r.temp_c, Some(700));
    assert!(r.healthy);

    let mut stop = StopOnce::new();
    assert!(stop.begin_stop());
    assert!(!stop.begin_stop());
}

#[test]
fn dashboard_and_summary_lines() {
    let text = Text::new(Language::English);
    let cpu = CpuMetrics { load_pct: 100, temp_c: Some(725), freq_mhz: 3456, operations: 10 };
    let mut ram = RamTortureTest::new();
    ram.run_chunk(25, 0);
    let disk = DiskTortureTest::new("/tmp/x".to_string());
    let gpu = GpuTortureTest::new(10, true);
    let lines = dashboard_lines(5, 10, &cpu, &ram.get_metrics(), &disk.get_metrics(), &gpu.get_metrics(None), &text);
    assert_eq!(lines.len(), 5);
    assert_eq!(lines[0], "[50% | 5/10s]");
    assert!(lines[1].contains("\x1b[1;33m72°C\x1b[0m"));
    assert!(lines[1].ends_with("3.46GHz"));
    assert!(lines[4].contains("0.000"));
    let (c, d, g) = (cpu_partial_result(7, Some(600), 3000), disk_partial_result(5000, 5000, 0), gpu_partial_result(None, 1, true));
    let r = ram_partial_result(15, 1);
    let s = summary_lines(61, &c, &r, &d, &g, &text);
    assert_eq!(s[4], format!("{}: 61s", text.torture_duration()));
    assert!(s.iter().any(|l| l == "   ❌ 1 errors detected"));
    assert_eq!(s[s.len() - 2], format!("❌ {}", text.torture_failed()));
}
