use pchecker::ai::{cpu_temp_comment, disk_speed_comment, AiTechnician};
use pchecker::fmt::{create_health_bar, format_core_display_normal, format_core_display_verbose, format_large_number, format_number, progress_bar, table_row, temp_color, usage_bar_cells};
use pchecker::lang::{Language, Text};
use pchecker::layout_linux;
use pchecker::layout_macos;
use pchecker::numfmt::{decimal_string, tenths_string, thousandths_string};
use pchecker::prompt::{answer_declines, is_decline, level_duration, select_language_silent, trim_text};

#[test]
fn numbers() {
    assert_eq!(decimal_string(0), "0");
    assert_eq!(decimal_string(u64::MAX), u64::MAX.to_string());
    assert_eq!(tenths_string(-35), "-3.5");
    assert_eq!(tenths_string(5), "0.5");
    assert_eq!(thousandths_string(833_333), "833.333");
    assert_eq!(format_number(0), "0");
    assert_eq!(format_number(999), "999");
    assert_eq!(format_number(1000), "1,000");
    assert_eq!(format_number(1234567), "1,234,567");
    assert_eq!(format_large_number(999_999), "999,999");
    assert_eq!(format_large_number(1_250_000), "1.3 Triệu");
    assert_eq!(format_large_number(2_000_000_000), "2.0 Tỷ");
}

#[test]
fn bars_and_rows() {
    assert_eq!(progress_bar(50, 4), "\x1b[32m██\x1b[90m░░\x1b[0m");
    assert_eq!(progress_bar(200, 3), "\x1b[32m███\x1b[90m\x1b[0m");
    assert_eq!(create_health_bar(60), "[▓▓▓▓▓▓░░░░]60");
    assert_eq!(create_health_bar(95), "[██████████]95");
    assert_eq!(create_health_bar(4), "[░░░░░░░░░░]4");
    let row = table_row("CPU", "Intel");
    assert_eq!(row.chars().count(), 2 + 52 + 2);
    assert!(row.starts_with("│ CPU: ") && row.ends_with("Intel │"));
    assert_eq!(temp_color(900), "\x1b[31m");
    assert_eq!(temp_color(599), "\x1b[32m");
    assert_eq!(usage_bar_cells(95), 9);
    assert_eq!(format_core_display_verbose(3, 95, 9), "\x1b[36mC03:\x1b[0m [\x1b[32m█████████\x1b[90m░] 95%");
    assert_eq!(format_core_display_normal(12, 955), "\x1b[36mC12:\x1b[31m95%\x1b[0m ");
    assert_eq!(layout_linux::cores_per_row_verbose(), 3);
    assert_eq!(layout_linux::cores_per_row_normal(), 4);
    assert_eq!(layout_macos::cores_per_row_verbose(), 4);
    assert_eq!(layout_macos::cores_per_row_normal(), 6);
}

#[test]
fn texts_and_voice() {
    let en = Text::new(Language::English);
    let vi = Text::new(select_language_silent());
    assert_eq!(en.torture_passed().is_empty(), false);
    assert_eq!(en.seconds(), "seconds");
    assert_eq!(vi.seconds(), "giây");
    let ai = AiTechnician::new(Language::English);
    assert_eq!(ai.intro_detect(&en).unwrap(), format!("🔍 AI: {}", en.ai_detecting()));
    assert_eq!(ai.react_specs(&en, false).unwrap(), format!("   -> {}", en.ai_specs_ok()));
    assert_eq!(ai.react_result(&en, false, true).unwrap(), format!("💬 AI: {}", en.ai_warning()));
    let quiet = AiTechnician { enabled: false, typewriter_delay_ms: 10 };
    assert!(quiet.greet(&en).is_none());
    assert_eq!(quiet.think_ms(500), 0);
}

#[test]
fn answers() {
    assert_eq!(trim_text("  yes \n"), "yes");
    assert!(is_decline(" N\n"));
    assert!(is_decline("no"));
    assert!(!is_decline(""));
    assert!(!is_decline("nope"));
    assert!(answer_declines("n"));
    assert!(!answer_declines("N"));
    assert_eq!(level_duration(" 2\n"), Some(60));
    assert_eq!(level_duration("3"), Some(120));
    assert_eq!(level_duration("4"), None);
}

#[test]
fn localized_large_numbers() {
    let en = Text::new(Language::English);
    let vi = Text::new(Language::Vietnamese);
    assert_eq!(pchecker::fmt::format_large_number_i18n(2_500_000_000, &en), "2.5 Billion");
    assert_eq!(pchecker::fmt::format_large_number_i18n(1_250_000, &vi), "1.3 Triệu");
    assert_eq!(pchecker::fmt::format_large_number_i18n(12_345, &en), "12,345");
}

#[test]
fn live_comments() {
    assert_eq!(cpu_temp_comment(0, Some(825)).as_deref(), Some("CPU temperature at 83°C - running hot"));
    assert_eq!(cpu_temp_comment(20, Some(650)).as_deref(), Some("CPU temperature at 65°C - warming up nicely"));
    assert_eq!(cpu_temp_comment(5, Some(900)), None);
    assert_eq!(cpu_temp_comment(10, Some(500)), None);
    assert_eq!(cpu_temp_comment(10, None), None);
    assert_eq!(disk_speed_comment("sda", true, 25000), "sda SSD read speed: 2500.0 MB/s - excellent");
    assert_eq!(disk_speed_comment("sdb", false, 400), "sdb HDD read speed: 40.0 MB/s");
}
