use pchecker::deep::{cache_kb_from, get_platform_probe, instruction_sets_for, PlatformProbe};
use pchecker::hw::{estimate_tdp_from_lowered, estimate_tdp_from_model, parse_speed_mhz, GpuType};
use pchecker::lang::{Language, Text};

#[test]
fn test_estimate_tdp_intel_u_series() {
    assert_eq!(estimate_tdp_from_model("Intel Core i7-1165G7"), Some(15));
    assert_eq!(estimate_tdp_from_model("Intel Core i5-1035G1"), Some(15));
}

#[test]
fn test_estimate_tdp_intel_h_series() {
    assert_eq!(estimate_tdp_from_model("Intel Core i7-11800H"), Some(45));
    assert_eq!(estimate_tdp_from_model("Intel Core i9-11980HK"), Some(45));
}

#[test]
fn test_estimate_tdp_apple_silicon() {
    assert_eq!(estimate_tdp_from_model("Apple M1 Pro"), Some(15));
    assert_eq!(estimate_tdp_from_model("Apple M2 Max"), Some(30));
    assert_eq!(estimate_tdp_from_model("Apple M3 Ultra"), Some(60));
}

#[test]
fn test_estimate_tdp_unknown() {
    assert_eq!(estimate_tdp_from_model("Unknown CPU Model XYZ"), None);
}

#[test]
fn tdp_from_lowered_form_is_case_sensitive_on_lowered_text() {
    // The lowered form decides the suffix rules; the name as given only the
    // exact Apple matches.
    assert_eq!(estimate_tdp_from_lowered("AMD Ryzen 7 5800U", "amd ryzen 7 5800u"), Some(15));
    assert_eq!(estimate_tdp_from_lowered("AMD Ryzen 7 5800U", "AMD RYZEN 7 5800U"), None);
    assert_eq!(estimate_tdp_from_model("AMD Ryzen 7 5800U"), Some(15));
    assert_eq!(estimate_tdp_from_model("Intel Core i7-4710HQ"), Some(45));
}

#[test]
fn test_parse_speed_mhz() {
    assert_eq!(parse_speed_mhz("3200 MHz"), Some(3200));
    assert_eq!(parse_speed_mhz("8533 MHz"), Some(8533));
    assert_eq!(parse_speed_mhz("invalid"), None);
}

#[test]
fn parse_speed_edge_cases() {
    assert_eq!(parse_speed_mhz("  +42 MHz"), Some(42));
    assert_eq!(parse_speed_mhz(""), None);
    assert_eq!(parse_speed_mhz("   "), None);
    assert_eq!(parse_speed_mhz("4294967295"), Some(u32::MAX));
    assert_eq!(parse_speed_mhz("4294967296 MHz"), None);
    assert_eq!(parse_speed_mhz("12a4"), None);
    assert_eq!(parse_speed_mhz("+"), None);
}

#[test]
fn gpu_type_from_model_names() {
    assert_eq!(GpuType::from_model("Intel UHD Graphics 630"), GpuType::Integrated);
    assert_eq!(GpuType::from_model("Apple M2 Pro"), GpuType::Integrated);
    assert_eq!(GpuType::from_model("NVIDIA GeForce RTX 3080"), GpuType::Discrete);
    assert_eq!(GpuType::from_model("Radeon RX 6800"), GpuType::Discrete);
    assert_eq!(GpuType::from_model("Matrox G200"), GpuType::Unknown);
    assert_eq!(GpuType::from_lowered("NVIDIA"), GpuType::Unknown);
}

#[test]
fn gpu_type_names() {
    let en = Text::new(Language::English);
    let vi = Text::new(Language::Vietnamese);
    assert_eq!(GpuType::Discrete.as_str(), "Discrete");
    assert_eq!(GpuType::Integrated.as_localized_str(&en), "Integrated");
    assert_eq!(GpuType::Discrete.as_localized_str(&vi), "Rời");
    assert_eq!(vi.translate_gpu_type("Unknown"), "Không rõ");
    assert_eq!(en.translate_gpu_type("Other"), "Other");
}

#[test]
fn platform_probe_and_reports() {
    assert_eq!(get_platform_probe("macos"), PlatformProbe::MacOs);
    assert_eq!(get_platform_probe("linux"), PlatformProbe::Linux);
    assert_eq!(get_platform_probe("freebsd"), PlatformProbe::Unknown);
    assert_eq!(PlatformProbe::MacOs.get_tdp("Apple M2 Max"), Some(30));
    assert_eq!(PlatformProbe::Linux.get_tdp("Apple M2 Max"), None);
    assert_eq!(cache_kb_from(" 131072\n"), Some(128));
    assert_eq!(cache_kb_from("error"), None);
    assert_eq!(instruction_sets_for("hw.cpu64capability: 1").features[0], "ARM64");
    assert_eq!(instruction_sets_for("").features.len(), 5);
}
