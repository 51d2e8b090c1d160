//! Detailed hardware information: the platform probe and what it reads from
//! system reports.
use vstd::prelude::*;
use crate::hw::{estimate_tdp_from_model, tdp_estimate, parse_u32_range, parse_u32_spec};
use crate::prompt::{trim_text, trimmed};
use crate::strings::{contains_seq, lower_of, str_contains, str_eq, chars_of};

verus! {

/// CPU cache sizes in KB.
#[derive(Clone, Copy, Debug, PartialEq, Eq)]
pub struct CacheInfo {
    pub l1_kb: Option<u32>,
    pub l2_kb: Option<u32>,
    pub l3_kb: Option<u32>,
}

/// CPU instruction set features.
#[derive(Clone, Debug)]
pub struct InstructionSets {
    pub features: Vec<String>,
}

/// GPU driver information.
#[derive(Clone, Debug)]
pub struct GpuDriver {
    pub version: Option<String>,
    pub metal: Option<String>,
}

/// PCIe link information.
#[derive(Clone, Debug)]
pub struct PcieLink {
    pub link_speed: String,
    pub generation: u8,
}

/// The platform whose tools the probe uses.
#[derive(Clone, Copy, Debug, PartialEq, Eq, Structural)]
pub enum PlatformProbe {
    MacOs,
    Linux,
    Windows,
    Unknown,
}

/// The probe for an operating system name as Rust spells it ("macos",
/// "linux", "windows").
pub open spec fn probe_for(os: Seq<char>) -> PlatformProbe {
    if os == "macos"@ {
        PlatformProbe::MacOs
    } else if os == "linux"@ {
        PlatformProbe::Linux
    } else if os == "windows"@ {
        PlatformProbe::Windows
    } else {
        PlatformProbe::Unknown
    }
}

/// Selects the probe for the running operating system, given its name.
pub fn get_platform_probe(os: &str) -> (r: PlatformProbe)
    ensures
        r == probe_for(os@),
{
    if str_eq(os, "macos") {
        PlatformProbe::MacOs
    } else if str_eq(os, "linux") {
        PlatformProbe::Linux
    } else if str_eq(os, "windows") {
        PlatformProbe::Windows
    } else {
        PlatformProbe::Unknown
    }
}

impl PlatformProbe {
    /// The TDP estimate, which only the macOS probe gives.
    pub fn get_tdp(&self, model: &str) -> (r: Option<u32>)
        ensures
            r == if *self == PlatformProbe::MacOs { tdp_estimate(model@, lower_of(model@)) } else { None },
    {
        match self {
            PlatformProbe::MacOs => estimate_tdp_from_model(model),
            _ => None,
        }
    }
}

/// A cache size reported in bytes, in whole KB; none when the report is
/// not a number.
pub open spec fn cache_kb_spec(report: Seq<char>) -> Option<u32> {
    match parse_u32_spec(trimmed(report)) {
        Some(b) => Some((b / 1024) as u32),
        None => None,
    }
}

/// Reads a cache size from a report in bytes.
pub fn cache_kb_from(report: &str) -> (r: Option<u32>)
    ensures
        r == cache_kb_spec(report@),
{
    let t = trim_text(report);
    let v = chars_of(t.as_str());
    assert(v@.subrange(0, v@.len() as int) =~= v@);
    match parse_u32_range(&v, 0, v.len()) {
        Some(b) => Some(b / 1024),
        None => None,
    }
}

/// The features listed for a CPU: Apple Silicon's when the capability
/// report carries the 64-bit capability key, Intel's otherwise.
pub open spec fn features_for(arch: Seq<char>) -> Seq<Seq<char>> {
    if contains_seq(arch, "hw.cpu64capability: "@) {
        seq!["ARM64"@, "NEON"@, "FP16"@, "AES"@, "SHA"@, "PMU"@]
    } else {
        seq!["x86-64"@, "SSE4.2"@, "AVX"@, "AVX2"@, "VT-x"@]
    }
}

/// The instruction set features for a capability report.
pub fn instruction_sets_for(arch: &str) -> (r: InstructionSets)
    ensures
        r.features@.map_values(|s: String| s@) == features_for(arch@),
{
    let mut features: Vec<String> = Vec::new();
    if str_contains(arch, "hw.cpu64capability: ") {
        features.push(String::from_str("ARM64"));
        features.push(String::from_str("NEON"));
        features.push(String::from_str("FP16"));
        features.push(String::from_str("AES"));
        features.push(String::from_str("SHA"));
        features.push(String::from_str("PMU"));
    } else {
        features.push(String::from_str("x86-64"));
        features.push(String::from_str("SSE4.2"));
        features.push(String::from_str("AVX"));
        features.push(String::from_str("AVX2"));
        features.push(String::from_str("VT-x"));
    }
    assert(features@.map_values(|s: String| s@) =~= features_for(arch@));
    InstructionSets { features }
}

} // verus!
