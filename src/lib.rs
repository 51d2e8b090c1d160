//! Hardware stress testing: health outcomes, workload lanes and the torture
//! schedule, with the arithmetic and text they produce.

pub mod numfmt;
pub mod strings;
pub mod fmt;
pub mod lang;
pub mod health;
pub mod cpu;
pub mod ram;
pub mod disk;
pub mod gpu;
pub mod hw;
pub mod deep;
pub mod prompt;
pub mod ai;
pub mod layout_linux;
pub mod layout_macos;
pub mod torture;
pub mod ram_lane;
pub mod disk_lane;
pub mod gpu_lane;
pub mod dashboard;
