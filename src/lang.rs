//! Interface texts in the two supported languages.
use vstd::prelude::*;

verus! {

/// Language of the interface.
#[derive(Clone, Copy, Debug, PartialEq, Eq, Structural)]
pub enum Language {
    Vietnamese,
    English,
}

/// The text for `lang`, given its Vietnamese and English forms.
pub open spec fn pick(lang: Language, vi: Seq<char>, en: Seq<char>) -> Seq<char> {
    match lang {
        Language::Vietnamese => vi,
        Language::English => en,
    }
}

/// The interface texts of one language.
#[derive(Clone, Copy, Debug)]
pub struct Text {
    pub lang: Language,
}

impl Text {
    pub fn new(lang: Language) -> (r: Self)
        ensures
            r.lang == lang,
    {
        Self { lang }
    }

    pub fn header(&self) -> (r: &str)
        ensures
            r@ == pick(self.lang, "Công cụ kiểm tra phần cứng"@, "Hardware Info Tool"@),
    {
        match self.lang {
            Language::Vietnamese => "Công cụ kiểm tra phần cứng",
            Language::English => "Hardware Info Tool",
        }
    }

    pub fn system(&self) -> (r: &str)
        ensures
            r@ == pick(self.lang, "HỆ ĐIỀU HÀNH"@, "SYSTEM"@),
    {
        match self.lang {
            Language::Vietnamese => "HỆ ĐIỀU HÀNH",
            Language::English => "SYSTEM",
        }
    }

    pub fn cpu(&self) -> (r: &str)
        ensures
            r@ == pick(self.lang, "cpu"@, "cpu"@),
    {
        match self.lang {
            Language::Vietnamese => "cpu",
            Language::English => "cpu",
        }
    }

    pub fn gpu(&self) -> (r: &str)
        ensures
            r@ == pick(self.lang, "gpu"@, "gpu"@),
    {
        match self.lang {
            Language::Vietnamese => "gpu",
            Language::English => "gpu",
        }
    }

    pub fn ram(&self) -> (r: &str)
        ensures
            r@ == pick(self.lang, "ram"@, "ram"@),
    {
        match self.lang {
            Language::Vietnamese => "ram",
            Language::English => "ram",
        }
    }

    pub fn cores_label(&self) -> (r: &str)
        ensures
            r@ == pick(self.lang, "nhân"@, "cores"@),
    {
        match self.lang {
            Language::Vietnamese => "nhân",
            Language::English => "cores",
        }
    }

    pub fn disk(&self) -> (r: &str)
        ensures
            r@ == pick(self.lang, "Ứ CỨNG"@, "DISK"@),
    {
        match self.lang {
            Language::Vietnamese => "Ứ CỨNG",
            Language::English => "DISK",
        }
    }

    pub fn ram_free(&self) -> (r: &str)
        ensures
            r@ == pick(self.lang, "trống"@, "free"@),
    {
        match self.lang {
            Language::Vietnamese => "trống",
            Language::English => "free",
        }
    }

    pub fn done_in(&self) -> (r: &str)
        ensures
            r@ == pick(self.lang, "Hoàn thành trong"@, "Done in"@),
    {
        match self.lang {
            Language::Vietnamese => "Hoàn thành trong",
            Language::English => "Done in",
        }
    }

    pub fn detecting(&self) -> (r: &str)
        ensures
            r@ == pick(self.lang, "Đang phát hiện phần cứng..."@, "Detecting hardware..."@),
    {
        match self.lang {
            Language::Vietnamese => "Đang phát hiện phần cứng...",
            Language::English => "Detecting hardware...",
        }
    }

    pub fn no_gpu(&self) -> (r: &str)
        ensures
            r@ == pick(self.lang, "Không phát hiện GPU rời"@, "No dedicated GPU detected"@),
    {
        match self.lang {
            Language::Vietnamese => "Không phát hiện GPU rời",
            Language::English => "No dedicated GPU detected",
        }
    }

    pub fn health_check(&self) -> (r: &str)
        ensures
            r@ == pick(self.lang, "KIỂM TRA SỨC KHỎE PHẦN CỨNG"@, "HARDWARE HEALTH CHECK"@),
    {
        match self.lang {
            Language::Vietnamese => "KIỂM TRA SỨC KHỎE PHẦN CỨNG",
            Language::English => "HARDWARE HEALTH CHECK",
        }
    }

    pub fn testing_cpu(&self) -> (r: &str)
        ensures
            r@ == pick(self.lang, "Đang kiểm tra CPU"@, "Testing CPU"@),
    {
        match self.lang {
            Language::Vietnamese => "Đang kiểm tra CPU",
            Language::English => "Testing CPU",
        }
    }

    pub fn testing_ram(&self) -> (r: &str)
        ensures
            r@ == pick(self.lang, "Đang kiểm tra RAM"@, "Testing RAM"@),
    {
        match self.lang {
            Language::Vietnamese => "Đang kiểm tra RAM",
            Language::English => "Testing RAM",
        }
    }

    pub fn critical_issues(&self) -> (r: &str)
        ensures
            r@ == pick(self.lang, "VẤN ĐỀ NGHIÊM TRỌNG:"@, "CRITICAL ISSUES:"@),
    {
        match self.lang {
            Language::Vietnamese => "VẤN ĐỀ NGHIÊM TRỌNG:",
            Language::English => "CRITICAL ISSUES:",
        }
    }

    pub fn issues_detected(&self) -> (r: &str)
        ensures
            r@ == pick(self.lang, "PHÁT HIỆN VẤN ĐỀ:"@, "ISSUES DETECTED:"@),
    {
        match self.lang {
            Language::Vietnamese => "PHÁT HIỆN VẤN ĐỀ:",
            Language::English => "ISSUES DETECTED:",
        }
    }

    pub fn summary(&self) -> (r: &str)
        ensures
            r@ == pick(self.lang, "TÓM TẮT:"@, "SUMMARY:"@),
    {
        match self.lang {
            Language::Vietnamese => "TÓM TẮT:",
            Language::English => "SUMMARY:",
        }
    }

    pub fn hardware_good(&self) -> (r: &str)
        ensures
            r@ == pick(self.lang, "Phần cứng có vẻ ở trạng thái tốt"@, "Hardware appears to be in good condition"@),
    {
        match self.lang {
            Language::Vietnamese => "Phần cứng có vẻ ở trạng thái tốt",
            Language::English => "Hardware appears to be in good condition",
        }
    }

    pub fn hardware_some_issues(&self) -> (r: &str)
        ensures
            r@ == pick(self.lang, "Phần cứng có một số vấn đề"@, "Hardware has some issues"@),
    {
        match self.lang {
            Language::Vietnamese => "Phần cứng có một số vấn đề",
            Language::English => "Hardware has some issues",
        }
    }

    pub fn hardware_not_recommended(&self) -> (r: &str)
        ensures
            r@ == pick(self.lang, "Không khuyến nghị sử dụng"@, "Not recommended for use"@),
    {
        match self.lang {
            Language::Vietnamese => "Không khuyến nghị sử dụng",
            Language::English => "Not recommended for use",
        }
    }

    pub fn cpu_health_check(&self) -> (r: &str)
        ensures
            r@ == pick(self.lang, "Kiểm tra CPU"@, "CPU Health Check"@),
    {
        match self.lang {
            Language::Vietnamese => "Kiểm tra CPU",
            Language::English => "CPU Health Check",
        }
    }

    pub fn operations(&self) -> (r: &str)
        ensures
            r@ == pick(self.lang, "phép tính"@, "operations"@),
    {
        match self.lang {
            Language::Vietnamese => "phép tính",
            Language::English => "operations",
        }
    }

    pub fn ops_per_sec(&self) -> (r: &str)
        ensures
            r@ == pick(self.lang, "phép/giây"@, "ops/sec"@),
    {
        match self.lang {
            Language::Vietnamese => "phép/giây",
            Language::English => "ops/sec",
        }
    }

    pub fn avg_op_time(&self) -> (r: &str)
        ensures
            r@ == pick(self.lang, "tb thời gian"@, "avg time"@),
    {
        match self.lang {
            Language::Vietnamese => "tb thời gian",
            Language::English => "avg time",
        }
    }

    pub fn variance(&self) -> (r: &str)
        ensures
            r@ == pick(self.lang, "dao động"@, "variance"@),
    {
        match self.lang {
            Language::Vietnamese => "dao động",
            Language::English => "variance",
        }
    }

    pub fn ram_health_check(&self) -> (r: &str)
        ensures
            r@ == pick(self.lang, "Kiểm tra RAM"@, "RAM Health Check"@),
    {
        match self.lang {
            Language::Vietnamese => "Kiểm tra RAM",
            Language::English => "RAM Health Check",
        }
    }

    pub fn tested_gb(&self) -> (r: &str)
        ensures
            r@ == pick(self.lang, "đã test"@, "tested"@),
    {
        match self.lang {
            Language::Vietnamese => "đã test",
            Language::English => "tested",
        }
    }

    pub fn write_speed(&self) -> (r: &str)
        ensures
            r@ == pick(self.lang, "tốc độ ghi"@, "write speed"@),
    {
        match self.lang {
            Language::Vietnamese => "tốc độ ghi",
            Language::English => "write speed",
        }
    }

    pub fn read_speed(&self) -> (r: &str)
        ensures
            r@ == pick(self.lang, "tốc độ đọc"@, "read speed"@),
    {
        match self.lang {
            Language::Vietnamese => "tốc độ đọc",
            Language::English => "read speed",
        }
    }

    pub fn errors_detected(&self) -> (r: &str)
        ensures
            r@ == pick(self.lang, "lỗi phát hiện"@, "errors detected"@),
    {
        match self.lang {
            Language::Vietnamese => "lỗi phát hiện",
            Language::English => "errors detected",
        }
    }

    pub fn testing_disk(&self) -> (r: &str)
        ensures
            r@ == pick(self.lang, "Đang kiểm tra ổ cứng"@, "Testing Disk"@),
    {
        match self.lang {
            Language::Vietnamese => "Đang kiểm tra ổ cứng",
            Language::English => "Testing Disk",
        }
    }

    pub fn disk_health_check(&self) -> (r: &str)
        ensures
            r@ == pick(self.lang, "Kiểm tra ổ cứng"@, "Disk Health Check"@),
    {
        match self.lang {
            Language::Vietnamese => "Kiểm tra ổ cứng",
            Language::English => "Disk Health Check",
        }
    }

    pub fn seek_time(&self) -> (r: &str)
        ensures
            r@ == pick(self.lang, "thời gian seek"@, "seek time"@),
    {
        match self.lang {
            Language::Vietnamese => "thời gian seek",
            Language::English => "seek time",
        }
    }

    pub fn bad_sectors(&self) -> (r: &str)
        ensures
            r@ == pick(self.lang, "bad sector"@, "bad sectors"@),
    {
        match self.lang {
            Language::Vietnamese => "bad sector",
            Language::English => "bad sectors",
        }
    }

    pub fn device(&self) -> (r: &str)
        ensures
            r@ == pick(self.lang, "thiết bị"@, "device"@),
    {
        match self.lang {
            Language::Vietnamese => "thiết bị",
            Language::English => "device",
        }
    }

    pub fn usage(&self) -> (r: &str)
        ensures
            r@ == pick(self.lang, "đã dùng"@, "usage"@),
    {
        match self.lang {
            Language::Vietnamese => "đã dùng",
            Language::English => "usage",
        }
    }

    pub fn available(&self) -> (r: &str)
        ensures
            r@ == pick(self.lang, "còn trống"@, "available"@),
    {
        match self.lang {
            Language::Vietnamese => "còn trống",
            Language::English => "available",
        }
    }

    pub fn performance_test(&self) -> (r: &str)
        ensures
            r@ == pick(self.lang, "KIỂM TRA HIỆU NĂNG"@, "PERFORMANCE TEST"@),
    {
        match self.lang {
            Language::Vietnamese => "KIỂM TRA HIỆU NĂNG",
            Language::English => "PERFORMANCE TEST",
        }
    }

    pub fn smart_health(&self) -> (r: &str)
        ensures
            r@ == pick(self.lang, "SỨC KHỎE SMART"@, "SMART HEALTH"@),
    {
        match self.lang {
            Language::Vietnamese => "SỨC KHỎE SMART",
            Language::English => "SMART HEALTH",
        }
    }

    pub fn smart_status(&self) -> (r: &str)
        ensures
            r@ == pick(self.lang, "trạng thái SMART"@, "SMART status"@),
    {
        match self.lang {
            Language::Vietnamese => "trạng thái SMART",
            Language::English => "SMART status",
        }
    }

    pub fn temperature(&self) -> (r: &str)
        ensures
            r@ == pick(self.lang, "nhiệt độ"@, "temperature"@),
    {
        match self.lang {
            Language::Vietnamese => "nhiệt độ",
            Language::English => "temperature",
        }
    }

    pub fn frequency(&self) -> (r: &str)
        ensures
            r@ == pick(self.lang, "xung nhịp"@, "frequency"@),
    {
        match self.lang {
            Language::Vietnamese => "xung nhịp",
            Language::English => "frequency",
        }
    }

    pub fn power_on_hours(&self) -> (r: &str)
        ensures
            r@ == pick(self.lang, "giờ hoạt động"@, "power on hours"@),
    {
        match self.lang {
            Language::Vietnamese => "giờ hoạt động",
            Language::English => "power on hours",
        }
    }

    pub fn power_cycles(&self) -> (r: &str)
        ensures
            r@ == pick(self.lang, "chu kỳ bật"@, "power cycles"@),
    {
        match self.lang {
            Language::Vietnamese => "chu kỳ bật",
            Language::English => "power cycles",
        }
    }

    pub fn model(&self) -> (r: &str)
        ensures
            r@ == pick(self.lang, "mẫu"@, "model"@),
    {
        match self.lang {
            Language::Vietnamese => "mẫu",
            Language::English => "model",
        }
    }

    pub fn gpu_health_check(&self) -> (r: &str)
        ensures
            r@ == pick(self.lang, "Kiểm tra GPU"@, "GPU Health Check"@),
    {
        match self.lang {
            Language::Vietnamese => "Kiểm tra GPU",
            Language::English => "GPU Health Check",
        }
    }

    pub fn testing_gpu(&self) -> (r: &str)
        ensures
            r@ == pick(self.lang, "Đang kiểm tra GPU"@, "Testing GPU"@),
    {
        match self.lang {
            Language::Vietnamese => "Đang kiểm tra GPU",
            Language::English => "Testing GPU",
        }
    }

    pub fn disk_label(&self) -> (r: &str)
        ensures
            r@ == pick(self.lang, "đĩa"@, "disk"@),
    {
        match self.lang {
            Language::Vietnamese => "đĩa",
            Language::English => "disk",
        }
    }

    pub fn size(&self) -> (r: &str)
        ensures
            r@ == pick(self.lang, "kích thước"@, "size"@),
    {
        match self.lang {
            Language::Vietnamese => "kích thước",
            Language::English => "size",
        }
    }

    pub fn fs(&self) -> (r: &str)
        ensures
            r@ == pick(self.lang, "fs"@, "fs"@),
    {
        match self.lang {
            Language::Vietnamese => "fs",
            Language::English => "fs",
        }
    }

    pub fn type_label(&self) -> (r: &str)
        ensures
            r@ == pick(self.lang, "kiểu"@, "type"@),
    {
        match self.lang {
            Language::Vietnamese => "kiểu",
            Language::English => "type",
        }
    }

    pub fn ssd(&self) -> (r: &str)
        ensures
            r@ == pick(self.lang, "SSD"@, "SSD"@),
    {
        match self.lang {
            Language::Vietnamese => "SSD",
            Language::English => "SSD",
        }
    }

    pub fn hdd(&self) -> (r: &str)
        ensures
            r@ == pick(self.lang, "HDD"@, "HDD"@),
    {
        match self.lang {
            Language::Vietnamese => "HDD",
            Language::English => "HDD",
        }
    }

    pub fn unified_memory(&self) -> (r: &str)
        ensures
            r@ == pick(self.lang, "Unified (chia sẻ)"@, "Unified (with CPU)"@),
    {
        match self.lang {
            Language::Vietnamese => "Unified (chia sẻ)",
            Language::English => "Unified (with CPU)",
        }
    }

    pub fn soc_see_cpu(&self) -> (r: &str)
        ensures
            r@ == pick(self.lang, "SoC (xem CPU)"@, "SoC (see CPU)"@),
    {
        match self.lang {
            Language::Vietnamese => "SoC (xem CPU)",
            Language::English => "SoC (see CPU)",
        }
    }

    pub fn not_available(&self) -> (r: &str)
        ensures
            r@ == pick(self.lang, "N/A"@, "N/A"@),
    {
        match self.lang {
            Language::Vietnamese => "N/A",
            Language::English => "N/A",
        }
    }

    pub fn sensors(&self) -> (r: &str)
        ensures
            r@ == pick(self.lang, "Cảm biến"@, "Sensors"@),
    {
        match self.lang {
            Language::Vietnamese => "Cảm biến",
            Language::English => "Sensors",
        }
    }

    pub fn health(&self) -> (r: &str)
        ensures
            r@ == pick(self.lang, "sức khỏe"@, "health"@),
    {
        match self.lang {
            Language::Vietnamese => "sức khỏe",
            Language::English => "health",
        }
    }

    pub fn ssd_life(&self) -> (r: &str)
        ensures
            r@ == pick(self.lang, "tuổi thọ SSD"@, "SSD life"@),
    {
        match self.lang {
            Language::Vietnamese => "tuổi thọ SSD",
            Language::English => "SSD life",
        }
    }

    pub fn serial(&self) -> (r: &str)
        ensures
            r@ == pick(self.lang, "số serial"@, "serial"@),
    {
        match self.lang {
            Language::Vietnamese => "số serial",
            Language::English => "serial",
        }
    }

    pub fn firmware(&self) -> (r: &str)
        ensures
            r@ == pick(self.lang, "firmware"@, "firmware"@),
    {
        match self.lang {
            Language::Vietnamese => "firmware",
            Language::English => "firmware",
        }
    }

    pub fn realloc_sectors(&self) -> (r: &str)
        ensures
            r@ == pick(self.lang, "realloc sectors"@, "realloc sectors"@),
    {
        match self.lang {
            Language::Vietnamese => "realloc sectors",
            Language::English => "realloc sectors",
        }
    }

    pub fn pending_sectors(&self) -> (r: &str)
        ensures
            r@ == pick(self.lang, "pending sectors"@, "pending sectors"@),
    {
        match self.lang {
            Language::Vietnamese => "pending sectors",
            Language::English => "pending sectors",
        }
    }

    pub fn realloc_events(&self) -> (r: &str)
        ensures
            r@ == pick(self.lang, "realloc events"@, "realloc events"@),
    {
        match self.lang {
            Language::Vietnamese => "realloc events",
            Language::English => "realloc events",
        }
    }

    pub fn total_written(&self) -> (r: &str)
        ensures
            r@ == pick(self.lang, "tổng đã ghi"@, "total written"@),
    {
        match self.lang {
            Language::Vietnamese => "tổng đã ghi",
            Language::English => "total written",
        }
    }

    pub fn total_read(&self) -> (r: &str)
        ensures
            r@ == pick(self.lang, "tổng đã đọc"@, "total read"@),
    {
        match self.lang {
            Language::Vietnamese => "tổng đã đọc",
            Language::English => "total read",
        }
    }

    pub fn gpu_freq(&self) -> (r: &str)
        ensures
            r@ == pick(self.lang, "tần số"@, "GPU freq"@),
    {
        match self.lang {
            Language::Vietnamese => "tần số",
            Language::English => "GPU freq",
        }
    }

    pub fn gpu_power(&self) -> (r: &str)
        ensures
            r@ == pick(self.lang, "công suất"@, "GPU power"@),
    {
        match self.lang {
            Language::Vietnamese => "công suất",
            Language::English => "GPU power",
        }
    }

    pub fn gpu_usage(&self) -> (r: &str)
        ensures
            r@ == pick(self.lang, "sử dụng"@, "GPU usage"@),
    {
        match self.lang {
            Language::Vietnamese => "sử dụng",
            Language::English => "GPU usage",
        }
    }

    pub fn gpu_cores(&self) -> (r: &str)
        ensures
            r@ == pick(self.lang, "nhân GPU"@, "GPU cores"@),
    {
        match self.lang {
            Language::Vietnamese => "nhân GPU",
            Language::English => "GPU cores",
        }
    }

    pub fn metal(&self) -> (r: &str)
        ensures
            r@ == pick(self.lang, "Metal"@, "Metal"@),
    {
        match self.lang {
            Language::Vietnamese => "Metal",
            Language::English => "Metal",
        }
    }

    pub fn thermal_state(&self) -> (r: &str)
        ensures
            r@ == pick(self.lang, "trạng thái nhiệt"@, "Thermal state"@),
    {
        match self.lang {
            Language::Vietnamese => "trạng thái nhiệt",
            Language::English => "Thermal state",
        }
    }

    pub fn smc_temp(&self) -> (r: &str)
        ensures
            r@ == pick(self.lang, "nhiệt độ SMC"@, "SMC temp"@),
    {
        match self.lang {
            Language::Vietnamese => "nhiệt độ SMC",
            Language::English => "SMC temp",
        }
    }

    pub fn gpu_type_integrated(&self) -> (r: &str)
        ensures
            r@ == pick(self.lang, "Tích hợp"@, "Integrated"@),
    {
        match self.lang {
            Language::Vietnamese => "Tích hợp",
            Language::English => "Integrated",
        }
    }

    pub fn gpu_type_discrete(&self) -> (r: &str)
        ensures
            r@ == pick(self.lang, "Rời"@, "Discrete"@),
    {
        match self.lang {
            Language::Vietnamese => "Rời",
            Language::English => "Discrete",
        }
    }

    pub fn gpu_type_unknown(&self) -> (r: &str)
        ensures
            r@ == pick(self.lang, "Không rõ"@, "Unknown"@),
    {
        match self.lang {
            Language::Vietnamese => "Không rõ",
            Language::English => "Unknown",
        }
    }

    pub fn torture_test(&self) -> (r: &str)
        ensures
            r@ == pick(self.lang, "KIỂM TRA ĐỐT LÒ (TORTURE TEST)"@, "TORTURE TEST (System Stress)"@),
    {
        match self.lang {
            Language::Vietnamese => "KIỂM TRA ĐỐT LÒ (TORTURE TEST)",
            Language::English => "TORTURE TEST (System Stress)",
        }
    }

    pub fn torture_warning(&self) -> (r: &str)
        ensures
            r@ == pick(self.lang, "Đây là bài test cường độ cao. Hệ thống sẽ bị đẩy tới giới hạn."@, "This is a high-intensity test. Your system will be pushed to its limits."@),
    {
        match self.lang {
            Language::Vietnamese => "Đây là bài test cường độ cao. Hệ thống sẽ bị đẩy tới giới hạn.",
            Language::English => "This is a high-intensity test. Your system will be pushed to its limits.",
        }
    }

    pub fn torture_warning_psu(&self) -> (r: &str)
        ensures
            r@ == pick(self.lang, "Máy có thể tắt đột ngột nếu nguồn (PSU) yếu"@, "System may shut down if power supply (PSU) is weak"@),
    {
        match self.lang {
            Language::Vietnamese => "Máy có thể tắt đột ngột nếu nguồn (PSU) yếu",
            Language::English => "System may shut down if power supply (PSU) is weak",
        }
    }

    pub fn torture_warning_thermal(&self) -> (r: &str)
        ensures
            r@ == pick(self.lang, "Nhiệt độ sẽ tăng cao, quát sẽ chạy rất mạnh"@, "Temperatures will rise, fans will run at maximum speed"@),
    {
        match self.lang {
            Language::Vietnamese => "Nhiệt độ sẽ tăng cao, quát sẽ chạy rất mạnh",
            Language::English => "Temperatures will rise, fans will run at maximum speed",
        }
    }

    pub fn torture_warning_fans(&self) -> (r: &str)
        ensures
            r@ == pick(self.lang, "Quát kêu to là BÌNH THƯỜNG trong bài test này"@, "Loud fans are NORMAL during this test"@),
    {
        match self.lang {
            Language::Vietnamese => "Quát kêu to là BÌNH THƯỜNG trong bài test này",
            Language::English => "Loud fans are NORMAL during this test",
        }
    }

    pub fn duration(&self) -> (r: &str)
        ensures
            r@ == pick(self.lang, "Thời lượng"@, "Duration"@),
    {
        match self.lang {
            Language::Vietnamese => "Thời lượng",
            Language::English => "Duration",
        }
    }

    pub fn seconds(&self) -> (r: &str)
        ensures
            r@ == pick(self.lang, "giây"@, "seconds"@),
    {
        match self.lang {
            Language::Vietnamese => "giây",
            Language::English => "seconds",
        }
    }

    pub fn torture_cancel_info(&self) -> (r: &str)
        ensures
            r@ == pick(self.lang, "Nhấn Ctrl+C để hủy"@, "Press Ctrl+C to cancel"@),
    {
        match self.lang {
            Language::Vietnamese => "Nhấn Ctrl+C để hủy",
            Language::English => "Press Ctrl+C to cancel",
        }
    }

    pub fn torture_confirm(&self) -> (r: &str)
        ensures
            r@ == pick(self.lang, "Tiếp tục?"@, "Continue?"@),
    {
        match self.lang {
            Language::Vietnamese => "Tiếp tục?",
            Language::English => "Continue?",
        }
    }

    pub fn torture_cancelled(&self) -> (r: &str)
        ensures
            r@ == pick(self.lang, "Đã hủy bài test"@, "Test cancelled"@),
    {
        match self.lang {
            Language::Vietnamese => "Đã hủy bài test",
            Language::English => "Test cancelled",
        }
    }

    pub fn torture_starting(&self) -> (r: &str)
        ensures
            r@ == pick(self.lang, "Đang bắt đầu"@, "Starting"@),
    {
        match self.lang {
            Language::Vietnamese => "Đang bắt đầu",
            Language::English => "Starting",
        }
    }

    pub fn torture_summary(&self) -> (r: &str)
        ensures
            r@ == pick(self.lang, "TÓM TẮT BÀI TEST TỔNG"@, "TORTURE TEST SUMMARY"@),
    {
        match self.lang {
            Language::Vietnamese => "TÓM TẮT BÀI TEST TỔNG",
            Language::English => "TORTURE TEST SUMMARY",
        }
    }

    pub fn torture_duration(&self) -> (r: &str)
        ensures
            r@ == pick(self.lang, "Thời gian chạy"@, "Duration"@),
    {
        match self.lang {
            Language::Vietnamese => "Thời gian chạy",
            Language::English => "Duration",
        }
    }

    pub fn torture_passed(&self) -> (r: &str)
        ensures
            r@ == pick(self.lang, "HỆ THỐNG ĐÃ VƯỢT QUA BÀI TEST TỔNG! Máy ổn định."@, "SYSTEM SURVIVED THE TORTURE TEST! Hardware is stable."@),
    {
        match self.lang {
            Language::Vietnamese => "HỆ THỐNG ĐÃ VƯỢT QUA BÀI TEST TỔNG! Máy ổn định.",
            Language::English => "SYSTEM SURVIVED THE TORTURE TEST! Hardware is stable.",
        }
    }

    pub fn torture_failed(&self) -> (r: &str)
        ensures
            r@ == pick(self.lang, "HỆ THỐNG CÓ VẤN ĐỀ. Xem chi tiết bên trên."@, "SYSTEM HAS ISSUES. See details above."@),
    {
        match self.lang {
            Language::Vietnamese => "HỆ THỐNG CÓ VẤN ĐỀ. Xem chi tiết bên trên.",
            Language::English => "SYSTEM HAS ISSUES. See details above.",
        }
    }

    pub fn torture_dashboard_warning(&self) -> (r: &str)
        ensures
            r@ == pick(self.lang, "QUÁT SẼ KÊU RẤT TO - ĐÂY LÀ BÌNH THƯỜNG"@, "LOUD FANS ARE NORMAL DURING THIS TEST"@),
    {
        match self.lang {
            Language::Vietnamese => "QUÁT SẼ KÊU RẤT TO - ĐÂY LÀ BÌNH THƯỜNG",
            Language::English => "LOUD FANS ARE NORMAL DURING THIS TEST",
        }
    }

    pub fn torture_cpu(&self) -> (r: &str)
        ensures
            r@ == pick(self.lang, "CPU"@, "CPU"@),
    {
        match self.lang {
            Language::Vietnamese => "CPU",
            Language::English => "CPU",
        }
    }

    pub fn torture_gpu(&self) -> (r: &str)
        ensures
            r@ == pick(self.lang, "GPU"@, "GPU"@),
    {
        match self.lang {
            Language::Vietnamese => "GPU",
            Language::English => "GPU",
        }
    }

    pub fn torture_ram(&self) -> (r: &str)
        ensures
            r@ == pick(self.lang, "RAM"@, "RAM"@),
    {
        match self.lang {
            Language::Vietnamese => "RAM",
            Language::English => "RAM",
        }
    }

    pub fn torture_disk(&self) -> (r: &str)
        ensures
            r@ == pick(self.lang, "Ổ cứng"@, "Disk"@),
    {
        match self.lang {
            Language::Vietnamese => "Ổ cứng",
            Language::English => "Disk",
        }
    }

    pub fn torture_load(&self) -> (r: &str)
        ensures
            r@ == pick(self.lang, "tải"@, "load"@),
    {
        match self.lang {
            Language::Vietnamese => "tải",
            Language::English => "load",
        }
    }

    pub fn torture_errors(&self) -> (r: &str)
        ensures
            r@ == pick(self.lang, "lỗi"@, "errors"@),
    {
        match self.lang {
            Language::Vietnamese => "lỗi",
            Language::English => "errors",
        }
    }

    pub fn torture_write(&self) -> (r: &str)
        ensures
            r@ == pick(self.lang, "ghi"@, "write"@),
    {
        match self.lang {
            Language::Vietnamese => "ghi",
            Language::English => "write",
        }
    }

    pub fn torture_read(&self) -> (r: &str)
        ensures
            r@ == pick(self.lang, "đọc"@, "read"@),
    {
        match self.lang {
            Language::Vietnamese => "đọc",
            Language::English => "read",
        }
    }

    pub fn torture_mb_s(&self) -> (r: &str)
        ensures
            r@ == pick(self.lang, "MB/s"@, "MB/s"@),
    {
        match self.lang {
            Language::Vietnamese => "MB/s",
            Language::English => "MB/s",
        }
    }

    pub fn torture_na(&self) -> (r: &str)
        ensures
            r@ == pick(self.lang, "N/A"@, "N/A"@),
    {
        match self.lang {
            Language::Vietnamese => "N/A",
            Language::English => "N/A",
        }
    }

    pub fn select_test_level(&self) -> (r: &str)
        ensures
            r@ == pick(self.lang, "Chọn mức độ kiểm tra"@, "Select test level"@),
    {
        match self.lang {
            Language::Vietnamese => "Chọn mức độ kiểm tra",
            Language::English => "Select test level",
        }
    }

    pub fn level_quick(&self) -> (r: &str)
        ensures
            r@ == pick(self.lang, "Nhanh"@, "Quick"@),
    {
        match self.lang {
            Language::Vietnamese => "Nhanh",
            Language::English => "Quick",
        }
    }

    pub fn level_normal(&self) -> (r: &str)
        ensures
            r@ == pick(self.lang, "Thường"@, "Normal"@),
    {
        match self.lang {
            Language::Vietnamese => "Thường",
            Language::English => "Normal",
        }
    }

    pub fn level_deep(&self) -> (r: &str)
        ensures
            r@ == pick(self.lang, "Chuyên sâu"@, "Deep"@),
    {
        match self.lang {
            Language::Vietnamese => "Chuyên sâu",
            Language::English => "Deep",
        }
    }

    pub fn your_choice(&self) -> (r: &str)
        ensures
            r@ == pick(self.lang, "Lựa chọn của bạn"@, "Your choice"@),
    {
        match self.lang {
            Language::Vietnamese => "Lựa chọn của bạn",
            Language::English => "Your choice",
        }
    }

    pub fn invalid_choice(&self) -> (r: &str)
        ensures
            r@ == pick(self.lang, "Lựa chọn không hợp lệ. Vui lòng chọn 1, 2 hoặc 3."@, "Invalid choice. Please select 1, 2, or 3."@),
    {
        match self.lang {
            Language::Vietnamese => "Lựa chọn không hợp lệ. Vui lòng chọn 1, 2 hoặc 3.",
            Language::English => "Invalid choice. Please select 1, 2, or 3.",
        }
    }

    pub fn torture_final(&self) -> (r: &str)
        ensures
            r@ == pick(self.lang, "BÀI TEST TỔNG (TORTURE TEST)"@, "FINAL TEST (TORTURE TEST)"@),
    {
        match self.lang {
            Language::Vietnamese => "BÀI TEST TỔNG (TORTURE TEST)",
            Language::English => "FINAL TEST (TORTURE TEST)",
        }
    }

    pub fn ai_greet(&self) -> (r: &str)
        ensures
            r@ == pick(self.lang, "Xin chào! Để tôi khám sức khỏe cho chiếc máy này nhé."@, "Hello! Let me check the health of this machine."@),
    {
        match self.lang {
            Language::Vietnamese => "Xin chào! Để tôi khám sức khỏe cho chiếc máy này nhé.",
            Language::English => "Hello! Let me check the health of this machine.",
        }
    }

    pub fn ai_detecting(&self) -> (r: &str)
        ensures
            r@ == pick(self.lang, "Đang ngó qua cấu hình phần cứng một chút..."@, "Taking a quick look at the hardware configuration..."@),
    {
        match self.lang {
            Language::Vietnamese => "Đang ngó qua cấu hình phần cứng một chút...",
            Language::English => "Taking a quick look at the hardware configuration...",
        }
    }

    pub fn ai_specs_good(&self) -> (r: &str)
        ensures
            r@ == pick(self.lang, "Chà, máy ngon đấy! Cấu hình này dư sức làm việc nặng."@, "Wow, nice machine! This config can handle heavy workloads."@),
    {
        match self.lang {
            Language::Vietnamese => "Chà, máy ngon đấy! Cấu hình này dư sức làm việc nặng.",
            Language::English => "Wow, nice machine! This config can handle heavy workloads.",
        }
    }

    pub fn ai_specs_ok(&self) -> (r: &str)
        ensures
            r@ == pick(self.lang, "Cấu hình ổn định, đủ dùng cho công việc hàng ngày."@, "Decent configuration, good enough for daily tasks."@),
    {
        match self.lang {
            Language::Vietnamese => "Cấu hình ổn định, đủ dùng cho công việc hàng ngày.",
            Language::English => "Decent configuration, good enough for daily tasks.",
        }
    }

    pub fn ai_stress_intro(&self, _component: &str) -> (r: &str)
        ensures
            r@ == pick(self.lang, "Được rồi, bây giờ tôi sẽ ép xung để xem tản nhiệt thế nào."@, "Alright, now I'll stress test to see how the cooling performs."@),
    {
        match self.lang {
            Language::Vietnamese => "Được rồi, bây giờ tôi sẽ ép xung để xem tản nhiệt thế nào.",
            Language::English => "Alright, now I'll stress test to see how the cooling performs.",
        }
    }

    pub fn ai_complete(&self) -> (r: &str)
        ensures
            r@ == pick(self.lang, "Xong! Đã hoàn thành bài kiểm tra."@, "Done! Test completed."@),
    {
        match self.lang {
            Language::Vietnamese => "Xong! Đã hoàn thành bài kiểm tra.",
            Language::English => "Done! Test completed.",
        }
    }

    pub fn ai_start(&self) -> (r: &str)
        ensures
            r@ == pick(self.lang, "Bắt đầu kiểm tra..."@, "Starting check..."@),
    {
        match self.lang {
            Language::Vietnamese => "Bắt đầu kiểm tra...",
            Language::English => "Starting check...",
        }
    }

    pub fn ai_pass(&self) -> (r: &str)
        ensures
            r@ == pick(self.lang, "Hoàn thành tốt. Không phát hiện vấn đề."@, "Test passed. No issues detected."@),
    {
        match self.lang {
            Language::Vietnamese => "Hoàn thành tốt. Không phát hiện vấn đề.",
            Language::English => "Test passed. No issues detected.",
        }
    }

    pub fn ai_warning(&self) -> (r: &str)
        ensures
            r@ == pick(self.lang, "Hoàn thành nhưng có cảnh báo. Nên kiểm tra lại."@, "Test completed with warnings. Recommend review."@),
    {
        match self.lang {
            Language::Vietnamese => "Hoàn thành nhưng có cảnh báo. Nên kiểm tra lại.",
            Language::English => "Test completed with warnings. Recommend review.",
        }
    }

    pub fn ai_fail(&self) -> (r: &str)
        ensures
            r@ == pick(self.lang, "Thất bại. Cần kiểm tra ngay."@, "Test failed. Immediate attention needed."@),
    {
        match self.lang {
            Language::Vietnamese => "Thất bại. Cần kiểm tra ngay.",
            Language::English => "Test failed. Immediate attention needed.",
        }
    }

    /// Word after a count abbreviated in billions.
    pub fn billion_suffix(&self) -> (r: &str)
        ensures
            r@ == pick(self.lang, "Tỷ"@, "Billion"@),
    {
        match self.lang {
            Language::Vietnamese => "Tỷ",
            Language::English => "Billion",
        }
    }

    /// Word after a count abbreviated in millions.
    pub fn million_suffix(&self) -> (r: &str)
        ensures
            r@ == pick(self.lang, "Triệu"@, "Million"@),
    {
        match self.lang {
            Language::Vietnamese => "Triệu",
            Language::English => "Million",
        }
    }

    /// Translates a GPU type name ("Integrated", "Discrete", "Unknown");
    /// any other text is returned as it is.
    pub fn translate_gpu_type(&self, gpu_type: &str) -> (r: String)
        ensures
            r@ == if gpu_type@ == "Integrated"@ {
                pick(self.lang, "Tích hợp"@, "Integrated"@)
            } else if gpu_type@ == "Discrete"@ {
                pick(self.lang, "Rời"@, "Discrete"@)
            } else if gpu_type@ == "Unknown"@ {
                pick(self.lang, "Không rõ"@, "Unknown"@)
            } else {
                gpu_type@
            },
    {
        if crate::strings::str_eq(gpu_type, "Integrated") {
            String::from_str(self.gpu_type_integrated())
        } else if crate::strings::str_eq(gpu_type, "Discrete") {
            String::from_str(self.gpu_type_discrete())
        } else if crate::strings::str_eq(gpu_type, "Unknown") {
            String::from_str(self.gpu_type_unknown())
        } else {
            String::from_str(gpu_type)
        }
    }
}

} // verus!
