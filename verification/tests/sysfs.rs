use cc_plugin_aorus::sysfs::{is_aorus_hwmon_name, parse_sysfs_i32, parse_sysfs_u32};
use cc_plugin_aorus::text::text_equals;

#[test]
fn reads_unsigned_values() {
    assert_eq!(parse_sysfs_u32("2400\n"), Some(2400));
    assert_eq!(parse_sysfs_u32("0"), Some(0));
    assert_eq!(parse_sysfs_u32("  +17 \t"), Some(17));
    assert_eq!(parse_sysfs_u32("4294967295\n"), Some(u32::MAX));
    assert_eq!(parse_sysfs_u32("\u{a0}12\u{3000}"), Some(12));
}

#[test]
fn rejects_bad_unsigned_values() {
    assert_eq!(parse_sysfs_u32("4294967296"), None);
    assert_eq!(parse_sysfs_u32("99999999999999999999"), None);
    assert_eq!(parse_sysfs_u32("-1"), None);
    assert_eq!(parse_sysfs_u32(""), None);
    assert_eq!(parse_sysfs_u32("  \n"), None);
    assert_eq!(parse_sysfs_u32("+"), None);
    assert_eq!(parse_sysfs_u32("12a"), None);
    assert_eq!(parse_sysfs_u32("1 2"), None);
    assert_eq!(parse_sysfs_u32("++1"), None);
}

#[test]
fn unsigned_parsing_agrees_with_std() {
    for text in ["2400\n", " 7 ", "+0", "-0", "", "x", "4294967295", "4294967296", "007", "1_0"] {
        assert_eq!(parse_sysfs_u32(text), text.trim().parse::<u32>().ok(), "text {text:?}");
    }
}

#[test]
fn reads_signed_values() {
    assert_eq!(parse_sysfs_i32("5\n"), Some(5));
    assert_eq!(parse_sysfs_i32("0\n"), Some(0));
    assert_eq!(parse_sysfs_i32("-3"), Some(-3));
    assert_eq!(parse_sysfs_i32("+3"), Some(3));
    assert_eq!(parse_sysfs_i32("-2147483648"), Some(i32::MIN));
    assert_eq!(parse_sysfs_i32("2147483647"), Some(i32::MAX));
    assert_eq!(parse_sysfs_i32("2147483648"), None);
    assert_eq!(parse_sysfs_i32("-2147483649"), None);
    assert_eq!(parse_sysfs_i32("-"), None);
    assert_eq!(parse_sysfs_i32("mode"), None);
}

#[test]
fn signed_parsing_agrees_with_std() {
    for text in ["5\n", "-0", "+-1", "-+1", " -12 ", "", "2147483648", "-2147483648", "1e3"] {
        assert_eq!(parse_sysfs_i32(text), text.trim().parse::<i32>().ok(), "text {text:?}");
    }
}

#[test]
fn recognises_hwmon_name() {
    assert!(is_aorus_hwmon_name("aorus_laptop\n"));
    assert!(is_aorus_hwmon_name("  aorus_laptop"));
    assert!(!is_aorus_hwmon_name("aorus_laptop2\n"));
    assert!(!is_aorus_hwmon_name("coretemp\n"));
    assert!(!is_aorus_hwmon_name(""));
    assert!(!is_aorus_hwmon_name("aorus laptop"));
}

#[test]
fn compares_text() {
    assert!(text_equals("fan_control", "fan_control"));
    assert!(!text_equals("fan_control", "fan_contro"));
    assert!(text_equals("", ""));
}

#[test]
fn printed_values_read_back() {
    for n in [0u32, 5, 9, 10, 227, 2400, 65535, 2147483647, u32::MAX] {
        assert_eq!(parse_sysfs_u32(&format!("{n}\n")), Some(n));
        if n <= i32::MAX as u32 {
            assert_eq!(parse_sysfs_i32(&format!("{n}\n")), Some(n as i32));
        }
    }
}

use cc_plugin_aorus::sysfs::{
    aorus_sysfs_path, fan_mode_attribute, first_aorus_hwmon, hwmon_directory,
    hwmon_name_attribute, FanAttribute, HwmonEntry,
};

fn entry(is_dir: bool, name: Option<&str>) -> HwmonEntry {
    HwmonEntry { is_dir, name: name.map(|n| n.to_string()) }
}

#[test]
fn finds_first_aorus_hwmon_entry() {
    let entries = vec![
        entry(true, Some("coretemp\n")),
        entry(false, Some("aorus_laptop\n")),
        entry(true, None),
        entry(true, Some("aorus_laptop\n")),
        entry(true, Some("aorus_laptop")),
    ];
    assert_eq!(first_aorus_hwmon(&entries), Some(3));
    let first_three: Vec<HwmonEntry> = entries.into_iter().take(3).collect();
    assert_eq!(first_aorus_hwmon(&first_three), None);
    assert_eq!(first_aorus_hwmon(&Vec::new()), None);
}

#[test]
fn sysfs_locations() {
    assert_eq!(aorus_sysfs_path(), "/sys/devices/platform/aorus_laptop");
    assert_eq!(hwmon_directory(), "hwmon");
    assert_eq!(hwmon_name_attribute(), "name");
    assert_eq!(fan_mode_attribute(), "fan_mode");
    assert_eq!(FanAttribute::CpuFanRpm.file_name(), "fan1_input");
    assert_eq!(FanAttribute::GpuFanRpm.file_name(), "fan2_input");
    assert_eq!(FanAttribute::CpuFanPwm.file_name(), "pwm1");
    assert_eq!(FanAttribute::GpuFanPwm.file_name(), "pwm2");
}
