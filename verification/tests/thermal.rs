use uncanny::thermal::{contains, is_cpu_thermal_zone, mentions_cpu_zone};

#[test]
fn cpu_zones_are_recognised_in_any_case() {
    assert!(is_cpu_thermal_zone("CPU-therm"));
    assert!(is_cpu_thermal_zone("x86_PKG_TEMP\n"));
    assert!(is_cpu_thermal_zone("acpitz-cpu"));
    assert!(!is_cpu_thermal_zone("acpitz"));
    assert!(!is_cpu_thermal_zone("gpu-thermal"));
}

#[test]
fn substring_search() {
    assert!(contains("abc", ""));
    assert!(contains("abc", "bc"));
    assert!(!contains("ab", "abc"));
    assert!(!contains("abc", "ac"));
}

#[test]
fn lowered_zone_types() {
    assert!(mentions_cpu_zone("x86_pkg_temp"));
    assert!(!mentions_cpu_zone("CPU"));
}
