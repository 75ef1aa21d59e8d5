//! Times and sizes.

use navop_workbench::measures::{format_millis, format_size, history_time};

/// A size through floating point.
fn floating(size: u64) -> String {
    if size < 1024 {
        format!("{size} B")
    } else if size < 1024 * 1024 {
        format!("{:.1} KB", size as f64 / 1024.0)
    } else {
        format!("{:.1} MB", size as f64 / (1024.0 * 1024.0))
    }
}

#[test]
fn sizes_have_a_unit() {
    assert_eq!(format_size(0), "0 B");
    assert_eq!(format_size(1023), "1023 B");
    assert_eq!(format_size(1024), "1.0 KB");
    assert_eq!(format_size(1536), "1.5 KB");
    assert_eq!(format_size(1024 * 1024 - 1), "1024.0 KB");
    assert_eq!(format_size(1024 * 1024), "1.0 MB");
    assert_eq!(format_size(5 * 1024 * 1024 + 300 * 1024), "5.3 MB");
    assert_eq!(format_size(u64::MAX), "17592186044416.0 MB");
}

#[test]
fn halves_go_to_the_even_digit() {
    assert_eq!(format_size(1024 + 256), "1.2 KB");
    assert_eq!(format_size(1024 + 768), "1.8 KB");
    assert_eq!(format_size(2 * 1024 * 1024 + 256 * 1024), "2.2 MB");
}

#[test]
fn small_sizes_are_those_of_floating_point() {
    for size in 0..300_000 {
        assert_eq!(format_size(size), floating(size));
    }
}

#[test]
fn large_sizes_are_those_of_floating_point() {
    for shift in 0..64 {
        let power = 1u64 << shift;
        for offset in 0..600u64 {
            for size in [power.saturating_add(offset), power.saturating_sub(offset)] {
                assert_eq!(format_size(size), floating(size), "{size}");
            }
        }
    }
    let mut size: u64 = 0x9e37_79b9_7f4a_7c15;
    for _ in 0..200_000 {
        size = size.wrapping_mul(6_364_136_223_846_793_005).wrapping_add(1_442_695_040_888_963_407);
        for shift in [0, 5, 11, 17, 30, 40] {
            let size = size >> shift;
            assert_eq!(format_size(size), floating(size), "{size}");
        }
    }
}

#[test]
fn halves_of_large_sizes_are_those_of_floating_point() {
    let quarter: u64 = 256 * 1024;
    for n in 4..40_000u64 {
        for size in [n * quarter - 1, n * quarter, n * quarter + 1] {
            assert_eq!(format_size(size), floating(size), "{size}");
        }
        let far = (n << 45) + n * quarter;
        assert_eq!(format_size(far), floating(far), "{far}");
    }
}

#[test]
fn durations_are_in_milliseconds() {
    assert_eq!(format_millis(0), "0 ms");
    assert_eq!(format_millis(1234), "1234 ms");
}

#[test]
fn a_time_is_shown_in_utc() {
    assert_eq!(history_time(0), "01-01 00:00:00");
    assert_eq!(history_time(947_638_923_004), "01-12 01:02:03");
    assert_eq!(history_time(-1), "12-31 23:59:59");
    assert_eq!(history_time(951_782_400_000), "02-29 00:00:00");
    assert_eq!(history_time(4_107_542_400_000), "03-01 00:00:00");
    assert_eq!(history_time(1_709_210_096_789), "02-29 12:34:56");
}

#[test]
fn a_time_out_of_range_is_a_dash() {
    assert_eq!(history_time(i64::MAX), "—");
    assert_eq!(history_time(i64::MIN), "—");
    assert_eq!(history_time(8_210_266_876_799_999), "12-31 23:59:59");
    assert_eq!(history_time(8_210_266_876_800_000), "—");
    assert_eq!(history_time(-8_334_601_228_800_000), "01-01 00:00:00");
    assert_eq!(history_time(-8_334_601_228_800_001), "—");
}
