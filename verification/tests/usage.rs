use microfetch::colors::Colors;
use microfetch::error::QueryError;
use microfetch::system::{get_memory_usage, get_root_disk_usage, DiskSnapshot, MemorySnapshot};
use microfetch::text::decimal_string;
use microfetch::units::{hundredths_of_gib, rounded_half_even, rounded_half_up, GIB};

const GIB_BYTES: u64 = 1 << 30;

fn ansi() -> Colors {
    Colors {
        reset: "\x1b[0m".to_string(),
        cyan: "\x1b[36m".to_string(),
        green: "\x1b[32m".to_string(),
        yellow: "\x1b[33m".to_string(),
        red: "\x1b[31m".to_string(),
    }
}

fn plain() -> Colors {
    Colors {
        reset: String::new(),
        cyan: String::new(),
        green: String::new(),
        yellow: String::new(),
        red: String::new(),
    }
}

fn disk(used_units: u64, total_units: u64, sectors_per_unit: u32, bytes_per_sector: u32) -> String {
    let snapshot = DiskSnapshot { total_units, used_units, sectors_per_unit, bytes_per_sector };
    get_root_disk_usage(Ok(snapshot), &plain()).unwrap()
}

fn memory(total: u64, available: u64) -> String {
    get_memory_usage(Ok(MemorySnapshot { total, available }), &plain()).unwrap()
}

fn disk_percent(used_units: u64, total_units: u64) -> u128 {
    DiskSnapshot { total_units, used_units, sectors_per_unit: 8, bytes_per_sector: 512 }.percent_used()
}

fn memory_percent(used: u64, total: u64) -> u128 {
    MemorySnapshot { total, available: total - used }.percent_used()
}

#[test]
fn disk_line_of_a_half_full_volume() {
    // 4 KiB units: 2^28 of them are 1 TiB.
    assert_eq!(disk(1 << 27, 1 << 28, 8, 512), "512.00 GiB / 1024.00 GiB (50%)");
}

#[test]
fn disk_line_in_colour() {
    let snapshot = DiskSnapshot { total_units: 1 << 28, used_units: 1 << 27, sectors_per_unit: 8, bytes_per_sector: 512 };
    assert_eq!(
        get_root_disk_usage(Ok(snapshot), &ansi()),
        Ok("512.00 GiB / 1024.00 GiB (\x1b[36m50%\x1b[0m)".to_string())
    );
}

#[test]
fn disk_line_multiplies_units_sectors_and_bytes() {
    // 1000 units of 3 sectors of 4096 bytes: 12288000 bytes.
    assert_eq!(disk(1_000, 100_000, 3, 4_096), "0.01 GiB / 1.14 GiB (1%)");
}

#[test]
fn disk_sizes_in_bytes() {
    let snapshot = DiskSnapshot { total_units: 100_000, used_units: 1_000, sectors_per_unit: 3, bytes_per_sector: 4_096 };
    assert_eq!(snapshot.total_size(), 1_228_800_000);
    assert_eq!(snapshot.used_size(), 12_288_000);
    let snapshot = DiskSnapshot { total_units: u64::MAX, used_units: 0, sectors_per_unit: u32::MAX, bytes_per_sector: u32::MAX };
    assert_eq!(snapshot.total_size(), u64::MAX as u128 * u32::MAX as u128 * u32::MAX as u128);
    assert_eq!(snapshot.used_size(), 0);
}

#[test]
fn disk_percent_is_exact_where_it_is_whole() {
    assert_eq!(disk_percent(50, 100), 50);
    assert_eq!(disk_percent(33, 100), 33);
    assert_eq!(disk_percent(0, 100), 0);
    assert_eq!(disk_percent(100, 100), 100);
    assert_eq!(disk_percent(1, 1), 100);
    assert_eq!(disk_percent(u64::MAX, u64::MAX), 100);
}

#[test]
fn disk_percent_rounds_to_the_nearest() {
    assert_eq!(disk_percent(1, 3), 33);
    assert_eq!(disk_percent(2, 3), 67);
    assert_eq!(disk_percent(334, 1_000), 33);
    assert_eq!(disk_percent(335, 1_000), 34);
    assert_eq!(disk_percent(336, 1_000), 34);
    assert_eq!(disk_percent(994, 1_000), 99);
    assert_eq!(disk_percent(996, 1_000), 100);
}

#[test]
fn disk_percent_rounds_a_tie_to_the_even_number() {
    assert_eq!(disk_percent(1, 8), 12);
    assert_eq!(disk_percent(3, 8), 38);
    assert_eq!(disk_percent(1, 200), 0);
    assert_eq!(disk_percent(3, 200), 2);
    assert_eq!(disk_percent(199, 200), 100);
    assert_eq!(format!("{:.0}", 12.5f64), "12");
    assert_eq!(format!("{:.0}", 37.5f64), "38");
}

#[test]
fn disk_percent_may_exceed_100_where_more_is_used_than_there_is() {
    assert_eq!(disk_percent(3, 2), 150);
    assert_eq!(disk(3 << 18, 2 << 18, 8, 512), "3.00 GiB / 2.00 GiB (150%)");
}

#[test]
fn disk_percent_stays_in_range_where_used_is_within_total() {
    for total in 1..=60u64 {
        for used in 0..=total {
            let percent = disk_percent(used, total) as u64;
            assert!(percent <= 100);
            // No further than half a percent from the exact share.
            assert!(2 * (percent * total).abs_diff(100 * used) <= total);
        }
    }
}

#[test]
fn disk_of_no_size_is_zero_percent() {
    assert_eq!(disk(0, 0, 8, 512), "0.00 GiB / 0.00 GiB (0%)");
    assert_eq!(disk(5, 0, 8, 512), "0.00 GiB / 0.00 GiB (0%)");
    assert_eq!(disk(5, 10, 0, 512), "0.00 GiB / 0.00 GiB (0%)");
    assert_eq!(disk(5, 10, 8, 0), "0.00 GiB / 0.00 GiB (0%)");
}

#[test]
fn disk_of_the_largest_size() {
    // (2^64 - 1) * (2^32 - 1)^2 bytes is a little under 2^98 GiB.
    let line = disk(u64::MAX, u64::MAX, u32::MAX, u32::MAX);
    assert_eq!(line, "316912649909483397784499388424.00 GiB / 316912649909483397784499388424.00 GiB (100%)");
}

#[test]
fn disk_error_is_handed_on() {
    let error = QueryError { code: -2147024893, message: "The system cannot find the path specified.".to_string() };
    assert_eq!(get_root_disk_usage(Err(error.clone()), &ansi()), Err(error));
}

#[test]
fn memory_line_of_a_half_used_machine() {
    assert_eq!(memory(16 * GIB_BYTES, 8 * GIB_BYTES), "8.00 GiB / 16.00 GiB (50%)");
}

#[test]
fn memory_line_in_colour() {
    let snapshot = MemorySnapshot { total: 34_276_925_440, available: 21_474_836_480 };
    assert_eq!(
        get_memory_usage(Ok(snapshot), &ansi()),
        Ok("11.92 GiB / 31.92 GiB (\x1b[36m37%\x1b[0m)".to_string())
    );
}

#[test]
fn memory_percent_is_exact_where_it_is_whole() {
    assert_eq!(memory_percent(50, 100), 50);
    assert_eq!(memory_percent(33, 100), 33);
    assert_eq!(memory_percent(0, 100), 0);
    assert_eq!(memory_percent(100, 100), 100);
    assert_eq!(memory_percent(u64::MAX, u64::MAX), 100);
}

#[test]
fn memory_percent_rounds_and_does_not_truncate() {
    assert_eq!(memory_percent(2, 3), 67);
    assert_eq!(memory_percent(1, 3), 33);
    assert_eq!(memory_percent(336, 1_000), 34);
    assert_eq!(memory_percent(999, 1_000), 100);
}

#[test]
fn memory_percent_rounds_a_tie_upwards() {
    assert_eq!(memory_percent(1, 8), 13);
    assert_eq!(memory_percent(3, 8), 38);
    assert_eq!(memory_percent(1, 200), 1);
    assert_eq!(memory_percent(3, 200), 2);
    assert_eq!(12.5f64.round(), 13.0);
}

#[test]
fn memory_percent_is_what_rounding_the_quotient_gives() {
    for total in 1..=60u64 {
        for used in 0..=total {
            let expected = (200 * used + total) / (2 * total);
            assert_eq!(memory_percent(used, total), expected as u128);
        }
    }
}

#[test]
fn memory_percent_of_an_exact_half_is_rounded_up() {
    // 23 of 40 is 57.5 percent exactly.
    assert_eq!(memory_percent(23, 40), 58);
    assert_eq!(memory_percent(29, 200), 15);
    assert_eq!(disk_percent(23, 40), 58);
    assert_eq!(disk_percent(29, 200), 14);
}

#[test]
fn memory_of_no_size_is_zero_percent() {
    assert_eq!(memory(0, 0), "0.00 GiB / 0.00 GiB (0%)");
}

#[test]
fn memory_with_more_available_than_installed() {
    assert_eq!(memory(GIB_BYTES, 3 * GIB_BYTES), "-2.00 GiB / 1.00 GiB (0%)");
    assert_eq!(memory(0, GIB_BYTES), "-1.00 GiB / 0.00 GiB (0%)");
    assert_eq!(memory(GIB_BYTES, GIB_BYTES + 1), "-0.00 GiB / 1.00 GiB (0%)");
    assert_eq!(format!("{:.2}", -1.0f64 / GIB_BYTES as f64), "-0.00");
}

#[test]
fn memory_of_the_largest_size() {
    assert_eq!(memory(u64::MAX, 0), "17179869184.00 GiB / 17179869184.00 GiB (100%)");
}

#[test]
fn memory_error_is_handed_on() {
    let error = QueryError { code: 5, message: "Access is denied.".to_string() };
    assert_eq!(get_memory_usage(Err(error.clone()), &plain()), Err(error));
}

#[test]
fn gibibytes_to_two_decimals() {
    assert_eq!(GIB, GIB_BYTES);
    assert_eq!(hundredths_of_gib(0), 0);
    assert_eq!(hundredths_of_gib(GIB_BYTES as u128), 100);
    assert_eq!(hundredths_of_gib(GIB_BYTES as u128 / 2), 50);
    assert_eq!(hundredths_of_gib(5_368_709), 0);
    assert_eq!(hundredths_of_gib(5_368_710), 1);
    assert_eq!(hundredths_of_gib(1_500_000_000), 140);
    assert_eq!(hundredths_of_gib(u128::MAX), 31691265005705735037417580134400);
}

#[test]
fn gibibytes_round_a_tie_to_the_even_hundredth() {
    // 2^27 bytes are 0.125 GiB, 3 * 2^27 are 0.375 GiB.
    assert_eq!(hundredths_of_gib(1 << 27), 12);
    assert_eq!(hundredths_of_gib(3 << 27), 38);
    assert_eq!(hundredths_of_gib((1 << 27) + 1), 13);
    assert_eq!(hundredths_of_gib((1 << 27) - 1), 12);
    assert_eq!(format!("{:.2}", 0.125f64), "0.12");
    assert_eq!(format!("{:.2}", 0.375f64), "0.38");
}

#[test]
fn gibibytes_read_as_the_quotient_printed_to_two_decimals() {
    let mut bytes: u64 = 1;
    for step in 0..4_000u64 {
        let expected = format!("{:.2} GiB / {:.2} GiB (0%)", 0.0, bytes as f64 / GIB_BYTES as f64);
        assert_eq!(disk(0, bytes, 1, 1), expected);
        bytes = (bytes * 3 + step * 7_919 + 1) % (1 << 52);
    }
    for eighths in 0..800u64 {
        let bytes = eighths << 27;
        let expected = format!("{:.2} GiB / {:.2} GiB (100%)", bytes as f64 / GIB_BYTES as f64, bytes as f64 / GIB_BYTES as f64);
        if bytes > 0 {
            assert_eq!(memory(bytes, 0), expected);
        }
    }
}

#[test]
fn rounding_of_quotients() {
    assert_eq!(rounded_half_even(7, 2), 4);
    assert_eq!(rounded_half_even(5, 2), 2);
    assert_eq!(rounded_half_even(1, 2), 0);
    assert_eq!(rounded_half_even(10, 3), 3);
    assert_eq!(rounded_half_even(11, 3), 4);
    assert_eq!(rounded_half_even(u128::MAX, 1), u128::MAX);
    assert_eq!(rounded_half_even(u128::MAX, u128::MAX), 1);
    assert_eq!(rounded_half_even(u128::MAX - 1, u128::MAX), 1);
    assert_eq!(rounded_half_even(u128::MAX / 2, u128::MAX), 0);
    assert_eq!(rounded_half_up(7, 2), 4);
    assert_eq!(rounded_half_up(5, 2), 3);
    assert_eq!(rounded_half_up(1, 2), 1);
    assert_eq!(rounded_half_up(10, 3), 3);
    assert_eq!(rounded_half_up(u128::MAX, 1), u128::MAX);
    assert_eq!(rounded_half_up(u128::MAX / 2, u128::MAX), 0);
    assert_eq!(rounded_half_up(u128::MAX / 2 + 1, u128::MAX), 1);
}

#[test]
fn numerals() {
    assert_eq!(decimal_string(0), "0");
    assert_eq!(decimal_string(7), "7");
    assert_eq!(decimal_string(10), "10");
    assert_eq!(decimal_string(1_234_567_890), "1234567890");
    assert_eq!(decimal_string(u128::MAX), u128::MAX.to_string());
    for n in 0..2_000u128 {
        assert_eq!(decimal_string(n), n.to_string());
    }
}

#[test]
fn same_snapshot_same_line() {
    let snapshot = DiskSnapshot { total_units: 124_999_999, used_units: 77_000_123, sectors_per_unit: 8, bytes_per_sector: 512 };
    assert_eq!(get_root_disk_usage(Ok(snapshot), &ansi()), get_root_disk_usage(Ok(snapshot), &ansi()));
    let snapshot = MemorySnapshot { total: 17_179_869_184, available: 9_000_000_000 };
    assert_eq!(get_memory_usage(Ok(snapshot), &ansi()), get_memory_usage(Ok(snapshot), &ansi()));
}
