use titan_core::duration::benchmark_display;
use titan_core::duration::decimal_string;
use titan_core::duration::format_duration;

#[test]
fn sub_second_durations_print_as_milliseconds() {
    assert_eq!(format_duration(12_340_000), "0012.34 ms");
    assert_eq!(format_duration(999_999_999), "0999.99 ms");
    assert_eq!(format_duration(10_000), "0000.01 ms");
}

#[test]
fn zero_duration_prints_as_milliseconds() {
    assert_eq!(format_duration(0), "0000.00 ms");
}

#[test]
fn durations_from_one_second_print_as_seconds() {
    assert_eq!(format_duration(1_000_000_000), "0001.00 s");
    assert_eq!(format_duration(1_500_000_000), "0001.50 s");
    assert_eq!(format_duration(123_456_780_000), "0123.45 s");
}

#[test]
fn long_durations_widen_past_the_padding() {
    assert_eq!(format_duration(123_456_000_000_000), "123456.00 s");
}

#[test]
fn benchmark_lines_show_last_average_and_bounds() {
    assert_eq!(
        benchmark_display(12_340_000, 12_340_000, 10_000_000, 20_000_000),
        "0012.34 ms ~ [0012.34 ms] <=> [0010.00 ms - 0020.00 ms]"
    );
}

#[test]
fn decimal_strings_match_their_numbers() {
    assert_eq!(decimal_string(0), "0");
    assert_eq!(decimal_string(10), "10");
    assert_eq!(decimal_string(909), "909");
    assert_eq!(decimal_string(u64::MAX), "18446744073709551615");
}
