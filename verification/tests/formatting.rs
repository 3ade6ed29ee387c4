//! The duration formatter's threshold table, including the boundary rule:
//! a value exactly on a unit threshold takes the coarser unit.

use time_this::{expression_report_line, format_duration, function_report_line};

#[test]
fn formats_zero_and_small_values_as_nanoseconds() {
    assert_eq!(format_duration(0), "0ns");
    assert_eq!(format_duration(1), "1ns");
    assert_eq!(format_duration(42), "42ns");
    assert_eq!(format_duration(999), "999ns");
}

#[test]
fn microsecond_boundary_takes_coarser_unit() {
    assert_eq!(format_duration(999), "999ns");
    assert_eq!(format_duration(1_000), "1\u{3bc}s");
    assert_eq!(format_duration(1_001), "1\u{3bc}s");
    assert_eq!(format_duration(1_999), "1\u{3bc}s");
}

#[test]
fn millisecond_boundary_takes_coarser_unit() {
    assert_eq!(format_duration(999_999), "999\u{3bc}s");
    assert_eq!(format_duration(1_000_000), "1ms");
    assert_eq!(format_duration(1_500_000), "1ms");
}

#[test]
fn second_boundary_takes_coarser_unit() {
    assert_eq!(format_duration(999_999_999), "999ms");
    assert_eq!(format_duration(1_000_000_000), "1.00s");
}

#[test]
fn seconds_show_two_rounded_decimals() {
    assert_eq!(format_duration(1_230_000_000), "1.23s");
    assert_eq!(format_duration(1_234_567_890), "1.23s");
    assert_eq!(format_duration(1_994_999_999), "1.99s");
    assert_eq!(format_duration(2_000_000_000), "2.00s");
    assert_eq!(format_duration(2_050_000_000), "2.05s");
    assert_eq!(format_duration(123_456_789_012), "123.46s");
}

#[test]
fn seconds_rounding_carries_into_the_seconds_digit() {
    assert_eq!(format_duration(1_999_999_999), "2.00s");
    assert_eq!(format_duration(59_999_999_999), "60.00s");
}

#[test]
fn seconds_half_hundredth_tie_rounds_up() {
    assert_eq!(format_duration(1_995_000_000), "2.00s");
    assert_eq!(format_duration(1_994_999_999), "1.99s");
    assert_eq!(format_duration(1_005_000_000), "1.01s");
}

#[test]
fn function_report_line_has_exact_shape() {
    assert_eq!(function_report_line("add", 500), "function 'add()' took 500ns");
    assert_eq!(
        function_report_line("recursive", 1_000_000),
        "function 'recursive()' took 1ms"
    );
}

#[test]
fn expression_report_line_has_exact_shape() {
    assert_eq!(
        expression_report_line("[tests.rs:3] add(3, 5)", 1_000),
        "[tests.rs:3] add(3, 5) took 1\u{3bc}s"
    );
    assert_eq!(
        expression_report_line("[tests.rs:4] x", 1_500_000_000),
        "[tests.rs:4] x took 1.50s"
    );
}
