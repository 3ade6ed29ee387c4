//! The runtime behavior an instrumented construct emulates: the original
//! value is returned unchanged and one report line is produced per
//! invocation, built by the library's formatter.

use time_this::{expression_report_line, function_report_line};

pub fn try_compile() {}

fn add_for_compile(a: usize, b: usize) -> usize {
    a + b
}

fn recursive(n: u64) -> u64 {
    match n {
        0 => 1,
        1 => 1,
        n => recursive(n - 1) + recursive(n - 2),
    }
}

fn add_for_time(a: usize, b: usize) -> usize {
    a + b
}

/// Performs what the emitted wrapper of the expression form performs at
/// runtime: clock-start, one evaluation, clock-elapsed, a report line.
fn timed<T>(label: &str, body: impl FnOnce() -> T) -> T {
    let start = std::time::Instant::now();
    let res = body();
    let elapsed = start.elapsed();
    println!("{}", expression_report_line(label, elapsed.as_nanos()));
    res
}

#[test]
fn test() {
    try_compile();
    println!("{}", add_for_compile(2, 2));
    println!("{}", recursive(5));

    assert_eq!(
        timed("[tests.rs:1] add_for_time(3, 5)", || add_for_time(3, 5)),
        add_for_time(3, 5)
    );
    assert_eq!(add_for_time(3, 5), 8);
}

#[test]
fn function_invocation_returns_value_and_one_line() {
    fn add(a: u32, b: u32) -> u32 {
        a + b
    }
    let start = std::time::Instant::now();
    let res = add(3, 5);
    let line = function_report_line("add", start.elapsed().as_nanos());
    assert_eq!(res, 8);
    assert!(line.starts_with("function 'add()' took "));
    let unit_ok = line.ends_with("ns")
        || line.ends_with("\u{3bc}s")
        || line.ends_with("ms")
        || line.ends_with("s");
    assert!(unit_ok);
}

#[test]
fn expression_invocation_returns_value_and_one_line() {
    fn add(a: u32, b: u32) -> u32 {
        a + b
    }
    let mut lines: Vec<String> = Vec::new();
    let start = std::time::Instant::now();
    let res = add(3, 5);
    lines.push(expression_report_line(
        "[tests.rs:2] add(3, 5)",
        start.elapsed().as_nanos(),
    ));
    assert_eq!(res, 8);
    assert_eq!(lines.len(), 1);
    assert!(lines[0].starts_with("[tests.rs:2] add(3, 5) took "));
}

#[test]
fn early_return_in_the_body_still_reports() {
    fn clamp_to_ten(x: u32, lines: &mut Vec<String>) -> u32 {
        let start = std::time::Instant::now();
        let res = (move || {
            if x > 10 {
                return 10;
            }
            x
        })();
        lines.push(function_report_line("clamp_to_ten", start.elapsed().as_nanos()));
        res
    }
    let mut lines: Vec<String> = Vec::new();
    assert_eq!(clamp_to_ten(99, &mut lines), 10);
    assert_eq!(clamp_to_ten(3, &mut lines), 3);
    assert_eq!(lines.len(), 2);
}

#[test]
fn recursive_calls_report_independently() {
    fn fib_timed(n: u64, lines: &mut Vec<String>) -> u64 {
        let start = std::time::Instant::now();
        let res = match n {
            0 => 1,
            1 => 1,
            n => fib_timed(n - 1, lines) + fib_timed(n - 2, lines),
        };
        lines.push(function_report_line("fib", start.elapsed().as_nanos()));
        res
    }
    let mut lines: Vec<String> = Vec::new();
    assert_eq!(fib_timed(5, &mut lines), 8);
    assert_eq!(lines.len(), 15);
    let mut i: usize = 0;
    while i < lines.len() {
        assert!(lines[i].starts_with("function 'fib()' took "));
        i += 1;
    }
}
