//! Rendering of elapsed durations as human-readable labels.
//!
//! An elapsed duration is taken as a number of nanoseconds and displayed in
//! the coarsest unit for which the value is at least one: nanoseconds below
//! one microsecond, microseconds below one millisecond, milliseconds below
//! one second, and otherwise seconds with two fixed decimal places.  A value
//! that lies exactly on a unit boundary is displayed in the coarser unit.
//! The integer units truncate; the seconds unit rounds its hundredths, half
//! away from zero.

use vstd::prelude::*;

verus! {

/// The decimal digit character for `d`, for `d < 10`.
pub open spec fn digit_seq(d: nat) -> Seq<char> {
    if d == 0 {
        "0"@
    } else if d == 1 {
        "1"@
    } else if d == 2 {
        "2"@
    } else if d == 3 {
        "3"@
    } else if d == 4 {
        "4"@
    } else if d == 5 {
        "5"@
    } else if d == 6 {
        "6"@
    } else if d == 7 {
        "7"@
    } else if d == 8 {
        "8"@
    } else {
        "9"@
    }
}

/// The decimal representation of `n`, most significant digit first, with no
/// leading zeros (except for `n == 0` itself).
pub open spec fn dec_rep(n: nat) -> Seq<char>
    decreases n,
{
    if n < 10 {
        digit_seq(n)
    } else {
        dec_rep(n / 10) + digit_seq(n % 10)
    }
}

fn digit_str(d: u128) -> (r: &'static str)
    requires
        d < 10,
    ensures
        r@ == digit_seq(d as nat),
{
    if d == 0 {
        "0"
    } else if d == 1 {
        "1"
    } else if d == 2 {
        "2"
    } else if d == 3 {
        "3"
    } else if d == 4 {
        "4"
    } else if d == 5 {
        "5"
    } else if d == 6 {
        "6"
    } else if d == 7 {
        "7"
    } else if d == 8 {
        "8"
    } else {
        "9"
    }
}

/// Appends the decimal representation of `n` to `out`.
fn push_dec(n: u128, out: &mut String)
    ensures
        final(out)@ == old(out)@ + dec_rep(n as nat),
    decreases n,
{
    if n < 10 {
        out.append(digit_str(n));
    } else {
        push_dec(n / 10, out);
        out.append(digit_str(n % 10));
        proof {
            assert(old(out)@ + dec_rep(n as nat) =~= (old(out)@ + dec_rep((n as nat) / 10))
                + digit_seq((n as nat) % 10));
        }
    }
}

/// The duration `n` (in nanoseconds) as a whole number of hundredths of a
/// second, rounded half away from zero.  An exact half-hundredth tie rounds
/// up; a clock tied to a binary fraction may decide such a tie either way,
/// so one direction is fixed here.
pub open spec fn rounded_centis(n: nat) -> nat {
    n / 10000000 + (if n % 10000000 >= 5000000 {
        1nat
    } else {
        0nat
    })
}

/// The label displayed for an elapsed duration of `n` nanoseconds: the value
/// in the selected unit, followed by the unit's symbol.  The integer units
/// truncate; the seconds bucket shows two fixed decimal places, rounded per
/// `rounded_centis` (the carry at `.995` and above reaches the seconds
/// digit).
pub open spec fn spec_format_duration(n: nat) -> Seq<char> {
    if n < 1000 {
        dec_rep(n) + "ns"@
    } else if n < 1000000 {
        dec_rep(n / 1000) + "\u{3bc}s"@
    } else if n < 1000000000 {
        dec_rep(n / 1000000) + "ms"@
    } else {
        dec_rep(rounded_centis(n) / 100) + "."@ + digit_seq(rounded_centis(n) % 100 / 10)
            + digit_seq(rounded_centis(n) % 100 % 10) + "s"@
    }
}

/// Formats an elapsed duration of `nanos` nanoseconds per the threshold
/// table: `<1`&mu;`s` as ns, `<1ms` as &mu;s, `<1s` as ms, and otherwise as
/// seconds with two decimal places.  Boundary values take the coarser unit.
pub fn format_duration(nanos: u128) -> (r: String)
    ensures
        r@ == spec_format_duration(nanos as nat),
{
    let mut out = String::new();
    if nanos < 1000 {
        push_dec(nanos, &mut out);
        out.append("ns");
        proof {
            assert(out@ =~= spec_format_duration(nanos as nat));
        }
    } else if nanos < 1000000 {
        push_dec(nanos / 1000, &mut out);
        out.append("\u{3bc}s");
        proof {
            assert(out@ =~= spec_format_duration(nanos as nat));
        }
    } else if nanos < 1000000000 {
        push_dec(nanos / 1000000, &mut out);
        out.append("ms");
        proof {
            assert(out@ =~= spec_format_duration(nanos as nat));
        }
    } else {
        let whole: u128 = nanos / 10000000;
        proof {
            vstd::arithmetic::div_mod::lemma_div_decreases(nanos as int, 10000000);
        }
        let rounded: u128 = if nanos % 10000000 >= 5000000 {
            whole + 1
        } else {
            whole
        };
        push_dec(rounded / 100, &mut out);
        out.append(".");
        let centis: u128 = rounded % 100;
        out.append(digit_str(centis / 10));
        out.append(digit_str(centis % 10));
        out.append("s");
        proof {
            assert(rounded as nat == rounded_centis(nanos as nat));
            assert(out@ =~= spec_format_duration(nanos as nat));
        }
    }
    out
}

/// Law: the formatter selects exactly one bucket for every duration, by the
/// ordered thresholds of one microsecond, one millisecond and one second.
/// The integer buckets display the duration truncated to the selected unit;
/// the seconds bucket displays whole seconds and two decimal places of the
/// rounded hundredths.  A duration exactly on a threshold (1,000 ns;
/// 1,000,000 ns; 1,000,000,000 ns) falls into the coarser bucket, never the
/// finer one.
pub proof fn lemma_format_duration_buckets(n: nat)
    ensures
        n < 1000 ==> spec_format_duration(n) == dec_rep(n) + "ns"@,
        1000 <= n && n < 1000000 ==> spec_format_duration(n) == dec_rep(n / 1000) + "\u{3bc}s"@,
        1000000 <= n && n < 1000000000 ==> spec_format_duration(n) == dec_rep(n / 1000000)
            + "ms"@,
        1000000000 <= n ==> spec_format_duration(n) == dec_rep(rounded_centis(n) / 100) + "."@
            + digit_seq(rounded_centis(n) % 100 / 10) + digit_seq(rounded_centis(n) % 100 % 10)
            + "s"@,
{
}

/// The report line written by an instrumented function `name` whose body ran
/// for `nanos` nanoseconds.
pub open spec fn spec_function_report(name: Seq<char>, nanos: nat) -> Seq<char> {
    "function '"@ + name + "()' took "@ + spec_format_duration(nanos)
}

/// Builds the report line for one invocation of an instrumented function.
pub fn function_report_line(name: &str, nanos: u128) -> (r: String)
    ensures
        r@ == spec_function_report(name@, nanos as nat),
{
    let mut out = String::from_str("function '");
    out.append(name);
    out.append("()' took ");
    let label = format_duration(nanos);
    out.append(label.as_str());
    proof {
        assert(out@ =~= spec_function_report(name@, nanos as nat));
    }
    out
}

/// The report line written by an instrumented expression tagged `label`
/// whose evaluation ran for `nanos` nanoseconds.
pub open spec fn spec_expression_report(label: Seq<char>, nanos: nat) -> Seq<char> {
    label + " took "@ + spec_format_duration(nanos)
}

/// Builds the report line for one evaluation of an instrumented expression.
pub fn expression_report_line(label: &str, nanos: u128) -> (r: String)
    ensures
        r@ == spec_expression_report(label@, nanos as nat),
{
    let mut out = String::from_str(label);
    out.append(" took ");
    let value = format_duration(nanos);
    out.append(value.as_str());
    proof {
        assert(out@ =~= spec_expression_report(label@, nanos as nat));
    }
    out
}

} // verus!
