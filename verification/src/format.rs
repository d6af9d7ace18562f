//! Human-readable formatting of the per-invocation metrics: byte counts
//! and elapsed times, as they appear in the one log line emitted after an
//! invocation resolves.
//!
//! Scaled quantities carry one or two decimal digits; the quotient is
//! rounded to nearest with ties to even, the rounding that fixed-precision
//! formatting of an exactly representable quotient performs.

use vstd::arithmetic::div_mod::lemma_div_is_ordered;
use vstd::arithmetic::div_mod::lemma_div_is_ordered_by_denominator;
use vstd::prelude::*;
use vstd::string::StringExecFns;

verus! {

/// The character for one decimal digit.
pub open spec fn digit_char(d: nat) -> char
    recommends
        d < 10,
{
    if d == 0 {
        '0'
    } else if d == 1 {
        '1'
    } else if d == 2 {
        '2'
    } else if d == 3 {
        '3'
    } else if d == 4 {
        '4'
    } else if d == 5 {
        '5'
    } else if d == 6 {
        '6'
    } else if d == 7 {
        '7'
    } else if d == 8 {
        '8'
    } else {
        '9'
    }
}

/// Decimal rendering of a natural number, most significant digit first.
pub open spec fn spec_dec(n: nat) -> Seq<char>
    decreases n,
{
    if n < 10 {
        seq![digit_char(n)]
    } else {
        spec_dec(n / 10).push(digit_char(n % 10))
    }
}

/// `a / d` rounded to nearest, ties to even.
pub open spec fn round_div_half_even(a: int, d: int) -> int
    recommends
        0 <= a,
        0 < d,
{
    let q = a / d;
    let r = a % d;
    if 2 * r > d {
        q + 1
    } else if 2 * r == d && q % 2 == 1 {
        q + 1
    } else {
        q
    }
}

/// `n / d` rendered with one decimal digit: whole part, a dot, one digit.
pub open spec fn spec_one_decimal(n: int, d: int) -> Seq<char>
    recommends
        0 <= n,
        0 < d,
{
    let t = round_div_half_even(n * 10, d);
    spec_dec((t / 10) as nat) + seq!['.'] + seq![digit_char((t % 10) as nat)]
}

/// Two decimal digits for `n < 100`, zero-padded.
pub open spec fn spec_pad2(n: nat) -> Seq<char>
    recommends
        n < 100,
{
    if n < 10 {
        seq!['0', digit_char(n)]
    } else {
        spec_dec(n)
    }
}

/// A byte count as logged: below 1024 exactly in bytes, then with one
/// decimal digit in binary kilo-, mega- and gigabytes.
pub open spec fn spec_format_bytes(bytes: u64) -> Seq<char> {
    if bytes < 1024 {
        spec_dec(bytes as nat) + seq!['B']
    } else if bytes < 1048576 {
        spec_one_decimal(bytes as int, 1024) + seq!['K', 'B']
    } else if bytes < 1073741824 {
        spec_one_decimal(bytes as int, 1048576) + seq!['M', 'B']
    } else {
        spec_one_decimal(bytes as int, 1073741824) + seq!['G', 'B']
    }
}

/// A span of elapsed time: whole seconds and sub-second nanoseconds.
pub struct Elapsed {
    pub secs: u64,
    pub nanos: u32,
}

impl Elapsed {
    pub open spec fn wf(self) -> bool {
        self.nanos < 1000000000
    }

    pub open spec fn total_nanos(self) -> int {
        self.secs * 1000000000 + self.nanos
    }
}

/// An elapsed time as logged: seconds with two decimal digits once a whole
/// second has passed; otherwise milliseconds from one thousand up (kept
/// from the logging policy although the seconds branch already covers it);
/// otherwise microseconds.
pub open spec fn spec_format_duration(d: Elapsed) -> Seq<char>
    recommends
        d.wf(),
{
    if d.secs > 0 {
        let h = round_div_half_even(d.total_nanos(), 10000000);
        spec_dec((h / 100) as nat) + seq!['.'] + spec_pad2((h % 100) as nat) + seq!['s']
    } else if d.total_nanos() / 1000000 >= 1000 {
        spec_dec((d.total_nanos() / 1000000) as nat) + seq!['m', 's']
    } else {
        spec_dec((d.total_nanos() / 1000) as nat) + seq!['µ', 's']
    }
}

/// The one log line emitted per invocation once its task resolves.
pub open spec fn spec_metrics_line(
    method: Seq<char>,
    uri: Seq<char>,
    component_id: Seq<char>,
    peak_bytes: u64,
    cpu: Elapsed,
    wall: Elapsed,
) -> Seq<char>
    recommends
        cpu.wf(),
        wall.wf(),
{
    method + " request to "@ + uri + " handled. Component: "@ + component_id
        + ", Peak memory usage: "@ + spec_format_bytes(peak_bytes) + ", CPU time: "@
        + spec_format_duration(cpu) + ", Wall-clock time: "@ + spec_format_duration(wall)
}

/// Renders the whole metrics log line for one resolved invocation.
pub fn format_metrics_line(
    method: &str,
    uri: &str,
    component_id: &str,
    peak_bytes: u64,
    cpu: &Elapsed,
    wall: &Elapsed,
) -> (s: String)
    requires
        cpu.wf(),
        wall.wf(),
    ensures
        s@ == spec_metrics_line(method@, uri@, component_id@, peak_bytes, *cpu, *wall),
{
    let mut s = String::from_str(method);
    s.append(" request to ");
    s.append(uri);
    s.append(" handled. Component: ");
    s.append(component_id);
    s.append(", Peak memory usage: ");
    let bytes_part = format_bytes(peak_bytes);
    s.append(bytes_part.as_str());
    s.append(", CPU time: ");
    let cpu_part = format_duration(cpu);
    s.append(cpu_part.as_str());
    s.append(", Wall-clock time: ");
    let wall_part = format_duration(wall);
    s.append(wall_part.as_str());
    proof {
        assert(s@ =~= spec_metrics_line(method@, uri@, component_id@, peak_bytes, *cpu, *wall));
    }
    s
}

fn digit_str(d: u128) -> (s: &'static str)
    requires
        d < 10,
    ensures
        s@ == seq![digit_char(d as nat)],
{
    let s: &'static str = if d == 0 {
        "0"
    } else if d == 1 {
        "1"
    } else if d == 2 {
        "2"
    } else if d == 3 {
        "3"
    } else if d == 4 {
        "4"
    } else if d == 5 {
        "5"
    } else if d == 6 {
        "6"
    } else if d == 7 {
        "7"
    } else if d == 8 {
        "8"
    } else {
        "9"
    };
    proof {
        reveal_strlit("0");
        reveal_strlit("1");
        reveal_strlit("2");
        reveal_strlit("3");
        reveal_strlit("4");
        reveal_strlit("5");
        reveal_strlit("6");
        reveal_strlit("7");
        reveal_strlit("8");
        reveal_strlit("9");
        assert(s@ =~= seq![digit_char(d as nat)]);
    }
    s
}

/// Decimal rendering of `n`.
fn dec_string(n: u128) -> (s: String)
    ensures
        s@ == spec_dec(n as nat),
    decreases n,
{
    if n < 10 {
        String::from_str(digit_str(n))
    } else {
        let mut s = dec_string(n / 10);
        s.append(digit_str(n % 10));
        proof {
            assert(s@ =~= spec_dec(n as nat));
        }
        s
    }
}

fn div_round_half_even(a: u128, d: u128) -> (t: u128)
    requires
        2 <= d <= 1000000000000,
    ensures
        t as int == round_div_half_even(a as int, d as int),
{
    let q = a / d;
    let r = a % d;
    proof {
        lemma_div_is_ordered_by_denominator(a as int, 2, d as int);
        lemma_div_is_ordered(a as int, u128::MAX as int, 2);
    }
    if 2 * r > d {
        q + 1
    } else if 2 * r == d && q % 2 == 1 {
        q + 1
    } else {
        q
    }
}

/// `n / d` with one decimal digit.
fn one_decimal(n: u64, d: u64) -> (s: String)
    requires
        1024 <= d <= 1000000000000,
    ensures
        s@ == spec_one_decimal(n as int, d as int),
{
    let a: u128 = (n as u128) * 10;
    let t = div_round_half_even(a, d as u128);
    let mut s = dec_string(t / 10);
    s.append(".");
    s.append(digit_str(t % 10));
    proof {
        reveal_strlit(".");
        assert("."@ =~= seq!['.']);
        assert(s@ =~= spec_one_decimal(n as int, d as int));
    }
    s
}

/// Renders a byte count for the metrics log line.
pub fn format_bytes(bytes: u64) -> (s: String)
    ensures
        s@ == spec_format_bytes(bytes),
{
    if bytes < 1024 {
        let mut s = dec_string(bytes as u128);
        s.append("B");
        proof {
            reveal_strlit("B");
            assert("B"@ =~= seq!['B']);
            assert(s@ =~= spec_format_bytes(bytes));
        }
        s
    } else if bytes < 1048576 {
        let mut s = one_decimal(bytes, 1024);
        s.append("KB");
        proof {
            reveal_strlit("KB");
            assert("KB"@ =~= seq!['K', 'B']);
            assert(s@ =~= spec_format_bytes(bytes));
        }
        s
    } else if bytes < 1073741824 {
        let mut s = one_decimal(bytes, 1048576);
        s.append("MB");
        proof {
            reveal_strlit("MB");
            assert("MB"@ =~= seq!['M', 'B']);
            assert(s@ =~= spec_format_bytes(bytes));
        }
        s
    } else {
        let mut s = one_decimal(bytes, 1073741824);
        s.append("GB");
        proof {
            reveal_strlit("GB");
            assert("GB"@ =~= seq!['G', 'B']);
            assert(s@ =~= spec_format_bytes(bytes));
        }
        s
    }
}

/// Renders an elapsed time for the metrics log line.
pub fn format_duration(d: &Elapsed) -> (s: String)
    requires
        d.wf(),
    ensures
        s@ == spec_format_duration(*d),
{
    let total: u128 = (d.secs as u128) * 1000000000 + (d.nanos as u128);
    if d.secs > 0 {
        let h = div_round_half_even(total, 10000000);
        let mut s = dec_string(h / 100);
        s.append(".");
        let frac = h % 100;
        if frac < 10 {
            s.append("0");
            s.append(digit_str(frac));
        } else {
            let f = dec_string(frac);
            s.append(f.as_str());
        }
        s.append("s");
        proof {
            reveal_strlit(".");
            reveal_strlit("0");
            reveal_strlit("s");
            assert("."@ =~= seq!['.']);
            assert("s"@ =~= seq!['s']);
            assert(s@ =~= spec_format_duration(*d));
        }
        s
    } else {
        let millis = total / 1000000;
        if millis >= 1000 {
            let mut s = dec_string(millis);
            s.append("ms");
            proof {
                reveal_strlit("ms");
                assert("ms"@ =~= seq!['m', 's']);
                assert(s@ =~= spec_format_duration(*d));
            }
            s
        } else {
            let mut s = dec_string(total / 1000);
            s.append("µs");
            proof {
                reveal_strlit("µs");
                assert("µs"@ =~= seq!['µ', 's']);
                assert(s@ =~= spec_format_duration(*d));
            }
            s
        }
    }
}

} // verus!
