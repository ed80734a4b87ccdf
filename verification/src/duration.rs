//! Formatting of wall-clock durations.
//!
//! Durations are carried as whole nanoseconds. A duration under one second
//! is shown in milliseconds, anything longer in seconds, in both cases with
//! two decimal places and zero-padded to at least seven characters, as in
//! `0012.34 ms`.

use vstd::prelude::*;
use vstd::string::StringExecFns;
use vstd::string::StrSliceExecFns;

verus! {

/// The character for one decimal digit.
pub open spec fn digit_char(d: nat) -> char
    recommends
        d < 10,
{
    if d == 0 {
        '0'
    } else if d == 1 {
        '1'
    } else if d == 2 {
        '2'
    } else if d == 3 {
        '3'
    } else if d == 4 {
        '4'
    } else if d == 5 {
        '5'
    } else if d == 6 {
        '6'
    } else if d == 7 {
        '7'
    } else if d == 8 {
        '8'
    } else {
        '9'
    }
}

/// The decimal digits of a number, most significant first.
pub open spec fn dec_digits(n: nat) -> Seq<char>
    decreases n,
{
    if n < 10 {
        seq![digit_char(n)]
    } else {
        dec_digits(n / 10).push(digit_char(n % 10))
    }
}

/// A run of `n` zero characters.
pub open spec fn zeros(n: nat) -> Seq<char> {
    Seq::new(n, |i: int| '0')
}

/// `s`, zero-padded on the left to at least `w` characters.
pub open spec fn zero_pad(s: Seq<char>, w: nat) -> Seq<char> {
    if s.len() >= w {
        s
    } else {
        zeros((w - s.len()) as nat) + s
    }
}

/// A quantity of hundredths rendered as a decimal with two decimal places,
/// zero-padded to at least seven characters.
pub open spec fn spec_hundredths(h: nat) -> Seq<char> {
    zero_pad(dec_digits(h / 100) + seq!['.', digit_char(h % 100 / 10), digit_char(h % 10)], 7)
}

/// What `format_duration` returns for a duration in nanoseconds: under one
/// second, hundredths of a millisecond with a `ms` unit; otherwise
/// hundredths of a second with an `s` unit.
pub open spec fn spec_format_duration(nanos: nat) -> Seq<char> {
    if nanos < 1_000_000_000 {
        spec_hundredths(nanos / 10_000) + " ms"@
    } else {
        spec_hundredths(nanos / 10_000_000) + " s"@
    }
}

/// The character for one digit, as a borrowed string.
fn digit_str(d: u64) -> (r: &'static str)
    requires
        d < 10,
    ensures
        r@ == seq![digit_char(d as nat)],
{
    proof {
        reveal_strlit("0");
        reveal_strlit("1");
        reveal_strlit("2");
        reveal_strlit("3");
        reveal_strlit("4");
        reveal_strlit("5");
        reveal_strlit("6");
        reveal_strlit("7");
        reveal_strlit("8");
        reveal_strlit("9");
    }
    let r = if d == 0 {
        "0"
    } else if d == 1 {
        "1"
    } else if d == 2 {
        "2"
    } else if d == 3 {
        "3"
    } else if d == 4 {
        "4"
    } else if d == 5 {
        "5"
    } else if d == 6 {
        "6"
    } else if d == 7 {
        "7"
    } else if d == 8 {
        "8"
    } else {
        "9"
    };
    proof {
        assert(r@ =~= seq![digit_char(d as nat)]);
    }
    r
}

/// The decimal digits of `n`, most significant first.
pub fn decimal_string(n: u64) -> (r: String)
    ensures
        r@ == dec_digits(n as nat),
    decreases n,
{
    if n < 10 {
        String::from_str(digit_str(n))
    } else {
        let r = decimal_string(n / 10).concat(digit_str(n % 10));
        proof {
            assert(r@ =~= dec_digits(n as nat));
        }
        r
    }
}

/// Render a quantity of hundredths with two decimal places, zero-padded on
/// the left to at least seven characters.
fn hundredths(h: u64) -> (r: String)
    ensures
        r@ == spec_hundredths(h as nat),
{
    proof {
        reveal_strlit(".");
    }
    let body = decimal_string(h / 100).concat(".").concat(digit_str(h % 100 / 10)).concat(
        digit_str(h % 10),
    );
    let len = body.as_str().unicode_len();
    let mut out = String::new();
    let mut k = len;
    while k < 7
        invariant
            len == body@.len(),
            len <= k,
            len < 7 ==> k <= 7,
            len >= 7 ==> k == len,
            out@ =~= zeros((k - len) as nat),
        decreases 7 - k,
    {
        out.append("0");
        proof {
            reveal_strlit("0");
            assert(out@ =~= zeros((k + 1 - len) as nat));
        }
        k = k + 1;
    }
    let r = out.concat(body.as_str());
    proof {
        assert(body@ =~= dec_digits(h as nat / 100) + seq![
            '.',
            digit_char(h as nat % 100 / 10),
            digit_char(h as nat % 10),
        ]);
        assert(r@ =~= spec_hundredths(h as nat));
    }
    r
}

/// Render a duration given in nanoseconds: under one second in
/// milliseconds, otherwise in seconds, with two decimal places and
/// zero-padded to at least seven characters.
pub fn format_duration(nanos: u64) -> (r: String)
    ensures
        r@ == spec_format_duration(nanos as nat),
{
    if nanos < 1_000_000_000 {
        hundredths(nanos / 10_000).concat(" ms")
    } else {
        hundredths(nanos / 10_000_000).concat(" s")
    }
}

/// What `benchmark_display` returns: the last run's duration beside the
/// running average and the bounds, as in `d ~ [avg] <=> [min - max]`.
pub open spec fn spec_benchmark_display(duration: nat, average: nat, min: nat, max: nat) -> Seq<
    char,
> {
    spec_format_duration(duration) + " ~ ["@ + spec_format_duration(average) + "] <=> ["@
        + spec_format_duration(min) + " - "@ + spec_format_duration(max) + "]"@
}

/// Render a benchmark accumulator's figures: the last run's duration, the
/// running average, and the observed bounds.
pub fn benchmark_display(duration: u64, average: u64, min: u64, max: u64) -> (r: String)
    ensures
        r@ == spec_benchmark_display(duration as nat, average as nat, min as nat, max as nat),
{
    let r = format_duration(duration).concat(" ~ [").concat(format_duration(average).as_str())
        .concat("] <=> [").concat(format_duration(min).as_str()).concat(" - ").concat(
        format_duration(max).as_str(),
    ).concat("]");
    proof {
        assert(r@ =~= spec_benchmark_display(
            duration as nat,
            average as nat,
            min as nat,
            max as nat,
        ));
    }
    r
}

} // verus!
