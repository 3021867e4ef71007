//! How numbers and lengths of time are written out.

use crate::reading::ClockReading;
use vstd::prelude::*;
use vstd::string::StringExecFns;

verus! {

/// The character of one decimal digit.
pub open spec fn digit(d: int) -> char {
    if d == 0 {
        '0'
    } else if d == 1 {
        '1'
    } else if d == 2 {
        '2'
    } else if d == 3 {
        '3'
    } else if d == 4 {
        '4'
    } else if d == 5 {
        '5'
    } else if d == 6 {
        '6'
    } else if d == 7 {
        '7'
    } else if d == 8 {
        '8'
    } else {
        '9'
    }
}

/// A number in decimal, without leading zeros.
pub open spec fn decimal_text(n: nat) -> Seq<char>
    decreases n,
{
    if n < 10 {
        seq![digit(n as int)]
    } else {
        decimal_text(n / 10).push(digit((n % 10) as int))
    }
}

/// A whole number in decimal, with a minus before it where it is below zero.
pub open spec fn signed_text(v: int) -> Seq<char> {
    if v < 0 {
        seq!['-'] + decimal_text((-v) as nat)
    } else {
        decimal_text(v as nat)
    }
}

/// The digits of `rest` as a fraction of ten times `scale`, without the
/// zeros at its end. `scale` is a power of ten, and `rest` below ten times
/// `scale`.
pub open spec fn fraction_text(rest: nat, scale: nat) -> Seq<char>
    decreases scale,
{
    if rest == 0 || scale == 0 {
        Seq::<char>::empty()
    } else {
        seq![digit((rest / scale) as int)] + fraction_text(rest % scale, scale / 10)
    }
}

/// A length of time in seconds: the whole seconds in decimal; where there
/// are nanoseconds past them, a point and their digits as a fraction of a
/// second, without the zeros at its end; then the letter `s`.
pub open spec fn duration_text(nanos: nat) -> Seq<char> {
    let whole = decimal_text(nanos / 1_000_000_000);
    let rest = nanos % 1_000_000_000;
    if rest == 0 {
        whole.push('s')
    } else {
        (whole.push('.') + fraction_text(rest, 100_000_000)).push('s')
    }
}

/// One decimal digit as text.
fn digit_str(d: u8) -> (s: &'static str)
    requires
        d < 10,
    ensures
        s@ == seq![digit(d as int)],
{
    proof {
        reveal_strlit("0");
        reveal_strlit("1");
        reveal_strlit("2");
        reveal_strlit("3");
        reveal_strlit("4");
        reveal_strlit("5");
        reveal_strlit("6");
        reveal_strlit("7");
        reveal_strlit("8");
        reveal_strlit("9");
    }
    let s = if d == 0 {
        "0"
    } else if d == 1 {
        "1"
    } else if d == 2 {
        "2"
    } else if d == 3 {
        "3"
    } else if d == 4 {
        "4"
    } else if d == 5 {
        "5"
    } else if d == 6 {
        "6"
    } else if d == 7 {
        "7"
    } else if d == 8 {
        "8"
    } else {
        "9"
    };
    assert(s@ =~= seq![digit(d as int)]);
    s
}

/// Writes a number in decimal to the end of `out`.
pub fn push_decimal(out: &mut String, n: u64)
    ensures
        final(out)@ == old(out)@ + decimal_text(n as nat),
    decreases n,
{
    if n >= 10 {
        push_decimal(out, n / 10);
    }
    let last: u8 = (n % 10) as u8;
    out.append(digit_str(last));
    assert(out@ =~= old(out)@ + decimal_text(n as nat));
}

/// Writes a whole number in decimal to the end of `out`, with a minus before
/// it where it is below zero.
pub fn push_signed(out: &mut String, v: i32)
    ensures
        final(out)@ == old(out)@ + signed_text(v as int),
{
    if v < 0 {
        out.append("-");
        let wide: i64 = v as i64;
        push_decimal(out, (-wide) as u64);
        proof {
            reveal_strlit("-");
            assert("-"@ =~= seq!['-']);
            assert(out@ =~= old(out)@ + signed_text(v as int));
        }
    } else {
        push_decimal(out, v as u64);
    }
}

/// Whether a number is a power of ten.
pub open spec fn is_power_of_ten(scale: nat) -> bool
    decreases scale,
{
    scale == 1 || (scale >= 10 && scale % 10 == 0 && is_power_of_ten(scale / 10))
}

/// Writes the digits of `rest` as a fraction of ten times `scale` to the end
/// of `out`, without the zeros at its end.
fn push_fraction(out: &mut String, rest: u32, scale: u32)
    requires
        is_power_of_ten(scale as nat),
        rest < 10 * scale,
    ensures
        final(out)@ == old(out)@ + fraction_text(rest as nat, scale as nat),
    decreases scale,
{
    if rest == 0 || scale == 0 {
        assert(out@ =~= old(out)@ + fraction_text(rest as nat, scale as nat));
    } else {
        let first: u32 = rest / scale;
        let below: u32 = rest % scale;
        assert(first < 10 && below < scale) by (nonlinear_arith)
            requires
                rest < 10 * scale,
                scale > 0,
                first == rest / scale,
                below == rest % scale,
        ;
        assert(scale < 10 ==> scale == 1);
        assert(scale >= 10 ==> scale == 10 * (scale / 10));
        out.append(digit_str(first as u8));
        if scale < 10 {
            assert(below == 0);
            assert(out@ =~= old(out)@ + fraction_text(rest as nat, scale as nat));
        } else {
            push_fraction(out, below, scale / 10);
            assert(out@ =~= old(out)@ + fraction_text(rest as nat, scale as nat));
        }
    }
}

/// Writes a length of time in seconds to the end of `out`.
pub fn push_duration(out: &mut String, reading: &ClockReading)
    ensures
        final(out)@ == old(out)@ + duration_text(reading@),
{
    let whole: u64 = reading.secs();
    let rest: u32 = reading.subsec_nanos();
    push_decimal(out, whole);
    if rest == 0 {
        out.append("s");
        proof {
            reveal_strlit("s");
            assert("s"@ =~= seq!['s']);
            assert(out@ =~= old(out)@ + duration_text(reading@));
        }
    } else {
        out.append(".");
        proof {
            assert(is_power_of_ten(1));
            assert(is_power_of_ten(10));
            assert(is_power_of_ten(100));
            assert(is_power_of_ten(1_000));
            assert(is_power_of_ten(10_000));
            assert(is_power_of_ten(100_000));
            assert(is_power_of_ten(1_000_000));
            assert(is_power_of_ten(10_000_000));
            assert(is_power_of_ten(100_000_000));
        }
        push_fraction(out, rest, 100_000_000);
        out.append("s");
        proof {
            reveal_strlit("s");
            reveal_strlit(".");
            assert("s"@ =~= seq!['s']);
            assert("."@ =~= seq!['.']);
            assert(out@ =~= old(out)@ + duration_text(reading@));
        }
    }
}

/// A length of time in seconds, as text.
pub fn render_duration(reading: &ClockReading) -> (text: String)
    ensures
        text@ == duration_text(reading@),
{
    let mut text = String::new();
    push_duration(&mut text, reading);
    assert(text@ =~= duration_text(reading@));
    text
}

} // verus!
