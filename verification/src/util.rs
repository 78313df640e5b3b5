//! Rate arithmetic and byte-count formatting.

use vstd::prelude::*;
use vstd::string::StringExecFns;

verus! {

/// The character for one decimal digit.
pub open spec fn digit_char(d: int) -> char {
    if d == 0 {
        '0'
    } else if d == 1 {
        '1'
    } else if d == 2 {
        '2'
    } else if d == 3 {
        '3'
    } else if d == 4 {
        '4'
    } else if d == 5 {
        '5'
    } else if d == 6 {
        '6'
    } else if d == 7 {
        '7'
    } else if d == 8 {
        '8'
    } else {
        '9'
    }
}

/// The decimal rendering of a number, most significant digit first, no
/// leading zeros (a lone zero for zero).
pub open spec fn dec_chars(n: int) -> Seq<char>
    decreases n,
{
    if n < 10 {
        seq![digit_char(n)]
    } else {
        dec_chars(n / 10).push(digit_char(n % 10))
    }
}

/// A byte count in whole hundredths of a mebibyte, halves rounded up.
pub open spec fn mb_hundredths(len: int) -> int {
    (len * 100 + 0x80000) / 0x100000
}

/// The rendering `bytes_to_mb_str` produces: the mebibytes to two decimal
/// places, then " MB".
pub open spec fn mb_str_chars(len: int) -> Seq<char> {
    dec_chars(mb_hundredths(len) / 100) + seq!['.'] + seq![
        digit_char((mb_hundredths(len) / 10) % 10),
        digit_char(mb_hundredths(len) % 10),
    ] + seq![' ', 'M', 'B']
}

/// Append the character of one digit.
fn push_digit(s: &mut String, d: u64)
    requires
        d < 10,
    ensures
        final(s)@ == old(s)@.push(digit_char(d as int)),
{
    let c: &'static str = match d {
        0 => "0",
        1 => "1",
        2 => "2",
        3 => "3",
        4 => "4",
        5 => "5",
        6 => "6",
        7 => "7",
        8 => "8",
        _ => "9",
    };
    proof {
        reveal_strlit("0");
        reveal_strlit("1");
        reveal_strlit("2");
        reveal_strlit("3");
        reveal_strlit("4");
        reveal_strlit("5");
        reveal_strlit("6");
        reveal_strlit("7");
        reveal_strlit("8");
        reveal_strlit("9");
        assert(c@ =~= seq![digit_char(d as int)]);
    }
    s.append(c);
    proof {
        assert(s@ =~= old(s)@.push(digit_char(d as int)));
    }
}

/// Append the decimal rendering of a number.
fn push_dec(s: &mut String, n: u64)
    ensures
        final(s)@ == old(s)@ + dec_chars(n as int),
    decreases n,
{
    if n < 10 {
        push_digit(s, n);
        proof {
            assert(s@ =~= old(s)@ + dec_chars(n as int));
        }
    } else {
        push_dec(s, n / 10);
        push_digit(s, n % 10);
        proof {
            assert(s@ =~= old(s)@ + dec_chars(n as int));
        }
    }
}

/// A byte count as mebibytes to two decimal places, for telemetry output.
pub fn bytes_to_mb_str(len: usize) -> (r: String)
    ensures
        r@ == mb_str_chars(len as int),
{
    let h: u128 = ((len as u128) * 100 + 0x80000) / 0x100000;
    proof {
        assert(h == mb_hundredths(len as int));
        let x = (len as u128) * 100 + 0x80000;
        assert(x < 0x1_0000_0000_0000_0000 * 0x100000);
        assert(x / 0x100000 < 0x1_0000_0000_0000_0000) by (nonlinear_arith)
            requires
                x < 0x1_0000_0000_0000_0000 * 0x100000,
                x >= 0,
        ;
        assert(h < 0x1_0000_0000_0000_0000u128);
    }
    let whole: u64 = (h / 100) as u64;
    let tens: u64 = ((h / 10) % 10) as u64;
    let ones: u64 = (h % 10) as u64;
    let mut s = String::new();
    push_dec(&mut s, whole);
    proof {
        reveal_strlit(".");
        reveal_strlit(" MB");
    }
    s.append(".");
    push_digit(&mut s, tens);
    push_digit(&mut s, ones);
    s.append(" MB");
    proof {
        assert(s@ =~= mb_str_chars(len as int));
    }
    s
}

/// The highest target rate the configuration accepts.
pub const MAX_RATE: u32 = 1024;

/// The duration of one interval at the given rate, in nanoseconds: the whole
/// second split `rate` ways, and zero — no limit — for a rate of zero.
pub open spec fn spec_tick_nanos(rate: u32) -> u64 {
    if rate == 0 {
        0u64
    } else {
        (1_000_000_000int / rate as int) as u64
    }
}

/// The duration of a single interval based on the given rate.
pub fn tick_dur(rate: u32) -> (nanos: u64)
    ensures
        nanos == spec_tick_nanos(rate),
{
    if rate == 0 {
        0
    } else {
        1_000_000_000u64 / (rate as u64)
    }
}

/// Validate a configured target rate and derive the interval from it: rates
/// outside `(0, MAX_RATE]` are rejected.
pub fn checked_tick_dur(rate: u32) -> (r: Option<u64>)
    ensures
        0 < rate <= MAX_RATE ==> r == Some(spec_tick_nanos(rate)),
        !(0 < rate <= MAX_RATE) ==> r is None,
{
    if rate == 0 || rate > MAX_RATE {
        None
    } else {
        Some(tick_dur(rate))
    }
}

} // verus!
