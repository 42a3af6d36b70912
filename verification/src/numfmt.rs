//! Decimal rendering of integers, and of millisecond offsets as
//! seconds with three decimal places — the form the encoder's
//! time-skip argument takes.

use vstd::prelude::*;

verus! {

/// The character of one decimal digit.
pub open spec fn digit_char(d: nat) -> char
    recommends
        d < 10,
{
    if d == 0 {
        '0'
    } else if d == 1 {
        '1'
    } else if d == 2 {
        '2'
    } else if d == 3 {
        '3'
    } else if d == 4 {
        '4'
    } else if d == 5 {
        '5'
    } else if d == 6 {
        '6'
    } else if d == 7 {
        '7'
    } else if d == 8 {
        '8'
    } else {
        '9'
    }
}

/// The decimal digits of `n`, most significant first, no leading zeros
/// (a single `'0'` for zero).
pub open spec fn dec_digits(n: nat) -> Seq<char>
    decreases n,
{
    if n < 10 {
        seq![digit_char(n)]
    } else {
        dec_digits(n / 10).push(digit_char(n % 10))
    }
}

/// Milliseconds rendered as seconds with exactly three decimal places:
/// `80` becomes `0.080`, `1250` becomes `1.250`.
pub open spec fn offset_seconds_text(ms: nat) -> Seq<char> {
    dec_digits(ms / 1000) + seq!['.'] + frac3_digits(ms % 1000)
}

/// A sub-second part, zero-padded to three digits.
pub open spec fn frac3_digits(f: nat) -> Seq<char>
    recommends
        f < 1000,
{
    if f < 10 {
        seq!['0', '0'] + dec_digits(f)
    } else if f < 100 {
        seq!['0'] + dec_digits(f)
    } else {
        dec_digits(f)
    }
}

/// One decimal digit as a string.
fn digit_str(d: u64) -> (r: String)
    requires
        d < 10,
    ensures
        r@ == seq![digit_char(d as nat)],
{
    let r = if d == 0 {
        String::from_str("0")
    } else if d == 1 {
        String::from_str("1")
    } else if d == 2 {
        String::from_str("2")
    } else if d == 3 {
        String::from_str("3")
    } else if d == 4 {
        String::from_str("4")
    } else if d == 5 {
        String::from_str("5")
    } else if d == 6 {
        String::from_str("6")
    } else if d == 7 {
        String::from_str("7")
    } else if d == 8 {
        String::from_str("8")
    } else {
        String::from_str("9")
    };
    proof {
        reveal_strlit("0");
        reveal_strlit("1");
        reveal_strlit("2");
        reveal_strlit("3");
        reveal_strlit("4");
        reveal_strlit("5");
        reveal_strlit("6");
        reveal_strlit("7");
        reveal_strlit("8");
        reveal_strlit("9");
        assert(r@ =~= seq![digit_char(d as nat)]);
    }
    r
}

/// Render `n` in decimal.
pub fn u64_to_dec(n: u64) -> (r: String)
    ensures
        r@ == dec_digits(n as nat),
    decreases n,
{
    if n < 10 {
        digit_str(n)
    } else {
        let mut s = u64_to_dec(n / 10);
        let last = digit_str(n % 10);
        s.append(last.as_str());
        proof {
            assert(s@ =~= dec_digits(n as nat));
        }
        s
    }
}

/// Render a millisecond offset as seconds with three decimal places.
pub fn format_offset_seconds(ms: u64) -> (r: String)
    ensures
        r@ == offset_seconds_text(ms as nat),
{
    let mut s = u64_to_dec(ms / 1000);
    s.append(".");
    let f = ms % 1000;
    if f < 10 {
        s.append("00");
    } else if f < 100 {
        s.append("0");
    }
    let digits = u64_to_dec(f);
    s.append(digits.as_str());
    proof {
        reveal_strlit(".");
        reveal_strlit("0");
        reveal_strlit("00");
        assert(s@ =~= offset_seconds_text(ms as nat));
    }
    s
}

} // verus!
