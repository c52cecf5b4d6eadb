//! Decimal rendering of unsigned numbers, with zero padding.
//!
//! The header prints every numeric field — date parts, time parts, the
//! microsecond fraction and the line number — as decimal digits, most of
//! them zero-padded to a fixed minimum width.

use vstd::prelude::*;

verus! {

/// The decimal digit character for `d`, for `d < 10`.
pub open spec fn digit_char(d: nat) -> char {
    if d == 0 {
        '0'
    } else if d == 1 {
        '1'
    } else if d == 2 {
        '2'
    } else if d == 3 {
        '3'
    } else if d == 4 {
        '4'
    } else if d == 5 {
        '5'
    } else if d == 6 {
        '6'
    } else if d == 7 {
        '7'
    } else if d == 8 {
        '8'
    } else {
        '9'
    }
}

/// The decimal digits of `n`, most significant first, with no leading
/// zeros (`0` itself is the single digit `0`).
pub open spec fn dec_digits(n: nat) -> Seq<char>
    decreases n,
{
    if n < 10 {
        seq![digit_char(n)]
    } else {
        dec_digits(n / 10) + seq![digit_char(n % 10)]
    }
}

/// `s` left-padded with `'0'` up to width `w`; `s` unchanged when it is
/// already at least `w` long.
pub open spec fn zero_pad(s: Seq<char>, w: nat) -> Seq<char> {
    if s.len() >= w {
        s
    } else {
        Seq::new((w - s.len()) as nat, |i: int| '0') + s
    }
}

/// The decimal digits of `n`, zero-padded to a minimum width of `w`.
pub open spec fn padded_dec(n: nat, w: nat) -> Seq<char> {
    zero_pad(dec_digits(n), w)
}

/// A one-character string holding the digit character for `d`.
fn digit_str(d: u8) -> (r: &'static str)
    requires
        d < 10,
    ensures
        r@ =~= seq![digit_char(d as nat)],
{
    proof {
        reveal_strlit("0");
        reveal_strlit("1");
        reveal_strlit("2");
        reveal_strlit("3");
        reveal_strlit("4");
        reveal_strlit("5");
        reveal_strlit("6");
        reveal_strlit("7");
        reveal_strlit("8");
        reveal_strlit("9");
    }
    match d {
        0 => "0",
        1 => "1",
        2 => "2",
        3 => "3",
        4 => "4",
        5 => "5",
        6 => "6",
        7 => "7",
        8 => "8",
        _ => "9",
    }
}

/// The decimal digits of `n`, as a string.
pub fn u32_dec(n: u32) -> (r: String)
    ensures
        r@ =~= dec_digits(n as nat),
    decreases n,
{
    if n < 10 {
        digit_str(n as u8).to_owned()
    } else {
        let mut s = u32_dec(n / 10);
        s.append(digit_str((n % 10) as u8));
        s
    }
}

/// The decimal digits of `n`, zero-padded to a minimum width of `w`.
pub fn u32_dec_pad(n: u32, w: usize) -> (r: String)
    ensures
        r@ =~= padded_dec(n as nat, w as nat),
{
    let digits = u32_dec(n);
    let len = digits.as_str().unicode_len();
    let mut buf = String::new();
    let mut k: usize = len;
    proof {
        reveal_strlit("0");
    }
    while k < w
        invariant
            len == dec_digits(n as nat).len(),
            len <= k,
            k <= w || k == len,
            buf@ =~= Seq::new((k - len) as nat, |i: int| '0'),
        decreases w - k,
    {
        proof {
            reveal_strlit("0");
        }
        buf.append("0");
        k = k + 1;
        assert(buf@ =~= Seq::new((k - len) as nat, |i: int| '0'));
    }
    buf.append(digits.as_str());
    buf
}

} // verus!
