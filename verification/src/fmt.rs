//! Pure decimal formatting over character sequences.
//!
//! Metric values are fixed-point integers: a percentage in tenths or
//! hundredths, a byte count already scaled to tenths or hundredths of a
//! unit. The specification functions here define, character by character,
//! the decimal text of such a value; the executable functions build exactly
//! that text.

use vstd::prelude::*;

verus! {

/// The single decimal digit `d` as a one-character sequence.
pub open spec fn dec_digit(d: nat) -> Seq<char> {
    if d == 0 {
        "0"@
    } else if d == 1 {
        "1"@
    } else if d == 2 {
        "2"@
    } else if d == 3 {
        "3"@
    } else if d == 4 {
        "4"@
    } else if d == 5 {
        "5"@
    } else if d == 6 {
        "6"@
    } else if d == 7 {
        "7"@
    } else if d == 8 {
        "8"@
    } else {
        "9"@
    }
}

/// The usual decimal text of `n`, without sign or leading zeros.
pub open spec fn dec_str(n: nat) -> Seq<char>
    decreases n,
{
    if n < 10 {
        dec_digit(n)
    } else {
        dec_str(n / 10) + dec_digit(n % 10)
    }
}

/// A value held in tenths, printed with one decimal place: `v/10 "." v%10`.
pub open spec fn fixed1_str(v: nat) -> Seq<char> {
    dec_str(v / 10) + "."@ + dec_digit(v % 10)
}

/// A value held in hundredths, printed with two decimal places.
pub open spec fn fixed2_str(v: nat) -> Seq<char> {
    dec_str(v / 100) + "."@ + dec_digit((v % 100) / 10) + dec_digit(v % 10)
}

/// `k` spaces.
pub open spec fn spaces(k: nat) -> Seq<char> {
    Seq::new(k, |i: int| ' ')
}

/// The decimal text of `n`, right-aligned in a field of `width` characters;
/// wider values keep their full text.
pub open spec fn padded_dec_str(n: nat, width: nat) -> Seq<char> {
    if dec_str(n).len() >= width {
        dec_str(n)
    } else {
        spaces((width - dec_str(n).len()) as nat) + dec_str(n)
    }
}

/// The one-character string of decimal digit `d`.
fn digit_str(d: u8) -> (r: &'static str)
    requires
        d < 10,
    ensures
        r@ == dec_digit(d as nat),
{
    if d == 0 {
        "0"
    } else if d == 1 {
        "1"
    } else if d == 2 {
        "2"
    } else if d == 3 {
        "3"
    } else if d == 4 {
        "4"
    } else if d == 5 {
        "5"
    } else if d == 6 {
        "6"
    } else if d == 7 {
        "7"
    } else if d == 8 {
        "8"
    } else {
        "9"
    }
}

/// Appends the decimal text of `n` to `s`.
pub fn push_dec(s: &mut String, n: u128)
    ensures
        final(s)@ == old(s)@ + dec_str(n as nat),
    decreases n,
{
    if n < 10 {
        s.append(digit_str(n as u8));
    } else {
        push_dec(s, n / 10);
        s.append(digit_str((n % 10) as u8));
        assert(s@ =~= old(s)@ + dec_str(n as nat));
    }
}

/// Appends `v`, held in tenths, with one decimal place.
pub fn push_fixed1(s: &mut String, v: u128)
    ensures
        final(s)@ == old(s)@ + fixed1_str(v as nat),
{
    push_dec(s, v / 10);
    s.append(".");
    s.append(digit_str((v % 10) as u8));
    assert(s@ =~= old(s)@ + fixed1_str(v as nat));
}

/// Appends `v`, held in hundredths, with two decimal places.
pub fn push_fixed2(s: &mut String, v: u128)
    ensures
        final(s)@ == old(s)@ + fixed2_str(v as nat),
{
    push_dec(s, v / 100);
    s.append(".");
    s.append(digit_str(((v % 100) / 10) as u8));
    s.append(digit_str((v % 10) as u8));
    assert(s@ =~= old(s)@ + fixed2_str(v as nat));
}

/// Appends the decimal text of `n`, right-aligned to `width` characters.
pub fn push_padded_dec(s: &mut String, n: u128, width: usize)
    ensures
        final(s)@ == old(s)@ + padded_dec_str(n as nat, width as nat),
{
    let mut digits = String::new();
    push_dec(&mut digits, n);
    let len = digits.as_str().unicode_len();
    proof {
        reveal_strlit(" ");
    }
    assert(digits@ =~= dec_str(n as nat));
    let mut k: usize = len;
    assert(s@ =~= old(s)@ + spaces(0));
    while k < width
        invariant
            len as nat == dec_str(n as nat).len(),
            len <= k,
            len >= width ==> k == len,
            len >= width || k <= width,
            s@ == old(s)@ + spaces((k - len) as nat),
        decreases width - k,
    {
        proof {
            reveal_strlit(" ");
        }
        s.append(" ");
        k = k + 1;
        assert(s@ =~= old(s)@ + spaces((k - len) as nat));
    }
    s.append(digits.as_str());
    assert(s@ =~= old(s)@ + padded_dec_str(n as nat, width as nat));
}

} // verus!
