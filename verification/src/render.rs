//! Integers as ASCII text, the way the diagnostic lines show them.

use vstd::prelude::*;

verus! {

/// The ASCII character of one digit: `0`..`9`, then `a`..`f`.
pub open spec fn digit(d: nat) -> u8 {
    if d < 10 {
        (48 + d) as u8
    } else {
        (87 + d) as u8
    }
}

/// `n` in base 10, most significant digit first, without leading zeros.
pub open spec fn decimal(n: nat) -> Seq<u8>
    decreases n,
{
    if n < 10 {
        seq![digit(n)]
    } else {
        decimal(n / 10).push(digit(n % 10))
    }
}

/// `n` in base 16 with lower-case letters, most significant digit first,
/// padded on the left with `0` to at least `width` digits.
pub open spec fn hex(n: nat, width: nat) -> Seq<u8>
    decreases n, width,
{
    if n < 16 && width <= 1 {
        seq![digit(n)]
    } else {
        hex(n / 16, if width > 0 { (width - 1) as nat } else { 0 }).push(digit(n % 16))
    }
}

/// The number that the digit character `c` stands for, and 0 for a
/// character that is no digit.
pub open spec fn digit_value(c: u8) -> nat {
    if 48 <= c <= 57 {
        (c - 48) as nat
    } else if 97 <= c <= 102 {
        (c - 87) as nat
    } else {
        0
    }
}

/// Whether `c` is a digit character of base `base`, for a base up to 16.
pub open spec fn is_digit(c: u8, base: nat) -> bool {
    (48 <= c <= 57 || 97 <= c <= 102) && digit_value(c) < base
}

/// The number that `digits` denote in base `base`, most significant digit
/// first.
pub open spec fn denoted(digits: Seq<u8>, base: nat) -> nat
    decreases digits.len(),
{
    if digits.len() == 0 {
        0
    } else {
        denoted(digits.drop_last(), base) * base + digit_value(digits.last())
    }
}

/// The decimal text of `n` is made of decimal digits, denotes `n`, and
/// has no leading zero but for the single digit of zero itself.
pub proof fn lemma_decimal_denotes(n: nat)
    ensures
        decimal(n).len() >= 1,
        forall|i: int| 0 <= i < decimal(n).len() ==> is_digit(#[trigger] decimal(n)[i], 10),
        denoted(decimal(n), 10) == n,
        n > 0 ==> decimal(n)[0] != 48,
    decreases n,
{
    let text = decimal(n);
    if n < 10 {
        assert(text.drop_last() =~= Seq::<u8>::empty());
        assert(denoted(text.drop_last(), 10) == 0);
    } else {
        lemma_decimal_denotes(n / 10);
        assert(text.drop_last() =~= decimal(n / 10));
        assert(text[0] == decimal(n / 10)[0]);
    }
}

/// The hexadecimal text of `n` is made of lower-case hexadecimal digits,
/// denotes `n`, and is as long as `width` asks and no longer than that
/// but for the digits that `n` needs.
pub proof fn lemma_hex_denotes(n: nat, width: nat)
    ensures
        hex(n, width).len() >= 1,
        hex(n, width).len() >= width,
        forall|i: int| 0 <= i < hex(n, width).len() ==> is_digit(#[trigger] hex(n, width)[i], 16),
        denoted(hex(n, width), 16) == n,
        hex(n, width).len() > width && n > 0 ==> hex(n, width)[0] != 48,
        n == 0 ==> hex(n, width).len() == (if width > 1 { width } else { 1 }),
    decreases n, width,
{
    let text = hex(n, width);
    if n < 16 && width <= 1 {
        assert(text.drop_last() =~= Seq::<u8>::empty());
        assert(denoted(text.drop_last(), 16) == 0);
    } else {
        let rest: nat = if width > 0 { (width - 1) as nat } else { 0 };
        lemma_hex_denotes(n / 16, rest);
        assert(text.drop_last() =~= hex(n / 16, rest));
        assert(text[0] == hex(n / 16, rest)[0]);
    }
}

/// Appends every byte of `bytes` to `out`.
pub fn push_bytes(out: &mut Vec<u8>, bytes: &[u8])
    ensures
        final(out)@ == old(out)@ + bytes@,
{
    let mut i: usize = 0;
    while i < bytes.len()
        invariant
            i <= bytes.len(),
            out@ == old(out)@ + bytes@.subrange(0, i as int),
        decreases bytes.len() - i,
    {
        out.push(bytes[i]);
        i += 1;
    }
}

/// Appends `n` in decimal to `out`.
pub fn push_decimal(out: &mut Vec<u8>, n: u64)
    ensures
        final(out)@ == old(out)@ + decimal(n as nat),
    decreases n,
{
    if n >= 10 {
        push_decimal(out, n / 10);
    }
    out.push(48u8 + (n % 10) as u8);
}

/// Appends `n` in hexadecimal to `out`, with at least `width` digits.
pub fn push_hex(out: &mut Vec<u8>, n: u64, width: usize)
    ensures
        final(out)@ == old(out)@ + hex(n as nat, width as nat),
    decreases n, width,
{
    if n >= 16 || width > 1 {
        push_hex(out, n / 16, if width > 0 { width - 1 } else { 0 });
    }
    let d: u8 = (n % 16) as u8;
    out.push(if d < 10 { 48u8 + d } else { 87u8 + d });
}

} // verus!
