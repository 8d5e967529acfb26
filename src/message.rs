//! The text that an add function writes: fixed ASCII pieces, a label copied
//! from the caller's buffer, and integers in decimal.
use vstd::prelude::*;
use vstd::string::StringSliceAdditionalSpecFns;
use crate::buffer::{c_chars, no_zero};

verus! {

/// The characters of a piece of fixed text.
pub open spec fn text(s: &str) -> Seq<i8> {
    c_chars(s.spec_bytes())
}

/// The decimal digits of a natural number, most significant first.
pub open spec fn digits(n: nat) -> Seq<i8>
    decreases n,
{
    (if n < 10 {
        Seq::empty()
    } else {
        digits(n / 10)
    }) + seq![(48 + n % 10) as i8]
}

/// An integer in decimal, with a leading minus sign when negative.
pub open spec fn decimal(n: int) -> Seq<i8> {
    if n < 0 {
        seq![45i8] + digits((-n) as nat)
    } else {
        digits(n as nat)
    }
}

/// Decimal digits are never zero characters.
pub proof fn lemma_digits_no_zero(n: nat)
    ensures
        no_zero(digits(n)),
    decreases n,
{
    if n >= 10 {
        lemma_digits_no_zero(n / 10);
    }
}

/// An integer in decimal holds no zero character.
pub proof fn lemma_decimal_no_zero(n: int)
    ensures
        no_zero(decimal(n)),
{
    if n < 0 {
        lemma_digits_no_zero((-n) as nat);
    } else {
        lemma_digits_no_zero(n as nat);
    }
}

/// Appends the bytes of `s` to `out`.
pub fn push_text(out: &mut Vec<i8>, s: &str)
    ensures
        final(out)@ == old(out)@ + text(s),
{
    let bytes = s.as_bytes();
    let ghost start = out@;
    let mut i: usize = 0;
    while i < bytes.len()
        invariant
            i <= bytes@.len(),
            bytes@ == s.spec_bytes(),
            out@ == start + c_chars(bytes@.take(i as int)),
        decreases bytes@.len() - i,
    {
        out.push(bytes[i] as i8);
        i = i + 1;
        assert(bytes@.take(i as int) == bytes@.take(i - 1) + seq![bytes@[i - 1]]);
    }
    assert(bytes@.take(bytes@.len() as int) == bytes@);
}

/// Appends the first `n` characters of `src` to `out`.
pub fn push_prefix(out: &mut Vec<i8>, src: &Vec<i8>, n: usize)
    requires
        n <= src@.len(),
    ensures
        final(out)@ == old(out)@ + src@.take(n as int),
{
    let ghost start = out@;
    let mut i: usize = 0;
    while i < n
        invariant
            n <= src@.len(),
            i <= n,
            out@ == start + src@.take(i as int),
        decreases n - i,
    {
        out.push(src[i]);
        i = i + 1;
        assert(src@.take(i as int) == src@.take(i - 1) + seq![src@[i - 1]]);
    }
}

/// Appends the decimal digits of `n` to `out`.
pub fn push_digits(out: &mut Vec<i8>, n: u32)
    ensures
        final(out)@ == old(out)@ + digits(n as nat),
    decreases n,
{
    let ghost start = out@;
    if n >= 10 {
        push_digits(out, n / 10);
    }
    out.push((48 + n % 10) as i8);
    assert(out@ == start + digits(n as nat));
}

/// Appends `n` in decimal to `out`.
pub fn push_decimal(out: &mut Vec<i8>, n: i32)
    ensures
        final(out)@ == old(out)@ + decimal(n as int),
{
    let ghost start = out@;
    if n < 0 {
        out.push(45i8);
        let m: i64 = -(n as i64);
        push_digits(out, m as u32);
        assert(out@ == start + decimal(n as int));
    } else {
        push_digits(out, n as u32);
    }
}

} // verus!
