//! The add function: sums two integers and overwrites the caller's buffer
//! with a greeting built from the label that the buffer held.
use vstd::prelude::*;
use crate::buffer::{
    find_terminator, is_terminated, lemma_no_zero_concat, lemma_text_of_no_zero,
    lemma_text_of_terminated, no_zero, text_of,
};
use crate::message::{
    decimal, lemma_decimal_no_zero, push_decimal, push_prefix, push_text, text,
};

verus! {

/// How the caller obtained the add function. The variants compute the same
/// sum and differ only in the header of the message they write.
#[derive(Clone, Copy, Debug, PartialEq, Eq, Structural)]
pub enum Linkage {
    /// Compiled in from C source.
    CSource,
    /// Linked against a dynamic library.
    Cdylib,
    /// Linked against a static library.
    Staticlib,
}

/// Why an add function left the buffer as it was.
#[derive(Clone, Copy, Debug, PartialEq, Eq, Structural)]
pub enum AddError {
    /// `a + b` does not fit in an `i32`.
    SumOverflow,
    /// The buffer holds no zero, so it holds no label.
    Unterminated,
    /// The message and its terminating zero do not fit in the buffer;
    /// `message_len` is the length of the message without the zero.
    BufferTooSmall { message_len: usize },
}

impl Linkage {
    /// The text that opens the message of this variant.
    pub open spec fn spec_header(self) -> &'static str {
        match self {
            Linkage::CSource => "[C] Hello ",
            Linkage::Cdylib => "[Rust cdylib] Hello ",
            Linkage::Staticlib => "[Rust staticlib] Hello ",
        }
    }

    /// The text that opens the message of this variant.
    pub fn header(&self) -> (r: &'static str)
        ensures
            r == self.spec_header(),
    {
        match self {
            Linkage::CSource => "[C] Hello ",
            Linkage::Cdylib => "[Rust cdylib] Hello ",
            Linkage::Staticlib => "[Rust staticlib] Hello ",
        }
    }
}

/// What follows the header: the label and the sum with its operands.
pub open spec fn body(label: Seq<i8>, a: int, b: int, sum: int) -> Seq<i8> {
    label + text("! The result (") + decimal(a) + text(" + ") + decimal(b) + text(") is ")
        + decimal(sum) + text("!")
}

/// The message that `linkage` writes for `label`, `a`, `b` and their sum.
pub open spec fn message(linkage: Linkage, label: Seq<i8>, a: int, b: int, sum: int) -> Seq<i8> {
    text(linkage.spec_header()) + body(label, a, b, sum)
}

/// The fixed pieces of every message hold no zero character.
pub proof fn lemma_fixed_text_no_zero(linkage: Linkage)
    ensures
        no_zero(text(linkage.spec_header())),
        no_zero(text("! The result (")),
        no_zero(text(" + ")),
        no_zero(text(") is ")),
        no_zero(text("!")),
{
    reveal_strlit("[C] Hello ");
    reveal_strlit("[Rust cdylib] Hello ");
    reveal_strlit("[Rust staticlib] Hello ");
    reveal_strlit("! The result (");
    reveal_strlit(" + ");
    reveal_strlit(") is ");
    reveal_strlit("!");
    vstd::string::is_ascii_spec_bytes(linkage.spec_header());
    vstd::string::is_ascii_spec_bytes("! The result (");
    vstd::string::is_ascii_spec_bytes(" + ");
    vstd::string::is_ascii_spec_bytes(") is ");
    vstd::string::is_ascii_spec_bytes("!");
}

/// A message holds a zero character only where its label does.
pub proof fn lemma_message_no_zero(linkage: Linkage, label: Seq<i8>, a: int, b: int, sum: int)
    requires
        no_zero(label),
    ensures
        no_zero(message(linkage, label, a, b, sum)),
{
    lemma_fixed_text_no_zero(linkage);
    lemma_decimal_no_zero(a);
    lemma_decimal_no_zero(b);
    lemma_decimal_no_zero(sum);
    let h = text(linkage.spec_header());
    let t1 = label + text("! The result (");
    lemma_no_zero_concat(label, text("! The result ("));
    lemma_no_zero_concat(t1, decimal(a));
    let t2 = t1 + decimal(a);
    lemma_no_zero_concat(t2, text(" + "));
    let t3 = t2 + text(" + ");
    lemma_no_zero_concat(t3, decimal(b));
    let t4 = t3 + decimal(b);
    lemma_no_zero_concat(t4, text(") is "));
    let t5 = t4 + text(") is ");
    lemma_no_zero_concat(t5, decimal(sum));
    let t6 = t5 + decimal(sum);
    lemma_no_zero_concat(t6, text("!"));
    lemma_no_zero_concat(h, body(label, a, b, sum));
}

/// The result of an add function on `a`, `b` and a buffer holding `buf`,
/// with the buffer's contents afterwards. On success the message and a zero
/// overwrite the start of the buffer and the rest is kept; on an error the
/// buffer is unchanged.
pub open spec fn add_outcome(linkage: Linkage, a: i32, b: i32, buf: Seq<i8>) -> (
    Result<i32, AddError>,
    Seq<i8>,
) {
    let sum = a + b;
    if sum < i32::MIN || sum > i32::MAX {
        (Err(AddError::SumOverflow), buf)
    } else if !is_terminated(buf) {
        (Err(AddError::Unterminated), buf)
    } else {
        let m = message(linkage, text_of(buf), a as int, b as int, sum);
        if m.len() >= buf.len() {
            (Err(AddError::BufferTooSmall { message_len: m.len() as usize }), buf)
        } else {
            (Ok(sum as i32), m + seq![0i8] + buf.skip(m.len() + 1 as int))
        }
    }
}

/// Computes `a + b`, reads the zero-terminated label in `result` and
/// overwrites `result` with a zero-terminated message that holds the label,
/// the operands and the sum, in the format of `linkage`. The buffer's length
/// bounds what is written: where the message would not fit, nothing is.
pub fn linked_add(linkage: Linkage, a: i32, b: i32, result: &mut Vec<i8>) -> (r: Result<i32, AddError>)
    ensures
        (r, final(result)@) == add_outcome(linkage, a, b, old(result)@),
{
    let s: i64 = a as i64 + b as i64;
    if s < i32::MIN as i64 || s > i32::MAX as i64 {
        return Err(AddError::SumOverflow);
    }
    let sum: i32 = s as i32;
    let n = match find_terminator(result) {
        None => {
            return Err(AddError::Unterminated);
        },
        Some(n) => n,
    };
    let mut m: Vec<i8> = Vec::new();
    push_text(&mut m, linkage.header());
    push_prefix(&mut m, result, n);
    push_text(&mut m, "! The result (");
    push_decimal(&mut m, a);
    push_text(&mut m, " + ");
    push_decimal(&mut m, b);
    push_text(&mut m, ") is ");
    push_decimal(&mut m, sum);
    push_text(&mut m, "!");
    assert(m@ == message(linkage, text_of(old(result)@), a as int, b as int, sum as int));
    if m.len() >= result.len() {
        return Err(AddError::BufferTooSmall { message_len: m.len() });
    }
    let ghost before = result@;
    let mut i: usize = 0;
    while i < m.len()
        invariant
            m@.len() < before.len(),
            i <= m@.len(),
            result@.len() == before.len(),
            result@ == m@.take(i as int) + before.skip(i as int),
        decreases m@.len() - i,
    {
        result.set(i, m[i]);
        i = i + 1;
        assert(result@ == m@.take(i as int) + before.skip(i as int));
    }
    result.set(i, 0i8);
    assert(result@ == m@ + seq![0i8] + before.skip(m@.len() + 1 as int));
    Ok(sum)
}

/// The add function of the dynamic library variant.
pub fn cdylib_add(a: i32, b: i32, result: &mut Vec<i8>) -> (r: Result<i32, AddError>)
    ensures
        (r, final(result)@) == add_outcome(Linkage::Cdylib, a, b, old(result)@),
{
    linked_add(Linkage::Cdylib, a, b, result)
}

/// The add function of the static library variant.
pub fn staticlib_add(a: i32, b: i32, result: &mut Vec<i8>) -> (r: Result<i32, AddError>)
    ensures
        (r, final(result)@) == add_outcome(Linkage::Staticlib, a, b, old(result)@),
{
    linked_add(Linkage::Staticlib, a, b, result)
}


/// Each variant returns `a + b` when it succeeds, and it succeeds whenever
/// the sum fits in an `i32`, the buffer holds a label and the message with
/// its zero fits in the buffer.
pub proof fn law_returns_sum(linkage: Linkage, a: i32, b: i32, buf: Seq<i8>)
    ensures
        add_outcome(linkage, a, b, buf).0 matches Ok(s) ==> s == a + b,
        (i32::MIN <= a + b <= i32::MAX && is_terminated(buf) && message(
            linkage,
            text_of(buf),
            a as int,
            b as int,
            a + b,
        ).len() < buf.len()) ==> add_outcome(linkage, a, b, buf).0 == Ok::<i32, AddError>(
            (a + b) as i32,
        ),
{
}

/// The variants agree: given the same operands and buffer they fail on the
/// same overflow or missing label, and where both succeed they return the
/// same sum and leave messages that differ only in their header, followed by
/// the same body.
pub proof fn law_variants_agree(l1: Linkage, l2: Linkage, a: i32, b: i32, buf: Seq<i8>)
    ensures
        (add_outcome(l1, a, b, buf).0 == Err::<i32, AddError>(AddError::SumOverflow)) == (
        add_outcome(l2, a, b, buf).0 == Err::<i32, AddError>(AddError::SumOverflow)),
        (add_outcome(l1, a, b, buf).0 == Err::<i32, AddError>(AddError::Unterminated)) == (
        add_outcome(l2, a, b, buf).0 == Err::<i32, AddError>(AddError::Unterminated)),
        add_outcome(l1, a, b, buf).0 is Ok && add_outcome(l2, a, b, buf).0 is Ok ==> {
            &&& add_outcome(l1, a, b, buf).0 == add_outcome(l2, a, b, buf).0
            &&& text_of(add_outcome(l1, a, b, buf).1) == text(l1.spec_header()) + body(
                text_of(buf),
                a as int,
                b as int,
                a + b,
            )
            &&& text_of(add_outcome(l2, a, b, buf).1) == text(l2.spec_header()) + body(
                text_of(buf),
                a as int,
                b as int,
                a + b,
            )
        },
{
    if add_outcome(l1, a, b, buf).0 is Ok && add_outcome(l2, a, b, buf).0 is Ok {
        lemma_text_of_no_zero(buf);
        let label = text_of(buf);
        let m1 = message(l1, label, a as int, b as int, a + b);
        let m2 = message(l2, label, a as int, b as int, a + b);
        lemma_message_no_zero(l1, label, a as int, b as int, a + b);
        lemma_message_no_zero(l2, label, a as int, b as int, a + b);
        lemma_text_of_terminated(m1, buf.skip(m1.len() + 1 as int));
        lemma_text_of_terminated(m2, buf.skip(m2.len() + 1 as int));
    }
}

} // verus!
