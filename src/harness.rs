//! One call of an add function as a caller makes it: prepare a buffer with
//! a label, call, and read the message back.
use vstd::prelude::*;
use vstd::string::StringSliceAdditionalSpecFns;
use crate::add::{add_outcome, lemma_message_no_zero, linked_add, message, AddError, Linkage};
use crate::buffer::{
    buf, bytes_of, c_chars, lemma_bytes_round_trip, lemma_prepared_text, lemma_text_of_no_zero,
    lemma_text_of_terminated, prepared, read_message, text_of,
};

verus! {

/// What a successful call hands back: the sum and the message as bytes.
pub struct CallReport {
    pub sum: i32,
    pub message: Vec<u8>,
}

/// Prepares a buffer of `capacity` characters holding `label`, calls the add
/// function of `linkage` on it, and reads the message back.
pub fn run_variant(linkage: Linkage, a: i32, b: i32, label: &str, capacity: usize) -> (r: Result<
    CallReport,
    AddError,
>)
    ensures
        ({
            let start = prepared(label.spec_bytes(), capacity as nat);
            match add_outcome(linkage, a, b, start).0 {
                Ok(s) => r matches Ok(c) && c.sum == s && c.message@ == bytes_of(
                    message(linkage, text_of(start), a as int, b as int, s as int),
                ),
                Err(e) => r == Err::<CallReport, AddError>(e),
            }
        }),
{
    let mut buffer: Vec<i8> = buf(label, capacity);
    let ghost start = buffer@;
    let sum = match linked_add(linkage, a, b, &mut buffer) {
        Ok(s) => s,
        Err(e) => {
            return Err(e);
        },
    };
    proof {
        lemma_text_of_no_zero(start);
        let m = message(linkage, text_of(start), a as int, b as int, sum as int);
        lemma_message_no_zero(linkage, text_of(start), a as int, b as int, sum as int);
        lemma_text_of_terminated(m, start.skip(m.len() + 1 as int));
    }
    match read_message(&buffer) {
        Some(m) => Ok(CallReport { sum, message: m }),
        // not taken: the message and its zero were just written
        None => Err(AddError::Unterminated),
    }
}

/// `piece` stands somewhere in `whole` as a contiguous run.
pub open spec fn holds_piece(whole: Seq<u8>, piece: Seq<u8>) -> bool {
    exists|k: int|
        0 <= k && k + piece.len() <= whole.len() && #[trigger] whole.subrange(k, k + piece.len())
            == piece
}

/// For a label without zero bytes that is shorter than the buffer, a
/// successful call's message holds the label's bytes in one piece.
pub proof fn law_message_holds_label(
    linkage: Linkage,
    a: i32,
    b: i32,
    label: Seq<u8>,
    capacity: nat,
)
    requires
        label.len() < capacity,
        forall|i: int| 0 <= i < label.len() ==> label[i] != 0,
    ensures
        add_outcome(linkage, a, b, prepared(label, capacity)).0 is Ok ==> holds_piece(
            bytes_of(
                message(linkage, text_of(prepared(label, capacity)), a as int, b as int, a + b),
            ),
            label,
        ),
{
    lemma_prepared_text(label, capacity);
    lemma_bytes_round_trip(label);
    let l = c_chars(label);
    let h = crate::message::text(linkage.spec_header());
    let m = message(linkage, l, a as int, b as int, a + b);
    let k = h.len() as int;
    let n = label.len() as int;
    assert(m.subrange(k, k + n) == l);
    assert(bytes_of(m).subrange(k, k + n) == bytes_of(l));
    assert(holds_piece(bytes_of(m), label));
}

} // verus!
