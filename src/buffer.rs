//! Fixed-capacity buffers of C characters holding zero-terminated text.
use vstd::prelude::*;
use vstd::string::StringSliceAdditionalSpecFns;

verus! {

/// A byte as a C `char` (signed, as on the common platforms).
pub open spec fn c_char_of(b: u8) -> i8 {
    b as i8
}

/// A C character read back as a byte.
pub open spec fn byte_of(c: i8) -> u8 {
    c as u8
}

/// Bytes as C characters.
pub open spec fn c_chars(bytes: Seq<u8>) -> Seq<i8> {
    bytes.map_values(|b: u8| c_char_of(b))
}

/// C characters as bytes.
pub open spec fn bytes_of(chars: Seq<i8>) -> Seq<u8> {
    chars.map_values(|c: i8| byte_of(c))
}

/// The buffer that `buf` prepares: the label's bytes, cut at `capacity`,
/// then zeros up to exactly `capacity` characters.
pub open spec fn prepared(label: Seq<u8>, capacity: nat) -> Seq<i8> {
    let kept: int = if label.len() <= capacity { label.len() as int } else { capacity as int };
    c_chars(label.take(kept)) + Seq::new((capacity - kept) as nat, |i: int| 0i8)
}

/// `s` holds no zero.
pub open spec fn no_zero(s: Seq<i8>) -> bool {
    forall|i: int| 0 <= i < s.len() ==> s[i] != 0
}

/// Two sequences without zeros joined hold no zero.
pub proof fn lemma_no_zero_concat(x: Seq<i8>, y: Seq<i8>)
    requires
        no_zero(x),
        no_zero(y),
    ensures
        no_zero(x + y),
{
    assert forall|i: int| 0 <= i < (x + y).len() implies (x + y)[i] != 0 by {
        if i >= x.len() {
            assert((x + y)[i] == y[i - x.len()]);
        }
    }
}

/// Reading a byte back from its C character gives the byte.
pub proof fn lemma_byte_round_trip(b: u8)
    ensures
        byte_of(c_char_of(b)) == b,
        b != 0 ==> c_char_of(b) != 0,
{
    assert((b as i8) as u8 == b) by (bit_vector);
    assert(b != 0 ==> (b as i8) != 0) by (bit_vector);
}

/// Bytes read back from their C characters are the same bytes, and C
/// characters of nonzero bytes are nonzero.
pub proof fn lemma_bytes_round_trip(bytes: Seq<u8>)
    ensures
        bytes_of(c_chars(bytes)) == bytes,
        (forall|i: int| 0 <= i < bytes.len() ==> bytes[i] != 0) ==> no_zero(c_chars(bytes)),
{
    assert forall|i: int| 0 <= i < bytes.len() implies byte_of(c_chars(bytes)[i]) == bytes[i] && (
    bytes[i] != 0 ==> c_chars(bytes)[i] != 0) by {
        lemma_byte_round_trip(bytes[i]);
    }
    assert(bytes_of(c_chars(bytes)) == bytes);
}

/// Text without zeros, followed by a zero, is read back whole.
pub proof fn lemma_text_of_terminated(m: Seq<i8>, rest: Seq<i8>)
    requires
        no_zero(m),
    ensures
        is_terminated(m + seq![0i8] + rest),
        text_of(m + seq![0i8] + rest) == m,
{
    let s = m + seq![0i8] + rest;
    assert(is_first_zero(s, m.len() as int));
    lemma_text_len(s, m.len() as int);
    assert(s.take(m.len() as int) == m);
}

/// The label in a prepared buffer is the whole label where it has no zero
/// byte and is shorter than the buffer.
pub proof fn lemma_prepared_text(label: Seq<u8>, capacity: nat)
    requires
        label.len() < capacity,
        forall|i: int| 0 <= i < label.len() ==> label[i] != 0,
    ensures
        is_terminated(prepared(label, capacity)),
        text_of(prepared(label, capacity)) == c_chars(label),
{
    let s = prepared(label, capacity);
    let n = label.len() as int;
    lemma_bytes_round_trip(label);
    assert(label.take(n) == label);
    assert(s[n] == 0);
    assert(is_first_zero(s, n));
    lemma_text_len(s, n);
    assert(s.take(n) == c_chars(label));
}

/// `n` is the position of the first zero of `s`.
pub open spec fn is_first_zero(s: Seq<i8>, n: int) -> bool {
    &&& 0 <= n < s.len()
    &&& s[n] == 0
    &&& forall|j: int| 0 <= j < n ==> s[j] != 0
}

/// `s` holds a zero, which ends the text in it.
pub open spec fn is_terminated(s: Seq<i8>) -> bool {
    exists|n: int| is_first_zero(s, n)
}

/// The position of the first zero of a terminated `s`.
pub open spec fn text_len(s: Seq<i8>) -> int {
    choose|n: int| is_first_zero(s, n)
}

/// The text of a terminated buffer: the characters before its first zero.
pub open spec fn text_of(s: Seq<i8>) -> Seq<i8> {
    s.take(text_len(s))
}

/// A sequence has at most one first zero.
pub proof fn lemma_first_zero_unique(s: Seq<i8>, n: int, m: int)
    requires
        is_first_zero(s, n),
        is_first_zero(s, m),
    ensures
        n == m,
{
    if n < m {
        assert(s[n] != 0);
    } else if m < n {
        assert(s[m] != 0);
    }
}

/// Where `n` is the first zero, the text of `s` ends there.
pub proof fn lemma_text_len(s: Seq<i8>, n: int)
    requires
        is_first_zero(s, n),
    ensures
        is_terminated(s),
        text_len(s) == n,
        text_of(s) == s.take(n),
{
    assert(is_terminated(s));
    lemma_first_zero_unique(s, n, text_len(s));
}

/// The text of a terminated buffer holds no zero.
pub proof fn lemma_text_of_no_zero(s: Seq<i8>)
    requires
        is_terminated(s),
    ensures
        no_zero(text_of(s)),
        text_of(s).len() < s.len(),
{
    let n = choose|n: int| is_first_zero(s, n);
    lemma_text_len(s, n);
}

/// Builds a buffer of exactly `capacity` characters that starts with the
/// bytes of `label` and is zero after them. A label longer than `capacity`
/// is cut to its first `capacity` bytes.
pub fn buf(label: &str, capacity: usize) -> (r: Vec<i8>)
    ensures
        r@ == prepared(label.spec_bytes(), capacity as nat),
        r@.len() == capacity,
{
    let bytes = label.as_bytes();
    let kept: usize = if bytes.len() <= capacity { bytes.len() } else { capacity };
    let mut b: Vec<i8> = Vec::with_capacity(capacity);
    let mut i: usize = 0;
    while i < kept
        invariant
            kept <= bytes@.len(),
            kept <= capacity,
            i <= kept,
            b@ == c_chars(bytes@.take(i as int)),
        decreases kept - i,
    {
        b.push(bytes[i] as i8);
        i = i + 1;
        assert(bytes@.take(i as int) == bytes@.take(i - 1) + seq![bytes@[i - 1]]);
    }
    while i < capacity
        invariant
            kept <= i <= capacity,
            b@ == c_chars(bytes@.take(kept as int)) + Seq::new((i - kept) as nat, |j: int| 0i8),
        decreases capacity - i,
    {
        b.push(0i8);
        i = i + 1;
        assert(b@ == c_chars(bytes@.take(kept as int)) + Seq::new((i - kept) as nat, |j: int| 0i8));
    }
    b
}

/// Finds the first zero of `s`, if there is one.
pub fn find_terminator(s: &Vec<i8>) -> (r: Option<usize>)
    ensures
        r is Some <==> is_terminated(s@),
        r matches Some(n) ==> n == text_len(s@) && is_first_zero(s@, n as int),
{
    let mut i: usize = 0;
    while i < s.len()
        invariant
            i <= s@.len(),
            forall|j: int| 0 <= j < i ==> s@[j] != 0,
        decreases s@.len() - i,
    {
        if s[i] == 0 {
            proof {
                lemma_text_len(s@, i as int);
            }
            return Some(i);
        }
        i = i + 1;
    }
    assert(!is_terminated(s@)) by {
        if is_terminated(s@) {
            let n = choose|n: int| is_first_zero(s@, n);
            assert(s@[n] != 0);
        }
    }
    None
}

/// Reads the zero-terminated text of a buffer back as bytes; `None` where
/// the buffer holds no zero.
pub fn read_message(b: &Vec<i8>) -> (r: Option<Vec<u8>>)
    ensures
        r is Some <==> is_terminated(b@),
        r matches Some(m) ==> m@ == bytes_of(text_of(b@)),
{
    match find_terminator(b) {
        None => None,
        Some(n) => {
            let mut m: Vec<u8> = Vec::with_capacity(n);
            let mut i: usize = 0;
            while i < n
                invariant
                    n <= b@.len(),
                    i <= n,
                    m@ == bytes_of(b@.take(i as int)),
                decreases n - i,
            {
                m.push(b[i] as u8);
                i = i + 1;
                assert(b@.take(i as int) == b@.take(i - 1) + seq![b@[i - 1]]);
            }
            Some(m)
        },
    }
}

} // verus!
