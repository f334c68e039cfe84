//! Graph-node names: equality, canonical order and recovery from native bytes.

use vstd::prelude::*;
use vstd::string::*;
use vstd::utf8::{encode_utf8, encode_utf8_decode_utf8, valid_utf8};

verus! {

/// Lexicographic order on bytes; a proper prefix comes first.
pub open spec fn bytes_precede(a: Seq<u8>, b: Seq<u8>) -> bool
    decreases a.len(),
{
    if b.len() == 0 {
        false
    } else if a.len() == 0 {
        true
    } else if a[0] != b[0] {
        a[0] < b[0]
    } else {
        bytes_precede(a.drop_first(), b.drop_first())
    }
}

/// Canonical name order: the order of the UTF-8 encodings.
pub open spec fn name_precedes(a: Seq<char>, b: Seq<char>) -> bool {
    bytes_precede(encode_utf8(a), encode_utf8(b))
}

proof fn lemma_bytes_order_irreflexive(a: Seq<u8>)
    ensures
        !bytes_precede(a, a),
    decreases a.len(),
{
    if a.len() > 0 {
        lemma_bytes_order_irreflexive(a.drop_first());
    }
}

proof fn lemma_bytes_order_transitive(a: Seq<u8>, b: Seq<u8>, c: Seq<u8>)
    requires
        bytes_precede(a, b),
        bytes_precede(b, c),
    ensures
        bytes_precede(a, c),
    decreases a.len(),
{
    if a.len() > 0 && b.len() > 0 && c.len() > 0 && a[0] == b[0] && b[0] == c[0] {
        lemma_bytes_order_transitive(a.drop_first(), b.drop_first(), c.drop_first());
    }
}

proof fn lemma_bytes_order_total(a: Seq<u8>, b: Seq<u8>)
    ensures
        a == b || bytes_precede(a, b) || bytes_precede(b, a),
    decreases a.len(),
{
    if a.len() > 0 && b.len() > 0 && a[0] == b[0] {
        lemma_bytes_order_total(a.drop_first(), b.drop_first());
        if a.drop_first() == b.drop_first() {
            assert(a =~= seq![a[0]] + a.drop_first());
            assert(b =~= seq![b[0]] + b.drop_first());
        }
    } else if a.len() == 0 && b.len() == 0 {
        assert(a =~= b);
    }
}

/// Names with the same encoding are the same name.
pub proof fn lemma_encoding_is_injective(a: Seq<char>, b: Seq<char>)
    requires
        encode_utf8(a) == encode_utf8(b),
    ensures
        a == b,
{
    encode_utf8_decode_utf8(a);
    encode_utf8_decode_utf8(b);
}

/// Canonical name order is a strict total order.
pub proof fn law_name_order_is_strict_and_total(a: Seq<char>, b: Seq<char>, c: Seq<char>)
    ensures
        !name_precedes(a, a),
        name_precedes(a, b) && name_precedes(b, c) ==> name_precedes(a, c),
        a == b || name_precedes(a, b) || name_precedes(b, a),
        !(name_precedes(a, b) && name_precedes(b, a)),
{
    let (x, y, z) = (encode_utf8(a), encode_utf8(b), encode_utf8(c));
    lemma_bytes_order_irreflexive(x);
    if bytes_precede(x, y) && bytes_precede(y, z) {
        lemma_bytes_order_transitive(x, y, z);
    }
    if bytes_precede(x, y) && bytes_precede(y, x) {
        lemma_bytes_order_transitive(x, y, x);
    }
    lemma_bytes_order_total(x, y);
    if x == y {
        lemma_encoding_is_injective(a, b);
    }
}

/// Names are ordered at the first byte where their encodings differ, and a name whose encoding
/// begins that of another comes before it.
pub proof fn law_names_are_ordered_at_the_first_difference(a: Seq<char>, b: Seq<char>, k: int)
    requires
        0 <= k <= encode_utf8(a).len(),
        k <= encode_utf8(b).len(),
        forall|j: int| 0 <= j < k ==> encode_utf8(a)[j] == encode_utf8(b)[j],
    ensures
        k < encode_utf8(a).len() && k < encode_utf8(b).len() && encode_utf8(a)[k]
            != encode_utf8(b)[k] ==> name_precedes(a, b) == (encode_utf8(a)[k]
            < encode_utf8(b)[k]),
        k == encode_utf8(a).len() ==> name_precedes(a, b) == (k < encode_utf8(b).len()),
        k == encode_utf8(b).len() ==> !name_precedes(a, b),
{
    lemma_bytes_order_skips_common_bytes(encode_utf8(a), encode_utf8(b), k);
}

proof fn lemma_bytes_order_skips_common_bytes(a: Seq<u8>, b: Seq<u8>, k: int)
    requires
        0 <= k <= a.len(),
        k <= b.len(),
        forall|j: int| 0 <= j < k ==> a[j] == b[j],
    ensures
        k < a.len() && k < b.len() && a[k] != b[k] ==> bytes_precede(a, b) == (a[k] < b[k]),
        k == a.len() ==> bytes_precede(a, b) == (k < b.len()),
        k == b.len() ==> !bytes_precede(a, b),
    decreases k,
{
    if k > 0 {
        assert(a[0] == b[0]);
        lemma_bytes_order_skips_common_bytes(a.drop_first(), b.drop_first(), k - 1);
    }
}

/// Whether two names are equal.
pub fn same_name(a: &str, b: &str) -> (same: bool)
    ensures
        same == (a@ == b@),
{
    let x = a.as_bytes();
    let y = b.as_bytes();
    if x.len() != y.len() {
        return false;
    }
    let mut i: usize = 0;
    while i < x.len()
        invariant
            i <= x.len(),
            x.len() == y.len(),
            x@ == encode_utf8(a@),
            y@ == encode_utf8(b@),
            forall|j: int| 0 <= j < i ==> x@[j] == y@[j],
        decreases x.len() - i,
    {
        if x[i] != y[i] {
            return false;
        }
        i = i + 1;
    }
    assert(x@ =~= y@);
    proof {
        lemma_encoding_is_injective(a@, b@);
    }
    true
}

/// Whether `a` comes before `b` in canonical name order.
pub fn precedes(a: &str, b: &str) -> (before: bool)
    ensures
        before == name_precedes(a@, b@),
{
    let x = a.as_bytes();
    let y = b.as_bytes();
    let mut i: usize = 0;
    assert(x@.skip(0) =~= x@);
    assert(y@.skip(0) =~= y@);
    while i < x.len() && i < y.len()
        invariant
            i <= x.len(),
            i <= y.len(),
            x@ == encode_utf8(a@),
            y@ == encode_utf8(b@),
            bytes_precede(x@, y@) == bytes_precede(x@.skip(i as int), y@.skip(i as int)),
        decreases x.len() - i,
    {
        let p: u8 = x[i];
        let q: u8 = y[i];
        assert(x@.skip(i as int)[0] == p);
        assert(y@.skip(i as int)[0] == q);
        if p != q {
            return p < q;
        }
        assert(x@.skip(i as int).drop_first() =~= x@.skip(i + 1));
        assert(y@.skip(i as int).drop_first() =~= y@.skip(i + 1));
        i = i + 1;
    }
    i < y.len()
}

/// The bytes of a fixed native name buffer up to its first NUL, or all of them.
pub open spec fn until_nul(bytes: Seq<u8>) -> Seq<u8>
    decreases bytes.len(),
{
    if bytes.len() == 0 || bytes[0] == 0 {
        Seq::empty()
    } else {
        seq![bytes[0]] + until_nul(bytes.drop_first())
    }
}

proof fn lemma_until_nul(bytes: Seq<u8>, k: int)
    requires
        0 <= k <= bytes.len(),
        forall|j: int| 0 <= j < k ==> bytes[j] != 0,
        k == bytes.len() || bytes[k] == 0,
    ensures
        until_nul(bytes) == bytes.take(k),
    decreases k,
{
    if k == 0 {
        assert(bytes.take(k) =~= Seq::<u8>::empty());
    } else {
        lemma_until_nul(bytes.drop_first(), k - 1);
        assert(bytes.take(k) =~= seq![bytes[0]] + bytes.drop_first().take(k - 1));
    }
}

/// A native name is what stands in its buffer before the first NUL, or all of it where there is
/// none.
pub proof fn law_names_end_at_the_first_nul(bytes: Seq<u8>, length: int)
    requires
        0 <= length <= bytes.len(),
        forall|j: int| 0 <= j < length ==> bytes[j] != 0,
        length == bytes.len() || bytes[length] == 0,
    ensures
        until_nul(bytes) == bytes.take(length),
{
    lemma_until_nul(bytes, length);
}

/// Cuts a native name buffer at its first NUL.
pub fn cut_at_nul(bytes: &[u8]) -> (name: &[u8])
    ensures
        name@ == until_nul(bytes@),
{
    let mut length: usize = 0;
    while length < bytes.len() && bytes[length] != 0
        invariant
            length <= bytes.len(),
            forall|j: int| 0 <= j < length ==> bytes@[j] != 0,
        decreases bytes.len() - length,
    {
        length = length + 1;
    }
    proof {
        lemma_until_nul(bytes@, length as int);
    }
    assert(bytes@.take(length as int) =~= bytes@.subrange(0, length as int));
    vstd::slice::slice_subrange(bytes, 0, length)
}

/// The text of the error that `std::str::from_utf8` reports for bytes that are not UTF-8.
pub uninterp spec fn utf8_error_text(bytes: Seq<u8>) -> Seq<char>;

/// Calls `std::str::from_utf8`, which succeeds exactly on well-formed UTF-8 and then yields the
/// string with that encoding. Otherwise the text of its error is returned, a function of the
/// bytes alone.
#[verifier::external_body]
pub(crate) fn decode_utf8_name(bytes: &[u8]) -> (name: Result<String, String>)
    ensures
        match name {
            Ok(text) => valid_utf8(bytes@) && encode_utf8(text@) == bytes@,
            Err(error) => !valid_utf8(bytes@) && error@ == utf8_error_text(bytes@),
        },
{
    match std::str::from_utf8(bytes) {
        Ok(text) => Ok(text.to_string()),
        Err(error) => Err(error.to_string()),
    }
}

} // verus!
