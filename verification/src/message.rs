//! Messages cut to a byte bound without splitting a character.

use vstd::prelude::*;
use vstd::string::*;
use vstd::utf8::{
    char_is_scalar,
    decode_utf8_split,
    encode_scalar,
    encode_utf8,
    encode_utf8_decode_utf8,
    encode_utf8_first_scalar,
    encode_utf8_valid_utf8,
    is_char_boundary,
    is_char_boundary_start_end_of_seq,
    pop_first_scalar,
};

verus! {

/// Maximum retained callback failure bytes.
pub const MAX_TENSOR_FAILURE_BYTES: usize = 1_024;

/// The number of bytes in the UTF-8 encoding of a text.
pub open spec fn encoded_len(text: Seq<char>) -> nat {
    encode_utf8(text).len()
}

/// The longest prefix of `text` whose encoding has at most `limit` bytes.
pub open spec fn longest_fitting_prefix(text: Seq<char>, limit: nat) -> Seq<char>
    decreases text.len(),
{
    if encoded_len(text) <= limit {
        text
    } else {
        longest_fitting_prefix(text.drop_last(), limit)
    }
}

/// A message cut to the failure bound.
pub open spec fn bounded_message(text: Seq<char>) -> Seq<char> {
    longest_fitting_prefix(text, MAX_TENSOR_FAILURE_BYTES as nat)
}

/// The encoding of a concatenation is the concatenation of the encodings.
pub proof fn lemma_encoding_of_concatenation(a: Seq<char>, b: Seq<char>)
    ensures
        encode_utf8(a + b) == encode_utf8(a) + encode_utf8(b),
    decreases a.len(),
{
    if a.len() == 0 {
        assert(a + b =~= b);
        assert(encode_utf8(a) + encode_utf8(b) =~= encode_utf8(b));
    } else {
        lemma_encoding_of_concatenation(a.drop_first(), b);
        assert((a + b).drop_first() =~= a.drop_first() + b);
        assert(encode_utf8(a + b) =~= encode_utf8(a) + encode_utf8(b));
    }
}

proof fn lemma_nonempty_encoding(text: Seq<char>)
    requires
        text.len() > 0,
    ensures
        encoded_len(text) > 0,
{
    char_is_scalar(text[0]);
    assert(encode_scalar(text[0] as u32).len() > 0);
}

/// The encoding of every prefix ends on a character boundary of the whole encoding.
proof fn lemma_prefix_ends_on_boundary(text: Seq<char>, k: int)
    requires
        0 <= k <= text.len(),
    ensures
        is_char_boundary(encode_utf8(text), encoded_len(text.take(k)) as int),
    decreases k,
{
    let bytes = encode_utf8(text);
    encode_utf8_valid_utf8(text);
    if k == 0 {
        assert(text.take(k) =~= Seq::<char>::empty());
    } else {
        let rest = text.drop_first();
        lemma_prefix_ends_on_boundary(rest, k - 1);
        encode_utf8_first_scalar(text);
        let first = seq![text[0]];
        assert(text.take(k).drop_first() =~= rest.take(k - 1));
        assert(pop_first_scalar(bytes) =~= encode_utf8(rest));
        assert(encoded_len(text.take(k)) == encode_scalar(text[0] as u32).len() + encoded_len(
            rest.take(k - 1),
        ));
        assert(text =~= text.take(k) + text.skip(k));
        lemma_encoding_of_concatenation(text.take(k), text.skip(k));
        lemma_nonempty_encoding(text.take(k));
    }
}

proof fn lemma_longest_fitting_prefix(text: Seq<char>, limit: nat, k: int)
    requires
        0 <= k <= text.len(),
        encoded_len(text.take(k)) <= limit,
        forall|j: int| k < j <= text.len() ==> #[trigger] encoded_len(text.take(j)) > limit,
    ensures
        longest_fitting_prefix(text, limit) == text.take(k),
    decreases text.len(),
{
    if k == text.len() {
        assert(text.take(k) =~= text);
    } else {
        assert(text.take(text.len() as int) =~= text);
        assert(encoded_len(text.take(text.len() as int)) > limit);
        let shorter = text.drop_last();
        assert forall|j: int| k < j <= shorter.len() implies #[trigger] encoded_len(shorter.take(j))
            > limit by {
            assert(shorter.take(j) =~= text.take(j));
        }
        assert(shorter.take(k) =~= text.take(k));
        lemma_longest_fitting_prefix(shorter, limit, k);
    }
}

/// A cut message stays within its bound, is a prefix of what it was cut from, and is that text
/// unchanged where the text fits.
pub proof fn law_cut_messages_are_bounded_prefixes(text: Seq<char>, limit: nat)
    ensures
        encoded_len(longest_fitting_prefix(text, limit)) <= limit,
        longest_fitting_prefix(text, limit).is_prefix_of(text),
        encoded_len(text) <= limit ==> longest_fitting_prefix(text, limit) == text,
    decreases text.len(),
{
    if encoded_len(text) > limit {
        law_cut_messages_are_bounded_prefixes(text.drop_last(), limit);
        let cut = longest_fitting_prefix(text, limit);
        assert(cut.is_prefix_of(text.drop_last()));
        assert(cut =~= text.subrange(0, cut.len() as int));
    }
}

/// Cutting is final: a message within the bound is never cut again.
pub proof fn law_cutting_twice_changes_nothing(text: Seq<char>, limit: nat)
    ensures
        longest_fitting_prefix(longest_fitting_prefix(text, limit), limit)
            == longest_fitting_prefix(text, limit),
{
    law_cut_messages_are_bounded_prefixes(text, limit);
}

/// Keeps the longest prefix of a text that fits in `limit` bytes.
pub fn cut_text(text: &str, limit: usize) -> (kept: String)
    ensures
        kept@ == longest_fitting_prefix(text@, limit as nat),
{
    let length: usize = text.as_bytes().len();
    if length <= limit {
        return text.to_owned();
    }
    let ghost bytes = encode_utf8(text@);
    proof {
        encode_utf8_valid_utf8(text@);
        is_char_boundary_start_end_of_seq(bytes);
    }
    let mut end: usize = limit;
    while !text.is_char_boundary(end)
        invariant
            end <= limit < bytes.len(),
            bytes == encode_utf8(text@),
            is_char_boundary(bytes, 0),
            forall|i: int| end < i <= limit ==> !#[trigger] is_char_boundary(bytes, i),
        decreases end,
    {
        end = end - 1;
    }
    let (head, tail) = text.split_at(end);
    proof {
        decode_utf8_split(bytes, end as int);
        encode_utf8_decode_utf8(text@);
        encode_utf8_decode_utf8(head@);
        encode_utf8_decode_utf8(tail@);
        let k = head@.len() as int;
        assert(text@ =~= head@ + tail@);
        assert(text@.take(k) =~= head@);
        assert forall|j: int| k < j <= text@.len() implies #[trigger] encoded_len(text@.take(j))
            > limit by {
            lemma_prefix_ends_on_boundary(text@, j);
            let middle = text@.subrange(k, j);
            assert(text@.take(j) =~= head@ + middle);
            lemma_encoding_of_concatenation(head@, middle);
            lemma_nonempty_encoding(middle);
            assert(text@ =~= text@.take(j) + text@.skip(j));
        }
        lemma_longest_fitting_prefix(text@, limit as nat, k);
    }
    head.to_owned()
}

/// Cuts a message to the failure bound.
pub fn bound_message(text: &str) -> (message: String)
    ensures
        message@ == bounded_message(text@),
{
    cut_text(text, MAX_TENSOR_FAILURE_BYTES)
}

/// A cut message is as long as its bound allows: one more character of the text would not fit.
pub proof fn law_cut_messages_are_as_long_as_possible(text: Seq<char>, limit: nat, longer: int)
    requires
        longest_fitting_prefix(text, limit).len() < longer <= text.len(),
    ensures
        encoded_len(text.take(longer)) > limit,
    decreases text.len(),
{
    if encoded_len(text) > limit {
        if longer < text.len() {
            law_cut_messages_are_as_long_as_possible(text.drop_last(), limit, longer);
            assert(text.drop_last().take(longer) =~= text.take(longer));
        } else {
            assert(text.take(longer) =~= text);
        }
    }
}

/// A failure message is the longest beginning of its text that fits in 1024 bytes.
pub proof fn law_failure_messages_fit_and_lose_no_more_than_needed(text: Seq<char>, longer: int)
    ensures
        bounded_message(text).is_prefix_of(text),
        encoded_len(bounded_message(text)) <= 1_024,
        bounded_message(text).len() < longer <= text.len() ==> encoded_len(text.take(longer))
            > 1_024,
{
    law_cut_messages_are_bounded_prefixes(text, 1_024);
    if bounded_message(text).len() < longer <= text.len() {
        law_cut_messages_are_as_long_as_possible(text, 1_024, longer);
    }
}

} // verus!
