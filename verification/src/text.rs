//! Decimal numbers and the names of layer outputs.

use crate::names::same_name;
use vstd::prelude::*;
use vstd::string::*;

verus! {

/// The character of a decimal digit.
pub open spec fn digit_char(d: nat) -> char {
    (0x30 + d) as char
}

/// The decimal numeral of `n`, without leading zeros.
pub open spec fn decimal(n: nat) -> Seq<char>
    decreases n,
{
    if n < 10 {
        seq![digit_char(n)]
    } else {
        decimal(n / 10).push(digit_char(n % 10))
    }
}

/// Whether `c` is an ASCII decimal digit.
pub open spec fn is_digit(c: char) -> bool {
    '0' <= c <= '9'
}

/// The number that a sequence of decimal digits stands for.
pub open spec fn digits_value(s: Seq<char>) -> nat
    decreases s.len(),
{
    if s.len() == 0 {
        0
    } else {
        digits_value(s.drop_last()) * 10 + (s.last() as nat - 0x30) as nat
    }
}

/// The machine number written as at least one decimal digit.
pub open spec fn parsed_index(digits: Seq<char>) -> Option<usize> {
    if digits.len() > 0 && (forall|i: int| 0 <= i < digits.len() ==> is_digit(#[trigger] digits[i]))
        && digits_value(digits) <= usize::MAX {
        Some(digits_value(digits) as usize)
    } else {
        None
    }
}

/// The characters of a string, in order.
pub fn chars_of(s: &str) -> (chars: Vec<char>)
    ensures
        chars@ == s@,
{
    let mut chars: Vec<char> = Vec::new();
    for c in iter: s.chars()
        invariant
            iter.seq() == s@,
            chars@ == s@.take(iter.index() as int),
    {
        chars.push(c);
    }
    assert(s@.take(s@.len() as int) == s@);
    chars
}

/// Appending digits to a numeral never makes it smaller.
proof fn lemma_digits_value_grows(s: Seq<char>, k: int)
    requires
        0 <= k <= s.len(),
    ensures
        digits_value(s.take(k)) <= digits_value(s),
    decreases s.len() - k,
{
    if k < s.len() {
        lemma_digits_value_grows(s, k + 1);
        assert(s.take(k + 1).drop_last() =~= s.take(k));
    } else {
        assert(s.take(k) =~= s);
    }
}

/// Parses an index: only digits, at least one of them, with a value that fits the machine word.
pub fn parse_index(chars: &[char]) -> (index: Option<usize>)
    ensures
        index == parsed_index(chars@),
{
    if chars.len() == 0 {
        return None;
    }
    let mut value: usize = 0;
    let mut i: usize = 0;
    while i < chars.len()
        invariant
            i <= chars.len(),
            chars@.len() > 0,
            forall|j: int| 0 <= j < i ==> is_digit(#[trigger] chars@[j]),
            value == digits_value(chars@.take(i as int)),
        decreases chars.len() - i,
    {
        let c = chars[i];
        if c < '0' || c > '9' {
            return None;
        }
        let digit: usize = (c as u32 - 0x30) as usize;
        assert(chars@.take(i + 1).drop_last() =~= chars@.take(i as int));
        assert(digits_value(chars@.take(i + 1)) == value * 10 + digit);
        proof {
            lemma_digits_value_grows(chars@, i + 1);
        }
        value =
        match value.checked_mul(10) {
            Some(tens) => match tens.checked_add(digit) {
                Some(total) => total,
                None => return None,
            },
            None => return None,
        };
        i = i + 1;
    }
    assert(chars@.take(chars@.len() as int) =~= chars@);
    Some(value)
}

/// The text of one decimal digit.
fn digit_text(d: u64) -> (text: &'static str)
    requires
        d < 10,
    ensures
        text@ == seq![digit_char(d as nat)],
{
    proof {
        reveal_strlit("0");
        reveal_strlit("1");
        reveal_strlit("2");
        reveal_strlit("3");
        reveal_strlit("4");
        reveal_strlit("5");
        reveal_strlit("6");
        reveal_strlit("7");
        reveal_strlit("8");
        reveal_strlit("9");
    }
    match d {
        0 => "0",
        1 => "1",
        2 => "2",
        3 => "3",
        4 => "4",
        5 => "5",
        6 => "6",
        7 => "7",
        8 => "8",
        _ => "9",
    }
}

/// Writes a number in decimal, as `{}` formats it.
pub fn decimal_string(n: u64) -> (text: String)
    ensures
        text@ == decimal(n as nat),
    decreases n,
{
    if n < 10 {
        digit_text(n).to_owned()
    } else {
        let mut text = decimal_string(n / 10);
        text.append(digit_text(n % 10));
        assert(text@ =~= decimal(n as nat));
        text
    }
}

/// The decimal text of a signed number.
pub open spec fn signed_decimal(n: int) -> Seq<char> {
    if n < 0 {
        "-"@ + decimal((-n) as nat)
    } else {
        decimal(n as nat)
    }
}

/// Writes a signed number in decimal, as `{}` formats it.
pub fn signed_decimal_string(n: i32) -> (text: String)
    ensures
        text@ == signed_decimal(n as int),
{
    if n < 0 {
        let mut text = "-".to_owned();
        let magnitude: u64 = (-(n as i64)) as u64;
        text.append(decimal_string(magnitude).as_str());
        text
    } else {
        decimal_string(n as u64)
    }
}

/// The graph-node name of a transformer layer output.
pub open spec fn layer_output_name(layer: nat) -> Seq<char> {
    "l_out-"@ + decimal(layer)
}

/// The layer whose output a graph-node name is, where it is that of any layer.
pub open spec fn layer_index(name: Seq<char>) -> Option<usize> {
    if exists|layer: usize| name == #[trigger] layer_output_name(layer as nat) {
        Some(choose|layer: usize| name == #[trigger] layer_output_name(layer as nat))
    } else {
        None
    }
}

/// Writes the graph-node name of a layer output.
pub fn layer_name(layer: u64) -> (name: String)
    ensures
        name@ == layer_output_name(layer as nat),
{
    let mut name = "l_out-".to_owned();
    name.append(decimal_string(layer).as_str());
    name
}

/// Whether `text` starts with `prefix`.
pub fn starts_with(text: &[char], prefix: &[char]) -> (found: bool)
    ensures
        found == prefix@.is_prefix_of(text@),
{
    if prefix.len() > text.len() {
        return false;
    }
    let mut i: usize = 0;
    while i < prefix.len()
        invariant
            i <= prefix.len() <= text.len(),
            forall|j: int| 0 <= j < i ==> prefix@[j] == text@[j],
        decreases prefix.len() - i,
    {
        if text[i] != prefix[i] {
            assert(text@.subrange(0, prefix@.len() as int)[i as int] == text@[i as int]);
            return false;
        }
        i = i + 1;
    }
    assert(text@.subrange(0, prefix@.len() as int) =~= prefix@);
    true
}

/// Reads the layer out of a graph-node name. Only the exact name of a layer output has one: a
/// sign or a leading zero makes another name.
pub fn layer_of_name(name: &str) -> (layer: Option<usize>)
    ensures
        layer == layer_index(name@),
        layer matches Some(n) ==> name@ == layer_output_name(n as nat),
        layer is None ==> forall|n: usize| name@ != #[trigger] layer_output_name(n as nat),
{
    let chars = chars_of(name);
    let prefix = chars_of("l_out-");
    if !starts_with(chars.as_slice(), prefix.as_slice()) {
        proof {
            assert forall|n: usize| name@ != #[trigger] layer_output_name(n as nat) by {
                lemma_layer_name_parts(n);
            }
        }
        return None;
    }
    let suffix = vstd::slice::slice_subrange(chars.as_slice(), prefix.len(), chars.len());
    assert(suffix@ =~= name@.skip(prefix@.len() as int));
    let index: usize = match parse_index(suffix) {
        Some(index) => index,
        None => {
            proof {
                assert forall|n: usize| name@ != #[trigger] layer_output_name(n as nat) by {
                    lemma_layer_name_parts(n);
                }
            }
            return None;
        },
    };
    let exact = layer_name(index as u64);
    if !same_name(exact.as_str(), name) {
        proof {
            assert forall|n: usize| name@ != #[trigger] layer_output_name(n as nat) by {
                lemma_layer_name_parts(n);
            }
        }
        return None;
    }
    proof {
        law_layer_name_carries_its_layer(index);
    }
    Some(index)
}

/// A decimal numeral has only digits, at least one, and denotes the number it was written for.
pub proof fn lemma_decimal_value(n: nat)
    ensures
        decimal(n).len() > 0,
        forall|i: int| 0 <= i < decimal(n).len() ==> is_digit(#[trigger] decimal(n)[i]),
        digits_value(decimal(n)) == n,
    decreases n,
{
    if n < 10 {
        assert(decimal(n).drop_last() =~= Seq::<char>::empty());
        assert(digits_value(Seq::<char>::empty()) == 0);
    } else {
        lemma_decimal_value(n / 10);
        assert(decimal(n).drop_last() =~= decimal(n / 10));
    }
}

/// A layer-output name is the prefix followed by the digits of its layer.
proof fn lemma_layer_name_parts(layer: usize)
    ensures
        "l_out-"@.is_prefix_of(layer_output_name(layer as nat)),
        parsed_index(layer_output_name(layer as nat).skip("l_out-"@.len() as int)) == Some(layer),
{
    let name = layer_output_name(layer as nat);
    lemma_decimal_value(layer as nat);
    assert(name.subrange(0, "l_out-"@.len() as int) =~= "l_out-"@);
    assert(name.skip("l_out-"@.len() as int) =~= decimal(layer as nat));
}

/// Two layers never share a layer-output name.
pub proof fn law_layer_names_are_distinct(a: usize, b: usize)
    requires
        layer_output_name(a as nat) == layer_output_name(b as nat),
    ensures
        a == b,
{
    lemma_layer_name_parts(a);
    lemma_layer_name_parts(b);
}

/// The layer read from a layer-output name is the one that the name was written for.
pub proof fn law_layer_name_carries_its_layer(layer: usize)
    ensures
        layer_index(layer_output_name(layer as nat)) == Some(layer),
{
    let name = layer_output_name(layer as nat);
    let read = choose|n: usize| name == #[trigger] layer_output_name(n as nat);
    law_layer_names_are_distinct(layer, read);
}

/// A name that carries a layer is exactly the output name of that layer.
pub proof fn law_only_layer_output_names_carry_layers(name: Seq<char>, layer: usize)
    ensures
        layer_index(name) == Some(layer) <==> name == layer_output_name(layer as nat),
{
    if name == layer_output_name(layer as nat) {
        law_layer_name_carries_its_layer(layer);
    }
}

/// A numeral is written with the digits of its number, without leading zeros: the last digit is
/// the remainder by ten, what comes before it is the numeral of the quotient, and only zero begins
/// with a zero.
pub proof fn law_numerals_have_no_leading_zeros(n: nat)
    ensures
        n < 10 ==> decimal(n).len() == 1,
        n >= 10 ==> decimal(n).drop_last() == decimal(n / 10),
        decimal(n).len() > 0,
        decimal(n).last() as nat == '0' as nat + n % 10,
        decimal(n)[0] == '0' <==> n == 0,
    decreases n,
{
    if n >= 10 {
        law_numerals_have_no_leading_zeros(n / 10);
        assert(decimal(n).drop_last() =~= decimal(n / 10));
    }
}

/// A numeral is read from the left: each further digit counts its own value and ten times what
/// was read before it.
pub proof fn law_numerals_are_read_digit_by_digit(s: Seq<char>, digit: char)
    ensures
        digits_value(Seq::empty()) == 0,
        is_digit(digit) <==> 48 <= digit as nat <= 57,
        is_digit(digit) ==> digits_value(s.push(digit)) == 10 * digits_value(s) + (digit as nat
            - 48),
{
    assert(s.push(digit).drop_last() =~= s);
}

/// Exactly the nonempty texts of digits whose number fits a machine word are indices, and each
/// stands for its number. Every number is read back from its numeral.
pub proof fn law_indices_are_read_exactly(text: Seq<char>, n: usize)
    ensures
        parsed_index(text) == Some(n) <==> {
            &&& text.len() > 0
            &&& forall|i: int| 0 <= i < text.len() ==> '0' <= #[trigger] text[i] <= '9'
            &&& digits_value(text) == n
        },
        parsed_index(decimal(n as nat)) == Some(n),
{
    lemma_decimal_value(n as nat);
    if text.len() > 0 && (forall|i: int|
        0 <= i < text.len() ==> '0' <= #[trigger] text[i] <= '9') {
        assert(forall|i: int| 0 <= i < text.len() ==> is_digit(#[trigger] text[i]));
    }
    if parsed_index(text) is Some {
        assert forall|i: int| 0 <= i < text.len() implies '0' <= #[trigger] text[i] <= '9' by {
            assert(is_digit(text[i]));
        }
    }
}

/// A negative number is written as a minus sign and the numeral of its opposite, and any other
/// number as its own numeral.
pub proof fn law_negative_numbers_carry_a_sign(n: nat)
    ensures
        signed_decimal(n as int) == decimal(n),
        n > 0 ==> signed_decimal(-n) == seq!['-'] + decimal(n),
{
    reveal_strlit("-");
    assert("-"@ =~= seq!['-']);
}

/// The name of a layer output is `l_out-` and the numeral of the layer.
pub proof fn law_layer_names_end_with_their_numeral(layer: nat)
    ensures
        layer_output_name(layer) == seq!['l', '_', 'o', 'u', 't', '-'] + decimal(layer),
{
    reveal_strlit("l_out-");
    assert("l_out-"@ =~= seq!['l', '_', 'o', 'u', 't', '-']);
}

} // verus!
