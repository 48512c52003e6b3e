//! Binary notation: the text in which nibbles and instruction bytes are shown.

use vstd::arithmetic::div_mod::lemma_mod_breakdown;
use vstd::arithmetic::power2::{lemma2_to64, lemma_pow2_pos, lemma_pow2_unfold, pow2};
use vstd::prelude::*;
use vstd::string::StringExecFns;

verus! {

/// The character that shows one binary digit.
pub open spec fn digit_char(bit: nat) -> char {
    if bit == 1 {
        '1'
    } else {
        '0'
    }
}

/// The low `width` binary digits of `value`, most significant first.
pub open spec fn binary_digits(value: nat, width: nat) -> Seq<char>
    decreases width,
{
    if width == 0 {
        Seq::empty()
    } else {
        binary_digits(value / 2, (width - 1) as nat).push(digit_char(value % 2))
    }
}

/// Writes the low `width` binary digits of `value`, most significant first.
pub(crate) fn binary_text(value: u8, width: u8) -> (text: String)
    requires
        width <= 8,
    ensures
        text@ == binary_digits(value as nat, width as nat),
{
    let wide: u16 = value as u16;
    let mut text = String::new();
    let mut place: u8 = width;
    while place > 0
        invariant
            place <= width <= 8,
            wide == value,
            text@ == binary_digits((wide >> place) as nat, (width - place) as nat),
        decreases place,
    {
        let shifted: u16 = wide >> (place - 1);
        let bit: u16 = shifted & 1;
        proof {
            let lower: u8 = (place - 1) as u8;
            assert((wide >> lower) >> 1 == wide >> place) by (bit_vector)
                requires
                    1 <= place <= 8,
                    lower == place - 1,
            ;
            assert(shifted >> 1 == shifted / 2) by (bit_vector);
            assert(shifted & 1 == shifted % 2) by (bit_vector);
            reveal_strlit("0");
            reveal_strlit("1");
        }
        if bit == 1 {
            text.append("1");
        } else {
            text.append("0");
        }
        place = place - 1;
        assert(text@ == binary_digits(shifted as nat, (width - place) as nat));
    }
    proof {
        assert(wide >> 0 == wide) by (bit_vector);
    }
    text
}

/// The eight binary digits of an instruction byte, most significant first.
pub fn byte_text(byte: u8) -> (text: String)
    ensures
        text@ == binary_digits(byte as nat, 8),
{
    binary_text(byte, 8)
}

/// The number that a run of binary digits stands for, most significant
/// digit first. Any character but `1` counts as zero.
pub open spec fn binary_value(digits: Seq<char>) -> nat
    decreases digits.len(),
{
    if digits.len() == 0 {
        0
    } else {
        2 * binary_value(digits.drop_last()) + if digits.last() == '1' {
            1nat
        } else {
            0nat
        }
    }
}

/// Whether `digits` is one binary digit or more, and nothing else.
pub open spec fn is_binary(digits: Seq<char>) -> bool {
    &&& digits.len() > 0
    &&& forall|i: int| 0 <= i < digits.len() ==> digits[i] == '0' || digits[i] == '1'
}

/// The integer that `text` denotes in base two: binary digits, with or
/// without one sign in front. `None` for any other text.
pub open spec fn signed_binary(text: Seq<char>) -> Option<int> {
    let signed = text.len() > 0 && (text[0] == '+' || text[0] == '-');
    let digits = if signed {
        text.subrange(1, text.len() as int)
    } else {
        text
    };
    if !is_binary(digits) {
        None
    } else if signed && text[0] == '-' {
        Some(-(binary_value(digits) as int))
    } else {
        Some(binary_value(digits) as int)
    }
}

/// The integer that `text` denotes in base two, if it has the form of one
/// and fits a machine word.
pub open spec fn word_of_text(text: Seq<char>) -> Option<isize> {
    match signed_binary(text) {
        Some(value) => if isize::MIN <= value <= isize::MAX {
            Some(value as isize)
        } else {
            None
        },
        None => None,
    }
}

/// The byte that the text of a memory cell stands for: the low eight bits of
/// the integer that the text denotes in base two. Text that denotes no
/// integer, or one that does not fit a machine word, stands for zero.
pub open spec fn cell_byte(text: Seq<char>) -> u8 {
    match word_of_text(text) {
        Some(word) => (word as int % 256) as u8,
        None => 0,
    }
}

/// The `width` digits written for `value` are binary digits and nothing
/// else, and the number they stand for is `value` modulo two to the power of
/// `width`.
pub proof fn lemma_value_of_digits(value: nat, width: nat)
    ensures
        binary_digits(value, width).len() == width,
        forall|i: int|
            0 <= i < width ==> binary_digits(value, width)[i] == '0' || binary_digits(
                value,
                width,
            )[i] == '1',
        binary_value(binary_digits(value, width)) == value % pow2(width),
    decreases width,
{
    if width == 0 {
        lemma2_to64();
    } else {
        let shorter = (width - 1) as nat;
        let front = binary_digits(value / 2, shorter);
        lemma_value_of_digits(value / 2, shorter);
        assert(binary_digits(value, width).drop_last() =~= front);
        lemma_pow2_pos(shorter);
        lemma_pow2_unfold(width);
        lemma_mod_breakdown(value as int, 2, pow2(shorter) as int);
    }
}

/// Reading the eight digits written for a byte as the text of a memory cell
/// gives that byte.
pub proof fn lemma_cell_of_byte_text(byte: u8)
    ensures
        cell_byte(binary_digits(byte as nat, 8)) == byte,
{
    lemma_value_of_digits(byte as nat, 8);
    lemma2_to64();
}

/// Parses `text` as a signed integer in base two.
///
/// This is `isize::from_str_radix` with radix two, and its contract is taken
/// on trust. The standard library accepts an optional `+` or `-` followed by
/// digits and nothing else, wants at least one digit, and reports an error
/// for a number outside the range of `isize`; an error comes back as `None`.
#[verifier::external_body]
fn parse_word(text: &str) -> (word: Option<isize>)
    ensures
        word == word_of_text(text@),
{
    match isize::from_str_radix(text, 2) {
        Ok(value) => Some(value),
        Err(_) => None,
    }
}

/// Reads the text of a memory cell as an instruction byte.
pub fn parse_cell(text: &str) -> (byte: u8)
    ensures
        byte == cell_byte(text@),
{
    match parse_word(text) {
        Some(word) => {
            assert(word as u8 == (word as int % 256) as u8) by (bit_vector);
            #[verifier::truncate]
            (word as u8)
        },
        None => 0,
    }
}

} // verus!
