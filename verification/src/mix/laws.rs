//! Laws of the word algebra: what holds of every word, every value and every
//! field.

use vstd::prelude::*;

use super::address::{spec_fits_in_address, Address};
use super::field::{spec_field_left, valid_field_spec};
use super::instruction::Instruction;
use super::word::{bytes_of_magnitude, spec_abs, spec_fits_in_word, Sign, Word};

verus! {

/// The value of a word whose bytes are all below 64 lies between
/// -(64^5 - 1) and 64^5 - 1.
pub proof fn lemma_word_value_in_range(w: Word)
    requires
        w.wf(),
    ensures
        w.magnitude() <= 1073741823,
        spec_fits_in_word(w.spec_value()),
{
}

/// The value of an address whose bytes are both below 64 lies between
/// -(64^2 - 1) and 64^2 - 1.
pub proof fn lemma_address_value_in_range(a: Address)
    requires
        a.wf(),
    ensures
        a.magnitude() <= 4095,
        spec_fits_in_address(a.spec_value()),
{
}

/// The word made of a sign and a magnitude below 64^5 has that sign and that
/// magnitude, and bytes below 64.
pub proof fn lemma_new_word(sign: Sign, magnitude: nat)
    requires
        magnitude < 1073741824,
    ensures
        Word::spec_new(sign, magnitude).wf(),
        Word::spec_new(sign, magnitude).sign == sign,
        Word::spec_new(sign, magnitude).magnitude() == magnitude,
{
    let m = magnitude as u32;
    let b0 = ((m / 16777216) % 64) as u32;
    let b1 = ((m / 262144) % 64) as u32;
    let b2 = ((m / 4096) % 64) as u32;
    let b3 = ((m / 64) % 64) as u32;
    let b4 = (m % 64) as u32;
    assert(m == b0 * 16777216 + b1 * 262144 + b2 * 4096 + b3 * 64 + b4 && b0 < 64 && b1 < 64 && b2
        < 64 && b3 < 64 && b4 < 64) by (bit_vector)
        requires
            m < 1073741824,
            b0 == (m / 16777216) % 64,
            b1 == (m / 262144) % 64,
            b2 == (m / 4096) % 64,
            b3 == (m / 64) % 64,
            b4 == m % 64,
    ;
    let w = Word::spec_new(sign, magnitude);
    assert(w.bytes[0] == b0 && w.bytes[1] == b1 && w.bytes[2] == b2 && w.bytes[3] == b3
        && w.bytes[4] == b4);
}

/// Two words with bytes below 64, the same sign and the same magnitude are
/// the same word.
pub proof fn lemma_word_determined(a: Word, b: Word)
    requires
        a.wf(),
        b.wf(),
        a.sign == b.sign,
        a.magnitude() == b.magnitude(),
    ensures
        a == b,
{
    lemma_bytes_of_magnitude(a);
    lemma_bytes_of_magnitude(b);
    assert(a.bytes =~= b.bytes);
}

/// The bytes of a word with bytes below 64 are those of its magnitude.
pub proof fn lemma_bytes_of_magnitude(w: Word)
    requires
        w.wf(),
    ensures
        w.bytes@ == bytes_of_magnitude(w.magnitude()),
        w == Word::spec_new(w.sign, w.magnitude()),
{
    let b0 = w.bytes[0] as u32;
    let b1 = w.bytes[1] as u32;
    let b2 = w.bytes[2] as u32;
    let b3 = w.bytes[3] as u32;
    let b4 = w.bytes[4] as u32;
    let m = w.magnitude() as u32;
    assert(m == b0 * 16777216 + b1 * 262144 + b2 * 4096 + b3 * 64 + b4);
    assert((m / 16777216) % 64 == b0 && (m / 262144) % 64 == b1 && (m / 4096) % 64 == b2 && (m
        / 64) % 64 == b3 && m % 64 == b4) by (bit_vector)
        requires
            b0 < 64,
            b1 < 64,
            b2 < 64,
            b3 < 64,
            b4 < 64,
            m == b0 * 16777216 + b1 * 262144 + b2 * 4096 + b3 * 64 + b4,
    ;
    assert(w.bytes@ =~= bytes_of_magnitude(w.magnitude()));
    assert(w.bytes =~= Word::spec_new(w.sign, w.magnitude()).bytes);
}

/// A value that fits in a word is the value of the word made from it.
pub proof fn lemma_from_value_round_trip(value: int)
    requires
        spec_fits_in_word(value),
    ensures
        Word::spec_from_value(value).wf(),
        Word::spec_from_value(value).spec_value() == value,
{
    lemma_new_word(
        if value < 0 {
            Sign::Negative
        } else {
            Sign::Positive
        },
        spec_abs(value),
    );
}

/// A word other than negative zero is the word made from its value.
pub proof fn lemma_value_round_trip(w: Word)
    requires
        w.wf(),
        !(w.sign == Sign::Negative && w.magnitude() == 0),
    ensures
        Word::spec_from_value(w.spec_value()) == w,
{
    lemma_from_value_round_trip(w.spec_value());
    lemma_word_determined(Word::spec_from_value(w.spec_value()), w);
}

/// Taking a word apart as an instruction and putting it together again gives
/// the word back, and the other way round.
pub proof fn lemma_instruction_round_trip(w: Word, instruction: Instruction)
    ensures
        Word::spec_from_instruction(Instruction::spec_from_word(w)) == w,
        Instruction::spec_from_word(Word::spec_from_instruction(instruction)) == instruction,
{
    assert(Word::spec_from_instruction(Instruction::spec_from_word(w)).bytes =~= w.bytes);
    assert(Instruction::spec_from_word(Word::spec_from_instruction(instruction)).address.bytes
        =~= instruction.address.bytes);
}

/// The field (0:5) is the whole word.
pub proof fn lemma_whole_field(w: Word)
    ensures
        w.spec_apply_field_spec(5) == w,
{
    assert(w.spec_apply_field_spec(5).bytes =~= w.bytes);
}

/// The field (0:0) is the sign alone, over zero bytes.
pub proof fn lemma_sign_field(w: Word)
    ensures
        w.spec_apply_field_spec(0) == Word::spec_new(w.sign, 0),
{
    assert(w.spec_apply_field_spec(0).bytes =~= Word::spec_new(w.sign, 0).bytes);
}

/// A field taken out of a word is a word of its own: taking the whole of it
/// changes nothing, so what the first field left, sign included, stays.
pub proof fn lemma_field_then_whole(w: Word, spec: u8)
    requires
        valid_field_spec(spec),
    ensures
        w.spec_apply_field_spec(spec).spec_apply_field_spec(5) == w.spec_apply_field_spec(spec),
        spec_field_left(spec) > 0 ==> w.spec_apply_field_spec(spec).sign == Sign::Positive,
        spec_field_left(spec) == 0 ==> w.spec_apply_field_spec(spec).sign == w.sign,
{
    lemma_whole_field(w.spec_apply_field_spec(spec));
}

/// A field of a word with bytes below 64 has bytes below 64.
pub proof fn lemma_field_wf(w: Word, spec: u8)
    requires
        w.wf(),
        valid_field_spec(spec),
    ensures
        w.spec_apply_field_spec(spec).wf(),
{
}

/// Once past the range of a word and short of twice 64^5, the value of what
/// the overflowing constructor leaves is the value moved towards zero by
/// 64^5.
pub proof fn lemma_overflow_value(value: int)
    requires
        1073741824 <= spec_abs(value) < 2147483648,
    ensures
        Word::spec_from_value_with_overflow(value).wf(),
        value > 0 ==> Word::spec_from_value_with_overflow(value).spec_value() == value
            - 1073741824,
        value < 0 ==> Word::spec_from_value_with_overflow(value).spec_value() == value
            + 1073741824,
{
    let rest = spec_abs(value) % 1073741824;
    assert(rest == spec_abs(value) - 1073741824);
    lemma_new_word(
        if value < 0 && rest != 0 {
            Sign::Negative
        } else {
            Sign::Positive
        },
        rest,
    );
}

/// Whatever the value, what the overflowing constructor leaves is a word with
/// bytes below 64 whose magnitude is that of the value modulo 64^5.
pub proof fn lemma_overflow_magnitude(value: int)
    ensures
        Word::spec_from_value_with_overflow(value).wf(),
        Word::spec_from_value_with_overflow(value).magnitude() == spec_abs(value) % 1073741824,
{
    let rest = spec_abs(value) % 1073741824;
    lemma_new_word(
        if value < 0 && rest != 0 {
            Sign::Negative
        } else {
            Sign::Positive
        },
        rest,
    );
}

/// An address and the word it is cast to have the same value, and casting
/// the word back gives the address.
pub proof fn lemma_address_word_round_trip(a: Address)
    ensures
        a.spec_cast_to_word().spec_value() == a.spec_value(),
        a.spec_cast_to_word().spec_cast_to_address() == a,
{
    assert(a.spec_cast_to_word().spec_cast_to_address().bytes =~= a.bytes);
}

} // verus!
