//! The MIX word: a sign and five bytes of radix 64.

use vstd::prelude::*;

use super::address::Address;
use super::char_codes::{get_char, get_code, spec_char_of, spec_code_of};
use super::field::{decode_field_spec, spec_field_left, spec_field_right, valid_field_spec};
use super::instruction::Instruction;

verus! {

/// The sign of a word or an address. Zero has one too.
#[derive(Debug, Copy, Clone, PartialEq, Eq, Structural)]
pub enum Sign {
    Positive,
    Negative,
}

/// A word: a sign and five bytes, each below 64. Positive and negative zero
/// are two words.
#[derive(Debug, Copy, Clone, PartialEq, Eq)]
pub struct Word {
    pub sign: Sign,
    pub bytes: [u8; 5],
}

/// Why a piece of text has no word, or a word no text.
#[derive(Debug, Copy, Clone, PartialEq, Eq, Structural)]
pub enum CharCodeError {
    /// A character or a byte that the character table does not hold.
    BadCharCode,
    /// More than five characters for one word.
    TooLong,
}

/// The five bytes of a magnitude below 64^5, most significant first.
pub open spec fn bytes_of_magnitude(m: nat) -> Seq<u8> {
    seq![
        ((m / 16777216) % 64) as u8,
        ((m / 262144) % 64) as u8,
        ((m / 4096) % 64) as u8,
        ((m / 64) % 64) as u8,
        (m % 64) as u8,
    ]
}

/// The opposite sign.
pub open spec fn spec_opposite(sign: Sign) -> Sign {
    match sign {
        Sign::Positive => Sign::Negative,
        Sign::Negative => Sign::Positive,
    }
}

/// The sign of a product or quotient of two signed quantities.
pub open spec fn spec_sign_product(a: Sign, b: Sign) -> Sign {
    if a == b {
        Sign::Positive
    } else {
        Sign::Negative
    }
}

/// The absolute value of an integer.
pub open spec fn spec_abs(v: int) -> nat {
    if v < 0 {
        (-v) as nat
    } else {
        v as nat
    }
}

/// Whether `value` is the value of some word: at most 64^5 - 1 in magnitude.
pub open spec fn spec_fits_in_word(value: int) -> bool {
    -1073741823 <= value <= 1073741823
}

/// The bytes of the field `(left:right)` of `bytes`, moved to the right end of
/// a word and padded with zeros on the left. A `left` of 0 stands for the
/// sign and selects no byte.
pub open spec fn spec_field_bytes(bytes: Seq<u8>, left: int, right: int) -> Seq<u8> {
    let first = if left == 0 {
        1
    } else {
        left
    };
    let count = right - first + 1;
    Seq::new(
        5,
        |i: int|
            if i < 5 - count {
                0u8
            } else {
                bytes[first - 1 + (i - (5 - count))]
            },
    )
}

/// The text of a sequence of bytes, one character for each, where every byte
/// has a character.
pub open spec fn spec_chars_of_bytes(bytes: Seq<u8>) -> Seq<char> {
    Seq::new(bytes.len(), |i: int| spec_char_of(bytes[i]).unwrap())
}

/// Whether every character of `text` has a code.
pub open spec fn spec_all_have_codes(text: Seq<char>) -> bool {
    forall|i: int| 0 <= i < text.len() ==> (#[trigger] spec_code_of(text[i])) is Some
}

impl Sign {
    /// The other sign.
    pub fn opposite(self) -> (r: Sign)
        ensures
            r == spec_opposite(self),
    {
        match self {
            Sign::Positive => Sign::Negative,
            Sign::Negative => Sign::Positive,
        }
    }

    /// Positive for two equal signs, negative for two different ones.
    pub fn product(self, other: Sign) -> (r: Sign)
        ensures
            r == spec_sign_product(self, other),
    {
        if self == other {
            Sign::Positive
        } else {
            Sign::Negative
        }
    }
}

impl Word {
    /// Every byte is below 64.
    pub open spec fn wf(&self) -> bool {
        forall|i: int| 0 <= i < 5 ==> self.bytes[i] < 64
    }

    /// The magnitude: the five bytes read as a number of radix 64.
    pub open spec fn magnitude(&self) -> nat {
        (self.bytes[0] as nat) * 16777216 + (self.bytes[1] as nat) * 262144 + (self.bytes[2] as nat)
            * 4096 + (self.bytes[3] as nat) * 64 + (self.bytes[4] as nat)
    }

    /// The signed value of the word.
    pub open spec fn spec_value(&self) -> int {
        if self.sign == Sign::Positive {
            self.magnitude() as int
        } else {
            -(self.magnitude() as int)
        }
    }

    /// The word of a sign and a magnitude below 64^5.
    pub open spec fn spec_new(sign: Sign, magnitude: nat) -> Word {
        let b = bytes_of_magnitude(magnitude);
        Word { sign, bytes: [b[0], b[1], b[2], b[3], b[4]] }
    }

    /// The word that stands for `value`; zero is positive.
    pub open spec fn spec_from_value(value: int) -> Word {
        Word::spec_new(
            if value < 0 {
                Sign::Negative
            } else {
                Sign::Positive
            },
            spec_abs(value),
        )
    }

    /// What is left of a value that does not fit: the magnitude is reduced
    /// modulo 64^5, and the sign is that of the value unless nothing is left.
    pub open spec fn spec_from_value_with_overflow(value: int) -> Word {
        let rest = spec_abs(value) % 1073741824;
        Word::spec_new(
            if value < 0 && rest != 0 {
                Sign::Negative
            } else {
                Sign::Positive
            },
            rest,
        )
    }

    /// The same bytes under the other sign.
    pub open spec fn spec_toggle_sign(&self) -> Word {
        Word { sign: spec_opposite(self.sign), bytes: self.bytes }
    }

    /// The same bytes under the given sign.
    pub open spec fn spec_with_sign(&self, sign: Sign) -> Word {
        Word { sign, bytes: self.bytes }
    }

    /// The field `spec` of the word as a word of its own: the selected bytes
    /// at the right end, zeros before them, and the word's sign where the
    /// field starts at 0, a positive sign elsewhere.
    pub open spec fn spec_apply_field_spec(&self, spec: u8) -> Word {
        let left = spec_field_left(spec);
        let right = spec_field_right(spec);
        let b = spec_field_bytes(self.bytes@, left, right);
        Word {
            sign: if left == 0 {
                self.sign
            } else {
                Sign::Positive
            },
            bytes: [b[0], b[1], b[2], b[3], b[4]],
        }
    }

    /// The sign and the last two bytes.
    pub open spec fn spec_cast_to_address(&self) -> Address {
        Address { sign: self.sign, bytes: [self.bytes[3], self.bytes[4]] }
    }

    /// The word whose fields are those of the instruction.
    pub open spec fn spec_from_instruction(instruction: Instruction) -> Word {
        Word {
            sign: instruction.address.sign,
            bytes: [
                instruction.address.bytes[0],
                instruction.address.bytes[1],
                instruction.index_specification,
                instruction.modification,
                instruction.operation,
            ],
        }
    }

    /// The positive word whose bytes are the codes of `text`, followed by
    /// zeros where `text` has fewer than five characters.
    pub open spec fn spec_from_char_code(text: Seq<char>) -> Word {
        let b = Seq::new(
            5,
            |i: int|
                if i < text.len() {
                    spec_code_of(text[i]).unwrap()
                } else {
                    0u8
                },
        );
        Word { sign: Sign::Positive, bytes: [b[0], b[1], b[2], b[3], b[4]] }
    }

    /// Positive zero.
    pub fn zero() -> (w: Word)
        ensures
            w == Word::spec_new(Sign::Positive, 0),
            w.wf(),
            w.spec_value() == 0,
    {
        let w = Word { bytes: [0, 0, 0, 0, 0], sign: Sign::Positive };
        assert(w.bytes =~= Word::spec_new(Sign::Positive, 0).bytes);
        w
    }

    /// Negative zero: distinct from positive zero, with the same value.
    pub fn negative_zero() -> (w: Word)
        ensures
            w == Word::spec_new(Sign::Negative, 0),
            w.wf(),
            w.spec_value() == 0,
    {
        let w = Word { bytes: [0, 0, 0, 0, 0], sign: Sign::Negative };
        assert(w.bytes =~= Word::spec_new(Sign::Negative, 0).bytes);
        w
    }

    /// Whether `value` can be held by a word.
    pub fn fits_in_word(value: isize) -> (r: bool)
        ensures
            r == spec_fits_in_word(value as int),
    {
        -1073741823 <= value && value <= 1073741823
    }

    /// The word of a sign and a magnitude below 64^5.
    pub fn from_magnitude(sign: Sign, magnitude: u32) -> (w: Word)
        requires
            magnitude < 1073741824,
        ensures
            w == Word::spec_new(sign, magnitude as nat),
            w.wf(),
            w.sign == sign,
            w.magnitude() == magnitude,
    {
        let b0: u32 = (magnitude / 16777216) % 64;
        let b1: u32 = (magnitude / 262144) % 64;
        let b2: u32 = (magnitude / 4096) % 64;
        let b3: u32 = (magnitude / 64) % 64;
        let b4: u32 = magnitude % 64;
        assert(magnitude == b0 * 16777216 + b1 * 262144 + b2 * 4096 + b3 * 64 + b4) by (bit_vector)
            requires
                magnitude < 1073741824,
                b0 == (magnitude / 16777216) % 64,
                b1 == (magnitude / 262144) % 64,
                b2 == (magnitude / 4096) % 64,
                b3 == (magnitude / 64) % 64,
                b4 == magnitude % 64,
        ;
        let w = Word { sign, bytes: [b0 as u8, b1 as u8, b2 as u8, b3 as u8, b4 as u8] };
        assert(w.bytes =~= Word::spec_new(sign, magnitude as nat).bytes);
        w
    }

    /// The word that stands for `value`. Zero becomes positive zero.
    pub fn from_value(value: isize) -> (w: Word)
        requires
            spec_fits_in_word(value as int),
        ensures
            w == Word::spec_from_value(value as int),
            w.wf(),
            w.spec_value() == value,
            w.sign == Sign::Negative <==> value < 0,
    {
        if value < 0 {
            Word::from_magnitude(Sign::Negative, (-value) as u32)
        } else {
            Word::from_magnitude(Sign::Positive, value as u32)
        }
    }

    /// The word that is left of a value too large for a word: 64^5 is taken
    /// off the magnitude as often as it fits.
    pub fn from_value_with_overflow(value: isize) -> (w: Word)
        requires
            !spec_fits_in_word(value as int),
        ensures
            w == Word::spec_from_value_with_overflow(value as int),
            w.wf(),
            w.magnitude() == spec_abs(value as int) % 1073741824,
            w.sign == Sign::Negative <==> (value < 0 && w.magnitude() != 0),
    {
        let wide: i128 = value as i128;
        let magnitude: i128 = if wide < 0 {
            -wide
        } else {
            wide
        };
        let rest: u32 = (magnitude % 1073741824) as u32;
        if value < 0 && rest != 0 {
            Word::from_magnitude(Sign::Negative, rest)
        } else {
            Word::from_magnitude(Sign::Positive, rest)
        }
    }

    /// The word that holds an instruction: the address with its sign in the
    /// first two bytes, then the index, the modification and the operation.
    pub fn from_instruction(instruction: &Instruction) -> (w: Word)
        ensures
            w == Word::spec_from_instruction(*instruction),
            instruction.wf() ==> w.wf(),
    {
        let w = Word {
            sign: instruction.address.sign,
            bytes: [
                instruction.address.bytes[0],
                instruction.address.bytes[1],
                instruction.index_specification,
                instruction.modification,
                instruction.operation,
            ],
        };
        assert(w.bytes =~= Word::spec_from_instruction(*instruction).bytes);
        w
    }

    /// The word of up to five characters, each by its code. Shorter text is
    /// followed by zeros, which are the code of a blank.
    pub fn from_char_code(char_code: &str) -> (r: Result<Word, CharCodeError>)
        ensures
            r is Ok <==> char_code@.len() <= 5 && spec_all_have_codes(char_code@),
            r matches Ok(w) ==> w == Word::spec_from_char_code(char_code@) && w.wf(),
            r matches Err(e) ==> (e == CharCodeError::TooLong <==> char_code@.len() > 5),
    {
        let n = char_code.unicode_len();
        if n > 5 {
            return Err(CharCodeError::TooLong);
        }
        let mut word = Word { bytes: [0, 0, 0, 0, 0], sign: Sign::Positive };
        let mut i: usize = 0;
        while i < n
            invariant
                n == char_code@.len(),
                n <= 5,
                i <= n,
                word.sign == Sign::Positive,
                forall|k: int| 0 <= k < i ==> (#[trigger] spec_code_of(char_code@[k])) is Some,
                forall|k: int|
                    0 <= k < i ==> word.bytes[k] == (#[trigger] spec_code_of(char_code@[k])).unwrap(),
                forall|k: int| i <= k < 5 ==> word.bytes[k] == 0,
                word.wf(),
            decreases n - i,
        {
            let ch = char_code.get_char(i);
            match get_code(&ch) {
                Some(code) => {
                    word.bytes[i] = code;
                },
                None => {
                    return Err(CharCodeError::BadCharCode);
                },
            }
            i += 1;
        }
        assert(word.bytes =~= Word::spec_from_char_code(char_code@).bytes);
        Ok(word)
    }

    /// The five characters of the word's bytes.
    pub fn to_char_code(&self) -> (r: Result<String, CharCodeError>)
        ensures
            r is Ok <==> (forall|i: int| 0 <= i < 5 ==> self.bytes[i] < 56),
            r matches Ok(s) ==> s@ == spec_chars_of_bytes(self.bytes@),
            r matches Err(e) ==> e == CharCodeError::BadCharCode,
    {
        let mut chars: Vec<char> = Vec::new();
        let mut i: usize = 0;
        while i < 5
            invariant
                i <= 5,
                chars@.len() == i,
                forall|k: int| 0 <= k < i ==> self.bytes[k] < 56,
                forall|k: int| 0 <= k < i ==> chars@[k] == spec_char_of(self.bytes[k]).unwrap(),
            decreases 5 - i,
        {
            match get_char(&self.bytes[i]) {
                Some(ch) => {
                    chars.push(ch);
                },
                None => {
                    return Err(CharCodeError::BadCharCode);
                },
            }
            i += 1;
        }
        assert(chars@ =~= spec_chars_of_bytes(self.bytes@));
        Ok(super::text::string_from_chars(&chars))
    }

    /// The signed value: the magnitude, negated under a negative sign.
    pub fn value(&self) -> (v: isize)
        requires
            self.wf(),
        ensures
            v == self.spec_value(),
            spec_fits_in_word(v as int),
    {
        let magnitude: isize = (self.bytes[0] as isize) * 16777216 + (self.bytes[1] as isize)
            * 262144 + (self.bytes[2] as isize) * 4096 + (self.bytes[3] as isize) * 64 + (
        self.bytes[4] as isize);
        if self.sign == Sign::Positive {
            magnitude
        } else {
            -magnitude
        }
    }

    /// The same bytes under the other sign.
    pub fn toggle_sign(&self) -> (w: Word)
        ensures
            w == self.spec_toggle_sign(),
            self.wf() ==> w.wf(),
            w.spec_value() == -self.spec_value(),
    {
        Word { bytes: self.bytes, sign: self.sign.opposite() }
    }

    /// The same bytes under the given sign.
    pub fn with_sign(&self, sign: Sign) -> (w: Word)
        ensures
            w == self.spec_with_sign(sign),
            self.wf() ==> w.wf(),
            w.magnitude() == self.magnitude(),
    {
        Word { bytes: self.bytes, sign }
    }

    /// The field `(L:R)` that `spec` encodes, as a word: bytes L to R at the
    /// right end, zeros before them. With L = 0 the sign comes along and the
    /// bytes start at 1; otherwise the result is positive.
    pub fn apply_field_spec(&self, spec: u8) -> (w: Word)
        requires
            valid_field_spec(spec),
        ensures
            w == self.spec_apply_field_spec(spec),
            self.wf() ==> w.wf(),
    {
        let mut new_word = Word { bytes: [0, 0, 0, 0, 0], sign: Sign::Positive };
        let (left, right) = decode_field_spec(spec);
        let mut first = left;
        if left == 0 {
            new_word.sign = self.sign;
            first = 1;
        }
        let count: u8 = right + 1 - first;
        let offset: u8 = 5 - count;
        let ghost target = spec_field_bytes(self.bytes@, left as int, right as int);
        let mut i: u8 = first;
        while i <= right
            invariant
                1 <= first <= i <= right + 1,
                right <= 5,
                count == right + 1 - first,
                offset == 5 - count,
                first == (if left == 0 {
                    1
                } else {
                    left as int
                }),
                target == spec_field_bytes(self.bytes@, left as int, right as int),
                forall|k: int| 0 <= k < i - first + offset ==> new_word.bytes[k] == target[k],
                forall|k: int| i - first + offset <= k < 5 ==> new_word.bytes[k] == 0,
                new_word.sign == (if left == 0 {
                    self.sign
                } else {
                    Sign::Positive
                }),
            decreases right + 1 - i,
        {
            let value = self.bytes[(i - 1) as usize];
            new_word.bytes[(i - first + offset) as usize] = value;
            i += 1;
        }
        assert(new_word.bytes =~= self.spec_apply_field_spec(spec).bytes);
        new_word
    }

    /// The address in the last two bytes, with the word's sign.
    pub fn cast_to_address(&self) -> (a: Address)
        ensures
            a == self.spec_cast_to_address(),
            self.wf() ==> a.wf(),
    {
        let a = Address { bytes: [self.bytes[3], self.bytes[4]], sign: self.sign };
        assert(a.bytes =~= self.spec_cast_to_address().bytes);
        a
    }
}

} // verus!
