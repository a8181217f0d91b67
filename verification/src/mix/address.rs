//! The MIX address: a sign and two bytes of radix 64.

use vstd::prelude::*;

use super::word::{spec_abs, Sign, Word};

verus! {

/// An address: a sign and two bytes, each below 64.
#[derive(Debug, Copy, Clone, PartialEq, Eq)]
pub struct Address {
    pub sign: Sign,
    pub bytes: [u8; 2],
}

/// Whether `value` is the value of some address: at most 64^2 - 1 in
/// magnitude.
pub open spec fn spec_fits_in_address(value: int) -> bool {
    -4095 <= value <= 4095
}

impl Address {
    /// Both bytes are below 64.
    pub open spec fn wf(&self) -> bool {
        self.bytes[0] < 64 && self.bytes[1] < 64
    }

    /// The magnitude: the two bytes read as a number of radix 64.
    pub open spec fn magnitude(&self) -> nat {
        (self.bytes[0] as nat) * 64 + (self.bytes[1] as nat)
    }

    /// The signed value of the address.
    pub open spec fn spec_value(&self) -> int {
        if self.sign == Sign::Positive {
            self.magnitude() as int
        } else {
            -(self.magnitude() as int)
        }
    }

    /// The address of a sign and a magnitude below 64^2.
    pub open spec fn spec_new(sign: Sign, magnitude: nat) -> Address {
        Address { sign, bytes: [(magnitude / 64) as u8, (magnitude % 64) as u8] }
    }

    /// The address that stands for `value`: the sign of the value, zero
    /// being positive, and its magnitude, of which a value too wide for two
    /// bytes keeps what is left modulo 64^2.
    pub open spec fn spec_from_value(value: int) -> Address {
        Address::spec_new(
            if value < 0 {
                Sign::Negative
            } else {
                Sign::Positive
            },
            spec_abs(value) % 4096,
        )
    }

    /// The word with the same sign, three zero bytes and the two bytes of the
    /// address.
    pub open spec fn spec_cast_to_word(&self) -> Word {
        Word { sign: self.sign, bytes: [0, 0, 0, self.bytes[0], self.bytes[1]] }
    }

    /// Positive zero.
    pub fn zero() -> (a: Address)
        ensures
            a == Address::spec_new(Sign::Positive, 0),
            a.wf(),
            a.spec_value() == 0,
    {
        let a = Address { bytes: [0, 0], sign: Sign::Positive };
        assert(a.bytes =~= Address::spec_new(Sign::Positive, 0).bytes);
        a
    }

    /// Negative zero.
    pub fn negative_zero() -> (a: Address)
        ensures
            a == Address::spec_new(Sign::Negative, 0),
            a.wf(),
            a.spec_value() == 0,
    {
        let a = Address { bytes: [0, 0], sign: Sign::Negative };
        assert(a.bytes =~= Address::spec_new(Sign::Negative, 0).bytes);
        a
    }

    /// Whether `value` can be held by an address.
    pub fn fits_in_address(value: isize) -> (r: bool)
        ensures
            r == spec_fits_in_address(value as int),
    {
        -4095 <= value && value <= 4095
    }

    /// The address that stands for `value`. Zero becomes positive zero. A
    /// value too wide for two bytes is truncated: the sign stays, and of the
    /// magnitude what is left modulo 64^2.
    pub fn from_value(value: isize) -> (a: Address)
        ensures
            a == Address::spec_from_value(value as int),
            a.wf(),
            a.magnitude() == spec_abs(value as int) % 4096,
            spec_fits_in_address(value as int) ==> a.spec_value() == value,
            a.sign == Sign::Negative <==> value < 0,
    {
        let sign = if value < 0 {
            Sign::Negative
        } else {
            Sign::Positive
        };
        let magnitude: i128 = if value < 0 {
            -(value as i128)
        } else {
            value as i128
        };
        let rest: i128 = magnitude % 4096;
        let a = Address { bytes: [(rest / 64) as u8, (rest % 64) as u8], sign };
        assert(a.bytes =~= Address::spec_from_value(value as int).bytes);
        a
    }

    /// The signed value: the magnitude, negated under a negative sign.
    pub fn value(&self) -> (v: isize)
        ensures
            v == self.spec_value(),
            self.wf() ==> spec_fits_in_address(v as int),
            -16575 <= v <= 16575,
    {
        let magnitude: isize = (self.bytes[0] as isize) * 64 + (self.bytes[1] as isize);
        if self.sign == Sign::Positive {
            magnitude
        } else {
            -magnitude
        }
    }

    /// The address as a word: the sign, three zero bytes, the two bytes.
    pub fn cast_to_word(&self) -> (w: Word)
        ensures
            w == self.spec_cast_to_word(),
            self.wf() ==> w.wf(),
            w.spec_value() == self.spec_value(),
    {
        let w = Word { bytes: [0, 0, 0, self.bytes[0], self.bytes[1]], sign: self.sign };
        assert(w.bytes =~= self.spec_cast_to_word().bytes);
        w
    }
}

} // verus!
