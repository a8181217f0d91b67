//! CHAR.

use vstd::prelude::*;

use crate::computer::{Computer, ComputerView, ExecutionFault};
use crate::mix::word::Word;
use crate::operations::arithmetic::multiplication::magnitude;
use crate::operations::Operation;

verus! {

/// The code of the decimal digit of `m` that stands at the place of
/// `unit`, a power of ten: the digits have the codes 30 to 39.
pub open spec fn spec_digit_code(m: nat, unit: nat) -> u8 {
    (30 + (m / unit) % 10) as u8
}

/// The code of the decimal digit of `m` at the place of `unit`.
pub fn digit_code(m: u64, unit: u64) -> (code: u8)
    requires
        unit > 0,
    ensures
        code == spec_digit_code(m as nat, unit as nat),
        30 <= code <= 39,
{
    (30 + (m / unit) % 10) as u8
}

/// CHAR: the magnitude of A is written out in ten decimal digits, as
/// characters, into A and X.
pub struct ConvertToCharacters {}

impl ConvertToCharacters {
    /// The operation; it takes nothing from its instruction.
    pub fn new() -> ConvertToCharacters {
        ConvertToCharacters {  }
    }
}

impl Operation for ConvertToCharacters {
    open spec fn spec_fault(&self, pre: ComputerView) -> Option<ExecutionFault> {
        None
    }

    /// A holds the codes of the upper five digits and X those of the lower
    /// five. Both keep their signs.
    open spec fn spec_effect(&self, pre: ComputerView) -> ComputerView {
        let m = pre.accumulator.magnitude();
        ComputerView {
            accumulator: Word {
                sign: pre.accumulator.sign,
                bytes: [
                    spec_digit_code(m, 1000000000),
                    spec_digit_code(m, 100000000),
                    spec_digit_code(m, 10000000),
                    spec_digit_code(m, 1000000),
                    spec_digit_code(m, 100000),
                ],
            },
            extension: Word {
                sign: pre.extension.sign,
                bytes: [
                    spec_digit_code(m, 10000),
                    spec_digit_code(m, 1000),
                    spec_digit_code(m, 100),
                    spec_digit_code(m, 10),
                    spec_digit_code(m, 1),
                ],
            },
            ..pre
        }
    }

    open spec fn spec_increments(&self) -> bool {
        true
    }

    fn execute(&self, computer: &mut Computer) -> (r: Result<(), ExecutionFault>) {
        let m = magnitude(&computer.accumulator);
        let a = Word {
            sign: computer.accumulator.sign,
            bytes: [
                digit_code(m, 1000000000),
                digit_code(m, 100000000),
                digit_code(m, 10000000),
                digit_code(m, 1000000),
                digit_code(m, 100000),
            ],
        };
        let x = Word {
            sign: computer.extension.sign,
            bytes: [
                digit_code(m, 10000),
                digit_code(m, 1000),
                digit_code(m, 100),
                digit_code(m, 10),
                digit_code(m, 1),
            ],
        };
        assert(a.bytes =~= self.spec_effect(old(computer)@).accumulator.bytes);
        assert(x.bytes =~= self.spec_effect(old(computer)@).extension.bytes);
        computer.accumulator = a;
        computer.extension = x;
        Ok(())
    }

    fn should_increment_program_counter(&self) -> (r: bool) {
        true
    }
}

} // verus!
