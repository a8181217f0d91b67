//! ADD and SUB, and what they share with the other operations that add to
//! a register.

pub mod division;
pub mod multiplication;

use vstd::prelude::*;

use super::Operation;
use crate::computer::{Computer, ComputerView, ExecutionFault};
use crate::mix::instruction::Instruction;
use crate::mix::laws::lemma_new_word;
use crate::mix::op_codes;
use crate::mix::word::{spec_fits_in_word, Word};

pub use division::Division;
pub use multiplication::Multiplication;

verus! {

/// The word that a register holds after a sum was formed in it. A sum of
/// zero leaves the register's sign as it was; a sum that does not fit
/// leaves what is left of it after the overflow.
pub open spec fn spec_sum_word(prior: Word, sum: int) -> Word {
    if sum == 0 {
        Word::spec_new(prior.sign, 0)
    } else if spec_fits_in_word(sum) {
        Word::spec_from_value(sum)
    } else {
        Word::spec_from_value_with_overflow(sum)
    }
}

/// The word that a register holds after `sum` was formed in it, and whether
/// the sum overflowed.
pub fn sum_word(prior: &Word, sum: isize) -> (r: (Word, bool))
    ensures
        r.0 == spec_sum_word(*prior, sum as int),
        r.1 == !spec_fits_in_word(sum as int),
        r.0.wf(),
        sum == 0 ==> r.0.sign == prior.sign,
{
    proof {
        lemma_new_word(prior.sign, 0);
    }
    if sum == 0 {
        (Word::from_magnitude(prior.sign, 0), false)
    } else if Word::fits_in_word(sum) {
        (Word::from_value(sum), false)
    } else {
        (Word::from_value_with_overflow(sum), true)
    }
}

/// ADD and SUB: the operand is added to A, or taken from it.
pub struct Addition {
    pub instruction: Instruction,
}

impl Addition {
    /// The operation of `instruction`.
    pub fn new(instruction: &Instruction) -> (op: Addition)
        ensures
            op.instruction == *instruction,
    {
        Addition { instruction: *instruction }
    }

    /// The sum that the operation forms: A plus the operand, or minus it for
    /// SUB.
    pub open spec fn spec_sum(&self, pre: ComputerView) -> int {
        if self.instruction.operation == op_codes::SUB {
            pre.accumulator.spec_value() - pre.spec_operand(self.instruction).spec_value()
        } else {
            pre.accumulator.spec_value() + pre.spec_operand(self.instruction).spec_value()
        }
    }
}

impl Operation for Addition {
    open spec fn spec_fault(&self, pre: ComputerView) -> Option<ExecutionFault> {
        if self.instruction.operation != op_codes::ADD && self.instruction.operation
            != op_codes::SUB {
            Some(ExecutionFault::UnknownOp)
        } else {
            pre.spec_operand_fault(self.instruction)
        }
    }

    /// A holds the sum. Where the sum does not fit in a word, the overflow
    /// bit is set; otherwise it stays as it was.
    open spec fn spec_effect(&self, pre: ComputerView) -> ComputerView {
        if self.spec_fault(pre) is Some {
            pre
        } else {
            ComputerView {
                accumulator: spec_sum_word(pre.accumulator, self.spec_sum(pre)),
                overflow: pre.overflow || !spec_fits_in_word(self.spec_sum(pre)),
                ..pre
            }
        }
    }

    open spec fn spec_increments(&self) -> bool {
        true
    }

    fn execute(&self, computer: &mut Computer) -> (r: Result<(), ExecutionFault>) {
        if self.instruction.operation != op_codes::ADD && self.instruction.operation
            != op_codes::SUB {
            return Err(ExecutionFault::UnknownOp);
        }
        let word = match computer.operand(&self.instruction) {
            Ok(word) => word,
            Err(f) => {
                return Err(f);
            },
        };
        let mut value = word.value();
        if self.instruction.operation == op_codes::SUB {
            value = -value;
        }
        let sum: i64 = computer.accumulator.value() as i64 + value as i64;
        let (result, overflowed) = sum_word(&computer.accumulator, sum as isize);
        if overflowed {
            computer.overflow = true;
        }
        computer.accumulator = result;
        Ok(())
    }

    fn should_increment_program_counter(&self) -> (r: bool) {
        true
    }
}

} // verus!
