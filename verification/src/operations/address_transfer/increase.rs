//! INCA, INCX, INC1 to INC6 and DECA, DECX, DEC1 to DEC6.

use vstd::prelude::*;

use crate::computer::{Computer, ComputerView, ExecutionFault};
use crate::mix::address::Address;
use crate::mix::instruction::Instruction;
use crate::mix::laws::lemma_address_word_round_trip;
use crate::mix::op_codes;
use crate::mix::word::{spec_abs, spec_fits_in_word, Sign, Word};
use crate::operations::arithmetic::{spec_sum_word, sum_word};
use crate::operations::Operation;

verus! {

/// The address that an index register holds after a sum was formed in it. A
/// sum of zero leaves the register's sign as it was; of a sum too large for
/// two bytes, the magnitude modulo 64^2 is left.
pub open spec fn spec_sum_address(prior: Address, sum: int) -> Address {
    if sum == 0 {
        Address::spec_new(prior.sign, 0)
    } else {
        Address::spec_new(
            if sum < 0 && spec_abs(sum) % 4096 != 0 {
                Sign::Negative
            } else {
                Sign::Positive
            },
            spec_abs(sum) % 4096,
        )
    }
}

/// The address that an index register holds after `sum` was formed in it.
pub fn sum_address(prior: &Address, sum: isize) -> (a: Address)
    ensures
        a == spec_sum_address(*prior, sum as int),
        a.wf(),
        sum == 0 ==> a.sign == prior.sign,
{
    let magnitude: i128 = if sum < 0 {
        -(sum as i128)
    } else {
        sum as i128
    };
    let rest: i128 = magnitude % 4096;
    let sign = if sum == 0 {
        prior.sign
    } else if sum < 0 && rest != 0 {
        Sign::Negative
    } else {
        Sign::Positive
    };
    let a = Address { sign, bytes: [(rest / 64) as u8, (rest % 64) as u8] };
    assert(a.bytes =~= spec_sum_address(*prior, sum as int).bytes);
    a
}

/// The word that A or X holds after `value` was added to it, and whether the
/// sum overflowed.
fn add_to_word(prior: &Word, value: isize) -> (r: (Word, bool))
    requires
        prior.wf(),
        -20670 <= value <= 20670,
    ensures
        r.0 == spec_sum_word(*prior, prior.spec_value() + value),
        r.1 == !spec_fits_in_word(prior.spec_value() + value),
        r.0.wf(),
{
    let sum: i64 = prior.value() as i64 + value as i64;
    sum_word(prior, sum as isize)
}

/// The address that an index register holds after `value` was added to it.
fn add_to_address(prior: &Address, value: isize) -> (a: Address)
    requires
        prior.wf(),
        -20670 <= value <= 20670,
    ensures
        a == spec_sum_address(*prior, prior.spec_cast_to_word().spec_value() + value),
        a.wf(),
{
    proof {
        lemma_address_word_round_trip(*prior);
    }
    let sum = prior.value() + value;
    sum_address(prior, sum)
}

/// The increase and decrease operations: the address itself is added to a
/// register, or taken from it.
pub struct Increase {
    pub instruction: Instruction,
}

impl Increase {
    /// The operation of `instruction`.
    pub fn new(instruction: &Instruction) -> (op: Increase)
        ensures
            op.instruction == *instruction,
    {
        Increase { instruction: *instruction }
    }

    /// The number of the register: 0 for A, 1 to 6 for the index registers,
    /// 7 for X.
    pub open spec fn spec_target(&self) -> int {
        self.instruction.operation - op_codes::INCA
    }

    /// The sum that the operation forms: the register plus the address, or
    /// minus it for the decreasing forms.
    pub open spec fn spec_sum(&self, pre: ComputerView) -> int {
        if self.instruction.modification == 1 {
            pre.spec_register(self.spec_target()).spec_value() - pre.spec_indexed_address(
                self.instruction,
            )
        } else {
            pre.spec_register(self.spec_target()).spec_value() + pre.spec_indexed_address(
                self.instruction,
            )
        }
    }
}

impl Operation for Increase {
    open spec fn spec_fault(&self, pre: ComputerView) -> Option<ExecutionFault> {
        if !(op_codes::INCA <= self.instruction.operation <= op_codes::INCX)
            || self.instruction.modification > 1 {
            Some(ExecutionFault::UnknownOp)
        } else {
            pre.spec_index_fault(self.instruction)
        }
    }

    /// The register holds the sum. In A and X a sum that does not fit sets
    /// the overflow bit. In an index register nothing but the sign and the
    /// last two bytes of the sum is kept, and the overflow bit stays.
    open spec fn spec_effect(&self, pre: ComputerView) -> ComputerView {
        if self.spec_fault(pre) is Some {
            pre
        } else if self.spec_target() == 0 {
            ComputerView {
                accumulator: spec_sum_word(pre.accumulator, self.spec_sum(pre)),
                overflow: pre.overflow || !spec_fits_in_word(self.spec_sum(pre)),
                ..pre
            }
        } else if self.spec_target() == 7 {
            ComputerView {
                extension: spec_sum_word(pre.extension, self.spec_sum(pre)),
                overflow: pre.overflow || !spec_fits_in_word(self.spec_sum(pre)),
                ..pre
            }
        } else {
            ComputerView {
                indexes: pre.indexes.update(
                    self.spec_target() - 1,
                    spec_sum_address(pre.indexes[self.spec_target() - 1], self.spec_sum(pre)),
                ),
                ..pre
            }
        }
    }

    open spec fn spec_increments(&self) -> bool {
        true
    }

    #[verifier::rlimit(60)]
    fn execute(&self, computer: &mut Computer) -> (r: Result<(), ExecutionFault>) {
        let operation = self.instruction.operation;
        if operation < op_codes::INCA || operation > op_codes::INCX
            || self.instruction.modification > 1 {
            return Err(ExecutionFault::UnknownOp);
        }
        if self.instruction.index_specification > 6 {
            return Err(ExecutionFault::IndexSpec);
        }
        let mut value = computer.get_indexed_address_value(&self.instruction);
        if self.instruction.modification == 1 {
            value = -value;
        }
        let target = operation - op_codes::INCA;
        if target == 0 {
            let (result, overflowed) = add_to_word(&computer.accumulator, value);
            if overflowed {
                computer.overflow = true;
            }
            computer.accumulator = result;
        } else if target == 7 {
            let (result, overflowed) = add_to_word(&computer.extension, value);
            if overflowed {
                computer.overflow = true;
            }
            computer.extension = result;
        } else {
            let index = (target - 1) as usize;
            assert(computer@.indexes[index as int].wf());
            let prior = computer.indexes[index];
            let after = add_to_address(&prior, value);
            computer.indexes[index] = after;
            assert(computer@.indexes =~= old(computer)@.indexes.update(index as int, after));
        }
        Ok(())
    }

    fn should_increment_program_counter(&self) -> (r: bool) {
        true
    }
}

} // verus!
