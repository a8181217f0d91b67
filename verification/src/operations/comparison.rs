//! CMPA, CMPX and CMP1 to CMP6.

use vstd::prelude::*;

use super::Operation;
use crate::computer::{Computer, ComputerView, ExecutionFault};
use crate::mix::field::Comparison;
use crate::mix::instruction::Instruction;
use crate::mix::laws::lemma_field_wf;

verus! {

/// The first operation code of the group, that of the comparison with A.
pub const FIRST_CODE: u8 = 56;

/// The last operation code of the group, that of the comparison with X.
pub const LAST_CODE: u8 = 63;

/// How `left` stands to `right`.
pub open spec fn spec_compare(left: int, right: int) -> Comparison {
    if left < right {
        Comparison::Less
    } else if left > right {
        Comparison::Greater
    } else {
        Comparison::Equal
    }
}

/// The comparisons: a field of a register is held against the same field of
/// a word of memory.
pub struct Compare {
    pub instruction: Instruction,
}

impl Compare {
    /// The operation of `instruction`.
    pub fn new(instruction: &Instruction) -> (op: Compare)
        ensures
            op.instruction == *instruction,
    {
        Compare { instruction: *instruction }
    }

    /// The value of the register's field.
    pub open spec fn spec_left(&self, pre: ComputerView) -> int {
        pre.spec_register(self.instruction.operation - FIRST_CODE).spec_apply_field_spec(
            self.instruction.modification,
        ).spec_value()
    }

    /// The value of the field of the word of memory.
    pub open spec fn spec_right(&self, pre: ComputerView) -> int {
        pre.spec_operand(self.instruction).spec_value()
    }
}

impl Operation for Compare {
    open spec fn spec_fault(&self, pre: ComputerView) -> Option<ExecutionFault> {
        if !(FIRST_CODE <= self.instruction.operation <= LAST_CODE) {
            Some(ExecutionFault::UnknownOp)
        } else {
            pre.spec_operand_fault(self.instruction)
        }
    }

    /// The comparison indicator says how the register's field stands to the
    /// field in memory, by their values: two zeros are equal whatever their
    /// signs.
    open spec fn spec_effect(&self, pre: ComputerView) -> ComputerView {
        if self.spec_fault(pre) is Some {
            pre
        } else {
            ComputerView {
                comparison: spec_compare(self.spec_left(pre), self.spec_right(pre)),
                ..pre
            }
        }
    }

    open spec fn spec_increments(&self) -> bool {
        true
    }

    fn execute(&self, computer: &mut Computer) -> (r: Result<(), ExecutionFault>) {
        let operation = self.instruction.operation;
        if operation < FIRST_CODE || operation > LAST_CODE {
            return Err(ExecutionFault::UnknownOp);
        }
        let word = match computer.operand(&self.instruction) {
            Ok(word) => word,
            Err(f) => {
                return Err(f);
            },
        };
        let register = computer.register(operation - FIRST_CODE);
        proof {
            lemma_field_wf(register, self.instruction.modification);
        }
        let register = register.apply_field_spec(self.instruction.modification);
        let w_val = word.value();
        let r_val = register.value();
        let result = if r_val < w_val {
            Comparison::Less
        } else if r_val > w_val {
            Comparison::Greater
        } else {
            Comparison::Equal
        };
        computer.comparison = result;
        Ok(())
    }

    fn should_increment_program_counter(&self) -> (r: bool) {
        true
    }
}

} // verus!
