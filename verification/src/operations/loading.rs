//! LDA, LDX, LD1 to LD6 and their negating forms.

use vstd::prelude::*;

use super::Operation;
use crate::computer::{Computer, ComputerView, ExecutionFault};
use crate::mix::instruction::Instruction;
use crate::mix::op_codes;
use crate::mix::word::Word;

verus! {

/// The load operations: a field of a word of memory goes to a register.
pub struct Load {
    pub instruction: Instruction,
}

impl Load {
    /// The operation of `instruction`.
    pub fn new(instruction: &Instruction) -> (op: Load)
        ensures
            op.instruction == *instruction,
    {
        Load { instruction: *instruction }
    }

    /// The number of the register that is loaded: 0 for A, 1 to 6 for the
    /// index registers, 7 for X.
    pub open spec fn spec_target(&self) -> int {
        (self.instruction.operation - op_codes::LDA) % 8
    }

    /// Whether the operation is one of those that negate what they load.
    pub open spec fn spec_negates(&self) -> bool {
        self.instruction.operation >= op_codes::LDAN
    }

    /// The word that is loaded: the operand, under the other sign for the
    /// negating forms.
    pub open spec fn spec_loaded(&self, pre: ComputerView) -> Word {
        if self.spec_negates() {
            pre.spec_operand(self.instruction).spec_toggle_sign()
        } else {
            pre.spec_operand(self.instruction)
        }
    }
}

impl Operation for Load {
    open spec fn spec_fault(&self, pre: ComputerView) -> Option<ExecutionFault> {
        if !(op_codes::LDA <= self.instruction.operation <= op_codes::LDXN) {
            Some(ExecutionFault::UnknownOp)
        } else {
            pre.spec_operand_fault(self.instruction)
        }
    }

    /// The register holds the loaded word; an index register holds its sign
    /// and its last two bytes.
    open spec fn spec_effect(&self, pre: ComputerView) -> ComputerView {
        if self.spec_fault(pre) is Some {
            pre
        } else {
            pre.spec_with_register(self.spec_target(), self.spec_loaded(pre))
        }
    }

    open spec fn spec_increments(&self) -> bool {
        true
    }

    fn execute(&self, computer: &mut Computer) -> (r: Result<(), ExecutionFault>) {
        let operation = self.instruction.operation;
        if operation < op_codes::LDA || operation > op_codes::LDXN {
            return Err(ExecutionFault::UnknownOp);
        }
        let mut word = match computer.operand(&self.instruction) {
            Ok(word) => word,
            Err(f) => {
                return Err(f);
            },
        };
        if operation >= op_codes::LDAN {
            word = word.toggle_sign();
        }
        computer.set_register((operation - op_codes::LDA) % 8, word);
        Ok(())
    }

    fn should_increment_program_counter(&self) -> (r: bool) {
        true
    }
}

} // verus!
