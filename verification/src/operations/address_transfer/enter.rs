//! ENTA, ENTX, ENT1 to ENT6 and their negating forms.

use vstd::prelude::*;

use crate::computer::{Computer, ComputerView, ExecutionFault};
use crate::mix::instruction::Instruction;
use crate::mix::op_codes;
use crate::mix::word::{Sign, Word};
use crate::operations::Operation;

verus! {

/// The word that stands for an address as it is entered: its value, and for
/// the value zero the sign that the instruction gave the address.
pub open spec fn spec_entered(value: int, sign: Sign) -> Word {
    if value == 0 {
        Word::spec_new(sign, 0)
    } else {
        Word::spec_from_value(value)
    }
}

/// The enter operations: the address itself goes to a register.
pub struct Enter {
    pub instruction: Instruction,
}

impl Enter {
    /// The operation of `instruction`.
    pub fn new(instruction: &Instruction) -> (op: Enter)
        ensures
            op.instruction == *instruction,
    {
        Enter { instruction: *instruction }
    }

    /// The word that goes to the register: the address as entered, under
    /// the other sign for the negating forms.
    pub open spec fn spec_word(&self, pre: ComputerView) -> Word {
        let entered = spec_entered(
            pre.spec_indexed_address(self.instruction),
            self.instruction.address.sign,
        );
        if self.instruction.modification == 3 {
            entered.spec_toggle_sign()
        } else {
            entered
        }
    }
}

impl Operation for Enter {
    open spec fn spec_fault(&self, pre: ComputerView) -> Option<ExecutionFault> {
        if !(op_codes::ENTA <= self.instruction.operation <= op_codes::ENTX) || (
        self.instruction.modification != 2 && self.instruction.modification != 3) {
            Some(ExecutionFault::UnknownOp)
        } else {
            pre.spec_index_fault(self.instruction)
        }
    }

    /// The register holds the word; an index register holds its sign and
    /// its last two bytes.
    open spec fn spec_effect(&self, pre: ComputerView) -> ComputerView {
        if self.spec_fault(pre) is Some {
            pre
        } else {
            pre.spec_with_register(self.instruction.operation - op_codes::ENTA, self.spec_word(pre))
        }
    }

    open spec fn spec_increments(&self) -> bool {
        true
    }

    fn execute(&self, computer: &mut Computer) -> (r: Result<(), ExecutionFault>) {
        let operation = self.instruction.operation;
        let modification = self.instruction.modification;
        if operation < op_codes::ENTA || operation > op_codes::ENTX || (modification != 2
            && modification != 3) {
            return Err(ExecutionFault::UnknownOp);
        }
        if self.instruction.index_specification > 6 {
            return Err(ExecutionFault::IndexSpec);
        }
        let value = computer.get_indexed_address_value(&self.instruction);
        let mut word = if value == 0 {
            Word::from_magnitude(self.instruction.address.sign, 0)
        } else {
            Word::from_value(value)
        };
        if modification == 3 {
            word = word.toggle_sign();
        }
        computer.set_register(operation - op_codes::ENTA, word);
        Ok(())
    }

    fn should_increment_program_counter(&self) -> (r: bool) {
        true
    }
}

} // verus!
