//! NOP and HLT.

use vstd::prelude::*;

use super::Operation;
use crate::computer::{Computer, ComputerView, ExecutionFault};
use crate::mix::instruction::Instruction;

verus! {

/// NOP: nothing happens.
pub struct NoOp {}

impl NoOp {
    /// The operation; it takes nothing from its instruction.
    pub fn new() -> NoOp {
        NoOp {  }
    }
}

impl Operation for NoOp {
    open spec fn spec_fault(&self, pre: ComputerView) -> Option<ExecutionFault> {
        None
    }

    open spec fn spec_effect(&self, pre: ComputerView) -> ComputerView {
        pre
    }

    open spec fn spec_increments(&self) -> bool {
        true
    }

    fn execute(&self, computer: &mut Computer) -> (r: Result<(), ExecutionFault>) {
        Ok(())
    }

    fn should_increment_program_counter(&self) -> (r: bool) {
        true
    }
}

/// HLT: the machine stops. The program counter stays where it is.
pub struct Halt {
    pub instruction: Instruction,
}

impl Halt {
    /// The operation of `instruction`.
    pub fn new(instruction: &Instruction) -> (op: Halt)
        ensures
            op.instruction == *instruction,
    {
        Halt { instruction: *instruction }
    }
}

impl Operation for Halt {
    /// An address other than zero is a fault.
    open spec fn spec_fault(&self, pre: ComputerView) -> Option<ExecutionFault> {
        if self.instruction.address.magnitude() != 0 {
            Some(ExecutionFault::HaltCode)
        } else {
            None
        }
    }

    open spec fn spec_effect(&self, pre: ComputerView) -> ComputerView {
        if self.spec_fault(pre) is Some {
            pre
        } else {
            ComputerView { running: false, ..pre }
        }
    }

    open spec fn spec_increments(&self) -> bool {
        false
    }

    fn execute(&self, computer: &mut Computer) -> (r: Result<(), ExecutionFault>) {
        if self.instruction.address.bytes[0] != 0 || self.instruction.address.bytes[1] != 0 {
            return Err(ExecutionFault::HaltCode);
        }
        computer.running = false;
        Ok(())
    }

    fn should_increment_program_counter(&self) -> (r: bool) {
        false
    }
}

} // verus!
