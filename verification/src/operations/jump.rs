//! The jumps: JMP, JSJ and the jumps on the overflow bit and the comparison
//! indicator; the jumps on the sign of a register; the jumps on the state
//! of a device.

use vstd::prelude::*;

use super::Operation;
use crate::computer::{Computer, ComputerView, ExecutionFault};
use crate::io::io_device::DeviceError;
use crate::mix::field::Comparison;
use crate::mix::instruction::Instruction;
use crate::mix::op_codes;

verus! {

/// Why a jump cannot be carried out, if it cannot: an index specification
/// above 6, a program counter outside memory or, for a jump that is taken,
/// a negative target. A target behind the end of memory is no fault: the
/// machine stops there.
pub open spec fn spec_jump_fault(pre: ComputerView, instruction: Instruction, taken: bool)
    -> Option<ExecutionFault> {
    if instruction.index_specification > 6 {
        Some(ExecutionFault::IndexSpec)
    } else if pre.program_counter >= 4000 {
        Some(ExecutionFault::MemoryAddress)
    } else if taken && pre.spec_indexed_address(instruction) < 0 {
        Some(ExecutionFault::MemoryAddress)
    } else {
        None
    }
}

/// The state after a jump on a condition: at the target, with the address of
/// the next instruction in J, where the condition holds; at the next
/// instruction where it does not.
pub open spec fn spec_conditional_jump(pre: ComputerView, instruction: Instruction, taken: bool)
    -> ComputerView {
    if taken {
        pre.spec_jump(pre.spec_indexed_address(instruction))
    } else {
        pre.spec_advance()
    }
}

/// Whether the jump with this modification is taken in this state.
pub open spec fn spec_jump_taken(pre: ComputerView, modification: u8) -> bool {
    if modification == 0 || modification == 1 {
        true
    } else if modification == 2 {
        pre.overflow
    } else if modification == 3 {
        !pre.overflow
    } else if modification == 4 {
        pre.comparison == Comparison::Less
    } else if modification == 5 {
        pre.comparison == Comparison::Equal
    } else if modification == 6 {
        pre.comparison == Comparison::Greater
    } else if modification == 7 {
        pre.comparison != Comparison::Less
    } else if modification == 8 {
        pre.comparison != Comparison::Equal
    } else {
        pre.comparison != Comparison::Greater
    }
}

/// Whether a value passes the test with this modification: negative, zero,
/// positive, not negative, not zero, not positive.
pub open spec fn spec_sign_test(value: int, modification: u8) -> bool {
    if modification == 0 {
        value < 0
    } else if modification == 1 {
        value == 0
    } else if modification == 2 {
        value > 0
    } else if modification == 3 {
        value >= 0
    } else if modification == 4 {
        value != 0
    } else {
        value <= 0
    }
}

/// The target of a jump, or why the jump cannot be carried out.
fn jump_target(computer: &Computer, instruction: &Instruction, taken: bool) -> (r: Result<
    usize,
    ExecutionFault,
>)
    requires
        computer.wf(),
    ensures
        r is Ok <==> spec_jump_fault(computer@, *instruction, taken) is None,
        r matches Err(f) ==> spec_jump_fault(computer@, *instruction, taken) == Some(f),
        r matches Ok(target) ==> computer.program_counter < 4000 && (taken ==> target
            == computer@.spec_indexed_address(*instruction)),
{
    if instruction.index_specification > 6 {
        return Err(ExecutionFault::IndexSpec);
    }
    if computer.program_counter >= 4000 {
        return Err(ExecutionFault::MemoryAddress);
    }
    let address = computer.get_indexed_address_value(instruction);
    if taken && address < 0 {
        return Err(ExecutionFault::MemoryAddress);
    }
    if taken {
        Ok(address as usize)
    } else {
        Ok(0)
    }
}

/// Jumps to `address`; J is left as it was.
pub fn jump_save_j(address: usize, computer: &mut Computer)
    ensures
        final(computer)@ == (ComputerView { program_counter: address as int, ..old(computer)@ }),
{
    computer.program_counter = address;
}

/// Jumps to `address`, leaving the address of the next instruction in J,
/// where `condition` holds; goes on to the next instruction where it does
/// not.
pub fn conditional_jump(address: usize, computer: &mut Computer, condition: bool)
    requires
        old(computer).wf(),
        old(computer).program_counter < 4000,
    ensures
        final(computer).wf(),
        final(computer)@ == (if condition {
            old(computer)@.spec_jump(address as int)
        } else {
            old(computer)@.spec_advance()
        }),
{
    if condition {
        computer.jump(address);
    } else {
        computer.program_counter += 1;
    }
}

/// JMP, JSJ, JOV, JNOV, JL, JE, JG, JGE, JNE, JLE, by the modification of
/// the instruction.
pub struct Jump {
    pub instruction: Instruction,
}

impl Jump {
    /// The operation of `instruction`.
    pub fn new(instruction: &Instruction) -> (op: Jump)
        ensures
            op.instruction == *instruction,
    {
        Jump { instruction: *instruction }
    }
}

impl Operation for Jump {
    open spec fn spec_fault(&self, pre: ComputerView) -> Option<ExecutionFault> {
        if self.instruction.operation != op_codes::JMP || self.instruction.modification > 9 {
            Some(ExecutionFault::UnknownOp)
        } else {
            spec_jump_fault(pre, self.instruction, spec_jump_taken(pre, self.instruction.modification))
        }
    }

    /// JSJ jumps and leaves J alone. Every other jump that is taken leaves
    /// the address of the next instruction in J. JOV and JNOV clear the
    /// overflow bit, taken or not.
    open spec fn spec_effect(&self, pre: ComputerView) -> ComputerView {
        if self.spec_fault(pre) is Some {
            pre
        } else if self.instruction.modification == 1 {
            ComputerView { program_counter: pre.spec_indexed_address(self.instruction), ..pre }
        } else {
            let after = spec_conditional_jump(
                pre,
                self.instruction,
                spec_jump_taken(pre, self.instruction.modification),
            );
            if self.instruction.modification == 2 || self.instruction.modification == 3 {
                ComputerView { overflow: false, ..after }
            } else {
                after
            }
        }
    }

    open spec fn spec_increments(&self) -> bool {
        false
    }

    fn execute(&self, computer: &mut Computer) -> (r: Result<(), ExecutionFault>) {
        let modification = self.instruction.modification;
        if self.instruction.operation != op_codes::JMP || modification > 9 {
            return Err(ExecutionFault::UnknownOp);
        }
        let taken = match modification {
            0 | 1 => true,
            2 => computer.overflow,
            3 => !computer.overflow,
            4 => computer.comparison == Comparison::Less,
            5 => computer.comparison == Comparison::Equal,
            6 => computer.comparison == Comparison::Greater,
            7 => computer.comparison != Comparison::Less,
            8 => computer.comparison != Comparison::Equal,
            _ => computer.comparison != Comparison::Greater,
        };
        let address = match jump_target(computer, &self.instruction, taken) {
            Ok(address) => address,
            Err(f) => {
                return Err(f);
            },
        };
        if modification == 1 {
            jump_save_j(address, computer);
        } else {
            conditional_jump(address, computer, taken);
            if modification == 2 || modification == 3 {
                computer.overflow = false;
            }
        }
        Ok(())
    }

    fn should_increment_program_counter(&self) -> (r: bool) {
        false
    }
}

/// The jumps on A, on an index register and on X: JAN, JAZ, JAP, JANN, JANZ,
/// JANP and their like.
pub struct RegisterJump {
    pub instruction: Instruction,
}

impl RegisterJump {
    /// The operation of `instruction`.
    pub fn new(instruction: &Instruction) -> (op: RegisterJump)
        ensures
            op.instruction == *instruction,
    {
        RegisterJump { instruction: *instruction }
    }

    /// Whether the jump is taken: whether the value of the register passes
    /// the test that the modification names.
    pub open spec fn spec_taken(&self, pre: ComputerView) -> bool {
        spec_sign_test(
            pre.spec_register(self.instruction.operation - op_codes::JAN).spec_value(),
            self.instruction.modification,
        )
    }
}

impl Operation for RegisterJump {
    open spec fn spec_fault(&self, pre: ComputerView) -> Option<ExecutionFault> {
        if !(op_codes::JAN <= self.instruction.operation <= op_codes::JXN)
            || self.instruction.modification > 5 {
            Some(ExecutionFault::UnknownOp)
        } else {
            spec_jump_fault(pre, self.instruction, self.spec_taken(pre))
        }
    }

    open spec fn spec_effect(&self, pre: ComputerView) -> ComputerView {
        if self.spec_fault(pre) is Some {
            pre
        } else {
            spec_conditional_jump(pre, self.instruction, self.spec_taken(pre))
        }
    }

    open spec fn spec_increments(&self) -> bool {
        false
    }

    fn execute(&self, computer: &mut Computer) -> (r: Result<(), ExecutionFault>) {
        let operation = self.instruction.operation;
        let modification = self.instruction.modification;
        if operation < op_codes::JAN || operation > op_codes::JXN || modification > 5 {
            return Err(ExecutionFault::UnknownOp);
        }
        let value = computer.register(operation - op_codes::JAN).value();
        let taken = match modification {
            0 => value < 0,
            1 => value == 0,
            2 => value > 0,
            3 => value >= 0,
            4 => value != 0,
            _ => value <= 0,
        };
        let address = match jump_target(computer, &self.instruction, taken) {
            Ok(address) => address,
            Err(f) => {
                return Err(f);
            },
        };
        conditional_jump(address, computer, taken);
        Ok(())
    }

    fn should_increment_program_counter(&self) -> (r: bool) {
        false
    }
}

/// JBUS and JRED: the jumps on whether the device that the modification
/// names is busy, or ready.
pub struct IoJump {
    pub instruction: Instruction,
}

impl IoJump {
    /// The operation of `instruction`.
    pub fn new(instruction: &Instruction) -> (op: IoJump)
        ensures
            op.instruction == *instruction,
    {
        IoJump { instruction: *instruction }
    }

    /// Whether the jump is taken: JBUS where the device is busy, JRED where
    /// it is not.
    pub open spec fn spec_taken(&self, pre: ComputerView) -> bool {
        if self.instruction.operation == op_codes::JBUS {
            pre.io_devices[self.instruction.modification as int].busy
        } else {
            !pre.io_devices[self.instruction.modification as int].busy
        }
    }
}

impl Operation for IoJump {
    open spec fn spec_fault(&self, pre: ComputerView) -> Option<ExecutionFault> {
        if self.instruction.operation != op_codes::JBUS && self.instruction.operation
            != op_codes::JRED {
            Some(ExecutionFault::UnknownOp)
        } else if self.instruction.modification >= 19 {
            Some(ExecutionFault::Device(DeviceError::NoSuchDevice))
        } else {
            spec_jump_fault(pre, self.instruction, self.spec_taken(pre))
        }
    }

    open spec fn spec_effect(&self, pre: ComputerView) -> ComputerView {
        if self.spec_fault(pre) is Some {
            pre
        } else {
            spec_conditional_jump(pre, self.instruction, self.spec_taken(pre))
        }
    }

    open spec fn spec_increments(&self) -> bool {
        false
    }

    fn execute(&self, computer: &mut Computer) -> (r: Result<(), ExecutionFault>) {
        let operation = self.instruction.operation;
        if operation != op_codes::JBUS && operation != op_codes::JRED {
            return Err(ExecutionFault::UnknownOp);
        }
        let slot = self.instruction.modification as usize;
        if slot >= 19 {
            return Err(ExecutionFault::Device(DeviceError::NoSuchDevice));
        }
        assert(computer@.io_devices[slot as int] == computer.io_devices@[slot as int]@);
        let busy = computer.io_devices[slot].busy();
        let taken = if operation == op_codes::JBUS {
            busy
        } else {
            !busy
        };
        let address = match jump_target(computer, &self.instruction, taken) {
            Ok(address) => address,
            Err(f) => {
                return Err(f);
            },
        };
        conditional_jump(address, computer, taken);
        Ok(())
    }

    fn should_increment_program_counter(&self) -> (r: bool) {
        false
    }
}

} // verus!
