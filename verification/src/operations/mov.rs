//! MOVE.

use vstd::prelude::*;

use super::Operation;
use crate::computer::{Computer, ComputerView, ExecutionFault};
use crate::io::transfer::spec_words_wf;
use crate::mix::address::Address;
use crate::mix::instruction::Instruction;
use crate::mix::op_codes;

verus! {

/// Memory after `count` words were copied one by one, lowest address first,
/// from `source` on to `target` on. Where the two ranges overlap, a word
/// that was already written is read as written.
pub open spec fn spec_move_words(memory: Seq<crate::mix::word::Word>, source: int, target: int, count: nat)
    -> Seq<crate::mix::word::Word>
    decreases count,
{
    if count == 0 {
        memory
    } else {
        spec_move_words(
            memory.update(target, memory[source]),
            source + 1,
            target + 1,
            (count - 1) as nat,
        )
    }
}

/// MOVE: as many words as the modification says go from the instruction's
/// address to the address in the first index register, which moves on by
/// that number.
pub struct Move {
    pub instruction: Instruction,
}

impl Move {
    /// The operation of `instruction`.
    pub fn new(instruction: &Instruction) -> (op: Move)
        ensures
            op.instruction == *instruction,
    {
        Move { instruction: *instruction }
    }

    /// Whether both ranges lie inside memory.
    pub open spec fn spec_in_memory(&self, pre: ComputerView) -> bool {
        let count = self.instruction.modification as int;
        let source = pre.spec_indexed_address(self.instruction);
        let target = pre.indexes[0].spec_value();
        0 <= source && source + count <= 4000 && 0 <= target && target + count <= 4000
    }
}

impl Operation for Move {
    /// Moving no words is always possible; moving some needs both ranges
    /// inside memory.
    open spec fn spec_fault(&self, pre: ComputerView) -> Option<ExecutionFault> {
        if self.instruction.operation != op_codes::MOVE {
            Some(ExecutionFault::UnknownOp)
        } else if self.instruction.index_specification > 6 {
            Some(ExecutionFault::IndexSpec)
        } else if self.instruction.modification > 0 && !self.spec_in_memory(pre) {
            Some(ExecutionFault::MemoryAddress)
        } else {
            None
        }
    }

    open spec fn spec_effect(&self, pre: ComputerView) -> ComputerView {
        if self.spec_fault(pre) is Some {
            pre
        } else {
            let count = self.instruction.modification as nat;
            let source = pre.spec_indexed_address(self.instruction);
            let target = pre.indexes[0].spec_value();
            ComputerView {
                memory: spec_move_words(pre.memory, source, target, count),
                indexes: pre.indexes.update(0, Address::spec_from_value(target + count)),
                ..pre
            }
        }
    }

    open spec fn spec_increments(&self) -> bool {
        true
    }

    fn execute(&self, computer: &mut Computer) -> (r: Result<(), ExecutionFault>) {
        if self.instruction.operation != op_codes::MOVE {
            return Err(ExecutionFault::UnknownOp);
        }
        if self.instruction.index_specification > 6 {
            return Err(ExecutionFault::IndexSpec);
        }
        let source = computer.get_indexed_address_value(&self.instruction);
        assert(computer@.indexes[0].wf());
        let target = computer.indexes[0].value();
        let num = self.instruction.modification as isize;
        if num > 0 && (source < 0 || source + num > 4000 || target < 0 || target + num > 4000) {
            return Err(ExecutionFault::MemoryAddress);
        }
        let mut i: isize = 0;
        while i < num
            invariant
                0 <= i <= num,
                num == self.instruction.modification,
                num > 0 ==> 0 <= source && source + num <= 4000 && 0 <= target && target + num
                    <= 4000,
                computer.memory@.len() == 4000,
                spec_words_wf(computer.memory@),
                spec_move_words(computer.memory@, source + i, target + i, (num - i) as nat)
                    == spec_move_words(old(computer).memory@, source as int, target as int, num as nat),
                computer.running == old(computer).running,
                computer.program_counter == old(computer).program_counter,
                computer.accumulator == old(computer).accumulator,
                computer.extension == old(computer).extension,
                computer.indexes == old(computer).indexes,
                computer.jump_address == old(computer).jump_address,
                computer.overflow == old(computer).overflow,
                computer.comparison == old(computer).comparison,
                computer.io_devices == old(computer).io_devices,
            decreases num - i,
        {
            let word = computer.memory[(source + i) as usize];
            assert(computer.memory@[source + i].wf());
            computer.memory.set((target + i) as usize, word);
            i += 1;
        }
        computer.indexes[0] = Address::from_value(target + num);
        assert(computer@.indexes =~= old(computer)@.indexes.update(
            0,
            Address::spec_from_value(target + num),
        ));
        Ok(())
    }

    fn should_increment_program_counter(&self) -> (r: bool) {
        true
    }
}

} // verus!
