//! STA, STX, ST1 to ST6, STJ and STZ.

use vstd::prelude::*;

use super::Operation;
use crate::computer::{Computer, ComputerView, ExecutionFault};
use crate::mix::field::{decode_field_spec, is_valid_field_spec, spec_field_left, spec_field_right};
use crate::mix::instruction::Instruction;
use crate::mix::op_codes;
use crate::mix::word::{Sign, Word};

verus! {

/// The word in memory after the field `(left:right)` of it took the
/// rightmost bytes of `source`: as many as the field has. Where the field
/// starts at 0, the sign is that of `source`, and the bytes start at 1.
pub open spec fn spec_store_field(target: Word, source: Word, left: int, right: int) -> Word {
    let first = if left == 0 {
        1
    } else {
        left
    };
    let b = Seq::new(
        5,
        |i: int|
            if first <= i + 1 <= right {
                source.bytes[4 - (right - (i + 1))]
            } else {
                target.bytes[i]
            },
    );
    Word {
        sign: if left == 0 {
            source.sign
        } else {
            target.sign
        },
        bytes: [b[0], b[1], b[2], b[3], b[4]],
    }
}

/// The last `count` bytes of a register.
pub fn get_bytes_to_store(register: &Word, count: usize) -> (bytes: Vec<u8>)
    requires
        count <= 5,
    ensures
        bytes@ == register.bytes@.subrange(5 - count, 5),
{
    let mut bytes: Vec<u8> = Vec::new();
    let offset: usize = 5 - count;
    let mut i: usize = 0;
    while i < count
        invariant
            i <= count <= 5,
            offset == 5 - count,
            bytes@ == register.bytes@.subrange(5 - count, 5 - count + i),
        decreases count - i,
    {
        bytes.push(register.bytes[offset + i]);
        assert(register.bytes@.subrange(5 - count, 5 - count + i).push(register.bytes@[offset + i])
            =~= register.bytes@.subrange(5 - count, 5 - count + i + 1));
        i += 1;
    }
    bytes
}

/// The store operations: a register goes to a field of a word of memory.
pub struct Store {
    pub instruction: Instruction,
}

impl Store {
    /// The operation of `instruction`.
    pub fn new(instruction: &Instruction) -> (op: Store)
        ensures
            op.instruction == *instruction,
    {
        Store { instruction: *instruction }
    }

    /// The word that is stored: A, an index register or X as a word; J as a
    /// word under a positive sign; or zero.
    pub open spec fn spec_source(&self, pre: ComputerView) -> Word {
        if self.instruction.operation == op_codes::STJ {
            pre.jump_address.spec_cast_to_word().spec_with_sign(Sign::Positive)
        } else if self.instruction.operation == op_codes::STZ {
            Word::spec_new(Sign::Positive, 0)
        } else {
            pre.spec_register(self.instruction.operation - op_codes::STA)
        }
    }
}

impl Operation for Store {
    open spec fn spec_fault(&self, pre: ComputerView) -> Option<ExecutionFault> {
        if !(op_codes::STA <= self.instruction.operation <= op_codes::STZ) {
            Some(ExecutionFault::UnknownOp)
        } else {
            pre.spec_operand_fault(self.instruction)
        }
    }

    /// The field of the word of memory holds the rightmost bytes of the
    /// register; the rest of the word and of memory stays.
    open spec fn spec_effect(&self, pre: ComputerView) -> ComputerView {
        if self.spec_fault(pre) is Some {
            pre
        } else {
            let at = pre.spec_indexed_address(self.instruction);
            ComputerView {
                memory: pre.memory.update(
                    at,
                    spec_store_field(
                        pre.memory[at],
                        self.spec_source(pre),
                        spec_field_left(self.instruction.modification),
                        spec_field_right(self.instruction.modification),
                    ),
                ),
                ..pre
            }
        }
    }

    open spec fn spec_increments(&self) -> bool {
        true
    }

    fn execute(&self, computer: &mut Computer) -> (r: Result<(), ExecutionFault>) {
        let operation = self.instruction.operation;
        if operation < op_codes::STA || operation > op_codes::STZ {
            return Err(ExecutionFault::UnknownOp);
        }
        if self.instruction.index_specification > 6 {
            return Err(ExecutionFault::IndexSpec);
        }
        if !is_valid_field_spec(self.instruction.modification) {
            return Err(ExecutionFault::FieldSpec);
        }
        let address = match computer.memory_address(&self.instruction) {
            Ok(address) => address,
            Err(f) => {
                return Err(f);
            },
        };
        let register = if operation == op_codes::STJ {
            computer.jump_address.cast_to_word().with_sign(Sign::Positive)
        } else if operation == op_codes::STZ {
            Word::zero()
        } else {
            computer.register(operation - op_codes::STA)
        };
        let (left, right) = decode_field_spec(self.instruction.modification);
        let mut first = left;
        let mut word = computer.memory[address];
        assert(computer@.memory[address as int].wf());
        if left == 0 {
            word.sign = register.sign;
            first = 1;
        }
        let num_bytes: usize = (right + 1 - first) as usize;
        let bytes = get_bytes_to_store(&register, num_bytes);
        let ghost target = spec_store_field(
            computer@.memory[address as int],
            register,
            left as int,
            right as int,
        );
        let mut i: usize = 0;
        while i < num_bytes
            invariant
                i <= num_bytes,
                1 <= first <= right + 1,
                right <= 5,
                num_bytes == right + 1 - first,
                first == (if left == 0 {
                    1
                } else {
                    left as int
                }),
                bytes@ == register.bytes@.subrange(5 - num_bytes, 5),
                target == spec_store_field(
                    computer@.memory[address as int],
                    register,
                    left as int,
                    right as int,
                ),
                word.sign == target.sign,
                forall|k: int| 0 <= k < first - 1 + i ==> word.bytes[k] == target.bytes[k],
                forall|k: int|
                    first - 1 + i <= k < 5 ==> word.bytes[k] == computer@.memory[address as int].bytes[k],
                register.wf(),
                computer@.memory[address as int].wf(),
                address < 4000,
                computer.wf(),
                *computer == *old(computer),
            decreases num_bytes - i,
        {
            let value = bytes[i];
            word.bytes[first as usize + i - 1] = value;
            i += 1;
        }
        assert(word.bytes =~= target.bytes);
        assert(word.wf());
        computer.memory.set(address, word);
        Ok(())
    }

    fn should_increment_program_counter(&self) -> (r: bool) {
        true
    }
}

} // verus!
