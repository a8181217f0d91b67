//! SLA, SRA, SLAX, SRAX, SLC, SRC: shifts of A, and of A and X as one
//! register of ten bytes.

use vstd::prelude::*;

use super::Operation;
use crate::computer::{Computer, ComputerView, ExecutionFault};
use crate::mix::instruction::Instruction;
use crate::mix::word::Word;

verus! {

/// `bytes` moved `m` places to the left, zeros coming in; to the right for a
/// negative `m`.
pub open spec fn spec_shift(bytes: Seq<u8>, m: int) -> Seq<u8> {
    Seq::new(
        bytes.len(),
        |i: int|
            if 0 <= i + m < bytes.len() {
                bytes[i + m]
            } else {
                0u8
            },
    )
}

/// `bytes` turned `m` places to the left, what leaves at one end coming in
/// at the other; to the right for a negative `m`.
pub open spec fn spec_shift_circle(bytes: Seq<u8>, m: int) -> Seq<u8> {
    Seq::new(bytes.len(), |i: int| bytes[(i + m) % (bytes.len() as int)])
}

/// The bytes of A followed by those of X.
pub open spec fn spec_join(a: Word, x: Word) -> Seq<u8> {
    a.bytes@ + x.bytes@
}

/// The word with the sign of `word` and five bytes of `bytes`, from `from`
/// on.
pub open spec fn spec_with_bytes(word: Word, bytes: Seq<u8>, from: int) -> Word {
    Word {
        sign: word.sign,
        bytes: [bytes[from], bytes[from + 1], bytes[from + 2], bytes[from + 3], bytes[from + 4]],
    }
}

/// SLA and the other shifts, by the modification of the instruction.
pub struct Shift {
    pub instruction: Instruction,
}

impl Shift {
    /// The operation of `instruction`.
    pub fn new(instruction: &Instruction) -> (op: Shift)
        ensures
            op.instruction == *instruction,
    {
        Shift { instruction: *instruction }
    }

    /// The number of places to shift to the left: the address of the
    /// instruction, negated for the shifts to the right.
    pub open spec fn spec_amount(&self, pre: ComputerView) -> int {
        if self.instruction.modification % 2 == 1 {
            -pre.spec_indexed_address(self.instruction)
        } else {
            pre.spec_indexed_address(self.instruction)
        }
    }
}

/// Five bytes moved `m` places to the left, zeros coming in.
pub fn shift(bytes: [u8; 5], m: isize) -> (shifted: [u8; 5])
    ensures
        shifted@ == spec_shift(bytes@, m as int),
{
    let mut new_bytes: [u8; 5] = [0, 0, 0, 0, 0];
    let mut i: usize = 0;
    while i < 5
        invariant
            i <= 5,
            forall|k: int| 0 <= k < i ==> new_bytes[k] == spec_shift(bytes@, m as int)[k],
        decreases 5 - i,
    {
        let j: i128 = (i as i128) + (m as i128);
        if j < 0 || j >= 5 {
            new_bytes[i] = 0;
        } else {
            new_bytes[i] = bytes[j as usize];
        }
        i += 1;
    }
    assert(new_bytes@ =~= spec_shift(bytes@, m as int));
    new_bytes
}

/// Ten bytes moved `m` places to the left, zeros coming in.
pub fn shift_all(bytes: [u8; 10], m: isize) -> (shifted: [u8; 10])
    ensures
        shifted@ == spec_shift(bytes@, m as int),
{
    let mut new_bytes: [u8; 10] = [0, 0, 0, 0, 0, 0, 0, 0, 0, 0];
    let mut i: usize = 0;
    while i < 10
        invariant
            i <= 10,
            forall|k: int| 0 <= k < i ==> new_bytes[k] == spec_shift(bytes@, m as int)[k],
        decreases 10 - i,
    {
        let j: i128 = (i as i128) + (m as i128);
        if j < 0 || j >= 10 {
            new_bytes[i] = 0;
        } else {
            new_bytes[i] = bytes[j as usize];
        }
        i += 1;
    }
    assert(new_bytes@ =~= spec_shift(bytes@, m as int));
    new_bytes
}

/// Ten bytes turned `m` places to the left.
pub fn shift_circle(bytes: [u8; 10], m: isize) -> (shifted: [u8; 10])
    ensures
        shifted@ == spec_shift_circle(bytes@, m as int),
{
    let turn: usize = if m >= 0 {
        (m as usize) % 10
    } else {
        ((10 - (-(m as i128)) % 10) % 10) as usize
    };
    assert(turn == (m as int) % 10);
    let mut new_bytes: [u8; 10] = [0, 0, 0, 0, 0, 0, 0, 0, 0, 0];
    let mut i: usize = 0;
    while i < 10
        invariant
            i <= 10,
            turn == (m as int) % 10,
            forall|k: int| 0 <= k < i ==> new_bytes[k] == spec_shift_circle(bytes@, m as int)[k],
        decreases 10 - i,
    {
        let j: usize = (i + turn) % 10;
        assert(j == (i + m) % 10);
        new_bytes[i] = bytes[j];
        i += 1;
    }
    assert(new_bytes@ =~= spec_shift_circle(bytes@, m as int));
    new_bytes
}

/// The bytes of A followed by those of X.
pub fn join(a: &Word, x: &Word) -> (bytes: [u8; 10])
    ensures
        bytes@ == spec_join(*a, *x),
{
    let bytes = [
        a.bytes[0],
        a.bytes[1],
        a.bytes[2],
        a.bytes[3],
        a.bytes[4],
        x.bytes[0],
        x.bytes[1],
        x.bytes[2],
        x.bytes[3],
        x.bytes[4],
    ];
    assert(bytes@ =~= spec_join(*a, *x));
    bytes
}

/// The word with the sign of `word` and five of the ten bytes, from `from`
/// on.
pub fn with_bytes(word: &Word, bytes: &[u8; 10], from: usize) -> (w: Word)
    requires
        from <= 5,
    ensures
        w == spec_with_bytes(*word, bytes@, from as int),
{
    let w = Word {
        sign: word.sign,
        bytes: [bytes[from], bytes[from + 1], bytes[from + 2], bytes[from + 3], bytes[from + 4]],
    };
    assert(w.bytes =~= spec_with_bytes(*word, bytes@, from as int).bytes);
    w
}

impl Operation for Shift {
    /// A shift needs a modification from 0 to 5 and an index specification
    /// of at most 6.
    open spec fn spec_fault(&self, pre: ComputerView) -> Option<ExecutionFault> {
        if self.instruction.modification > 5 {
            Some(ExecutionFault::UnknownOp)
        } else {
            pre.spec_index_fault(self.instruction)
        }
    }

    /// Modifications 0 and 1 shift A; 2 and 3 shift A and X as ten bytes; 4
    /// and 5 turn A and X as ten bytes. The signs stay.
    open spec fn spec_effect(&self, pre: ComputerView) -> ComputerView {
        if self.spec_fault(pre) is Some {
            pre
        } else {
            let m = self.spec_amount(pre);
            if self.instruction.modification <= 1 {
                let shifted = spec_shift(pre.accumulator.bytes@, m);
                ComputerView { accumulator: spec_with_bytes(pre.accumulator, shifted, 0), ..pre }
            } else {
                let joined = spec_join(pre.accumulator, pre.extension);
                let shifted = if self.instruction.modification <= 3 {
                    spec_shift(joined, m)
                } else {
                    spec_shift_circle(joined, m)
                };
                ComputerView {
                    accumulator: spec_with_bytes(pre.accumulator, shifted, 0),
                    extension: spec_with_bytes(pre.extension, shifted, 5),
                    ..pre
                }
            }
        }
    }

    open spec fn spec_increments(&self) -> bool {
        true
    }

    fn execute(&self, computer: &mut Computer) -> (r: Result<(), ExecutionFault>) {
        if self.instruction.modification > 5 {
            return Err(ExecutionFault::UnknownOp);
        }
        if self.instruction.index_specification > 6 {
            return Err(ExecutionFault::IndexSpec);
        }
        let mut m = computer.get_indexed_address_value(&self.instruction);
        if self.instruction.modification % 2 == 1 {
            m = -m;
        }
        if self.instruction.modification <= 1 {
            let new_bytes = shift(computer.accumulator.bytes, m);
            let shifted = Word { sign: computer.accumulator.sign, bytes: new_bytes };
            assert(shifted.bytes =~= spec_with_bytes(computer.accumulator, new_bytes@, 0).bytes);
            computer.accumulator = shifted;
        } else {
            let bytes = join(&computer.accumulator, &computer.extension);
            let new_bytes = if self.instruction.modification <= 3 {
                shift_all(bytes, m)
            } else {
                shift_circle(bytes, m)
            };
            let a = with_bytes(&computer.accumulator, &new_bytes, 0);
            let x = with_bytes(&computer.extension, &new_bytes, 5);
            computer.accumulator = a;
            computer.extension = x;
        }
        Ok(())
    }

    fn should_increment_program_counter(&self) -> (r: bool) {
        true
    }
}

} // verus!
