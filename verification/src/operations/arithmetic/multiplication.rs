//! MUL.

use vstd::prelude::*;

use crate::computer::{Computer, ComputerView, ExecutionFault};
use crate::mix::instruction::Instruction;
use crate::mix::op_codes;
use crate::mix::word::{spec_sign_product, Sign, Word};
use crate::operations::Operation;

verus! {

/// The magnitude of a word with bytes below 64.
pub fn magnitude(word: &Word) -> (m: u64)
    requires
        word.wf(),
    ensures
        m == word.magnitude(),
        m < 1073741824,
{
    let value = word.value();
    if value < 0 {
        (-value) as u64
    } else {
        value as u64
    }
}

/// MUL: A and X together hold the product of A and the operand.
pub struct Multiplication {
    pub instruction: Instruction,
}

impl Multiplication {
    /// The operation of `instruction`.
    pub fn new(instruction: &Instruction) -> (op: Multiplication)
        ensures
            op.instruction == *instruction,
    {
        Multiplication { instruction: *instruction }
    }

    /// The magnitude of the product: ten bytes.
    pub open spec fn spec_product(&self, pre: ComputerView) -> nat {
        pre.accumulator.magnitude() * pre.spec_operand(self.instruction).magnitude()
    }

    /// The sign of the product.
    pub open spec fn spec_sign(&self, pre: ComputerView) -> Sign {
        spec_sign_product(pre.accumulator.sign, pre.spec_operand(self.instruction).sign)
    }
}

impl Operation for Multiplication {
    open spec fn spec_fault(&self, pre: ComputerView) -> Option<ExecutionFault> {
        if self.instruction.operation != op_codes::MUL {
            Some(ExecutionFault::UnknownOp)
        } else {
            pre.spec_operand_fault(self.instruction)
        }
    }

    /// A holds the upper five bytes of the product and X the lower five,
    /// both under the product's sign.
    open spec fn spec_effect(&self, pre: ComputerView) -> ComputerView {
        if self.spec_fault(pre) is Some {
            pre
        } else {
            ComputerView {
                accumulator: Word::spec_new(self.spec_sign(pre), self.spec_product(pre) / 1073741824),
                extension: Word::spec_new(self.spec_sign(pre), self.spec_product(pre) % 1073741824),
                ..pre
            }
        }
    }

    open spec fn spec_increments(&self) -> bool {
        true
    }

    fn execute(&self, computer: &mut Computer) -> (r: Result<(), ExecutionFault>) {
        if self.instruction.operation != op_codes::MUL {
            return Err(ExecutionFault::UnknownOp);
        }
        let word = match computer.operand(&self.instruction) {
            Ok(word) => word,
            Err(f) => {
                return Err(f);
            },
        };
        let sign = word.sign.product(computer.accumulator.sign);
        let a = magnitude(&computer.accumulator);
        let v = magnitude(&word);
        assert(a * v < 1073741824 * 1073741824) by (nonlinear_arith)
            requires
                a < 1073741824,
                v < 1073741824,
        ;
        let product: u64 = a * v;
        let upper: u64 = product / 1073741824;
        let lower: u64 = product % 1073741824;
        assert(upper < 1073741824);
        computer.accumulator = Word::from_magnitude(sign, upper as u32);
        computer.extension = Word::from_magnitude(sign, lower as u32);
        Ok(())
    }

    fn should_increment_program_counter(&self) -> (r: bool) {
        true
    }
}

} // verus!
