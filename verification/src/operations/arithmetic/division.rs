//! DIV.

use vstd::prelude::*;

use super::multiplication::magnitude;
use crate::computer::{Computer, ComputerView, ExecutionFault};
use crate::mix::instruction::Instruction;
use crate::mix::op_codes;
use crate::mix::word::{spec_sign_product, Sign, Word};
use crate::operations::Operation;

verus! {

/// DIV: A and X together, as one number of ten bytes under the sign of A,
/// are divided by the operand.
pub struct Division {
    pub instruction: Instruction,
}

impl Division {
    /// The operation of `instruction`.
    pub fn new(instruction: &Instruction) -> (op: Division)
        ensures
            op.instruction == *instruction,
    {
        Division { instruction: *instruction }
    }

    /// The magnitude of the dividend: the bytes of A followed by those of X.
    pub open spec fn spec_dividend(&self, pre: ComputerView) -> nat {
        pre.accumulator.magnitude() * 1073741824 + pre.extension.magnitude()
    }

    /// The magnitude of the divisor: that of the operand.
    pub open spec fn spec_divisor(&self, pre: ComputerView) -> nat {
        pre.spec_operand(self.instruction).magnitude()
    }

    /// Whether the quotient has no place in A: the divisor is zero, or no
    /// larger in magnitude than A.
    pub open spec fn spec_undefined(&self, pre: ComputerView) -> bool {
        pre.accumulator.magnitude() >= self.spec_divisor(pre)
    }
}

impl Operation for Division {
    open spec fn spec_fault(&self, pre: ComputerView) -> Option<ExecutionFault> {
        if self.instruction.operation != op_codes::DIV {
            Some(ExecutionFault::UnknownOp)
        } else {
            pre.spec_operand_fault(self.instruction)
        }
    }

    /// Where the quotient has no place in A, the overflow bit is set and A
    /// and X are positive zero. Otherwise A holds the quotient under the
    /// product of the signs of A and the operand, and X the remainder under
    /// the sign that A had.
    open spec fn spec_effect(&self, pre: ComputerView) -> ComputerView {
        if self.spec_fault(pre) is Some {
            pre
        } else if self.spec_undefined(pre) {
            ComputerView {
                accumulator: Word::spec_new(Sign::Positive, 0),
                extension: Word::spec_new(Sign::Positive, 0),
                overflow: true,
                ..pre
            }
        } else {
            ComputerView {
                accumulator: Word::spec_new(
                    spec_sign_product(
                        pre.accumulator.sign,
                        pre.spec_operand(self.instruction).sign,
                    ),
                    self.spec_dividend(pre) / self.spec_divisor(pre),
                ),
                extension: Word::spec_new(
                    pre.accumulator.sign,
                    self.spec_dividend(pre) % self.spec_divisor(pre),
                ),
                ..pre
            }
        }
    }

    open spec fn spec_increments(&self) -> bool {
        true
    }

    fn execute(&self, computer: &mut Computer) -> (r: Result<(), ExecutionFault>) {
        if self.instruction.operation != op_codes::DIV {
            return Err(ExecutionFault::UnknownOp);
        }
        let word = match computer.operand(&self.instruction) {
            Ok(word) => word,
            Err(f) => {
                return Err(f);
            },
        };
        let a = magnitude(&computer.accumulator);
        let v = magnitude(&word);
        if a >= v {
            computer.accumulator = Word::zero();
            computer.extension = Word::zero();
            computer.overflow = true;
            return Ok(());
        }
        let x = magnitude(&computer.extension);
        let dividend: u64 = a * 1073741824 + x;
        assert(dividend < v * 1073741824) by (nonlinear_arith)
            requires
                dividend == a * 1073741824 + x,
                x < 1073741824,
                a < v,
        ;
        let quotient: u64 = dividend / v;
        let remainder: u64 = dividend % v;
        assert(quotient < 1073741824) by (nonlinear_arith)
            requires
                quotient == dividend / v,
                dividend < v * 1073741824,
                v > 0,
        ;
        let sign = word.sign.product(computer.accumulator.sign);
        let prior_sign = computer.accumulator.sign;
        computer.accumulator = Word::from_magnitude(sign, quotient as u32);
        computer.extension = Word::from_magnitude(prior_sign, remainder as u32);
        Ok(())
    }

    fn should_increment_program_counter(&self) -> (r: bool) {
        true
    }
}

} // verus!
