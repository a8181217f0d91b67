//! Laws of the operations: the sign of a zero.

use vstd::prelude::*;

use super::address_transfer::enter::Enter;
use super::arithmetic::{spec_sum_word, Addition};
use super::{Decoded, Operation};
use crate::computer::ComputerView;
use crate::mix::laws::lemma_new_word;
use crate::mix::op_codes;
use crate::mix::word::{Sign, Word};

verus! {

/// A sum of zero leaves a register with the sign that it had, over zero
/// bytes.
pub proof fn lemma_zero_sum_keeps_sign(prior: Word)
    ensures
        spec_sum_word(prior, 0).sign == prior.sign,
        spec_sum_word(prior, 0).magnitude() == 0,
{
    lemma_new_word(prior.sign, 0);
}

/// After an ADD or a SUB whose sum is zero, A is a zero with the sign that A
/// had before, and the overflow bit is as it was.
pub proof fn lemma_add_to_zero_keeps_sign(op: Addition, pre: ComputerView)
    requires
        pre.wf(),
        op.spec_fault(pre) is None,
        op.spec_sum(pre) == 0,
    ensures
        op.spec_effect(pre).accumulator.sign == pre.accumulator.sign,
        op.spec_effect(pre).accumulator.magnitude() == 0,
        op.spec_effect(pre).overflow == pre.overflow,
{
    lemma_zero_sum_keeps_sign(pre.accumulator);
}

/// ENT with the address -0 and no index leaves a negative zero in the
/// register, whichever register it is.
pub proof fn lemma_enter_negative_zero(op: Enter, pre: ComputerView)
    requires
        pre.wf(),
        op.spec_fault(pre) is None,
        op.instruction.modification == 2,
        op.instruction.index_specification == 0,
        op.instruction.address.sign == Sign::Negative,
        op.instruction.address.magnitude() == 0,
    ensures
        op.spec_effect(pre).spec_register(op.instruction.operation - op_codes::ENTA).sign
            == Sign::Negative,
        op.spec_effect(pre).spec_register(op.instruction.operation - op_codes::ENTA).magnitude()
            == 0,
{
    lemma_new_word(Sign::Negative, 0);
    let r = op.instruction.operation - op_codes::ENTA;
    let word = op.spec_word(pre);
    assert(word == Word::spec_new(Sign::Negative, 0));
    if 1 <= r <= 6 {
        assert(op.spec_effect(pre).indexes[r - 1] == word.spec_cast_to_address());
    }
}

/// A jump that is taken leaves the address of the next instruction in J,
/// which is not negative.
pub proof fn lemma_jump_leaves_positive_j(pre: ComputerView, target: int)
    requires
        0 <= pre.program_counter,
    ensures
        pre.spec_jump(target).jump_address.sign == Sign::Positive,
{
}

/// Whatever the operation, J is not negative after it where it was not
/// negative before it: an operation either leaves J alone or puts the
/// address of the next instruction there.
pub proof fn lemma_j_stays_positive(op: Decoded, pre: ComputerView)
    requires
        0 <= pre.program_counter,
        pre.jump_address.sign == Sign::Positive,
    ensures
        op.spec_effect(pre).jump_address.sign == Sign::Positive,
{
    match op {
        Decoded::Jump(jump) => {
            lemma_jump_leaves_positive_j(pre, pre.spec_indexed_address(jump.instruction));
        },
        Decoded::RegisterJump(jump) => {
            lemma_jump_leaves_positive_j(pre, pre.spec_indexed_address(jump.instruction));
        },
        Decoded::IoJump(jump) => {
            lemma_jump_leaves_positive_j(pre, pre.spec_indexed_address(jump.instruction));
        },
        Decoded::NoOp(o) => {},
        Decoded::ConvertToNumeric(o) => {},
        Decoded::ConvertToCharacters(o) => {},
        Decoded::Halt(o) => {},
        Decoded::Shift(o) => {},
        Decoded::Move(o) => {},
        Decoded::Addition(o) => {},
        Decoded::Multiplication(o) => {},
        Decoded::Division(o) => {},
        Decoded::Load(o) => {},
        Decoded::Store(o) => {},
        Decoded::Io(o) => {},
        Decoded::Increase(o) => {},
        Decoded::Enter(o) => {},
        Decoded::Compare(o) => {},
    }
}

} // verus!
