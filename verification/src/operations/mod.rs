//! The operations of the machine. Each is made from an instruction and
//! changes the state of a computer.

pub mod address_transfer;
pub mod arithmetic;
pub mod comparison;
pub mod conversion;
pub mod io;
pub mod jump;
pub mod laws;
pub mod loading;
pub mod misc;
pub mod mov;
pub mod shift;
pub mod storing;

use vstd::prelude::*;

use crate::computer::{Computer, ComputerView, ExecutionFault};

pub use address_transfer::{Enter, Increase};
pub use arithmetic::{Addition, Division, Multiplication};
pub use comparison::Compare;
pub use conversion::{ConvertToCharacters, ConvertToNumeric};
pub use io::Io;
pub use jump::{IoJump, Jump, RegisterJump};
pub use loading::Load;
pub use misc::{Halt, NoOp};
pub use mov::Move;
pub use storing::Store;
pub use shift::Shift;

verus! {

/// What every operation offers: whether it can be carried out in a state,
/// what it does to the state, and whether the program counter moves on to
/// the next instruction afterwards.
pub trait Operation {
    /// Why the operation cannot be carried out in this state, if it cannot.
    spec fn spec_fault(&self, pre: ComputerView) -> Option<ExecutionFault>;

    /// The state that the operation leaves.
    spec fn spec_effect(&self, pre: ComputerView) -> ComputerView;

    /// Whether the program counter moves on by one after the operation.
    spec fn spec_increments(&self) -> bool;

    /// Carries the operation out.
    fn execute(&self, computer: &mut Computer) -> (r: Result<(), ExecutionFault>)
        requires
            old(computer).wf(),
        ensures
            final(computer).wf(),
            r == (match self.spec_fault(old(computer)@) {
                Some(f) => Err::<(), ExecutionFault>(f),
                None => Ok(()),
            }),
            final(computer)@ == self.spec_effect(old(computer)@),
    ;

    /// Whether the program counter moves on by one after the operation.
    fn should_increment_program_counter(&self) -> (r: bool)
        ensures
            r == self.spec_increments(),
    ;
}

/// An instruction as the operation that it stands for.
pub enum Decoded {
    NoOp(NoOp),
    ConvertToNumeric(ConvertToNumeric),
    ConvertToCharacters(ConvertToCharacters),
    Halt(Halt),
    Shift(Shift),
    Move(Move),
    Addition(Addition),
    Multiplication(Multiplication),
    Division(Division),
    Load(Load),
    Store(Store),
    Io(Io),
    Jump(Jump),
    RegisterJump(RegisterJump),
    IoJump(IoJump),
    Increase(Increase),
    Enter(Enter),
    Compare(Compare),
}

impl Operation for Decoded {
    open spec fn spec_fault(&self, pre: ComputerView) -> Option<ExecutionFault> {
        match self {
            Decoded::NoOp(op) => op.spec_fault(pre),
            Decoded::ConvertToNumeric(op) => op.spec_fault(pre),
            Decoded::ConvertToCharacters(op) => op.spec_fault(pre),
            Decoded::Halt(op) => op.spec_fault(pre),
            Decoded::Shift(op) => op.spec_fault(pre),
            Decoded::Move(op) => op.spec_fault(pre),
            Decoded::Addition(op) => op.spec_fault(pre),
            Decoded::Multiplication(op) => op.spec_fault(pre),
            Decoded::Division(op) => op.spec_fault(pre),
            Decoded::Load(op) => op.spec_fault(pre),
            Decoded::Store(op) => op.spec_fault(pre),
            Decoded::Io(op) => op.spec_fault(pre),
            Decoded::Jump(op) => op.spec_fault(pre),
            Decoded::RegisterJump(op) => op.spec_fault(pre),
            Decoded::IoJump(op) => op.spec_fault(pre),
            Decoded::Increase(op) => op.spec_fault(pre),
            Decoded::Enter(op) => op.spec_fault(pre),
            Decoded::Compare(op) => op.spec_fault(pre),
        }
    }

    open spec fn spec_effect(&self, pre: ComputerView) -> ComputerView {
        match self {
            Decoded::NoOp(op) => op.spec_effect(pre),
            Decoded::ConvertToNumeric(op) => op.spec_effect(pre),
            Decoded::ConvertToCharacters(op) => op.spec_effect(pre),
            Decoded::Halt(op) => op.spec_effect(pre),
            Decoded::Shift(op) => op.spec_effect(pre),
            Decoded::Move(op) => op.spec_effect(pre),
            Decoded::Addition(op) => op.spec_effect(pre),
            Decoded::Multiplication(op) => op.spec_effect(pre),
            Decoded::Division(op) => op.spec_effect(pre),
            Decoded::Load(op) => op.spec_effect(pre),
            Decoded::Store(op) => op.spec_effect(pre),
            Decoded::Io(op) => op.spec_effect(pre),
            Decoded::Jump(op) => op.spec_effect(pre),
            Decoded::RegisterJump(op) => op.spec_effect(pre),
            Decoded::IoJump(op) => op.spec_effect(pre),
            Decoded::Increase(op) => op.spec_effect(pre),
            Decoded::Enter(op) => op.spec_effect(pre),
            Decoded::Compare(op) => op.spec_effect(pre),
        }
    }

    open spec fn spec_increments(&self) -> bool {
        match self {
            Decoded::NoOp(op) => op.spec_increments(),
            Decoded::ConvertToNumeric(op) => op.spec_increments(),
            Decoded::ConvertToCharacters(op) => op.spec_increments(),
            Decoded::Halt(op) => op.spec_increments(),
            Decoded::Shift(op) => op.spec_increments(),
            Decoded::Move(op) => op.spec_increments(),
            Decoded::Addition(op) => op.spec_increments(),
            Decoded::Multiplication(op) => op.spec_increments(),
            Decoded::Division(op) => op.spec_increments(),
            Decoded::Load(op) => op.spec_increments(),
            Decoded::Store(op) => op.spec_increments(),
            Decoded::Io(op) => op.spec_increments(),
            Decoded::Jump(op) => op.spec_increments(),
            Decoded::RegisterJump(op) => op.spec_increments(),
            Decoded::IoJump(op) => op.spec_increments(),
            Decoded::Increase(op) => op.spec_increments(),
            Decoded::Enter(op) => op.spec_increments(),
            Decoded::Compare(op) => op.spec_increments(),
        }
    }

    fn execute(&self, computer: &mut Computer) -> (r: Result<(), ExecutionFault>) {
        match self {
            Decoded::NoOp(op) => op.execute(computer),
            Decoded::ConvertToNumeric(op) => op.execute(computer),
            Decoded::ConvertToCharacters(op) => op.execute(computer),
            Decoded::Halt(op) => op.execute(computer),
            Decoded::Shift(op) => op.execute(computer),
            Decoded::Move(op) => op.execute(computer),
            Decoded::Addition(op) => op.execute(computer),
            Decoded::Multiplication(op) => op.execute(computer),
            Decoded::Division(op) => op.execute(computer),
            Decoded::Load(op) => op.execute(computer),
            Decoded::Store(op) => op.execute(computer),
            Decoded::Io(op) => op.execute(computer),
            Decoded::Jump(op) => op.execute(computer),
            Decoded::RegisterJump(op) => op.execute(computer),
            Decoded::IoJump(op) => op.execute(computer),
            Decoded::Increase(op) => op.execute(computer),
            Decoded::Enter(op) => op.execute(computer),
            Decoded::Compare(op) => op.execute(computer),
        }
    }

    fn should_increment_program_counter(&self) -> (r: bool) {
        match self {
            Decoded::NoOp(op) => op.should_increment_program_counter(),
            Decoded::ConvertToNumeric(op) => op.should_increment_program_counter(),
            Decoded::ConvertToCharacters(op) => op.should_increment_program_counter(),
            Decoded::Halt(op) => op.should_increment_program_counter(),
            Decoded::Shift(op) => op.should_increment_program_counter(),
            Decoded::Move(op) => op.should_increment_program_counter(),
            Decoded::Addition(op) => op.should_increment_program_counter(),
            Decoded::Multiplication(op) => op.should_increment_program_counter(),
            Decoded::Division(op) => op.should_increment_program_counter(),
            Decoded::Load(op) => op.should_increment_program_counter(),
            Decoded::Store(op) => op.should_increment_program_counter(),
            Decoded::Io(op) => op.should_increment_program_counter(),
            Decoded::Jump(op) => op.should_increment_program_counter(),
            Decoded::RegisterJump(op) => op.should_increment_program_counter(),
            Decoded::IoJump(op) => op.should_increment_program_counter(),
            Decoded::Increase(op) => op.should_increment_program_counter(),
            Decoded::Enter(op) => op.should_increment_program_counter(),
            Decoded::Compare(op) => op.should_increment_program_counter(),
        }
    }
}

} // verus!
