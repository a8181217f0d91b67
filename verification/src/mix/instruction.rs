//! A word taken apart as an instruction.

use vstd::prelude::*;

use super::address::Address;
use super::op_codes;
use super::word::Word;
use crate::computer::ExecutionFault;
use crate::operations::{
    Addition, Compare, ConvertToCharacters, ConvertToNumeric, Decoded, Division, Enter, Halt,
    Increase, Io, IoJump, Jump, Load, Move, Multiplication, NoOp, RegisterJump, Shift, Store,
};

verus! {

/// The four parts of an instruction word. The word's sign is that of the
/// address.
#[derive(Debug, Copy, Clone, PartialEq, Eq)]
pub struct Instruction {
    pub operation: u8,
    pub modification: u8,
    pub address: Address,
    pub index_specification: u8,
}

impl Instruction {
    /// Every part is a MIX byte.
    pub open spec fn wf(&self) -> bool {
        &&& self.address.wf()
        &&& self.operation < 64
        &&& self.modification < 64
        &&& self.index_specification < 64
    }

    /// The parts of `word`: the address in the sign and the first two bytes,
    /// then index, modification and operation.
    pub open spec fn spec_from_word(word: Word) -> Instruction {
        Instruction {
            address: Address { sign: word.sign, bytes: [word.bytes[0], word.bytes[1]] },
            index_specification: word.bytes[2],
            modification: word.bytes[3],
            operation: word.bytes[4],
        }
    }

    /// Whether the machine has an operation for the instruction's pair of
    /// operation code and modification. It has none for an operation code
    /// above 63, for the code 5 with a modification above 2, for the shifts
    /// with one above 5, for the jumps with one above 9, for the jumps on a
    /// register with one above 5, and for the codes 48 to 55 with one above
    /// 3.
    pub open spec fn spec_known(&self) -> bool {
        let op = self.operation;
        let f = self.modification;
        if op > 63 {
            false
        } else if op == op_codes::HLT {
            f <= 2
        } else if op == op_codes::SLA {
            f <= 5
        } else if op == op_codes::JMP {
            f <= 9
        } else if op_codes::JAN <= op <= op_codes::JXN {
            f <= 5
        } else if op_codes::INCA <= op <= op_codes::INCX {
            f <= 3
        } else {
            true
        }
    }

    /// The operation that the instruction stands for, by its operation code
    /// and, where several operations share a code, its modification; or why
    /// it stands for none: no operation has this pair, which is `UnknownOp`
    /// whatever the index specification is; or, for a pair that an
    /// operation has, the index specification is above 6.
    pub open spec fn spec_decode(&self) -> Result<Decoded, ExecutionFault> {
        let i = *self;
        let op = self.operation;
        let f = self.modification;
        if !self.spec_known() {
            Err(ExecutionFault::UnknownOp)
        } else if self.index_specification > 6 {
            Err(ExecutionFault::IndexSpec)
        } else if op == op_codes::NOP {
            Ok(Decoded::NoOp(NoOp {  }))
        } else if op == op_codes::ADD || op == op_codes::SUB {
            Ok(Decoded::Addition(Addition { instruction: i }))
        } else if op == op_codes::MUL {
            Ok(Decoded::Multiplication(Multiplication { instruction: i }))
        } else if op == op_codes::DIV {
            Ok(Decoded::Division(Division { instruction: i }))
        } else if op == op_codes::HLT {
            if f == 0 {
                Ok(Decoded::ConvertToNumeric(ConvertToNumeric {  }))
            } else if f == 1 {
                Ok(Decoded::ConvertToCharacters(ConvertToCharacters {  }))
            } else if f == 2 {
                Ok(Decoded::Halt(Halt { instruction: i }))
            } else {
                Err(ExecutionFault::UnknownOp)
            }
        } else if op == op_codes::SLA {
            if f <= 5 {
                Ok(Decoded::Shift(Shift { instruction: i }))
            } else {
                Err(ExecutionFault::UnknownOp)
            }
        } else if op == op_codes::MOVE {
            Ok(Decoded::Move(Move { instruction: i }))
        } else if op_codes::LDA <= op <= op_codes::LDXN {
            Ok(Decoded::Load(Load { instruction: i }))
        } else if op_codes::STA <= op <= op_codes::STZ {
            Ok(Decoded::Store(Store { instruction: i }))
        } else if op == op_codes::JBUS || op == op_codes::JRED {
            Ok(Decoded::IoJump(IoJump { instruction: i }))
        } else if op_codes::IOC <= op <= op_codes::OUT {
            Ok(Decoded::Io(Io { instruction: i }))
        } else if op == op_codes::JMP {
            if f <= 9 {
                Ok(Decoded::Jump(Jump { instruction: i }))
            } else {
                Err(ExecutionFault::UnknownOp)
            }
        } else if op_codes::JAN <= op <= op_codes::JXN {
            if f <= 5 {
                Ok(Decoded::RegisterJump(RegisterJump { instruction: i }))
            } else {
                Err(ExecutionFault::UnknownOp)
            }
        } else if op_codes::INCA <= op <= op_codes::INCX {
            if f <= 1 {
                Ok(Decoded::Increase(Increase { instruction: i }))
            } else if f <= 3 {
                Ok(Decoded::Enter(Enter { instruction: i }))
            } else {
                Err(ExecutionFault::UnknownOp)
            }
        } else if 56 <= op <= 63 {
            Ok(Decoded::Compare(Compare { instruction: i }))
        } else {
            Err(ExecutionFault::UnknownOp)
        }
    }

    /// Takes a word apart. Every word is an instruction in this sense, whether
    /// or not its operation is one the machine knows.
    pub fn from_word(word: Word) -> (instruction: Instruction)
        ensures
            instruction == Instruction::spec_from_word(word),
            word.wf() ==> instruction.wf(),
    {
        let bytes = word.bytes;
        let instruction = Instruction {
            address: Address { bytes: [bytes[0], bytes[1]], sign: word.sign },
            index_specification: bytes[2],
            modification: bytes[3],
            operation: bytes[4],
        };
        assert(instruction.address.bytes =~= Instruction::spec_from_word(word).address.bytes);
        instruction
    }

    /// Whether the machine has an operation for the instruction's pair of
    /// operation code and modification.
    pub fn is_known(&self) -> (r: bool)
        ensures
            r == self.spec_known(),
    {
        let op = self.operation;
        let f = self.modification;
        if op > 63 {
            false
        } else if op == op_codes::HLT {
            f <= 2
        } else if op == op_codes::SLA {
            f <= 5
        } else if op == op_codes::JMP {
            f <= 9
        } else if op_codes::JAN <= op && op <= op_codes::JXN {
            f <= 5
        } else if op_codes::INCA <= op && op <= op_codes::INCX {
            f <= 3
        } else {
            true
        }
    }

    /// The operation that the instruction stands for, or why it stands for
    /// none: a pair of operation code and modification that no operation
    /// has, whatever the index specification is; or, for a pair that an
    /// operation has, an index specification above 6.
    pub fn decode(&self) -> (r: Result<Decoded, ExecutionFault>)
        ensures
            r == self.spec_decode(),
    {
        let op = self.operation;
        let f = self.modification;
        if !self.is_known() {
            Err(ExecutionFault::UnknownOp)
        } else if self.index_specification > 6 {
            Err(ExecutionFault::IndexSpec)
        } else if op == op_codes::NOP {
            Ok(Decoded::NoOp(NoOp::new()))
        } else if op == op_codes::ADD || op == op_codes::SUB {
            Ok(Decoded::Addition(Addition::new(self)))
        } else if op == op_codes::MUL {
            Ok(Decoded::Multiplication(Multiplication::new(self)))
        } else if op == op_codes::DIV {
            Ok(Decoded::Division(Division::new(self)))
        } else if op == op_codes::HLT {
            match f {
                0 => Ok(Decoded::ConvertToNumeric(ConvertToNumeric::new())),
                1 => Ok(Decoded::ConvertToCharacters(ConvertToCharacters::new())),
                2 => Ok(Decoded::Halt(Halt::new(self))),
                _ => Err(ExecutionFault::UnknownOp),
            }
        } else if op == op_codes::SLA {
            if f <= 5 {
                Ok(Decoded::Shift(Shift::new(self)))
            } else {
                Err(ExecutionFault::UnknownOp)
            }
        } else if op == op_codes::MOVE {
            Ok(Decoded::Move(Move::new(self)))
        } else if op_codes::LDA <= op && op <= op_codes::LDXN {
            Ok(Decoded::Load(Load::new(self)))
        } else if op_codes::STA <= op && op <= op_codes::STZ {
            Ok(Decoded::Store(Store::new(self)))
        } else if op == op_codes::JBUS || op == op_codes::JRED {
            Ok(Decoded::IoJump(IoJump::new(self)))
        } else if op_codes::IOC <= op && op <= op_codes::OUT {
            Ok(Decoded::Io(Io::new(self)))
        } else if op == op_codes::JMP {
            if f <= 9 {
                Ok(Decoded::Jump(Jump::new(self)))
            } else {
                Err(ExecutionFault::UnknownOp)
            }
        } else if op_codes::JAN <= op && op <= op_codes::JXN {
            if f <= 5 {
                Ok(Decoded::RegisterJump(RegisterJump::new(self)))
            } else {
                Err(ExecutionFault::UnknownOp)
            }
        } else if op_codes::INCA <= op && op <= op_codes::INCX {
            if f <= 1 {
                Ok(Decoded::Increase(Increase::new(self)))
            } else if f <= 3 {
                Ok(Decoded::Enter(Enter::new(self)))
            } else {
                Err(ExecutionFault::UnknownOp)
            }
        } else if 56 <= op && op <= 63 {
            Ok(Decoded::Compare(Compare::new(self)))
        } else {
            Err(ExecutionFault::UnknownOp)
        }
    }
}

/// Which fault decoding ends in, and when it ends in none: `UnknownOp`
/// exactly where no operation has the pair of operation code and
/// modification, whatever the index specification is; `IndexSpec` exactly
/// where an operation has the pair and the index specification is above 6;
/// an operation in every other case.
pub proof fn lemma_decode_faults(instruction: Instruction)
    ensures
        instruction.spec_decode() == Err::<Decoded, ExecutionFault>(ExecutionFault::UnknownOp)
            <==> !instruction.spec_known(),
        instruction.spec_decode() == Err::<Decoded, ExecutionFault>(ExecutionFault::IndexSpec)
            <==> instruction.spec_known() && instruction.index_specification > 6,
        instruction.spec_decode() is Ok <==> instruction.spec_known()
            && instruction.index_specification <= 6,
{
}

} // verus!
