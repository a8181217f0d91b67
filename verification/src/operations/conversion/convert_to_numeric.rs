//! NUM.

use vstd::prelude::*;

use crate::computer::{Computer, ComputerView, ExecutionFault};
use crate::mix::word::Word;
use crate::operations::shift::{join, spec_join};
use crate::operations::Operation;

verus! {

/// The number whose decimal digits are the bytes of `bytes`, each taken
/// modulo ten, most significant first.
pub open spec fn spec_decimal(bytes: Seq<u8>) -> nat
    decreases bytes.len(),
{
    if bytes.len() == 0 {
        0
    } else {
        spec_decimal(bytes.drop_last()) * 10 + (bytes.last() % 10) as nat
    }
}

/// A number with `n` decimal digits is below the `n`-th power of ten; with
/// ten digits it is below ten thousand million.
pub proof fn lemma_decimal_bound(bytes: Seq<u8>)
    requires
        bytes.len() <= 10,
    ensures
        spec_decimal(bytes) < 10000000000,
        bytes.len() <= 9 ==> spec_decimal(bytes) < 1000000000,
    decreases bytes.len(),
{
    if bytes.len() > 0 {
        lemma_decimal_bound_step(bytes.drop_last());
    }
}

proof fn lemma_decimal_bound_step(bytes: Seq<u8>)
    requires
        bytes.len() <= 9,
    ensures
        spec_decimal(bytes) < 1000000000,
        bytes.len() <= 8 ==> spec_decimal(bytes) < 100000000,
        bytes.len() <= 7 ==> spec_decimal(bytes) < 10000000,
        bytes.len() <= 6 ==> spec_decimal(bytes) < 1000000,
        bytes.len() <= 5 ==> spec_decimal(bytes) < 100000,
        bytes.len() <= 4 ==> spec_decimal(bytes) < 10000,
        bytes.len() <= 3 ==> spec_decimal(bytes) < 1000,
        bytes.len() <= 2 ==> spec_decimal(bytes) < 100,
        bytes.len() <= 1 ==> spec_decimal(bytes) < 10,
        bytes.len() == 0 ==> spec_decimal(bytes) == 0,
    decreases bytes.len(),
{
    if bytes.len() > 0 {
        lemma_decimal_bound_step(bytes.drop_last());
    }
}

/// NUM: the ten bytes of A and X are read as ten decimal digits, and A holds
/// the number.
pub struct ConvertToNumeric {}

impl ConvertToNumeric {
    /// The operation; it takes nothing from its instruction.
    pub fn new() -> ConvertToNumeric {
        ConvertToNumeric {  }
    }

    /// The number that the ten bytes of A and X stand for.
    pub open spec fn spec_number(pre: ComputerView) -> nat {
        spec_decimal(spec_join(pre.accumulator, pre.extension))
    }
}

impl Operation for ConvertToNumeric {
    open spec fn spec_fault(&self, pre: ComputerView) -> Option<ExecutionFault> {
        None
    }

    /// A keeps its sign and holds the number, modulo 64^5 where it does not
    /// fit, in which case the overflow bit is set. X stays.
    open spec fn spec_effect(&self, pre: ComputerView) -> ComputerView {
        ComputerView {
            accumulator: Word::spec_new(
                pre.accumulator.sign,
                ConvertToNumeric::spec_number(pre) % 1073741824,
            ),
            overflow: pre.overflow || ConvertToNumeric::spec_number(pre) >= 1073741824,
            ..pre
        }
    }

    open spec fn spec_increments(&self) -> bool {
        true
    }

    fn execute(&self, computer: &mut Computer) -> (r: Result<(), ExecutionFault>) {
        let bytes = join(&computer.accumulator, &computer.extension);
        let mut result: u64 = 0;
        let mut i: usize = 0;
        while i < 10
            invariant
                i <= 10,
                result == spec_decimal(bytes@.take(i as int)),
            decreases 10 - i,
        {
            proof {
                lemma_decimal_bound(bytes@.take(i as int));
                assert(bytes@.take(i + 1).drop_last() =~= bytes@.take(i as int));
            }
            result = result * 10 + (bytes[i] % 10) as u64;
            i += 1;
        }
        assert(bytes@.take(10) =~= bytes@);
        if result >= 1073741824 {
            computer.overflow = true;
        }
        computer.accumulator = Word::from_magnitude(
            computer.accumulator.sign,
            (result % 1073741824) as u32,
        );
        Ok(())
    }

    fn should_increment_program_counter(&self) -> (r: bool) {
        true
    }
}

} // verus!
