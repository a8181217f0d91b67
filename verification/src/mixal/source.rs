//! From a source text to an assembled program in one step.

use vstd::prelude::*;

use super::assembler::{AssembleError, Assembler, AssemblerView};
use super::grammar::{spec_parse_program, ParseError};
use super::parser::{spec_lexemes, Parser};

verus! {

/// Why a source text is no program.
#[derive(Debug, Copy, Clone, PartialEq, Eq, Structural)]
pub enum SourceError {
    /// The text does not follow the grammar.
    Parse(ParseError),
    /// The statements cannot be assembled.
    Assemble(AssembleError),
}

/// The state of an assembler that has seen nothing yet.
pub open spec fn spec_fresh() -> AssemblerView {
    AssemblerView {
        words: Map::empty(),
        program_start: 0,
        location_counter: 0,
        symbols: Map::empty(),
        future_refs: Seq::empty(),
        literals: Seq::empty(),
    }
}

/// What becomes of a source text: the state of the assembler after all of
/// its statements, or the first error of the parser or of the assembler.
pub open spec fn spec_assemble_source(source: Seq<char>) -> Result<AssemblerView, SourceError> {
    match spec_parse_program(spec_lexemes(source, 0)) {
        Err(e) => Err(SourceError::Parse(e)),
        Ok(statements) => {
            let assembled = spec_fresh().spec_assemble(statements, statements.len() as int);
            match assembled.error {
                Some(e) => Err(SourceError::Assemble(e)),
                None => Ok(assembled.state),
            }
        },
    }
}

/// Parses and assembles a source text. The words of the program and its
/// start are in the assembler that comes back.
pub fn assemble_source(input: &String) -> (r: Result<Assembler, SourceError>)
    requires
        input@.len() < usize::MAX,
    ensures
        r matches Ok(assembler) ==> assembler.wf() && spec_assemble_source(input@) == Ok::<
            AssemblerView,
            SourceError,
        >(assembler@),
        r matches Err(e) ==> spec_assemble_source(input@) == Err::<AssemblerView, SourceError>(e),
{
    let mut parser = Parser::new(input);
    let program = match parser.parse() {
        Ok(program) => program,
        Err(e) => {
            return Err(SourceError::Parse(e));
        },
    };
    let mut assembler = Assembler::new();
    match assembler.assemble(program) {
        Ok(()) => Ok(assembler),
        Err(e) => Err(SourceError::Assemble(e)),
    }
}

} // verus!
