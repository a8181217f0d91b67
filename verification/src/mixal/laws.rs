//! Laws that tie the assembler to the machine.

use vstd::prelude::*;

use super::assembler::{
    spec_apply, spec_emitted_wf, spec_negative_zero, spec_no_negative_zero, AssembleError, AssemblerView, Stepped,
};
use super::ast::{NodeView, StatementView, WValuePartView};
use super::lexer::Token;
use super::op_codes::{spec_op_entry, OP_COUNT};
use super::source::spec_fresh;
use crate::mix::address::Address;
use crate::mix::instruction::Instruction;
use crate::mix::laws::{lemma_value_round_trip, lemma_word_value_in_range};
use crate::mix::word::{spec_fits_in_word, Sign, Word};

verus! {

/// Every entry of the table of mnemonics names an operation of the machine:
/// an instruction with the operation code of the entry, its modification
/// and an index specification of at most 6 is decoded without a fault.
pub proof fn lemma_mnemonics_decode(entry: usize, address: Address, index: u8)
    requires
        entry < OP_COUNT,
        index <= 6,
    ensures
        (Instruction {
            operation: spec_op_entry(entry).value,
            modification: spec_op_entry(entry).default_fs,
            address,
            index_specification: index,
        }).spec_decode() is Ok,
{
}

/// A number as the one part of a W-value.
pub open spec fn spec_number_part(n: nat) -> WValuePartView {
    WValuePartView { expression: NodeView::Number(n), f_part: None }
}

/// A value as the one part of a W-value: a number, behind a minus sign where
/// the value is negative.
pub open spec fn spec_value_part(value: int) -> WValuePartView {
    if value >= 0 {
        spec_number_part(value as nat)
    } else {
        WValuePartView {
            expression: NodeView::Expression(
                None,
                Token::MINUS,
                Box::new(NodeView::Number((-value) as nat)),
            ),
            f_part: None,
        }
    }
}

/// The two statements that put the word `word` at the location `location`:
/// ORIG with the location, and CON with the value of the word.
pub open spec fn spec_word_statements(location: usize, word: Word) -> Seq<StatementView> {
    seq![
        StatementView::Orig { symbol: None, address: seq![spec_number_part(location as nat)] },
        StatementView::Con { symbol: None, address: seq![spec_value_part(word.spec_value())] },
    ]
}

/// The statements that put the words at the first `upto` locations of memory
/// where they stand, in rising order of their locations.
pub open spec fn spec_disassembled_words(words: Map<usize, Word>, upto: int) -> Seq<StatementView>
    decreases upto,
{
    if upto <= 0 {
        Seq::empty()
    } else if words.contains_key((upto - 1) as usize) {
        spec_disassembled_words(words, upto - 1) + spec_word_statements(
            (upto - 1) as usize,
            words[(upto - 1) as usize],
        )
    } else {
        spec_disassembled_words(words, upto - 1)
    }
}

/// A program again from what an assembly has left: for each word a
/// statement that emits it where it stands, and END with the start of the
/// program.
pub open spec fn spec_disassembled(words: Map<usize, Word>, program_start: usize) -> Seq<
    StatementView,
> {
    spec_disassembled_words(words, 4000).push(
        StatementView::End { symbol: None, address: seq![spec_number_part(program_start as nat)] },
    )
}

/// Those of the words that stand at the first `upto` locations.
pub open spec fn spec_words_below(words: Map<usize, Word>, upto: int) -> Map<usize, Word> {
    Map::new(|k: usize| k < upto && words.contains_key(k), |k: usize| words[k])
}

/// The first statements of a program are assembled alike whatever follows
/// them.
pub proof fn lemma_assemble_prefix(
    st: AssemblerView,
    one: Seq<StatementView>,
    other: Seq<StatementView>,
    upto: int,
)
    requires
        0 <= upto <= one.len(),
        upto <= other.len(),
        forall|i: int| 0 <= i < upto ==> one[i] == other[i],
    ensures
        st.spec_assemble(one, upto) == st.spec_assemble(other, upto),
    decreases upto,
{
    if upto > 0 {
        lemma_assemble_prefix(st, one, other, upto - 1);
    }
}

/// A value as the one part of a W-value is evaluated to that value, and
/// leaves the assembler's state alone.
pub proof fn lemma_value_part(st: AssemblerView, value: int)
    requires
        isize::MIN < value <= isize::MAX,
    ensures
        st.spec_eval_w_value(seq![spec_value_part(value)]).state == st,
        st.spec_eval_w_value(seq![spec_value_part(value)]).value == Ok::<isize, AssembleError>(
            value as isize,
        ),
{
    let part = spec_value_part(value);
    assert(seq![part][0] == part);
    if value < 0 {
        let number = NodeView::Number((-value) as nat);
        assert(st.spec_eval(number, false).state == st);
        assert(st.spec_eval(number, false).value == Ok::<isize, AssembleError>((-value) as isize));
        assert(spec_apply(Token::MINUS, 0, (-value) as isize) == Ok::<isize, AssembleError>(
            value as isize,
        ));
    }
}

/// ORIG with a location sets the location counter and leaves the rest of
/// the assembler's state alone.
pub proof fn lemma_orig_statement(st: AssemblerView, location: usize)
    requires
        location <= 4000,
    ensures
        st.spec_statement(
            StatementView::Orig { symbol: None, address: seq![spec_number_part(location as nat)] },
        ) == (Stepped { state: AssemblerView { location_counter: location, ..st }, error: None }),
{
    reveal(AssemblerView::spec_statement);
    lemma_value_part(st, location as int);
}

/// CON with the value of a word emits that word at the location counter.
pub proof fn lemma_con_statement(st: AssemblerView, value: int)
    requires
        st.location_counter < 4000,
        spec_fits_in_word(value),
    ensures
        st.spec_statement(
            StatementView::Con { symbol: None, address: seq![spec_value_part(value)] },
        ) == (Stepped {
            state: AssemblerView {
                words: st.words.insert(st.location_counter, Word::spec_from_value(value)),
                location_counter: (st.location_counter + 1) as usize,
                ..st
            },
            error: None,
        }),
{
    reveal(AssemblerView::spec_statement);
    lemma_value_part(st, value);
}

/// ORIG with a location and CON with the value of a word put that word at
/// that location, and leave the rest of the assembler's state alone.
pub proof fn lemma_word_statements(st: AssemblerView, location: usize, word: Word)
    requires
        location < 4000,
        word.wf(),
        !spec_negative_zero(word),
    ensures
        st.spec_statement(spec_word_statements(location, word)[0]) == (Stepped {
            state: AssemblerView { location_counter: location, ..st },
            error: None,
        }),
        (AssemblerView { location_counter: location, ..st }).spec_statement(
            spec_word_statements(location, word)[1],
        ) == (Stepped {
            state: AssemblerView {
                words: st.words.insert(location, word),
                location_counter: (location + 1) as usize,
                ..st
            },
            error: None,
        }),
{
    lemma_word_value_in_range(word);
    lemma_value_round_trip(word);
    lemma_orig_statement(st, location);
    lemma_con_statement(AssemblerView { location_counter: location, ..st }, word.spec_value());
}

/// END with a number, where nothing waits, sets the start of the program
/// and leaves the rest alone.
pub proof fn lemma_end_statement(st: AssemblerView, program_start: usize)
    requires
        program_start < 4000,
        st.future_refs.len() == 0,
        st.literals.len() == 0,
    ensures
        st.spec_statement(
            StatementView::End {
                symbol: None,
                address: seq![spec_number_part(program_start as nat)],
            },
        ) == (Stepped { state: AssemblerView { program_start, ..st }, error: None }),
{
    reveal(AssemblerView::spec_statement);
    assert(st.literals =~= Seq::empty());
    assert((AssemblerView { literals: Seq::empty(), ..st }) == st);
}

/// The statements for the words at the first `upto` locations are assembled
/// without an error, and leave just these words.
pub proof fn lemma_words_reassembled(words: Map<usize, Word>, upto: int)
    requires
        0 <= upto <= 4000,
        spec_emitted_wf(words),
        spec_no_negative_zero(words),
    ensures
        ({
            let statements = spec_disassembled_words(words, upto);
            let left = spec_fresh().spec_assemble(statements, statements.len() as int);
            &&& left.error is None
            &&& left.state == (AssemblerView {
                words: spec_words_below(words, upto),
                location_counter: left.state.location_counter,
                ..spec_fresh()
            })
        }),
    decreases upto,
{
    let statements = spec_disassembled_words(words, upto);
    if upto == 0 {
        assert(spec_words_below(words, 0) =~= Map::empty());
    } else {
        lemma_words_reassembled(words, upto - 1);
        let before = spec_disassembled_words(words, upto - 1);
        let n = before.len() as int;
        let left = spec_fresh().spec_assemble(before, n);
        let location = (upto - 1) as usize;
        if words.contains_key(location) {
            let word = words[location];
            let two = spec_word_statements(location, word);
            assert(statements == before + two);
            assert(statements.len() == n + 2);
            assert(statements[n] == two[0]);
            assert(statements[n + 1] == two[1]);
            lemma_assemble_prefix(spec_fresh(), statements, before, n);
            lemma_word_statements(left.state, location, word);
            assert(spec_fresh().spec_assemble(statements, n + 1).error is None);
            assert(spec_fresh().spec_assemble(statements, n + 1).state == (AssemblerView {
                location_counter: location,
                ..left.state
            }));
            assert(spec_words_below(words, upto) =~= spec_words_below(words, upto - 1).insert(
                location,
                word,
            ));
        } else {
            assert(spec_words_below(words, upto) =~= spec_words_below(words, upto - 1));
        }
    }
}

/// What an assembly has left is left again by the assembly of the program
/// put together from it: a statement for each word that emits it where it
/// stands, and END with the start of the program. The words are the same,
/// at the same locations and with the same signs and bytes, and so is the
/// start; to load either and run it is to run the same machine. No source
/// text stands for negative zero, so the words must not hold it; the
/// assembler never emits it.
pub proof fn lemma_reassembled(words: Map<usize, Word>, program_start: usize)
    requires
        spec_emitted_wf(words),
        spec_no_negative_zero(words),
        program_start < 4000,
    ensures
        ({
            let statements = spec_disassembled(words, program_start);
            let left = spec_fresh().spec_assemble(statements, statements.len() as int);
            &&& left.error is None
            &&& left.state.words == words
            &&& left.state.program_start == program_start
        }),
{
    let before = spec_disassembled_words(words, 4000);
    let statements = spec_disassembled(words, program_start);
    let n = before.len() as int;
    lemma_words_reassembled(words, 4000);
    lemma_assemble_prefix(spec_fresh(), statements, before, n);
    let left = spec_fresh().spec_assemble(before, n);
    lemma_end_statement(left.state, program_start);
    assert(statements[n] == StatementView::End {
        symbol: None,
        address: seq![spec_number_part(program_start as nat)],
    });
    assert(spec_words_below(words, 4000) =~= words);
}

/// Whatever state an assembly has left, the program put together from its
/// words and its start is assembled to the same words and the same start.
/// Every state that `Assembler::assemble` leaves is such a state.
pub proof fn lemma_assembly_reassembled(left: AssemblerView)
    requires
        left.wf(),
    ensures
        ({
            let statements = spec_disassembled(left.words, left.program_start);
            let again = spec_fresh().spec_assemble(statements, statements.len() as int);
            &&& again.error is None
            &&& again.state.words == left.words
            &&& again.state.program_start == left.program_start
        }),
{
    lemma_reassembled(left.words, left.program_start);
}

} // verus!
