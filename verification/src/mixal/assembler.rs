//! The backend of the assembler: from statements to words.
//!
//! One pass: a reference to a symbol that is not yet defined stands for 0
//! and is noted; when the symbol is defined, the address fields of the
//! words that were noted for it are filled in.

use std::collections::HashMap;
use vstd::prelude::*;

use super::ast::{
    spec_optional_node, spec_optional_symbol, Node, NodeView, Program, Statement, StatementView,
    Symbol, WValue, WValuePartView};
use super::lexer::Token;
use super::op_codes::{lookup, spec_op_info};
use super::symbol::{
    spec_internal_name, spec_is_local, spec_is_local_declaration, spec_is_local_forward_ref};
use crate::mix::address::{spec_fits_in_address, Address};
use crate::mix::instruction::Instruction;
use crate::mix::text::{chars_of, decimal_text, same_text, spec_decimal_text};
use crate::mix::word::{spec_all_have_codes, spec_fits_in_word, Sign, Word};

verus! {

/// Why a program could not be assembled.
#[derive(Debug, Copy, Clone, PartialEq, Eq, Structural)]
pub enum AssembleError {
    /// The mnemonic is that of no operation.
    UnknownOp,
    /// A symbol is defined a second time.
    DuplicateSymbol,
    /// At END a symbol was referred to and never defined.
    UnresolvedSymbol,
    /// The operator `//`, or a lexeme that is no operator.
    UnsupportedOp,
    /// A division by zero.
    DivisionByZero,
    /// A value that the machine on which the assembler runs cannot hold.
    Overflow,
    /// A value too large for the word or the field that is to hold it.
    ValueOutOfRange,
    /// A location outside memory.
    LocationOutOfRange,
    /// An ALF whose text is no five characters of the character table.
    BadCharCode,
}

/// A symbol and its value.
#[derive(Debug, Clone)]
pub struct Binding {
    pub name: String,
    pub value: isize,
}

/// A reference to a symbol that was not yet defined: the name under which
/// the symbol is kept, the location at which the reference stood, and
/// whether it stood in an address field, which can be filled in later.
#[derive(Debug, Clone)]
pub struct FutureRef {
    pub name: String,
    pub address: usize,
    pub patchable: bool,
}

/// A reference to a symbol that was not yet defined, as plain values.
pub struct FutureRefView {
    pub name: Seq<char>,
    pub address: usize,
    pub patchable: bool,
}

impl View for FutureRef {
    type V = FutureRefView;

    open spec fn view(&self) -> FutureRefView {
        FutureRefView { name: self.name@, address: self.address, patchable: self.patchable }
    }
}

/// The assembler: the words emitted so far and the tables.
#[derive(Debug)]
pub struct Assembler {
    pub words: HashMap<usize, Word>,
    pub program_start: usize,
    pub location_counter: usize,
    pub symbol_table: Vec<Binding>,
    pub future_reference_table: Vec<FutureRef>,
    pub literal_constant_table: Vec<Binding>,
}

/// The state of the assembler as plain values.
pub struct AssemblerView {
    pub words: Map<usize, Word>,
    pub program_start: usize,
    pub location_counter: usize,
    pub symbols: Map<Seq<char>, isize>,
    pub future_refs: Seq<FutureRefView>,
    pub literals: Seq<(Seq<char>, isize)>,
}

/// The result of a step of the assembler that yields a value: the state
/// that it leaves, and the value or the error.
pub struct Evaluated {
    pub state: AssemblerView,
    pub value: Result<isize, AssembleError>,
}

/// The result of a step of the assembler that yields no value: the state
/// that it leaves, and the error if there was one.
pub struct Stepped {
    pub state: AssemblerView,
    pub error: Option<AssembleError>,
}

/// Whether the word is negative zero, which no source text stands for.
pub open spec fn spec_negative_zero(word: Word) -> bool {
    word.sign == Sign::Negative && word.magnitude() == 0
}

/// Whether no word is negative zero.
pub open spec fn spec_no_negative_zero(words: Map<usize, Word>) -> bool {
    forall|k: usize| (#[trigger] words.contains_key(k)) ==> !spec_negative_zero(words[k])
}

/// Whether every word stands inside memory and has bytes below 64.
pub open spec fn spec_emitted_wf(words: Map<usize, Word>) -> bool {
    forall|k: usize| (#[trigger] words.contains_key(k)) ==> k < 4000 && words[k].wf()
}

/// The symbols of a list of bindings: each name with the value that was
/// bound to it last.
pub open spec fn spec_symbols(bindings: Seq<Binding>) -> Map<Seq<char>, isize>
    decreases bindings.len(),
{
    if bindings.len() == 0 {
        Map::empty()
    } else {
        spec_symbols(bindings.drop_last()).insert(bindings.last().name@, bindings.last().value)
    }
}

/// The views of a list of references.
pub open spec fn spec_future_refs(refs: Seq<FutureRef>) -> Seq<FutureRefView> {
    Seq::new(refs.len(), |i: int| refs[i]@)
}

/// The literal constants of a list of bindings, in their order.
pub open spec fn spec_literals(bindings: Seq<Binding>) -> Seq<(Seq<char>, isize)> {
    Seq::new(bindings.len(), |i: int| (bindings[i].name@, bindings[i].value))
}

/// The name under which a literal constant with the value `value` is kept.
pub open spec fn spec_literal_name(value: isize) -> Seq<char> {
    "__literal:"@ + spec_decimal_text(value as int)
}

/// Whether the literal constants hold the name `name`.
pub open spec fn spec_has_literal(literals: Seq<(Seq<char>, isize)>, name: Seq<char>) -> bool {
    exists|i: int| 0 <= i < literals.len() && (#[trigger] literals[i]).0 == name
}

/// The word `word` with `target` in its address field: the sign and the
/// first two bytes.
pub open spec fn spec_patch(word: Word, target: isize) -> Word {
    let address = Address::spec_from_value(target as int);
    Word {
        sign: address.sign,
        bytes: [address.bytes[0], address.bytes[1], word.bytes[2], word.bytes[3], word.bytes[4]],
    }
}

/// Whether the reference waits for the symbol `name` in the address field
/// of a word that was emitted.
pub open spec fn spec_is_patch(words: Map<usize, Word>, r: FutureRefView, name: Seq<char>) -> bool {
    r.name == name && r.patchable && words.contains_key(r.address)
}

/// Whether one of the first `upto` references waits for the symbol `name`
/// in the address field of a word that was emitted.
pub open spec fn spec_has_patch(
    words: Map<usize, Word>,
    refs: Seq<FutureRefView>,
    name: Seq<char>,
    upto: int,
) -> bool
    decreases upto,
{
    if upto <= 0 {
        false
    } else {
        spec_has_patch(words, refs, name, upto - 1) || spec_is_patch(words, refs[upto - 1], name)
    }
}

/// The words after the first `upto` references were worked through: where
/// one waits for `name` in the address field of a word, that field holds
/// `target`.
pub open spec fn spec_patched_words(
    words: Map<usize, Word>,
    refs: Seq<FutureRefView>,
    name: Seq<char>,
    target: isize,
    upto: int,
) -> Map<usize, Word>
    decreases upto,
{
    if upto <= 0 {
        words
    } else {
        let before = spec_patched_words(words, refs, name, target, upto - 1);
        if spec_is_patch(before, refs[upto - 1], name) {
            before.insert(refs[upto - 1].address, spec_patch(before[refs[upto - 1].address], target))
        } else {
            before
        }
    }
}

/// Those of the first `upto` references that do not wait for `name`.
pub open spec fn spec_other_refs(refs: Seq<FutureRefView>, name: Seq<char>, upto: int) -> Seq<
    FutureRefView,
>
    decreases upto,
{
    if upto <= 0 {
        Seq::empty()
    } else if refs[upto - 1].name == name {
        spec_other_refs(refs, name, upto - 1)
    } else {
        spec_other_refs(refs, name, upto - 1).push(refs[upto - 1])
    }
}

/// A value of the assembler as a result: `None` is an overflow.
pub open spec fn spec_checked(value: Option<isize>) -> Result<isize, AssembleError> {
    match value {
        Some(v) => Ok(v),
        None => Err(AssembleError::Overflow),
    }
}

/// What an operator makes of two values. `+`, `-`, `*` and `/` are those of
/// the integers, `/` rounding towards zero; `:` is eight times the left
/// plus the right; `//` is not supported.
pub open spec fn spec_apply(operator: Token, left: isize, right: isize) -> Result<
    isize,
    AssembleError,
> {
    match operator {
        Token::PLUS => spec_checked(left.checked_add(right)),
        Token::MINUS => spec_checked(left.checked_sub(right)),
        Token::ASTERISK => spec_checked(left.checked_mul(right)),
        Token::DIVIDE => if right == 0 {
            Err(AssembleError::DivisionByZero)
        } else {
            spec_checked(left.checked_div(right))
        },
        Token::FIELDSIGN => match left.checked_mul(8) {
            Some(eight) => spec_checked(eight.checked_add(right)),
            None => Err(AssembleError::Overflow),
        },
        _ => Err(AssembleError::UnsupportedOp),
    }
}

impl AssemblerView {
    /// The state with one more reference noted at the location counter.
    pub open spec fn spec_add_future_ref(self, name: Seq<char>, patchable: bool) -> AssemblerView {
        AssemblerView {
            future_refs: self.future_refs.push(
                FutureRefView { name, address: self.location_counter, patchable },
            ),
            ..self
        }
    }

    /// The state with the literal constant `name` noted, unless it was
    /// noted before.
    pub open spec fn spec_add_literal(self, name: Seq<char>, value: isize) -> AssemblerView {
        if spec_has_literal(self.literals, name) {
            self
        } else {
            AssemblerView { literals: self.literals.push((name, value)), ..self }
        }
    }

    /// The value of an expression, and the state that its evaluation
    /// leaves. A number is its value; the asterisk is the location counter;
    /// a symbol is its value, or 0 with a reference noted where it is not
    /// yet defined or refers forward to a local symbol; a literal constant
    /// is 0, with the constant and a reference to it noted. `patchable`
    /// says whether the expression stands in an address field.
    pub open spec fn spec_eval(self, node: NodeView, patchable: bool) -> Evaluated
        decreases node,
    {
        match node {
            NodeView::Number(n) => Evaluated {
                state: self,
                value: if n <= isize::MAX {
                    Ok(n as isize)
                } else {
                    Err(AssembleError::Overflow)
                },
            },
            NodeView::Asterisk => Evaluated { state: self, value: Ok(self.location_counter as isize) },
            NodeView::Symbol(name) => {
                let internal = spec_internal_name(name);
                if !spec_is_local_forward_ref(name) && self.symbols.contains_key(internal) {
                    Evaluated { state: self, value: Ok(self.symbols[internal]) }
                } else {
                    Evaluated { state: self.spec_add_future_ref(internal, patchable), value: Ok(0) }
                }
            },
            NodeView::LiteralConstant(inner) => {
                let evaluated = self.spec_eval(*inner, false);
                match evaluated.value {
                    Err(e) => evaluated,
                    Ok(value) => Evaluated {
                        state: evaluated.state.spec_add_literal(
                            spec_literal_name(value),
                            value,
                        ).spec_add_future_ref(spec_literal_name(value), patchable),
                        value: Ok(0),
                    },
                }
            },
            NodeView::Expression(left, operator, right) => {
                let first = match left {
                    Some(l) => self.spec_eval(*l, false),
                    None => Evaluated { state: self, value: Ok(0) },
                };
                match first.value {
                    Err(e) => first,
                    Ok(left_value) => {
                        let second = first.state.spec_eval(*right, false);
                        match second.value {
                            Err(e) => second,
                            Ok(right_value) => Evaluated {
                                state: second.state,
                                value: spec_apply(operator, left_value, right_value),
                            },
                        }
                    },
                }
            },
        }
    }

    /// The value of an expression that may be absent, in which case it is
    /// `default`.
    pub open spec fn spec_eval_optional(self, node: Option<NodeView>, patchable: bool, default: isize)
        -> Evaluated {
        match node {
            Some(n) => self.spec_eval(n, patchable),
            None => Evaluated { state: self, value: Ok(default) },
        }
    }

    /// The value of a W-value: that of the expression of its first part.
    pub open spec fn spec_eval_w_value(self, parts: Seq<WValuePartView>) -> Evaluated {
        if parts.len() == 0 {
            Evaluated { state: self, value: Ok(0) }
        } else {
            self.spec_eval(parts[0].expression, false)
        }
    }

    /// The state after `name` took the value `value`: the address fields
    /// that waited for it hold the value, and no reference waits for it any
    /// more. A value that an address field cannot hold is an error where
    /// one waits for it.
    pub open spec fn spec_bind(self, name: Seq<char>, value: isize) -> Stepped {
        if spec_has_patch(self.words, self.future_refs, name, self.future_refs.len() as int)
            && !spec_fits_in_address(value as int) {
            Stepped { state: self, error: Some(AssembleError::ValueOutOfRange) }
        } else {
            Stepped {
                state: AssemblerView {
                    symbols: self.symbols.insert(name, value),
                    words: spec_patched_words(
                        self.words,
                        self.future_refs,
                        name,
                        value,
                        self.future_refs.len() as int,
                    ),
                    future_refs: spec_other_refs(
                        self.future_refs,
                        name,
                        self.future_refs.len() as int,
                    ),
                    ..self
                },
                error: None,
            }
        }
    }

    /// The state after the label of a statement, where it has one that is
    /// not local, took the value `value`. A label that has a value already
    /// is an error.
    pub open spec fn spec_declare(self, symbol: Option<Seq<char>>, value: isize) -> Stepped {
        match symbol {
            None => Stepped { state: self, error: None },
            Some(name) => if spec_is_local(name) {
                Stepped { state: self, error: None }
            } else if self.symbols.contains_key(name) {
                Stepped { state: self, error: Some(AssembleError::DuplicateSymbol) }
            } else {
                self.spec_bind(name, value)
            },
        }
    }

    /// The state after the label of a statement, where it declares a local
    /// symbol, took the value `value`. A local symbol may be declared again
    /// and again.
    pub open spec fn spec_declare_local(self, symbol: Option<Seq<char>>, value: isize) -> Stepped {
        match symbol {
            None => Stepped { state: self, error: None },
            Some(name) => if spec_is_local_declaration(name) {
                self.spec_bind(spec_internal_name(name), value)
            } else {
                Stepped { state: self, error: None }
            },
        }
    }

    /// The state after `word` was emitted at the location counter under the
    /// label `symbol`: the word is there, a local label has the location as
    /// its value, and the location counter has moved on by one.
    pub open spec fn spec_emit(self, symbol: Option<Seq<char>>, word: Word) -> Stepped {
        if self.location_counter >= 4000 {
            Stepped { state: self, error: Some(AssembleError::LocationOutOfRange) }
        } else {
            let emitted = AssemblerView {
                words: self.words.insert(self.location_counter, word),
                ..self
            };
            let declared = emitted.spec_declare_local(symbol, self.location_counter as isize);
            if declared.error is Some {
                declared
            } else {
                Stepped {
                    state: AssemblerView {
                        location_counter: (self.location_counter + 1) as usize,
                        ..declared.state
                    },
                    error: None,
                }
            }
        }
    }

    /// The instruction of a statement of the machine, and the state that
    /// the evaluation of its parts leaves: the operation code by the
    /// table; the address, 0 where the statement gives none; the
    /// modification, that of the table where the statement gives none; the
    /// index, 0 where the statement gives none. Each must fit its field.
    pub open spec fn spec_instruction(
        self,
        op: Seq<char>,
        a_part: Option<NodeView>,
        index_part: Option<NodeView>,
        f_part: Option<NodeView>,
    ) -> (AssemblerView, Result<Instruction, AssembleError>) {
        match spec_op_info(op) {
            None => (self, Err(AssembleError::UnknownOp)),
            Some(info) => {
                let a = self.spec_eval_optional(a_part, true, 0);
                match a.value {
                    Err(e) => (a.state, Err(e)),
                    Ok(address) => if !spec_fits_in_address(address as int) {
                        (a.state, Err(AssembleError::ValueOutOfRange))
                    } else {
                        let f = a.state.spec_eval_optional(f_part, false, info.default_fs as isize);
                        match f.value {
                            Err(e) => (f.state, Err(e)),
                            Ok(field) => if !(0 <= field < 64) {
                                (f.state, Err(AssembleError::ValueOutOfRange))
                            } else {
                                let i = f.state.spec_eval_optional(index_part, false, 0);
                                match i.value {
                                    Err(e) => (i.state, Err(e)),
                                    Ok(index) => if !(0 <= index < 64) {
                                        (i.state, Err(AssembleError::ValueOutOfRange))
                                    } else {
                                        (
                                            i.state,
                                            Ok(
                                                Instruction {
                                                    operation: info.value,
                                                    modification: field as u8,
                                                    address: Address::spec_from_value(address as int),
                                                    index_specification: index as u8,
                                                },
                                            ),
                                        )
                                    },
                                }
                            },
                        }
                    },
                }
            },
        }
    }

    /// The state after the first `upto` literal constants were emitted, one
    /// word each at the location counter, each with the location as the
    /// value of its name.
    pub open spec fn spec_flush_literals(self, upto: int) -> Stepped
        decreases upto,
    {
        if upto <= 0 {
            Stepped { state: self, error: None }
        } else {
            let before = self.spec_flush_literals(upto - 1);
            if before.error is Some {
                before
            } else {
                let literal = self.literals[upto - 1];
                let st = before.state;
                if !spec_fits_in_word(literal.1 as int) {
                    Stepped { state: st, error: Some(AssembleError::ValueOutOfRange) }
                } else if st.location_counter >= 4000 {
                    Stepped { state: st, error: Some(AssembleError::LocationOutOfRange) }
                } else {
                    let emitted = AssemblerView {
                        words: st.words.insert(
                            st.location_counter,
                            Word::spec_from_value(literal.1 as int),
                        ),
                        ..st
                    };
                    let bound = emitted.spec_bind(literal.0, st.location_counter as isize);
                    if bound.error is Some {
                        bound
                    } else {
                        Stepped {
                            state: AssemblerView {
                                location_counter: (st.location_counter + 1) as usize,
                                ..bound.state
                            },
                            error: None,
                        }
                    }
                }
            }
        }
    }

    /// The state after a statement.
    ///
    /// A label that is not local takes the location counter as its value
    /// before the operands are evaluated, a local one after the word was
    /// emitted. EQU gives its label the W-value instead. ORIG sets the
    /// location counter. CON and ALF emit a word, and so does a statement
    /// of the machine. END emits the literal constants, sets the start of
    /// the program and fails where a reference still waits for its symbol.
    #[verifier::opaque]
    pub open spec fn spec_statement(self, statement: StatementView) -> Stepped {
        let here = self.location_counter as isize;
        match statement {
            StatementView::Mix { symbol, op, a_part, index_part, f_part } => {
                let declared = self.spec_declare(symbol, here);
                if declared.error is Some {
                    declared
                } else {
                    let (state, instruction) = declared.state.spec_instruction(
                        op,
                        a_part,
                        index_part,
                        f_part,
                    );
                    match instruction {
                        Err(e) => Stepped { state, error: Some(e) },
                        Ok(i) => state.spec_emit(symbol, Word::spec_from_instruction(i)),
                    }
                }
            },
            StatementView::Equ { symbol, address } => {
                let evaluated = self.spec_eval_w_value(address);
                match evaluated.value {
                    Err(e) => Stepped { state: evaluated.state, error: Some(e) },
                    Ok(value) => match symbol {
                        None => Stepped { state: evaluated.state, error: None },
                        Some(name) => if !spec_is_local(name)
                            && evaluated.state.symbols.contains_key(name) {
                            Stepped {
                                state: evaluated.state,
                                error: Some(AssembleError::DuplicateSymbol),
                            }
                        } else {
                            evaluated.state.spec_bind(spec_internal_name(name), value)
                        },
                    },
                }
            },
            StatementView::Orig { symbol, address } => {
                let declared = self.spec_declare(symbol, here);
                if declared.error is Some {
                    declared
                } else {
                    let evaluated = declared.state.spec_eval_w_value(address);
                    match evaluated.value {
                        Err(e) => Stepped { state: evaluated.state, error: Some(e) },
                        Ok(value) => {
                            let local = evaluated.state.spec_declare_local(symbol, here);
                            if local.error is Some {
                                local
                            } else if !(0 <= value <= 4000) {
                                Stepped {
                                    state: local.state,
                                    error: Some(AssembleError::LocationOutOfRange),
                                }
                            } else {
                                Stepped {
                                    state: AssemblerView {
                                        location_counter: value as usize,
                                        ..local.state
                                    },
                                    error: None,
                                }
                            }
                        },
                    }
                }
            },
            StatementView::Con { symbol, address } => {
                let declared = self.spec_declare(symbol, here);
                if declared.error is Some {
                    declared
                } else {
                    let evaluated = declared.state.spec_eval_w_value(address);
                    match evaluated.value {
                        Err(e) => Stepped { state: evaluated.state, error: Some(e) },
                        Ok(value) => if !spec_fits_in_word(value as int) {
                            Stepped {
                                state: evaluated.state,
                                error: Some(AssembleError::ValueOutOfRange),
                            }
                        } else {
                            evaluated.state.spec_emit(symbol, Word::spec_from_value(value as int))
                        },
                    }
                }
            },
            StatementView::Alf { symbol, char_code } => {
                let declared = self.spec_declare(symbol, here);
                if declared.error is Some {
                    declared
                } else {
                    let text = spec_alf_text(char_code);
                    if text.len() > 5 || !spec_all_have_codes(text) {
                        Stepped { state: declared.state, error: Some(AssembleError::BadCharCode) }
                    } else {
                        declared.state.spec_emit(symbol, Word::spec_from_char_code(text))
                    }
                }
            },
            StatementView::End { symbol, address } => {
                let flushed = self.spec_flush_literals(self.literals.len() as int);
                if flushed.error is Some {
                    flushed
                } else {
                    let cleared = AssemblerView { literals: Seq::empty(), ..flushed.state };
                    let end = cleared.location_counter as isize;
                    let declared = cleared.spec_declare(symbol, end);
                    if declared.error is Some {
                        declared
                    } else {
                        let evaluated = declared.state.spec_eval_w_value(address);
                        match evaluated.value {
                            Err(e) => Stepped { state: evaluated.state, error: Some(e) },
                            Ok(value) => {
                                let local = evaluated.state.spec_declare_local(symbol, end);
                                if local.error is Some {
                                    local
                                } else if !(0 <= value < 4000) {
                                    Stepped {
                                        state: local.state,
                                        error: Some(AssembleError::LocationOutOfRange),
                                    }
                                } else if local.state.future_refs.len() > 0 {
                                    Stepped {
                                        state: local.state,
                                        error: Some(AssembleError::UnresolvedSymbol),
                                    }
                                } else {
                                    Stepped {
                                        state: AssemblerView {
                                            program_start: value as usize,
                                            ..local.state
                                        },
                                        error: None,
                                    }
                                }
                            },
                        }
                    }
                }
            },
        }
    }

    /// The state after the first `upto` statements of a program, or after
    /// the first of them that fails.
    pub open spec fn spec_assemble(self, statements: Seq<StatementView>, upto: int) -> Stepped
        decreases upto,
    {
        if upto <= 0 {
            Stepped { state: self, error: None }
        } else {
            let before = self.spec_assemble(statements, upto - 1);
            if before.error is Some {
                before
            } else {
                before.state.spec_statement(statements[upto - 1])
            }
        }
    }
}

/// The text of an ALF: the string literal without its two quotes.
pub open spec fn spec_alf_text(char_code: Seq<char>) -> Seq<char> {
    if char_code.len() >= 2 {
        char_code.subrange(1, char_code.len() - 1)
    } else {
        Seq::empty()
    }
}

/// A reference among the first `upto` that waits in an address field makes
/// the first `upto` hold such a reference.
pub proof fn lemma_has_patch(
    words: Map<usize, Word>,
    refs: Seq<FutureRefView>,
    name: Seq<char>,
    at: int,
    upto: int,
)
    requires
        0 <= at < upto,
        spec_is_patch(words, refs[at], name),
    ensures
        spec_has_patch(words, refs, name, upto),
    decreases upto - at,
{
    if at + 1 < upto {
        lemma_has_patch(words, refs, name, at, upto - 1);
    }
}

/// Filling in address fields changes words that are there and adds none.
pub proof fn lemma_patched_domain(
    words: Map<usize, Word>,
    refs: Seq<FutureRefView>,
    name: Seq<char>,
    target: isize,
    upto: int,
)
    ensures
        spec_patched_words(words, refs, name, target, upto).dom() == words.dom(),
    decreases upto,
{
    if upto > 0 {
        lemma_patched_domain(words, refs, name, target, upto - 1);
        let before = spec_patched_words(words, refs, name, target, upto - 1);
        if spec_is_patch(before, refs[upto - 1], name) {
            assert(before.insert(
                refs[upto - 1].address,
                spec_patch(before[refs[upto - 1].address], target),
            ).dom() =~= before.dom());
        }
    }
}

impl View for Assembler {
    type V = AssemblerView;

    open spec fn view(&self) -> AssemblerView {
        AssemblerView {
            words: self.words@,
            program_start: self.program_start,
            location_counter: self.location_counter,
            symbols: spec_symbols(self.symbol_table@),
            future_refs: spec_future_refs(self.future_reference_table@),
            literals: spec_literals(self.literal_constant_table@),
        }
    }
}

impl AssemblerView {
    /// The location counter is inside memory or just behind it, and the
    /// start of the program inside it; every word stands inside memory and
    /// has bytes below 64, and none is negative zero.
    pub open spec fn wf(&self) -> bool {
        &&& self.location_counter <= 4000
        &&& self.program_start < 4000
        &&& spec_emitted_wf(self.words)
        &&& spec_no_negative_zero(self.words)
    }
}

impl Assembler {
    /// The state is well formed.
    pub open spec fn wf(&self) -> bool {
        self@.wf()
    }

    /// An assembler that has seen nothing yet.
    pub fn new() -> (assembler: Assembler)
        ensures
            assembler.wf(),
            assembler@ == (AssemblerView {
                words: Map::empty(),
                program_start: 0,
                location_counter: 0,
                symbols: Map::empty(),
                future_refs: Seq::empty(),
                literals: Seq::empty(),
            }),
    {
        broadcast use vstd::std_specs::hash::group_hash_axioms;

        let assembler = Assembler {
            words: HashMap::new(),
            program_start: 0,
            location_counter: 0,
            symbol_table: Vec::new(),
            future_reference_table: Vec::new(),
            literal_constant_table: Vec::new(),
        };
        assert(assembler@.words =~= Map::empty());
        assert(assembler@.future_refs =~= Seq::empty());
        assert(assembler@.literals =~= Seq::empty());
        assembler
    }

    /// Assembles a program, statement by statement, up to the first that
    /// fails.
    pub fn assemble(&mut self, program: Program) -> (r: Result<(), AssembleError>)
        requires
            old(self).wf(),
        ensures
            final(self).wf(),
            final(self)@ == old(self)@.spec_assemble(program@, program@.len() as int).state,
            r == (match old(self)@.spec_assemble(program@, program@.len() as int).error {
                Some(e) => Err::<(), AssembleError>(e),
                None => Ok(()),
            }),
    {
        let mut i: usize = 0;
        while i < program.statements.len()
            invariant
                i <= program.statements@.len(),
                program@.len() == program.statements@.len(),
                self.wf(),
                old(self)@.spec_assemble(program@, i as int).error is None,
                self@ == old(self)@.spec_assemble(program@, i as int).state,
            decreases program.statements@.len() - i,
        {
            assert(program@[i as int] == program.statements@[i as int]@);
            match self.assemble_statement(&program.statements[i]) {
                Ok(()) => {},
                Err(e) => {
                    proof {
                        lemma_assemble_stops(old(self)@, program@, i + 1, program@.len() as int);
                    }
                    return Err(e);
                },
            }
            i += 1;
        }
        Ok(())
    }

    /// Assembles one statement.
    pub fn assemble_statement(&mut self, statement: &Statement) -> (r: Result<(), AssembleError>)
        requires
            old(self).wf(),
        ensures
            final(self).wf(),
            final(self)@ == old(self)@.spec_statement(statement@).state,
            r == (match old(self)@.spec_statement(statement@).error {
                Some(e) => Err::<(), AssembleError>(e),
                None => Ok(()),
            }),
    {
        match statement {
            Statement::Mix(s) => self.visit_mix_statement(s),
            Statement::Equ(s) => self.visit_equ_statement(s),
            Statement::Orig(s) => self.visit_orig_statement(s),
            Statement::Con(s) => self.visit_con_statement(s),
            Statement::Alf(s) => self.visit_alf_statement(s),
            Statement::End(s) => self.visit_end_statement(s),
        }
    }

    /// The value that the symbol table holds for `name`, if it holds one.
    fn lookup_symbol(&self, name: &str) -> (r: Option<isize>)
        ensures
            r is Some <==> self@.symbols.contains_key(name@),
            r matches Some(v) ==> v == self@.symbols[name@],
    {
        let mut i: usize = self.symbol_table.len();
        assert(self.symbol_table@.take(i as int) =~= self.symbol_table@);
        while i > 0
            invariant
                i <= self.symbol_table@.len(),
                self@.symbols.contains_key(name@) <==> spec_symbols(
                    self.symbol_table@.take(i as int),
                ).contains_key(name@),
                self@.symbols.contains_key(name@) ==> self@.symbols[name@] == spec_symbols(
                    self.symbol_table@.take(i as int),
                )[name@],
            decreases i,
        {
            proof {
                assert(self.symbol_table@.take(i as int).drop_last() =~= self.symbol_table@.take(
                    i - 1,
                ));
                assert(self.symbol_table@.take(i as int).last() == self.symbol_table@[i - 1]);
            }
            i -= 1;
            if same_text(self.symbol_table[i].name.as_str(), name) {
                return Some(self.symbol_table[i].value);
            }
        }
        assert(self.symbol_table@.take(0) =~= Seq::<Binding>::empty());
        None
    }

    /// Whether the literal constants hold the name `name`.
    fn has_literal(&self, name: &str) -> (r: bool)
        ensures
            r == spec_has_literal(self@.literals, name@),
    {
        let mut i: usize = 0;
        while i < self.literal_constant_table.len()
            invariant
                i <= self.literal_constant_table@.len(),
                forall|k: int| 0 <= k < i ==> (#[trigger] self@.literals[k]).0 != name@,
            decreases self.literal_constant_table@.len() - i,
        {
            if same_text(self.literal_constant_table[i].name.as_str(), name) {
                assert(self@.literals[i as int].0 == name@);
                return true;
            }
            i += 1;
        }
        false
    }

    /// Notes a reference to `name` at the location counter.
    fn add_future_ref(&mut self, name: String, patchable: bool)
        requires
            old(self).wf(),
        ensures
            final(self).wf(),
            final(self)@ == old(self)@.spec_add_future_ref(name@, patchable),
    {
        let ghost before = self@.future_refs;
        let future_ref = FutureRef { name, address: self.location_counter, patchable };
        let ghost view = future_ref@;
        self.future_reference_table.push(future_ref);
        assert(self@.future_refs =~= before.push(view));
        assert(self@.words == old(self)@.words);
    }

    /// Notes the literal constant `name`, unless it was noted before.
    fn add_literal(&mut self, name: String, value: isize)
        requires
            old(self).wf(),
        ensures
            final(self).wf(),
            final(self)@ == old(self)@.spec_add_literal(name@, value),
    {
        if !self.has_literal(name.as_str()) {
            let ghost before = self@.literals;
            let ghost n = name@;
            self.literal_constant_table.push(Binding { name, value });
            assert(self@.literals =~= before.push((n, value)));
            assert(self@.words == old(self)@.words);
        }
    }

    /// The value of an expression.
    pub fn get_value(&mut self, node: &Node, patchable: bool) -> (r: Result<isize, AssembleError>)
        requires
            old(self).wf(),
        ensures
            final(self).wf(),
            final(self)@ == old(self)@.spec_eval(node@, patchable).state,
            r == old(self)@.spec_eval(node@, patchable).value,
        decreases node,
    {
        match node {
            Node::Number(number) => self.visit_number(number.value),
            Node::Asterisk(_) => self.visit_asterisk(),
            Node::Symbol(symbol) => self.visit_symbol(symbol, patchable),
            Node::LiteralConstant(literal) => {
                let value = match self.get_value(&literal.value, false) {
                    Ok(value) => value,
                    Err(e) => {
                        return Err(e);
                    },
                };
                self.visit_literal_constant(value, patchable)
            },
            Node::Expression(expression) => {
                let left = match &expression.left {
                    None => 0,
                    Some(left) => match self.get_value(left, false) {
                        Ok(value) => value,
                        Err(e) => {
                            return Err(e);
                        },
                    },
                };
                let right = match self.get_value(&expression.right, false) {
                    Ok(value) => value,
                    Err(e) => {
                        return Err(e);
                    },
                };
                visit_expression(expression.operator, left, right)
            },
        }
    }

    /// The value of a number.
    fn visit_number(&self, value: usize) -> (r: Result<isize, AssembleError>)
        ensures
            r == (if value <= isize::MAX {
                Ok::<isize, AssembleError>(value as isize)
            } else {
                Err(AssembleError::Overflow)
            }),
    {
        if value <= isize::MAX as usize {
            Ok(value as isize)
        } else {
            Err(AssembleError::Overflow)
        }
    }

    /// The value of the asterisk: the location counter.
    fn visit_asterisk(&self) -> (r: Result<isize, AssembleError>)
        requires
            self.wf(),
        ensures
            r == Ok::<isize, AssembleError>(self@.location_counter as isize),
    {
        Ok(self.location_counter as isize)
    }

    /// The value of a symbol: the value that it has; or 0, with a reference
    /// noted, where it has none yet or refers forward to a local symbol.
    fn visit_symbol(&mut self, symbol: &Symbol, patchable: bool) -> (r: Result<isize, AssembleError>)
        requires
            old(self).wf(),
        ensures
            final(self).wf(),
            final(self)@ == old(self)@.spec_eval(NodeView::Symbol(symbol.name@), patchable).state,
            r == old(self)@.spec_eval(NodeView::Symbol(symbol.name@), patchable).value,
    {
        let internal = symbol.internal_name();
        if symbol.is_local_forward_ref() {
            self.add_future_ref(internal, patchable);
            return Ok(0);
        }
        match self.lookup_symbol(internal.as_str()) {
            None => {
                self.add_future_ref(internal, patchable);
                Ok(0)
            },
            Some(value) => Ok(value),
        }
    }

    /// Notes a literal constant with the value `value`, and a reference to
    /// it. Its own value is 0 until END.
    fn visit_literal_constant(&mut self, value: isize, patchable: bool) -> (r: Result<
        isize,
        AssembleError,
    >)
        requires
            old(self).wf(),
        ensures
            final(self).wf(),
            final(self)@ == old(self)@.spec_add_literal(
                spec_literal_name(value),
                value,
            ).spec_add_future_ref(spec_literal_name(value), patchable),
            r == Ok::<isize, AssembleError>(0),
    {
        let name = literal_name(value);
        let again = literal_name(value);
        self.add_literal(name, value);
        self.add_future_ref(again, patchable);
        Ok(0)
    }

    /// The value of an expression that may be absent.
    fn get_optional_value(&mut self, node: &Option<Box<Node>>, patchable: bool, default: isize) -> (r:
        Result<isize, AssembleError>)
        requires
            old(self).wf(),
        ensures
            final(self).wf(),
            final(self)@ == old(self)@.spec_eval_optional(
                spec_optional_node(*node),
                patchable,
                default,
            ).state,
            r == old(self)@.spec_eval_optional(spec_optional_node(*node), patchable, default).value,
    {
        match node {
            None => Ok(default),
            Some(n) => self.get_value(n, patchable),
        }
    }

    /// The value of a W-value: that of the expression of its first part.
    fn visit_w_value(&mut self, w_value: &WValue) -> (r: Result<isize, AssembleError>)
        requires
            old(self).wf(),
        ensures
            final(self).wf(),
            final(self)@ == old(self)@.spec_eval_w_value(w_value@).state,
            r == old(self)@.spec_eval_w_value(w_value@).value,
    {
        if w_value.parts.len() == 0 {
            Ok(0)
        } else {
            assert(w_value@[0] == w_value.parts@[0]@);
            self.get_value(&w_value.parts[0].expression, false)
        }
    }

    /// Whether a reference waits for `name` in the address field of a word
    /// that was emitted.
    fn has_patch(&self, name: &str) -> (r: bool)
        ensures
            r == spec_has_patch(
                self@.words,
                self@.future_refs,
                name@,
                self@.future_refs.len() as int,
            ),
    {
        broadcast use vstd::std_specs::hash::group_hash_axioms;

        let mut found = false;
        let mut i: usize = 0;
        while i < self.future_reference_table.len()
            invariant
                i <= self.future_reference_table@.len(),
                self@.future_refs.len() == self.future_reference_table@.len(),
                found == spec_has_patch(self@.words, self@.future_refs, name@, i as int),
            decreases self.future_reference_table@.len() - i,
        {
            let r = &self.future_reference_table[i];
            assert(self@.future_refs[i as int] == r@);
            if r.patchable && same_text(r.name.as_str(), name) && self.words.contains_key(
                &r.address,
            ) {
                found = true;
            }
            i += 1;
        }
        found
    }

    /// Fills `target` into the address fields that waited for `name`, and
    /// drops the references to `name`.
    fn fixup_future_refs(&mut self, name: &str, target: isize)
        requires
            old(self).wf(),
            spec_has_patch(
                old(self)@.words,
                old(self)@.future_refs,
                name@,
                old(self)@.future_refs.len() as int,
            ) ==> spec_fits_in_address(target as int),
        ensures
            final(self).wf(),
            final(self)@ == (AssemblerView {
                words: spec_patched_words(
                    old(self)@.words,
                    old(self)@.future_refs,
                    name@,
                    target,
                    old(self)@.future_refs.len() as int,
                ),
                future_refs: spec_other_refs(
                    old(self)@.future_refs,
                    name@,
                    old(self)@.future_refs.len() as int,
                ),
                ..old(self)@
            }),
    {
        broadcast use vstd::std_specs::hash::group_hash_axioms;

        let ghost refs = self@.future_refs;
        let ghost words = self@.words;
        let mut others: Vec<FutureRef> = Vec::new();
        let mut i: usize = 0;
        while i < self.future_reference_table.len()
            invariant
                i <= self.future_reference_table@.len(),
                refs.len() == self.future_reference_table@.len(),
                refs == self@.future_refs,
                self.wf(),
                self@.words == spec_patched_words(words, refs, name@, target, i as int),
                spec_future_refs(others@) == spec_other_refs(refs, name@, i as int),
                spec_has_patch(words, refs, name@, refs.len() as int) ==> spec_fits_in_address(
                    target as int,
                ),
                self@.program_start == old(self)@.program_start,
                self@.location_counter == old(self)@.location_counter,
                self@.symbols == old(self)@.symbols,
                self@.literals == old(self)@.literals,
            decreases self.future_reference_table@.len() - i,
        {
            let r = &self.future_reference_table[i];
            assert(refs[i as int] == r@);
            let same = same_text(r.name.as_str(), name);
            if same {
                if r.patchable {
                    let address = r.address;
                    let found = match self.words.get(&address) {
                        Some(word) => Some(*word),
                        None => None,
                    };
                    match found {
                        Some(word) => {
                            proof {
                                lemma_patched_domain(words, refs, name@, target, i as int);
                                assert(words.dom().contains(address));
                                lemma_has_patch(words, refs, name@, i as int, refs.len() as int);
                            }
                            let patched = patch(&word, target);
                            self.words.insert(address, patched);
                        },
                        None => {},
                    }
                }
            } else {
                let ghost before = spec_future_refs(others@);
                let copy = FutureRef {
                    name: r.name.clone(),
                    address: r.address,
                    patchable: r.patchable,
                };
                let ghost view = copy@;
                others.push(copy);
                assert(spec_future_refs(others@) =~= before.push(view));
            }
            i += 1;
        }
        self.future_reference_table = others;
    }

    /// Gives `name` the value `value`, and fills the value into the address
    /// fields that waited for it.
    fn add_symbol(&mut self, name: String, value: isize) -> (r: Result<(), AssembleError>)
        requires
            old(self).wf(),
        ensures
            final(self).wf(),
            final(self)@ == old(self)@.spec_bind(name@, value).state,
            r == (match old(self)@.spec_bind(name@, value).error {
                Some(e) => Err::<(), AssembleError>(e),
                None => Ok(()),
            }),
    {
        if self.has_patch(name.as_str()) && !Address::fits_in_address(value) {
            return Err(AssembleError::ValueOutOfRange);
        }
        self.fixup_future_refs(name.as_str(), value);
        let ghost before = self.symbol_table@;
        let ghost n = name@;
        let ghost fixed = self@;
        self.symbol_table.push(Binding { name, value });
        assert(self.symbol_table@.drop_last() =~= before);
        assert(self@.words == fixed.words);
        Ok(())
    }

    /// Gives the label of a statement the value `value`, where the
    /// statement has a label that is not local.
    fn deal_with_symbol_declaration(&mut self, symbol: &Option<Symbol>, value: isize) -> (r: Result<
        (),
        AssembleError,
    >)
        requires
            old(self).wf(),
        ensures
            final(self).wf(),
            final(self)@ == old(self)@.spec_declare(spec_optional_symbol(*symbol), value).state,
            r == (match old(self)@.spec_declare(spec_optional_symbol(*symbol), value).error {
                Some(e) => Err::<(), AssembleError>(e),
                None => Ok(()),
            }),
    {
        let symbol = match symbol {
            None => {
                return Ok(());
            },
            Some(symbol) => symbol,
        };
        if symbol.is_local() {
            return Ok(());
        }
        if self.lookup_symbol(symbol.name.as_str()).is_some() {
            return Err(AssembleError::DuplicateSymbol);
        }
        self.add_symbol(symbol.name.clone(), value)
    }

    /// Gives the label of a statement the value `value`, where the label
    /// declares a local symbol.
    fn deal_with_local_symbol_declaration(&mut self, symbol: &Option<Symbol>, value: isize) -> (r:
        Result<(), AssembleError>)
        requires
            old(self).wf(),
        ensures
            final(self).wf(),
            final(self)@ == old(self)@.spec_declare_local(
                spec_optional_symbol(*symbol),
                value,
            ).state,
            r == (match old(self)@.spec_declare_local(spec_optional_symbol(*symbol), value).error {
                Some(e) => Err::<(), AssembleError>(e),
                None => Ok(()),
            }),
    {
        let symbol = match symbol {
            None => {
                return Ok(());
            },
            Some(symbol) => symbol,
        };
        if !symbol.is_local_declaration() {
            return Ok(());
        }
        self.add_symbol(symbol.internal_name(), value)
    }

    /// Emits `word` at the location counter and moves the counter on.
    fn emit(&mut self, symbol: &Option<Symbol>, word: Word) -> (r: Result<(), AssembleError>)
        requires
            old(self).wf(),
            word.wf(),
            !spec_negative_zero(word),
        ensures
            final(self).wf(),
            final(self)@ == old(self)@.spec_emit(spec_optional_symbol(*symbol), word).state,
            r == (match old(self)@.spec_emit(spec_optional_symbol(*symbol), word).error {
                Some(e) => Err::<(), AssembleError>(e),
                None => Ok(()),
            }),
    {
        broadcast use vstd::std_specs::hash::group_hash_axioms;

        if self.location_counter >= 4000 {
            return Err(AssembleError::LocationOutOfRange);
        }
        let here = self.location_counter;
        self.words.insert(here, word);
        match self.deal_with_local_symbol_declaration(symbol, here as isize) {
            Ok(()) => {},
            Err(e) => {
                return Err(e);
            },
        }
        self.location_counter = here + 1;
        Ok(())
    }

    /// The instruction of a statement of the machine.
    fn assemble_mix_statement(&mut self, statement: &super::ast::MixStatement) -> (r: Result<
        Instruction,
        AssembleError,
    >)
        requires
            old(self).wf(),
        ensures
            final(self).wf(),
            final(self)@ == old(self)@.spec_instruction(
                statement.op@,
                spec_optional_node(statement.a_part),
                spec_optional_node(statement.index_part),
                spec_optional_node(statement.f_part),
            ).0,
            r == old(self)@.spec_instruction(
                statement.op@,
                spec_optional_node(statement.a_part),
                spec_optional_node(statement.index_part),
                spec_optional_node(statement.f_part),
            ).1,
            r matches Ok(i) ==> i.wf() && !spec_negative_zero(Word::spec_from_instruction(i)),
    {
        let op_info = match lookup(statement.op.as_str()) {
            None => {
                return Err(AssembleError::UnknownOp);
            },
            Some(op_info) => op_info,
        };
        proof {
            lemma_op_codes_are_bytes(statement.op@);
        }
        let address = match self.get_optional_value(&statement.a_part, true, 0) {
            Ok(value) => value,
            Err(e) => {
                return Err(e);
            },
        };
        if !Address::fits_in_address(address) {
            return Err(AssembleError::ValueOutOfRange);
        }
        let address = Address::from_value(address);
        let field_spec = match self.get_optional_value(
            &statement.f_part,
            false,
            op_info.default_fs as isize,
        ) {
            Ok(value) => value,
            Err(e) => {
                return Err(e);
            },
        };
        if field_spec < 0 || field_spec >= 64 {
            return Err(AssembleError::ValueOutOfRange);
        }
        let index_part = match self.get_optional_value(&statement.index_part, false, 0) {
            Ok(value) => value,
            Err(e) => {
                return Err(e);
            },
        };
        if index_part < 0 || index_part >= 64 {
            return Err(AssembleError::ValueOutOfRange);
        }
        Ok(
            Instruction {
                operation: op_info.value,
                address,
                modification: field_spec as u8,
                index_specification: index_part as u8,
            },
        )
    }

    /// Emits the literal constants, one word each, and gives each its
    /// location as its value.
    fn insert_literal_constants(&mut self) -> (r: Result<(), AssembleError>)
        requires
            old(self).wf(),
        ensures
            final(self).wf(),
            r is Ok ==> final(self)@ == (AssemblerView {
                literals: Seq::empty(),
                ..old(self)@.spec_flush_literals(old(self)@.literals.len() as int).state
            }),
            r == (match old(self)@.spec_flush_literals(old(self)@.literals.len() as int).error {
                Some(e) => Err::<(), AssembleError>(e),
                None => Ok(()),
            }),
            r is Err ==> final(self)@ == old(self)@.spec_flush_literals(
                old(self)@.literals.len() as int,
            ).state,
    {
        broadcast use vstd::std_specs::hash::group_hash_axioms;

        let ghost literals = self@.literals;
        let mut i: usize = 0;
        while i < self.literal_constant_table.len()
            invariant
                i <= self.literal_constant_table@.len(),
                literals.len() == self.literal_constant_table@.len(),
                self@.literals == literals,
                old(self)@.literals == literals,
                self.wf(),
                old(self)@.spec_flush_literals(i as int).error is None,
                self@ == old(self)@.spec_flush_literals(i as int).state,
            decreases self.literal_constant_table@.len() - i,
        {
            let value = self.literal_constant_table[i].value;
            let name = self.literal_constant_table[i].name.clone();
            assert(literals[i as int] == (name@, value));
            if !Word::fits_in_word(value) {
                proof {
                    lemma_flush_stops(old(self)@, i + 1, literals.len() as int);
                }
                return Err(AssembleError::ValueOutOfRange);
            }
            if self.location_counter >= 4000 {
                proof {
                    lemma_flush_stops(old(self)@, i + 1, literals.len() as int);
                }
                return Err(AssembleError::LocationOutOfRange);
            }
            let here = self.location_counter;
            self.words.insert(here, Word::from_value(value));
            match self.add_symbol(name, here as isize) {
                Ok(()) => {},
                Err(e) => {
                    proof {
                        lemma_flush_stops(old(self)@, i + 1, literals.len() as int);
                    }
                    return Err(e);
                },
            }
            self.location_counter = here + 1;
            i += 1;
        }
        self.literal_constant_table = Vec::new();
        assert(self@.literals =~= Seq::empty());
        Ok(())
    }

    /// A statement of the machine: its word is emitted.
    fn visit_mix_statement(&mut self, statement: &super::ast::MixStatement) -> (r: Result<
        (),
        AssembleError,
    >)
        requires
            old(self).wf(),
        ensures
            final(self).wf(),
            final(self)@ == old(self)@.spec_statement(
                Statement::Mix(*statement)@,
            ).state,
            r == (match old(self)@.spec_statement(Statement::Mix(*statement)@).error {
                Some(e) => Err::<(), AssembleError>(e),
                None => Ok(()),
            }),
    {
        reveal(AssemblerView::spec_statement);
        let here = self.location_counter as isize;
        match self.deal_with_symbol_declaration(&statement.symbol, here) {
            Ok(()) => {},
            Err(e) => {
                return Err(e);
            },
        }
        let instruction = match self.assemble_mix_statement(statement) {
            Ok(instruction) => instruction,
            Err(e) => {
                return Err(e);
            },
        };
        let word = Word::from_instruction(&instruction);
        self.emit(&statement.symbol, word)
    }

    /// EQU: the label takes the W-value.
    fn visit_equ_statement(&mut self, statement: &super::ast::EquStatement) -> (r: Result<
        (),
        AssembleError,
    >)
        requires
            old(self).wf(),
        ensures
            final(self).wf(),
            final(self)@ == old(self)@.spec_statement(Statement::Equ(*statement)@).state,
            r == (match old(self)@.spec_statement(Statement::Equ(*statement)@).error {
                Some(e) => Err::<(), AssembleError>(e),
                None => Ok(()),
            }),
    {
        reveal(AssemblerView::spec_statement);
        let value = match self.visit_w_value(&statement.address) {
            Ok(value) => value,
            Err(e) => {
                return Err(e);
            },
        };
        let symbol = match &statement.symbol {
            None => {
                return Ok(());
            },
            Some(symbol) => symbol,
        };
        if !symbol.is_local() && self.lookup_symbol(symbol.name.as_str()).is_some() {
            return Err(AssembleError::DuplicateSymbol);
        }
        self.add_symbol(symbol.internal_name(), value)
    }

    /// ORIG: the location counter takes the W-value.
    fn visit_orig_statement(&mut self, statement: &super::ast::OrigStatement) -> (r: Result<
        (),
        AssembleError,
    >)
        requires
            old(self).wf(),
        ensures
            final(self).wf(),
            final(self)@ == old(self)@.spec_statement(Statement::Orig(*statement)@).state,
            r == (match old(self)@.spec_statement(Statement::Orig(*statement)@).error {
                Some(e) => Err::<(), AssembleError>(e),
                None => Ok(()),
            }),
    {
        reveal(AssemblerView::spec_statement);
        let here = self.location_counter as isize;
        match self.deal_with_symbol_declaration(&statement.symbol, here) {
            Ok(()) => {},
            Err(e) => {
                return Err(e);
            },
        }
        let address = match self.visit_w_value(&statement.address) {
            Ok(value) => value,
            Err(e) => {
                return Err(e);
            },
        };
        match self.deal_with_local_symbol_declaration(&statement.symbol, here) {
            Ok(()) => {},
            Err(e) => {
                return Err(e);
            },
        }
        if address < 0 || address > 4000 {
            return Err(AssembleError::LocationOutOfRange);
        }
        self.location_counter = address as usize;
        Ok(())
    }

    /// CON: a word with the W-value is emitted.
    fn visit_con_statement(&mut self, statement: &super::ast::ConStatement) -> (r: Result<
        (),
        AssembleError,
    >)
        requires
            old(self).wf(),
        ensures
            final(self).wf(),
            final(self)@ == old(self)@.spec_statement(Statement::Con(*statement)@).state,
            r == (match old(self)@.spec_statement(Statement::Con(*statement)@).error {
                Some(e) => Err::<(), AssembleError>(e),
                None => Ok(()),
            }),
    {
        reveal(AssemblerView::spec_statement);
        let here = self.location_counter as isize;
        match self.deal_with_symbol_declaration(&statement.symbol, here) {
            Ok(()) => {},
            Err(e) => {
                return Err(e);
            },
        }
        let value = match self.visit_w_value(&statement.address) {
            Ok(value) => value,
            Err(e) => {
                return Err(e);
            },
        };
        if !Word::fits_in_word(value) {
            return Err(AssembleError::ValueOutOfRange);
        }
        self.emit(&statement.symbol, Word::from_value(value))
    }

    /// ALF: a word of the five characters between the quotes is emitted.
    fn visit_alf_statement(&mut self, statement: &super::ast::AlfStatement) -> (r: Result<
        (),
        AssembleError,
    >)
        requires
            old(self).wf(),
        ensures
            final(self).wf(),
            final(self)@ == old(self)@.spec_statement(Statement::Alf(*statement)@).state,
            r == (match old(self)@.spec_statement(Statement::Alf(*statement)@).error {
                Some(e) => Err::<(), AssembleError>(e),
                None => Ok(()),
            }),
    {
        reveal(AssemblerView::spec_statement);
        let here = self.location_counter as isize;
        match self.deal_with_symbol_declaration(&statement.symbol, here) {
            Ok(()) => {},
            Err(e) => {
                return Err(e);
            },
        }
        let inner = alf_text(statement.char_code.as_str());
        match Word::from_char_code(inner.as_str()) {
            Ok(word) => self.emit(&statement.symbol, word),
            Err(_) => Err(AssembleError::BadCharCode),
        }
    }

    /// END: the literal constants are emitted and the start of the program
    /// is set. A reference that still waits for its symbol is an error.
    fn visit_end_statement(&mut self, statement: &super::ast::EndStatement) -> (r: Result<
        (),
        AssembleError,
    >)
        requires
            old(self).wf(),
        ensures
            final(self).wf(),
            final(self)@ == old(self)@.spec_statement(Statement::End(*statement)@).state,
            r == (match old(self)@.spec_statement(Statement::End(*statement)@).error {
                Some(e) => Err::<(), AssembleError>(e),
                None => Ok(()),
            }),
    {
        reveal(AssemblerView::spec_statement);
        match self.insert_literal_constants() {
            Ok(()) => {},
            Err(e) => {
                return Err(e);
            },
        }
        let end = self.location_counter as isize;
        match self.deal_with_symbol_declaration(&statement.symbol, end) {
            Ok(()) => {},
            Err(e) => {
                return Err(e);
            },
        }
        let address = match self.visit_w_value(&statement.address) {
            Ok(value) => value,
            Err(e) => {
                return Err(e);
            },
        };
        match self.deal_with_local_symbol_declaration(&statement.symbol, end) {
            Ok(()) => {},
            Err(e) => {
                return Err(e);
            },
        }
        if address < 0 || address >= 4000 {
            return Err(AssembleError::LocationOutOfRange);
        }
        if self.future_reference_table.len() > 0 {
            return Err(AssembleError::UnresolvedSymbol);
        }
        self.program_start = address as usize;
        Ok(())
    }
}

/// The operation codes of the table are bytes of the machine, and so are
/// its modifications.
pub proof fn lemma_op_codes_are_bytes(name: Seq<char>)
    ensures
        spec_op_info(name) matches Some(info) ==> info.value < 64 && info.default_fs < 64,
{
    lemma_find_op_bytes(name, 0);
}

proof fn lemma_find_op_bytes(name: Seq<char>, from: int)
    requires
        0 <= from,
    ensures
        super::op_codes::spec_find_op(name, from) matches Some(info) ==> info.value < 64
            && info.default_fs < 64,
    decreases super::op_codes::OP_COUNT - from,
{
    reveal(super::op_codes::spec_find_op);
    if from < super::op_codes::OP_COUNT {
        lemma_find_op_bytes(name, from + 1);
    }
}

/// Once a statement has failed, the statements behind it are not
/// assembled.
pub proof fn lemma_assemble_stops(
    view: AssemblerView,
    statements: Seq<StatementView>,
    at: int,
    upto: int,
)
    requires
        0 <= at <= upto,
        view.spec_assemble(statements, at).error is Some,
    ensures
        view.spec_assemble(statements, upto) == view.spec_assemble(statements, at),
    decreases upto - at,
{
    if at < upto {
        lemma_assemble_stops(view, statements, at, upto - 1);
    }
}

/// Once a literal constant has failed, those behind it are not emitted.
pub proof fn lemma_flush_stops(view: AssemblerView, at: int, upto: int)
    requires
        0 <= at <= upto,
        view.spec_flush_literals(at).error is Some,
    ensures
        view.spec_flush_literals(upto) == view.spec_flush_literals(at),
    decreases upto - at,
{
    if at < upto {
        lemma_flush_stops(view, at, upto - 1);
    }
}

/// What an operator makes of two values.
pub fn visit_expression(operator: Token, left: isize, right: isize) -> (r: Result<
    isize,
    AssembleError,
>)
    ensures
        r == spec_apply(operator, left, right),
{
    match operator {
        Token::PLUS => match left.checked_add(right) {
            Some(v) => Ok(v),
            None => Err(AssembleError::Overflow),
        },
        Token::MINUS => match left.checked_sub(right) {
            Some(v) => Ok(v),
            None => Err(AssembleError::Overflow),
        },
        Token::ASTERISK => match left.checked_mul(right) {
            Some(v) => Ok(v),
            None => Err(AssembleError::Overflow),
        },
        Token::DIVIDE => if right == 0 {
            Err(AssembleError::DivisionByZero)
        } else {
            match left.checked_div(right) {
                Some(v) => Ok(v),
                None => Err(AssembleError::Overflow),
            }
        },
        Token::FIELDSIGN => match left.checked_mul(8) {
            Some(eight) => match eight.checked_add(right) {
                Some(v) => Ok(v),
                None => Err(AssembleError::Overflow),
            },
            None => Err(AssembleError::Overflow),
        },
        _ => Err(AssembleError::UnsupportedOp),
    }
}

/// The word `word` with `target` in its address field.
pub fn patch(word: &Word, target: isize) -> (patched: Word)
    requires
        spec_fits_in_address(target as int),
    ensures
        patched == spec_patch(*word, target),
        word.wf() ==> patched.wf(),
        !spec_negative_zero(patched),
{
    let address = Address::from_value(target);
    let patched = Word {
        sign: address.sign,
        bytes: [address.bytes[0], address.bytes[1], word.bytes[2], word.bytes[3], word.bytes[4]],
    };
    assert(patched.bytes =~= spec_patch(*word, target).bytes);
    patched
}

/// The name under which a literal constant with the value `value` is kept.
pub fn literal_name(value: isize) -> (name: String)
    ensures
        name@ == spec_literal_name(value),
{
    let mut name = String::from_str("__literal:");
    name.append(decimal_text(value as i64).as_str());
    name
}

/// The text of an ALF: the string literal without its two quotes.
pub fn alf_text(char_code: &str) -> (text: String)
    ensures
        text@ == spec_alf_text(char_code@),
{
    let chars = chars_of(char_code);
    if chars.len() >= 2 {
        crate::mixal::lexer::text_between(&chars, 1, chars.len() - 1)
    } else {
        proof {
            assert(spec_alf_text(char_code@) =~= Seq::<char>::empty());
        }
        String::new()
    }
}

} // verus!
