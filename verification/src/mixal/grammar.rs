//! The grammar of MIXAL, as functions from a sequence of lexemes and a
//! position in it to what stands there.
//!
//! A line is `[label] OP [operands]`. Blanks before the label do not count:
//! the first word of a line is its label unless it is the mnemonic of an
//! operation or of a pseudo-operation. The line ends with a line end or
//! with the end of the text.

use vstd::prelude::*;

use super::ast::{NodeView, StatementView, WValuePartView};
use super::lexer::{LexemeView, Token};
use super::op_codes::{spec_is_pseudo_op, spec_op_info};

verus! {

/// What the parser missed.
#[derive(Debug, Copy, Clone, PartialEq, Eq, Structural)]
pub enum ParseErrorKind {
    /// A line does not go on with the mnemonic of an operation.
    ExpectedOpCode,
    /// The mnemonic is that of no operation.
    UnknownOpCode,
    /// Something follows the operands.
    ExpectedEndOfLine,
    /// EQU, ORIG, CON or END without a W-value.
    ExpectedWValue,
    /// ALF without a string literal.
    ExpectedStringLiteral,
    /// No expression behind a comma, a parenthesis or a literal quote.
    ExpectedExpression,
    /// No atom behind an operator.
    ExpectedAtom,
    /// A literal constant without its closing `=`.
    ExpectedLiteralQuote,
    /// A field without its closing parenthesis.
    ExpectedRightParen,
    /// A number that the machine on which the assembler runs cannot hold.
    NumberTooLarge,
}

/// An error of the parser: what it missed, and the line and column at
/// which the lexeme begins at which it missed it.
#[derive(Debug, Copy, Clone, PartialEq, Eq, Structural)]
pub struct ParseError {
    pub line: usize,
    pub col: usize,
    pub kind: ParseErrorKind,
}

/// The words for what the parser missed.
pub open spec fn spec_message(kind: ParseErrorKind) -> Seq<char> {
    match kind {
        ParseErrorKind::ExpectedOpCode => "expected op code"@,
        ParseErrorKind::UnknownOpCode => "unknown op code"@,
        ParseErrorKind::ExpectedEndOfLine => "expected EOL"@,
        ParseErrorKind::ExpectedWValue => "expected W-value"@,
        ParseErrorKind::ExpectedStringLiteral => "expected string literal"@,
        ParseErrorKind::ExpectedExpression => "expected expression"@,
        ParseErrorKind::ExpectedAtom => "expected atom after operator"@,
        ParseErrorKind::ExpectedLiteralQuote => "expected closing literal quote"@,
        ParseErrorKind::ExpectedRightParen => "expected closing rparen"@,
        ParseErrorKind::NumberTooLarge => "number too large"@,
    }
}

impl ParseError {
    /// The words for what the parser missed.
    pub fn message(&self) -> (text: &'static str)
        ensures
            text@ == spec_message(self.kind),
    {
        match self.kind {
            ParseErrorKind::ExpectedOpCode => "expected op code",
            ParseErrorKind::UnknownOpCode => "unknown op code",
            ParseErrorKind::ExpectedEndOfLine => "expected EOL",
            ParseErrorKind::ExpectedWValue => "expected W-value",
            ParseErrorKind::ExpectedStringLiteral => "expected string literal",
            ParseErrorKind::ExpectedExpression => "expected expression",
            ParseErrorKind::ExpectedAtom => "expected atom after operator",
            ParseErrorKind::ExpectedLiteralQuote => "expected closing literal quote",
            ParseErrorKind::ExpectedRightParen => "expected closing rparen",
            ParseErrorKind::NumberTooLarge => "number too large",
        }
    }
}

/// The kind of the lexeme at `pos`; behind the last lexeme, EOF.
pub open spec fn spec_token(t: Seq<LexemeView>, pos: int) -> Token {
    if 0 <= pos < t.len() {
        t[pos].token
    } else {
        Token::EOF
    }
}

/// The text of the lexeme at `pos`.
pub open spec fn spec_literal(t: Seq<LexemeView>, pos: int) -> Seq<char> {
    if 0 <= pos < t.len() {
        t[pos].literal
    } else {
        Seq::empty()
    }
}

/// The line at which the lexeme at `pos` begins: that at which the lexer
/// stood when it had read the lexeme before it; line 1 for the first.
pub open spec fn spec_line_before(t: Seq<LexemeView>, pos: int) -> nat {
    if pos <= 0 || t.len() == 0 {
        1
    } else if pos <= t.len() {
        t[pos - 1].line
    } else {
        t.last().line
    }
}

/// The column at which the lexeme at `pos` begins: that at which the lexer
/// stood when it had read the lexeme before it; column 0 for the first.
pub open spec fn spec_col_before(t: Seq<LexemeView>, pos: int) -> nat {
    if pos <= 0 || t.len() == 0 {
        0
    } else if pos <= t.len() {
        t[pos - 1].col
    } else {
        t.last().col
    }
}

/// The error of kind `kind` at the lexeme at `pos`: it names the line and
/// the column at which that lexeme begins. A statement that ends too early
/// is an error at its line end, which begins on the line of the statement.
pub open spec fn spec_error(t: Seq<LexemeView>, pos: int, kind: ParseErrorKind) -> ParseError {
    ParseError {
        line: spec_line_before(t, pos) as usize,
        col: spec_col_before(t, pos) as usize,
        kind,
    }
}

/// The value of a digit; of another character, zero.
pub open spec fn spec_digit_value(ch: char) -> nat {
    if '0' <= ch && ch <= '9' {
        (ch as u32 - '0' as u32) as nat
    } else {
        0
    }
}

/// The number that a sequence of digits stands for.
pub open spec fn spec_number_value(digits: Seq<char>) -> nat
    decreases digits.len(),
{
    if digits.len() == 0 {
        0
    } else {
        spec_number_value(digits.drop_last()) * 10 + spec_digit_value(digits.last())
    }
}

/// The position behind one WS lexeme, if one stands at `pos`.
pub open spec fn spec_swallow_whitespace(t: Seq<LexemeView>, pos: int) -> int {
    if spec_token(t, pos) == Token::WS {
        pos + 1
    } else {
        pos
    }
}

/// An atom: a number, a symbol or the asterisk.
pub open spec fn spec_parse_atom(t: Seq<LexemeView>, pos: int) -> Result<
    Option<(NodeView, int)>,
    ParseError,
> {
    match spec_token(t, pos) {
        Token::NUMBER => if spec_number_value(spec_literal(t, pos)) <= usize::MAX {
            Ok(Some((NodeView::Number(spec_number_value(spec_literal(t, pos))), pos + 1)))
        } else {
            Err(spec_error(t, pos, ParseErrorKind::NumberTooLarge))
        },
        Token::STRING => Ok(Some((NodeView::Symbol(spec_literal(t, pos)), pos + 1))),
        Token::ASTERISK => Ok(Some((NodeView::Asterisk, pos + 1))),
        _ => Ok(None),
    }
}

/// Whether a lexeme of this kind stands between two operands.
pub open spec fn spec_is_binary_operator(token: Token) -> bool {
    token == Token::PLUS || token == Token::MINUS || token == Token::ASTERISK || token
        == Token::DIVIDE || token == Token::SHIFTDIVIDE || token == Token::FIELDSIGN
}

/// The rest of an expression behind `head`: operators and atoms in turn,
/// each operator applied to all that stands left of it.
pub open spec fn spec_parse_expression_tail(t: Seq<LexemeView>, pos: int, head: NodeView)
    -> Result<(NodeView, int), ParseError>
    decreases t.len() - pos,
{
    if 0 <= pos < t.len() && spec_is_binary_operator(spec_token(t, pos)) {
        match spec_parse_atom(t, pos + 1) {
            Err(e) => Err(e),
            Ok(None) => Err(spec_error(t, pos + 1, ParseErrorKind::ExpectedAtom)),
            Ok(Some((atom, next))) => spec_parse_expression_tail(
                t,
                pos + 2,
                NodeView::Expression(Some(Box::new(head)), spec_token(t, pos), Box::new(atom)),
            ),
        }
    } else {
        Ok((head, pos))
    }
}

/// An expression: an atom, or a sign and an atom, and then the rest.
pub open spec fn spec_parse_expression(t: Seq<LexemeView>, pos: int) -> Result<
    Option<(NodeView, int)>,
    ParseError,
> {
    match spec_parse_atom(t, pos) {
        Err(e) => Err(e),
        Ok(Some((atom, next))) => match spec_parse_expression_tail(t, pos + 1, atom) {
            Err(e) => Err(e),
            Ok(found) => Ok(Some(found)),
        },
        Ok(None) => if spec_token(t, pos) == Token::PLUS || spec_token(t, pos) == Token::MINUS {
            match spec_parse_atom(t, pos + 1) {
                Err(e) => Err(e),
                Ok(None) => Err(spec_error(t, pos + 1, ParseErrorKind::ExpectedAtom)),
                Ok(Some((atom, next))) => match spec_parse_expression_tail(
                    t,
                    pos + 2,
                    NodeView::Expression(None, spec_token(t, pos), Box::new(atom)),
                ) {
                    Err(e) => Err(e),
                    Ok(found) => Ok(Some(found)),
                },
            }
        } else {
            Ok(None)
        },
    }
}

/// An expression that must be there.
pub open spec fn spec_require_expression(t: Seq<LexemeView>, pos: int) -> Result<
    (NodeView, int),
    ParseError,
> {
    match spec_parse_expression(t, pos) {
        Err(e) => Err(e),
        Ok(None) => Err(spec_error(t, pos, ParseErrorKind::ExpectedExpression)),
        Ok(Some(found)) => Ok(found),
    }
}

/// The A-part of a statement: an expression, or a literal constant between
/// two `=`, or nothing.
pub open spec fn spec_parse_a_part(t: Seq<LexemeView>, pos: int) -> Result<
    (Option<NodeView>, int),
    ParseError,
> {
    match spec_parse_expression(t, pos) {
        Err(e) => Err(e),
        Ok(Some((node, next))) => Ok((Some(node), next)),
        Ok(None) => if spec_token(t, pos) == Token::LITERALQUOTE {
            match spec_require_expression(t, pos + 1) {
                Err(e) => Err(e),
                Ok((node, next)) => if spec_token(t, next) == Token::LITERALQUOTE {
                    Ok((Some(NodeView::LiteralConstant(Box::new(node))), next + 1))
                } else {
                    Err(spec_error(t, next, ParseErrorKind::ExpectedLiteralQuote))
                },
            }
        } else {
            Ok((None, pos))
        },
    }
}

/// The index part of a statement: a comma and an expression, or nothing.
pub open spec fn spec_parse_index_part(t: Seq<LexemeView>, pos: int) -> Result<
    (Option<NodeView>, int),
    ParseError,
> {
    if spec_token(t, pos) == Token::COMMA {
        match spec_require_expression(t, pos + 1) {
            Err(e) => Err(e),
            Ok((node, next)) => Ok((Some(node), next)),
        }
    } else {
        Ok((None, pos))
    }
}

/// The F-part of a statement: an expression in parentheses, or nothing.
pub open spec fn spec_parse_f_part(t: Seq<LexemeView>, pos: int) -> Result<
    (Option<NodeView>, int),
    ParseError,
> {
    if spec_token(t, pos) == Token::LPAREN {
        match spec_require_expression(t, pos + 1) {
            Err(e) => Err(e),
            Ok((node, next)) => if spec_token(t, next) == Token::RPAREN {
                Ok((Some(node), next + 1))
            } else {
                Err(spec_error(t, next, ParseErrorKind::ExpectedRightParen))
            },
        }
    } else {
        Ok((None, pos))
    }
}

/// One part of a W-value: an expression and, if it is there, an F-part.
pub open spec fn spec_parse_w_value_part(t: Seq<LexemeView>, pos: int) -> Result<
    Option<(WValuePartView, int)>,
    ParseError,
> {
    match spec_parse_expression(t, pos) {
        Err(e) => Err(e),
        Ok(None) => Ok(None),
        Ok(Some((expression, next))) => match spec_parse_f_part(t, next) {
            Err(e) => Err(e),
            Ok((f_part, after)) => Ok(Some((WValuePartView { expression, f_part }, after))),
        },
    }
}

/// The rest of a W-value behind `parts`: commas and parts in turn.
pub open spec fn spec_parse_w_value_tail(t: Seq<LexemeView>, pos: int, parts: Seq<WValuePartView>)
    -> Result<(Seq<WValuePartView>, int), ParseError>
    decreases t.len() - pos,
{
    if 0 <= pos < t.len() && spec_token(t, pos) == Token::COMMA {
        match spec_parse_w_value_part(t, pos + 1) {
            Err(e) => Err(e),
            Ok(None) => Err(spec_error(t, pos + 1, ParseErrorKind::ExpectedExpression)),
            Ok(Some((part, next))) => {
                proof {
                    lemma_w_value_part_advances(t, pos + 1);
                }
                spec_parse_w_value_tail(t, next, parts.push(part))
            },
        }
    } else {
        Ok((parts, pos))
    }
}

/// A W-value: one part, and then the rest; or nothing.
pub open spec fn spec_parse_w_value(t: Seq<LexemeView>, pos: int) -> Result<
    Option<(Seq<WValuePartView>, int)>,
    ParseError,
> {
    match spec_parse_w_value_part(t, pos) {
        Err(e) => Err(e),
        Ok(None) => Ok(None),
        Ok(Some((part, next))) => match spec_parse_w_value_tail(t, next, seq![part]) {
            Err(e) => Err(e),
            Ok(found) => Ok(Some(found)),
        },
    }
}

/// A W-value that must be there.
pub open spec fn spec_require_w_value(t: Seq<LexemeView>, pos: int) -> Result<
    (Seq<WValuePartView>, int),
    ParseError,
> {
    match spec_parse_w_value(t, pos) {
        Err(e) => Err(e),
        Ok(None) => Err(spec_error(t, pos, ParseErrorKind::ExpectedWValue)),
        Ok(Some(found)) => Ok(found),
    }
}

/// The end of a statement: blanks, if any, and then a line end, which is
/// passed, or the end of the text.
pub open spec fn spec_parse_end_of_line(t: Seq<LexemeView>, pos: int) -> Result<int, ParseError> {
    let at = spec_swallow_whitespace(t, pos);
    if spec_token(t, at) == Token::EOL {
        Ok(at + 1)
    } else if spec_token(t, at) == Token::EOF {
        Ok(at)
    } else {
        Err(spec_error(t, at, ParseErrorKind::ExpectedEndOfLine))
    }
}

/// Whether `name` is the mnemonic of an operation or of a pseudo-operation.
pub open spec fn spec_is_mnemonic(name: Seq<char>) -> bool {
    spec_is_pseudo_op(name) || spec_op_info(name) is Some
}

/// The position of the label of the statement that starts at `pos`, if it
/// has one: the first word, where that is no mnemonic.
pub open spec fn spec_label(t: Seq<LexemeView>, pos: int) -> Option<Seq<char>> {
    let at = spec_swallow_whitespace(t, pos);
    if spec_token(t, at) == Token::STRING && !spec_is_mnemonic(spec_literal(t, at)) {
        Some(spec_literal(t, at))
    } else {
        None
    }
}

/// The position of the mnemonic of the statement that starts at `pos`:
/// behind the label and the blanks around it.
pub open spec fn spec_mnemonic_position(t: Seq<LexemeView>, pos: int) -> int {
    let at = spec_swallow_whitespace(t, pos);
    if spec_label(t, pos) is Some {
        spec_swallow_whitespace(t, at + 1)
    } else {
        at
    }
}

/// The operands of a statement of the machine, from `pos` on, and the end
/// of the line.
pub open spec fn spec_parse_mix_operands(
    t: Seq<LexemeView>,
    pos: int,
    symbol: Option<Seq<char>>,
    op: Seq<char>,
) -> Result<(StatementView, int), ParseError> {
    match spec_parse_a_part(t, spec_swallow_whitespace(t, pos)) {
        Err(e) => Err(e),
        Ok((a_part, after_a)) => match spec_parse_index_part(t, after_a) {
            Err(e) => Err(e),
            Ok((index_part, after_index)) => match spec_parse_f_part(t, after_index) {
                Err(e) => Err(e),
                Ok((f_part, after_f)) => match spec_parse_end_of_line(t, after_f) {
                    Err(e) => Err(e),
                    Ok(next) => Ok(
                        (StatementView::Mix { symbol, op, a_part, index_part, f_part }, next),
                    ),
                },
            },
        },
    }
}

/// The W-value of a pseudo-operation, from `pos` on, and the end of the
/// line.
pub open spec fn spec_parse_w_operand(t: Seq<LexemeView>, pos: int) -> Result<
    (Seq<WValuePartView>, int),
    ParseError,
> {
    match spec_require_w_value(t, spec_swallow_whitespace(t, pos)) {
        Err(e) => Err(e),
        Ok((address, after)) => match spec_parse_end_of_line(t, after) {
            Err(e) => Err(e),
            Ok(next) => Ok((address, next)),
        },
    }
}

/// The string literal of ALF, from `pos` on, and the end of the line.
pub open spec fn spec_parse_alf_operand(t: Seq<LexemeView>, pos: int) -> Result<
    (Seq<char>, int),
    ParseError,
> {
    let at = spec_swallow_whitespace(t, pos);
    if spec_token(t, at) == Token::STRINGLITERAL {
        match spec_parse_end_of_line(t, at + 1) {
            Err(e) => Err(e),
            Ok(next) => Ok((spec_literal(t, at), next)),
        }
    } else {
        Err(spec_error(t, at, ParseErrorKind::ExpectedStringLiteral))
    }
}

/// The statement that starts at `pos`, and the position behind its line.
pub open spec fn spec_parse_statement(t: Seq<LexemeView>, pos: int) -> Result<
    (StatementView, int),
    ParseError,
> {
    let symbol = spec_label(t, pos);
    let at = spec_mnemonic_position(t, pos);
    let op = spec_literal(t, at);
    if spec_token(t, at) != Token::STRING {
        Err(spec_error(t, at, ParseErrorKind::ExpectedOpCode))
    } else if op == "ALF"@ {
        match spec_parse_alf_operand(t, at + 1) {
            Err(e) => Err(e),
            Ok((char_code, next)) => Ok((StatementView::Alf { symbol, char_code }, next)),
        }
    } else if spec_is_pseudo_op(op) {
        match spec_parse_w_operand(t, at + 1) {
            Err(e) => Err(e),
            Ok((address, next)) => Ok(
                (
                    if op == "EQU"@ {
                        StatementView::Equ { symbol, address }
                    } else if op == "ORIG"@ {
                        StatementView::Orig { symbol, address }
                    } else if op == "CON"@ {
                        StatementView::Con { symbol, address }
                    } else {
                        StatementView::End { symbol, address }
                    },
                    next,
                ),
            ),
        }
    } else if spec_op_info(op) is None {
        Err(spec_error(t, at, ParseErrorKind::UnknownOpCode))
    } else {
        spec_parse_mix_operands(t, at + 1, symbol, op)
    }
}

/// The position of the first lexeme from `pos` on that does not belong to
/// an empty line.
pub open spec fn spec_skip_empty_lines(t: Seq<LexemeView>, pos: int) -> int
    decreases t.len() - pos,
{
    let at = spec_swallow_whitespace(t, pos);
    if 0 <= pos && at < t.len() && spec_token(t, at) == Token::EOL {
        spec_skip_empty_lines(t, at + 1)
    } else if spec_token(t, at) == Token::EOF {
        at
    } else {
        pos
    }
}

/// The statements from `pos` on, behind those in `done`, up to the end of
/// the text or the first error.
pub open spec fn spec_parse_statements(t: Seq<LexemeView>, pos: int, done: Seq<StatementView>)
    -> Result<Seq<StatementView>, ParseError>
    decreases t.len() - pos,
{
    let at = spec_skip_empty_lines(t, pos);
    if pos < 0 || pos > t.len() || spec_token(t, at) == Token::EOF {
        Ok(done)
    } else {
        match spec_parse_statement(t, at) {
            Err(e) => Err(e),
            Ok((statement, next)) => {
                proof {
                    lemma_skip_empty_lines_advances(t, pos);
                    lemma_statement_advances(t, at);
                }
                spec_parse_statements(t, next, done.push(statement))
            },
        }
    }
}

/// The program that a sequence of lexemes stands for: its statements, line
/// by line, empty lines left out.
pub open spec fn spec_parse_program(t: Seq<LexemeView>) -> Result<Seq<StatementView>, ParseError> {
    spec_parse_statements(t, 0, Seq::empty())
}

/// An atom is one lexeme.
pub proof fn lemma_atom_advances(t: Seq<LexemeView>, pos: int)
    ensures
        spec_parse_atom(t, pos) matches Ok(Some(found)) ==> found.1 == pos + 1 && 0 <= pos
            < t.len(),
{
}

/// The rest of an expression ends no earlier than it starts.
pub proof fn lemma_expression_tail_advances(t: Seq<LexemeView>, pos: int, head: NodeView)
    ensures
        spec_parse_expression_tail(t, pos, head) matches Ok(found) ==> found.1 >= pos && (pos
            <= t.len() ==> found.1 <= t.len()),
    decreases t.len() - pos,
{
    if 0 <= pos < t.len() && spec_is_binary_operator(spec_token(t, pos)) {
        match spec_parse_atom(t, pos + 1) {
            Ok(Some((atom, next))) => {
                lemma_expression_tail_advances(
                    t,
                    pos + 2,
                    NodeView::Expression(Some(Box::new(head)), spec_token(t, pos), Box::new(atom)),
                );
            },
            _ => {},
        }
    }
}

/// An expression holds at least one lexeme.
pub proof fn lemma_expression_advances(t: Seq<LexemeView>, pos: int)
    ensures
        spec_parse_expression(t, pos) matches Ok(Some(found)) ==> pos < found.1 <= t.len() && 0
            <= pos < t.len(),
{
    match spec_parse_atom(t, pos) {
        Ok(Some((atom, next))) => {
            lemma_expression_tail_advances(t, pos + 1, atom);
        },
        Ok(None) => {
            if spec_token(t, pos) == Token::PLUS || spec_token(t, pos) == Token::MINUS {
                match spec_parse_atom(t, pos + 1) {
                    Ok(Some((atom, next))) => {
                        lemma_expression_tail_advances(
                            t,
                            pos + 2,
                            NodeView::Expression(None, spec_token(t, pos), Box::new(atom)),
                        );
                    },
                    _ => {},
                }
            }
        },
        _ => {},
    }
}

/// The A-part, the index part and the F-part end no earlier than they
/// start.
pub proof fn lemma_parts_advance(t: Seq<LexemeView>, pos: int)
    ensures
        spec_parse_a_part(t, pos) matches Ok(found) ==> found.1 >= pos && (pos <= t.len()
            ==> found.1 <= t.len()),
        spec_parse_index_part(t, pos) matches Ok(found) ==> found.1 >= pos && (pos <= t.len()
            ==> found.1 <= t.len()),
        spec_parse_f_part(t, pos) matches Ok(found) ==> found.1 >= pos && (pos <= t.len()
            ==> found.1 <= t.len()),
{
    lemma_expression_advances(t, pos);
    lemma_expression_advances(t, pos + 1);
}

/// A part of a W-value holds at least one lexeme.
pub proof fn lemma_w_value_part_advances(t: Seq<LexemeView>, pos: int)
    ensures
        spec_parse_w_value_part(t, pos) matches Ok(Some(found)) ==> pos < found.1 <= t.len() && 0
            <= pos < t.len(),
{
    lemma_expression_advances(t, pos);
    match spec_parse_expression(t, pos) {
        Ok(Some((expression, next))) => {
            lemma_parts_advance(t, next);
        },
        _ => {},
    }
}

/// The rest of a W-value ends no earlier than it starts.
pub proof fn lemma_w_value_tail_advances(t: Seq<LexemeView>, pos: int, parts: Seq<WValuePartView>)
    ensures
        spec_parse_w_value_tail(t, pos, parts) matches Ok(found) ==> found.1 >= pos && (pos
            <= t.len() ==> found.1 <= t.len()),
    decreases t.len() - pos,
{
    if 0 <= pos < t.len() && spec_token(t, pos) == Token::COMMA {
        lemma_w_value_part_advances(t, pos + 1);
        match spec_parse_w_value_part(t, pos + 1) {
            Ok(Some((part, next))) => {
                lemma_w_value_tail_advances(t, next, parts.push(part));
            },
            _ => {},
        }
    }
}

/// The end of a line ends no earlier than it starts.
pub proof fn lemma_end_of_line_advances(t: Seq<LexemeView>, pos: int)
    ensures
        spec_parse_end_of_line(t, pos) matches Ok(next) ==> next >= pos && (pos <= t.len()
            ==> next <= t.len()),
{
}

/// The operands of a statement end no earlier than they start.
pub proof fn lemma_operands_advance(
    t: Seq<LexemeView>,
    pos: int,
    symbol: Option<Seq<char>>,
    op: Seq<char>,
)
    ensures
        spec_parse_mix_operands(t, pos, symbol, op) matches Ok(found) ==> found.1 >= pos && (pos
            <= t.len() ==> found.1 <= t.len()),
        spec_parse_w_operand(t, pos) matches Ok(found) ==> found.1 >= pos && (pos <= t.len()
            ==> found.1 <= t.len()),
        spec_parse_alf_operand(t, pos) matches Ok(found) ==> found.1 >= pos && (pos <= t.len()
            ==> found.1 <= t.len()),
{
    let from = spec_swallow_whitespace(t, pos);
    lemma_parts_advance(t, from);
    match spec_parse_a_part(t, from) {
        Ok((a_part, after_a)) => {
            lemma_parts_advance(t, after_a);
            match spec_parse_index_part(t, after_a) {
                Ok((index_part, after_index)) => {
                    lemma_parts_advance(t, after_index);
                    match spec_parse_f_part(t, after_index) {
                        Ok((f_part, after_f)) => {
                            lemma_end_of_line_advances(t, after_f);
                        },
                        _ => {},
                    }
                },
                _ => {},
            }
        },
        _ => {},
    }
    lemma_w_value_part_advances(t, from);
    match spec_parse_w_value_part(t, from) {
        Ok(Some((part, next))) => {
            lemma_w_value_tail_advances(t, next, seq![part]);
            match spec_parse_w_value_tail(t, next, seq![part]) {
                Ok((parts, after)) => {
                    lemma_end_of_line_advances(t, after);
                },
                _ => {},
            }
        },
        _ => {},
    }
    lemma_end_of_line_advances(t, from + 1);
}

/// A statement holds at least one lexeme.
pub proof fn lemma_statement_advances(t: Seq<LexemeView>, pos: int)
    requires
        0 <= pos,
    ensures
        spec_parse_statement(t, pos) matches Ok(found) ==> pos < found.1 <= t.len(),
{
    let at = spec_mnemonic_position(t, pos);
    assert(at >= pos);
    if spec_token(t, at) == Token::STRING {
        assert(at < t.len());
        lemma_operands_advance(t, at + 1, spec_label(t, pos), spec_literal(t, at));
    }
}

/// Empty lines end no earlier than they start.
pub proof fn lemma_skip_empty_lines_advances(t: Seq<LexemeView>, pos: int)
    requires
        0 <= pos,
    ensures
        spec_skip_empty_lines(t, pos) >= pos,
        pos <= t.len() ==> spec_skip_empty_lines(t, pos) <= t.len(),
    decreases t.len() - pos,
{
    let at = spec_swallow_whitespace(t, pos);
    if at < t.len() && spec_token(t, at) == Token::EOL {
        lemma_skip_empty_lines_advances(t, at + 1);
    }
}

} // verus!
