//! The parser: from lexemes to statements.

use vstd::prelude::*;

use super::ast::{
    spec_optional_node, spec_optional_symbol, AlfStatement, Asterisk, ConStatement, EndStatement,
    EquStatement, Expression, LiteralConstant, MixStatement, Node, NodeView, Number, OrigStatement,
    Program, Statement, StatementView, Symbol, WValue, WValuePart, WValuePartView};
use super::grammar::{
    spec_error, spec_is_mnemonic, spec_literal,
    spec_digit_value, spec_number_value, spec_parse_a_part, spec_parse_alf_operand,
    spec_parse_atom, spec_parse_end_of_line, spec_parse_expression, spec_parse_expression_tail,
    spec_parse_f_part, spec_parse_index_part, spec_parse_mix_operands, spec_parse_program,
    spec_parse_statement, spec_parse_statements, spec_parse_w_operand, spec_parse_w_value,
    spec_parse_w_value_part, spec_parse_w_value_tail, spec_require_expression, spec_skip_empty_lines, spec_swallow_whitespace, spec_token, ParseError,
    ParseErrorKind};
use super::lexer::{
    lemma_scan_advances, spec_scan_at, Lexeme, LexemeView, Lexer, Token};
use super::lexer::{spec_col_at, spec_line_at};
use super::op_codes::{is_pseudo_op, lookup};
use crate::mix::text::{chars_of, same_text};

verus! {

/// The lexemes of a text from `pos` on, up to and with the first EOF.
pub open spec fn spec_lexemes(s: Seq<char>, pos: int) -> Seq<LexemeView>
    decreases s.len() - pos,
{
    let scanned = spec_scan_at(s, pos);
    let lexeme = LexemeView {
        token: scanned.token,
        literal: scanned.literal,
        line: spec_line_at(s, scanned.end),
        col: spec_col_at(s, scanned.end),
    };
    if scanned.token == Token::EOF || pos < 0 || pos >= s.len() {
        seq![lexeme]
    } else {
        proof {
            lemma_scan_advances(s, pos);
        }
        seq![lexeme] + spec_lexemes(s, scanned.end)
    }
}

/// The views of a sequence of lexemes.
pub open spec fn spec_lexeme_views(lexemes: Seq<Lexeme>) -> Seq<LexemeView> {
    Seq::new(lexemes.len(), |i: int| lexemes[i]@)
}

/// The value of a digit; of another character, zero.
pub fn digit_value(ch: char) -> (value: usize)
    ensures
        value == spec_digit_value(ch),
        value <= 9,
{
    if '0' <= ch && ch <= '9' {
        (ch as u32 - '0' as u32) as usize
    } else {
        0
    }
}

/// The number that a text of digits stands for, or `None` where it is above
/// the largest `usize`.
pub fn parse_number(text: &str) -> (r: Option<usize>)
    ensures
        r == (if spec_number_value(text@) <= usize::MAX {
            Some(spec_number_value(text@) as usize)
        } else {
            None::<usize>
        }),
{
    let digits = chars_of(text);
    let mut value: usize = 0;
    let mut i: usize = 0;
    while i < digits.len()
        invariant
            i <= digits@.len(),
            digits@ == text@,
            value == spec_number_value(digits@.take(i as int)),
        decreases digits@.len() - i,
    {
        let digit = digit_value(digits[i]);
        proof {
            assert(digits@.take(i + 1).drop_last() =~= digits@.take(i as int));
            assert(digits@.take(i + 1).last() == digits@[i as int]);
            lemma_number_grows(digits@, i + 1);
            assert(spec_number_value(digits@.take(i + 1)) == value * 10 + digit);
        }
        if value > (usize::MAX - digit) / 10 {
            assert(value * 10 + digit > usize::MAX);
            return None;
        }
        value = value * 10 + digit;
        i += 1;
    }
    assert(digits@.take(digits@.len() as int) =~= digits@);
    Some(value)
}

/// The number that the first digits of a text stand for is no larger than
/// the number that all of them stand for.
pub proof fn lemma_number_grows(digits: Seq<char>, upto: int)
    requires
        0 <= upto <= digits.len(),
    ensures
        spec_number_value(digits.take(upto)) <= spec_number_value(digits),
    decreases digits.len() - upto,
{
    if upto < digits.len() {
        lemma_number_grows(digits, upto + 1);
        assert(digits.take(upto + 1).drop_last() =~= digits.take(upto));
    } else {
        assert(digits.take(upto) =~= digits);
    }
}

/// A parser over the lexemes of a source text.
pub struct Parser {
    tokens: Vec<Lexeme>,
    pos: usize,
}

impl Parser {
    /// The lexemes of the source text.
    pub closed spec fn spec_tokens(&self) -> Seq<LexemeView> {
        spec_lexeme_views(self.tokens@)
    }

    /// The position of the next lexeme.
    pub closed spec fn spec_pos(&self) -> int {
        self.pos as int
    }

    /// The parser stands inside its lexemes.
    pub closed spec fn wf(&self) -> bool {
        self.pos <= self.tokens@.len()
    }

    /// A parser at the start of `input`.
    pub fn new(input: &String) -> (parser: Parser)
        requires
            input@.len() < usize::MAX,
        ensures
            parser.wf(),
            parser.spec_tokens() == spec_lexemes(input@, 0),
            parser.spec_pos() == 0,
    {
        let mut lexer = Lexer::new(input);
        let mut tokens: Vec<Lexeme> = Vec::new();
        loop
            invariant
                lexer.wf(),
                lexer.spec_text() == input@,
                0 <= lexer.spec_pos() <= input@.len(),
                spec_lexeme_views(tokens@) + spec_lexemes(input@, lexer.spec_pos()) == spec_lexemes(
                    input@,
                    0,
                ),
            decreases input@.len() - lexer.spec_pos(),
        {
            let ghost before = lexer.spec_pos();
            let ghost views = spec_lexeme_views(tokens@);
            let lexeme = lexer.scan();
            let done = lexeme.token == Token::EOF;
            proof {
                lemma_scan_advances(input@, before);
            }
            tokens.push(lexeme);
            assert(spec_lexeme_views(tokens@) =~= views.push(lexeme@));
            if done {
                assert(spec_lexemes(input@, before) =~= seq![lexeme@]);
                assert(views.push(lexeme@) =~= views + seq![lexeme@]);
                return Parser { tokens, pos: 0 };
            }
            assert(before < input@.len());
            assert(spec_lexemes(input@, before) =~= seq![lexeme@] + spec_lexemes(
                input@,
                lexer.spec_pos(),
            ));
            assert(views.push(lexeme@) + spec_lexemes(input@, lexer.spec_pos()) =~= views + (
            seq![lexeme@] + spec_lexemes(input@, lexer.spec_pos())));
        }
    }

    /// The kind of the lexeme at `at`; behind the last lexeme, EOF.
    fn token_at(&self, at: usize) -> (token: Token)
        ensures
            token == spec_token(self.spec_tokens(), at as int),
    {
        if at < self.tokens.len() {
            self.tokens[at].token
        } else {
            Token::EOF
        }
    }

    /// The kind of the next lexeme.
    fn peek(&self) -> (token: Token)
        ensures
            token == spec_token(self.spec_tokens(), self.spec_pos()),
    {
        self.token_at(self.pos)
    }

    /// The error of kind `kind` at the next lexeme.
    fn error(&self, kind: ParseErrorKind) -> (e: ParseError)
        ensures
            e == spec_error(self.spec_tokens(), self.spec_pos(), kind),
    {
        self.error_at(self.pos, kind)
    }

    /// The error of kind `kind` at the lexeme at `at`.
    fn error_at(&self, at: usize, kind: ParseErrorKind) -> (e: ParseError)
        ensures
            e == spec_error(self.spec_tokens(), at as int, kind),
    {
        let n = self.tokens.len();
        if at == 0 || n == 0 {
            ParseError { line: 1, col: 0, kind }
        } else if at <= n {
            assert(self.spec_tokens()[at - 1] == self.tokens@[at - 1]@);
            ParseError { line: self.tokens[at - 1].line, col: self.tokens[at - 1].col, kind }
        } else {
            assert(self.spec_tokens().last() == self.tokens@[n - 1]@);
            ParseError { line: self.tokens[n - 1].line, col: self.tokens[n - 1].col, kind }
        }
    }

    /// Passes the next lexeme. Must not be called at the end.
    fn advance(&mut self)
        requires
            old(self).wf(),
            old(self).pos < old(self).tokens@.len(),
        ensures
            final(self).wf(),
            final(self).tokens == old(self).tokens,
            final(self).pos == old(self).pos + 1,
    {
        let n = self.tokens.len();
        self.pos += 1;
    }

    /// Passes one WS lexeme, if one is next.
    fn swallow_whitespace(&mut self)
        requires
            old(self).wf(),
        ensures
            final(self).wf(),
            final(self).tokens == old(self).tokens,
            final(self).pos == spec_swallow_whitespace(old(self).spec_tokens(), old(self).spec_pos()),
    {
        if self.peek() == Token::WS {
            self.advance();
        }
    }

    /// The program of the source text, from its start on, or the first
    /// error in it.
    pub fn parse(&mut self) -> (r: Result<Program, ParseError>)
        requires
            old(self).wf(),
        ensures
            final(self).wf(),
            final(self).spec_tokens() == old(self).spec_tokens(),
            r matches Ok(program) ==> spec_parse_program(old(self).spec_tokens()) == Ok::<
                Seq<StatementView>,
                ParseError,
            >(program@),
            r matches Err(e) ==> spec_parse_program(old(self).spec_tokens()) == Err::<
                Seq<StatementView>,
                ParseError,
            >(e),
    {
        self.pos = 0;
        let mut statements: Vec<Statement> = Vec::new();
        let ghost t = self.spec_tokens();
        let ghost mut done: Seq<StatementView> = Seq::empty();
        loop
            invariant
                self.wf(),
                self.tokens == old(self).tokens,
                t == self.spec_tokens(),
                done == Seq::new(statements@.len(), |i: int| statements@[i]@),
                t == old(self).spec_tokens(),
                spec_parse_statements(t, self.pos as int, done) == spec_parse_program(t),
            decreases t.len() - self.pos,
        {
            self.skip_empty_lines();
            if self.peek() == Token::EOF {
                let program = Program { statements };
                assert(program@ =~= done);
                return Ok(program);
            }
            let statement = match self.parse_statement() {
                Ok(statement) => statement,
                Err(e) => {
                    return Err(e);
                },
            };
            proof {
                done = done.push(statement@);
            }
            statements.push(statement);
            assert(done =~= Seq::new(statements@.len(), |i: int| statements@[i]@));
        }
    }

    /// Passes the empty lines that follow, and the blanks before the end of
    /// the text.
    fn skip_empty_lines(&mut self)
        requires
            old(self).wf(),
        ensures
            final(self).wf(),
            final(self).tokens == old(self).tokens,
            final(self).pos == spec_skip_empty_lines(old(self).spec_tokens(), old(self).spec_pos()),
            final(self).pos >= old(self).pos,
    {
        loop
            invariant
                self.wf(),
                self.tokens == old(self).tokens,
                self.pos >= old(self).pos,
                spec_skip_empty_lines(self.spec_tokens(), self.spec_pos()) == spec_skip_empty_lines(
                    old(self).spec_tokens(),
                    old(self).spec_pos(),
                ),
            decreases self.tokens@.len() - self.pos,
        {
            let n = self.tokens.len();
            let at = if self.peek() == Token::WS {
                self.pos + 1
            } else {
                self.pos
            };
            let token = self.token_at(at);
            if token == Token::EOL {
                self.pos = at + 1;
            } else if token == Token::EOF {
                self.pos = at;
                return ;
            } else {
                return ;
            }
        }
    }

    /// The statement that starts here.
    #[verifier::rlimit(50)]
    fn parse_statement(&mut self) -> (r: Result<Statement, ParseError>)
        requires
            old(self).wf(),
            spec_token(old(self).spec_tokens(), old(self).spec_pos()) != Token::EOF,
        ensures
            final(self).wf(),
            final(self).tokens == old(self).tokens,
            r matches Ok(statement) ==> spec_parse_statement(
                old(self).spec_tokens(),
                old(self).spec_pos(),
            ) == Ok::<(StatementView, int), ParseError>((statement@, final(self).spec_pos())),
            r matches Err(e) ==> spec_parse_statement(old(self).spec_tokens(), old(self).spec_pos())
                == Err::<(StatementView, int), ParseError>(e),
            r is Ok ==> final(self).pos > old(self).pos,
    {
        self.swallow_whitespace();
        let symbol = self.parse_symbol();
        if symbol.is_some() {
            self.swallow_whitespace();
        }
        let at = self.pos;
        let opcode = match self.parse_opcode() {
            Ok(opcode) => opcode,
            Err(e) => {
                return Err(e);
            },
        };
        if same_text(opcode.as_str(), "ALF") {
            match self.parse_alf_statement(symbol) {
                Ok(s) => Ok(Statement::Alf(s)),
                Err(e) => Err(e),
            }
        } else if same_text(opcode.as_str(), "EQU") {
            match self.parse_equ_statement(symbol) {
                Ok(s) => Ok(Statement::Equ(s)),
                Err(e) => Err(e),
            }
        } else if same_text(opcode.as_str(), "ORIG") {
            match self.parse_orig_statement(symbol) {
                Ok(s) => Ok(Statement::Orig(s)),
                Err(e) => Err(e),
            }
        } else if same_text(opcode.as_str(), "CON") {
            match self.parse_con_statement(symbol) {
                Ok(s) => Ok(Statement::Con(s)),
                Err(e) => Err(e),
            }
        } else if same_text(opcode.as_str(), "END") {
            match self.parse_end_statement(symbol) {
                Ok(s) => Ok(Statement::End(s)),
                Err(e) => Err(e),
            }
        } else if lookup(opcode.as_str()).is_none() {
            Err(self.error_at(at, ParseErrorKind::UnknownOpCode))
        } else {
            match self.parse_mix_statement(symbol, opcode) {
                Ok(s) => Ok(Statement::Mix(s)),
                Err(e) => Err(e),
            }
        }
    }

    /// The mnemonic that must be next.
    fn parse_opcode(&mut self) -> (r: Result<String, ParseError>)
        requires
            old(self).wf(),
        ensures
            final(self).wf(),
            final(self).tokens == old(self).tokens,
            r is Ok <==> spec_token(old(self).spec_tokens(), old(self).spec_pos()) == Token::STRING,
            r matches Ok(opcode) ==> opcode@ == spec_literal(
                old(self).spec_tokens(),
                old(self).spec_pos(),
            ) && final(self).pos == old(self).pos + 1,
            r matches Err(e) ==> e == spec_error(
                old(self).spec_tokens(),
                old(self).spec_pos(),
                ParseErrorKind::ExpectedOpCode,
            ) && final(self).pos == old(self).pos,
    {
        if self.peek() != Token::STRING {
            return Err(self.error(ParseErrorKind::ExpectedOpCode));
        }
        let opcode = self.tokens[self.pos].literal.clone();
        self.advance();
        Ok(opcode)
    }

    /// The W-value of EQU, and the end of its line.
    fn parse_equ_statement(&mut self, symbol: Option<Symbol>) -> (r: Result<
        EquStatement,
        ParseError,
    >)
        requires
            old(self).wf(),
        ensures
            final(self).wf(),
            final(self).tokens == old(self).tokens,
            final(self).pos >= old(self).pos,
            r matches Ok(s) ==> s.symbol == symbol && spec_parse_w_operand(
                old(self).spec_tokens(),
                old(self).spec_pos(),
            ) == Ok::<(Seq<WValuePartView>, int), ParseError>((s.address@, final(self).spec_pos())),
            r matches Err(e) ==> spec_parse_w_operand(old(self).spec_tokens(), old(self).spec_pos())
                == Err::<(Seq<WValuePartView>, int), ParseError>(e),
    {
        match self.parse_w_operand() {
            Ok(address) => Ok(EquStatement { symbol, address }),
            Err(e) => Err(e),
        }
    }

    /// The W-value of ORIG, and the end of its line.
    fn parse_orig_statement(&mut self, symbol: Option<Symbol>) -> (r: Result<
        OrigStatement,
        ParseError,
    >)
        requires
            old(self).wf(),
        ensures
            final(self).wf(),
            final(self).tokens == old(self).tokens,
            final(self).pos >= old(self).pos,
            r matches Ok(s) ==> s.symbol == symbol && spec_parse_w_operand(
                old(self).spec_tokens(),
                old(self).spec_pos(),
            ) == Ok::<(Seq<WValuePartView>, int), ParseError>((s.address@, final(self).spec_pos())),
            r matches Err(e) ==> spec_parse_w_operand(old(self).spec_tokens(), old(self).spec_pos())
                == Err::<(Seq<WValuePartView>, int), ParseError>(e),
    {
        match self.parse_w_operand() {
            Ok(address) => Ok(OrigStatement { symbol, address }),
            Err(e) => Err(e),
        }
    }

    /// The W-value of CON, and the end of its line.
    fn parse_con_statement(&mut self, symbol: Option<Symbol>) -> (r: Result<
        ConStatement,
        ParseError,
    >)
        requires
            old(self).wf(),
        ensures
            final(self).wf(),
            final(self).tokens == old(self).tokens,
            final(self).pos >= old(self).pos,
            r matches Ok(s) ==> s.symbol == symbol && spec_parse_w_operand(
                old(self).spec_tokens(),
                old(self).spec_pos(),
            ) == Ok::<(Seq<WValuePartView>, int), ParseError>((s.address@, final(self).spec_pos())),
            r matches Err(e) ==> spec_parse_w_operand(old(self).spec_tokens(), old(self).spec_pos())
                == Err::<(Seq<WValuePartView>, int), ParseError>(e),
    {
        match self.parse_w_operand() {
            Ok(address) => Ok(ConStatement { symbol, address }),
            Err(e) => Err(e),
        }
    }

    /// The W-value of END, and the end of its line.
    fn parse_end_statement(&mut self, symbol: Option<Symbol>) -> (r: Result<
        EndStatement,
        ParseError,
    >)
        requires
            old(self).wf(),
        ensures
            final(self).wf(),
            final(self).tokens == old(self).tokens,
            final(self).pos >= old(self).pos,
            r matches Ok(s) ==> s.symbol == symbol && spec_parse_w_operand(
                old(self).spec_tokens(),
                old(self).spec_pos(),
            ) == Ok::<(Seq<WValuePartView>, int), ParseError>((s.address@, final(self).spec_pos())),
            r matches Err(e) ==> spec_parse_w_operand(old(self).spec_tokens(), old(self).spec_pos())
                == Err::<(Seq<WValuePartView>, int), ParseError>(e),
    {
        match self.parse_w_operand() {
            Ok(address) => Ok(EndStatement { symbol, address }),
            Err(e) => Err(e),
        }
    }

    /// The label, if the next word is one: a word that is no mnemonic.
    fn parse_symbol(&mut self) -> (r: Option<Symbol>)
        requires
            old(self).wf(),
        ensures
            final(self).wf(),
            final(self).tokens == old(self).tokens,
            r is Some <==> (spec_token(old(self).spec_tokens(), old(self).spec_pos())
                == Token::STRING && !spec_is_mnemonic(
                spec_literal(old(self).spec_tokens(), old(self).spec_pos()),
            )),
            r matches Some(symbol) ==> symbol.name@ == spec_literal(
                old(self).spec_tokens(),
                old(self).spec_pos(),
            ) && final(self).pos == old(self).pos + 1,
            r is None ==> final(self).pos == old(self).pos,
    {
        if self.peek() != Token::STRING {
            return None;
        }
        let name = self.tokens[self.pos].literal.clone();
        if is_pseudo_op(name.as_str()) || lookup(name.as_str()).is_some() {
            return None;
        }
        self.advance();
        Some(Symbol { name })
    }

    /// The operands of a statement of the machine, and the end of its line.
    fn parse_mix_statement(&mut self, symbol: Option<Symbol>, op: String) -> (r: Result<
        MixStatement,
        ParseError,
    >)
        requires
            old(self).wf(),
        ensures
            final(self).wf(),
            final(self).tokens == old(self).tokens,
            final(self).pos >= old(self).pos,
            r matches Ok(statement) ==> spec_parse_mix_operands(
                old(self).spec_tokens(),
                old(self).spec_pos(),
                spec_optional_symbol(symbol),
                op@,
            ) == Ok::<(StatementView, int), ParseError>(
                (Statement::Mix(statement)@, final(self).spec_pos()),
            ),
            r matches Err(e) ==> spec_parse_mix_operands(
                old(self).spec_tokens(),
                old(self).spec_pos(),
                spec_optional_symbol(symbol),
                op@,
            ) == Err::<(StatementView, int), ParseError>(e),
    {
        self.swallow_whitespace();
        let a_part = match self.parse_a_part() {
            Ok(part) => part,
            Err(e) => {
                return Err(e);
            },
        };
        let index_part = match self.parse_index_part() {
            Ok(part) => part,
            Err(e) => {
                return Err(e);
            },
        };
        let f_part = match self.parse_f_part() {
            Ok(part) => part,
            Err(e) => {
                return Err(e);
            },
        };
        match self.parse_end_of_line() {
            Ok(()) => {},
            Err(e) => {
                return Err(e);
            },
        }
        Ok(MixStatement { symbol, op, a_part, index_part, f_part })
    }

    /// A W-value that must be there, and the end of its line.
    fn parse_w_operand(&mut self) -> (r: Result<WValue, ParseError>)
        requires
            old(self).wf(),
        ensures
            final(self).wf(),
            final(self).tokens == old(self).tokens,
            final(self).pos >= old(self).pos,
            r matches Ok(found) ==> spec_parse_w_operand(
                old(self).spec_tokens(),
                old(self).spec_pos(),
            ) == Ok::<(Seq<WValuePartView>, int), ParseError>((found@, final(self).spec_pos())),
            r matches Err(e) ==> spec_parse_w_operand(old(self).spec_tokens(), old(self).spec_pos())
                == Err::<(Seq<WValuePartView>, int), ParseError>(e),
    {
        self.swallow_whitespace();
        let address = match self.parse_w_value() {
            Ok(Some(address)) => address,
            Ok(None) => {
                return Err(self.error(ParseErrorKind::ExpectedWValue));
            },
            Err(e) => {
                return Err(e);
            },
        };
        match self.parse_end_of_line() {
            Ok(()) => {},
            Err(e) => {
                return Err(e);
            },
        }
        Ok(address)
    }

    /// The string literal of ALF, and the end of its line.
    fn parse_alf_statement(&mut self, symbol: Option<Symbol>) -> (r: Result<
        AlfStatement,
        ParseError,
    >)
        requires
            old(self).wf(),
        ensures
            final(self).wf(),
            final(self).tokens == old(self).tokens,
            final(self).pos >= old(self).pos,
            r matches Ok(statement) ==> statement.symbol == symbol && spec_parse_alf_operand(
                old(self).spec_tokens(),
                old(self).spec_pos(),
            ) == Ok::<(Seq<char>, int), ParseError>((statement.char_code@, final(self).spec_pos())),
            r matches Err(e) ==> spec_parse_alf_operand(
                old(self).spec_tokens(),
                old(self).spec_pos(),
            ) == Err::<(Seq<char>, int), ParseError>(e),
    {
        self.swallow_whitespace();
        if self.peek() != Token::STRINGLITERAL {
            return Err(self.error(ParseErrorKind::ExpectedStringLiteral));
        }
        let char_code = self.tokens[self.pos].literal.clone();
        self.advance();
        match self.parse_end_of_line() {
            Ok(()) => {},
            Err(e) => {
                return Err(e);
            },
        }
        Ok(AlfStatement { symbol, char_code })
    }

    /// Blanks, if any, and then the line end, which is passed, or the end
    /// of the text.
    fn parse_end_of_line(&mut self) -> (r: Result<(), ParseError>)
        requires
            old(self).wf(),
        ensures
            final(self).wf(),
            final(self).tokens == old(self).tokens,
            final(self).pos >= old(self).pos,
            r is Ok ==> spec_parse_end_of_line(old(self).spec_tokens(), old(self).spec_pos())
                == Ok::<int, ParseError>(final(self).spec_pos()),
            r matches Err(e) ==> spec_parse_end_of_line(
                old(self).spec_tokens(),
                old(self).spec_pos(),
            ) == Err::<int, ParseError>(e),
    {
        self.swallow_whitespace();
        let token = self.peek();
        if token == Token::EOL {
            self.advance();
            Ok(())
        } else if token == Token::EOF {
            Ok(())
        } else {
            Err(self.error(ParseErrorKind::ExpectedEndOfLine))
        }
    }

    /// An expression that must be there.
    fn require_expression(&mut self) -> (r: Result<Box<Node>, ParseError>)
        requires
            old(self).wf(),
        ensures
            final(self).wf(),
            final(self).tokens == old(self).tokens,
            final(self).pos >= old(self).pos,
            r matches Ok(node) ==> spec_require_expression(
                old(self).spec_tokens(),
                old(self).spec_pos(),
            ) == Ok::<(NodeView, int), ParseError>((node@, final(self).spec_pos())),
            r matches Err(e) ==> spec_require_expression(
                old(self).spec_tokens(),
                old(self).spec_pos(),
            ) == Err::<(NodeView, int), ParseError>(e),
    {
        match self.parse_expression() {
            Ok(Some(node)) => Ok(node),
            Ok(None) => Err(self.error(ParseErrorKind::ExpectedExpression)),
            Err(e) => Err(e),
        }
    }

    /// The A-part: an expression, a literal constant, or nothing.
    fn parse_a_part(&mut self) -> (r: Result<Option<Box<Node>>, ParseError>)
        requires
            old(self).wf(),
        ensures
            final(self).wf(),
            final(self).tokens == old(self).tokens,
            final(self).pos >= old(self).pos,
            r matches Ok(part) ==> spec_parse_a_part(old(self).spec_tokens(), old(self).spec_pos())
                == Ok::<(Option<NodeView>, int), ParseError>(
                (spec_optional_node(part), final(self).spec_pos()),
            ),
            r matches Err(e) ==> spec_parse_a_part(old(self).spec_tokens(), old(self).spec_pos())
                == Err::<(Option<NodeView>, int), ParseError>(e),
    {
        match self.parse_expression() {
            Ok(Some(expression)) => {
                return Ok(Some(expression));
            },
            Ok(None) => {},
            Err(e) => {
                return Err(e);
            },
        }
        if self.peek() == Token::LITERALQUOTE {
            self.advance();
            let expression = match self.require_expression() {
                Ok(expression) => expression,
                Err(e) => {
                    return Err(e);
                },
            };
            if self.peek() != Token::LITERALQUOTE {
                return Err(self.error(ParseErrorKind::ExpectedLiteralQuote));
            }
            self.advance();
            Ok(Some(Box::new(Node::LiteralConstant(LiteralConstant { value: expression }))))
        } else {
            Ok(None)
        }
    }

    /// The index part: a comma and an expression, or nothing.
    fn parse_index_part(&mut self) -> (r: Result<Option<Box<Node>>, ParseError>)
        requires
            old(self).wf(),
        ensures
            final(self).wf(),
            final(self).tokens == old(self).tokens,
            final(self).pos >= old(self).pos,
            r matches Ok(part) ==> spec_parse_index_part(
                old(self).spec_tokens(),
                old(self).spec_pos(),
            ) == Ok::<(Option<NodeView>, int), ParseError>(
                (spec_optional_node(part), final(self).spec_pos()),
            ),
            r matches Err(e) ==> spec_parse_index_part(old(self).spec_tokens(), old(self).spec_pos())
                == Err::<(Option<NodeView>, int), ParseError>(e),
    {
        if self.peek() == Token::COMMA {
            self.advance();
            match self.require_expression() {
                Ok(expression) => Ok(Some(expression)),
                Err(e) => Err(e),
            }
        } else {
            Ok(None)
        }
    }

    /// The F-part: an expression in parentheses, or nothing.
    fn parse_f_part(&mut self) -> (r: Result<Option<Box<Node>>, ParseError>)
        requires
            old(self).wf(),
        ensures
            final(self).wf(),
            final(self).tokens == old(self).tokens,
            final(self).pos >= old(self).pos,
            r matches Ok(part) ==> spec_parse_f_part(old(self).spec_tokens(), old(self).spec_pos())
                == Ok::<(Option<NodeView>, int), ParseError>(
                (spec_optional_node(part), final(self).spec_pos()),
            ),
            r matches Err(e) ==> spec_parse_f_part(old(self).spec_tokens(), old(self).spec_pos())
                == Err::<(Option<NodeView>, int), ParseError>(e),
    {
        if self.peek() == Token::LPAREN {
            self.advance();
            let expression = match self.require_expression() {
                Ok(expression) => expression,
                Err(e) => {
                    return Err(e);
                },
            };
            if self.peek() != Token::RPAREN {
                return Err(self.error(ParseErrorKind::ExpectedRightParen));
            }
            self.advance();
            Ok(Some(expression))
        } else {
            Ok(None)
        }
    }

    /// A W-value: parts between commas; or nothing.
    fn parse_w_value(&mut self) -> (r: Result<Option<WValue>, ParseError>)
        requires
            old(self).wf(),
        ensures
            final(self).wf(),
            final(self).tokens == old(self).tokens,
            final(self).pos >= old(self).pos,
            r matches Ok(Some(w)) ==> spec_parse_w_value(
                old(self).spec_tokens(),
                old(self).spec_pos(),
            ) == Ok::<Option<(Seq<WValuePartView>, int)>, ParseError>(
                Some((w@, final(self).spec_pos())),
            ),
            r matches Ok(None) ==> spec_parse_w_value(old(self).spec_tokens(), old(self).spec_pos())
                == Ok::<Option<(Seq<WValuePartView>, int)>, ParseError>(None) && final(self).pos
                == old(self).pos,
            r matches Err(e) ==> spec_parse_w_value(old(self).spec_tokens(), old(self).spec_pos())
                == Err::<Option<(Seq<WValuePartView>, int)>, ParseError>(e),
    {
        let part = match self.parse_w_value_part() {
            Ok(Some(part)) => part,
            Ok(None) => {
                return Ok(None);
            },
            Err(e) => {
                return Err(e);
            },
        };
        let ghost t = self.spec_tokens();
        let ghost start = self.spec_pos();
        let ghost first = part@;
        let ghost mut done: Seq<WValuePartView> = seq![part@];
        let mut parts: Vec<WValuePart> = Vec::new();
        parts.push(part);
        assert(done =~= Seq::new(parts@.len(), |i: int| parts@[i]@));
        loop
            invariant
                self.wf(),
                self.tokens == old(self).tokens,
                t == self.spec_tokens(),
                self.pos >= old(self).pos,
                done == Seq::new(parts@.len(), |i: int| parts@[i]@),
                t == old(self).spec_tokens(),
                spec_parse_w_value_part(t, old(self).spec_pos()) == Ok::<
                    Option<(WValuePartView, int)>,
                    ParseError,
                >(Some((first, start))),
                spec_parse_w_value_tail(t, self.pos as int, done) == spec_parse_w_value_tail(
                    t,
                    start,
                    seq![first],
                ),
            decreases t.len() - self.pos,
        {
            if self.peek() != Token::COMMA {
                let w = WValue { parts };
                assert(w@ =~= done);
                return Ok(Some(w));
            }
            self.advance();
            let next_part = match self.parse_w_value_part() {
                Ok(Some(part)) => part,
                Ok(None) => {
                    return Err(self.error(ParseErrorKind::ExpectedExpression));
                },
                Err(e) => {
                    return Err(e);
                },
            };
            proof {
                done = done.push(next_part@);
            }
            parts.push(next_part);
            assert(done =~= Seq::new(parts@.len(), |i: int| parts@[i]@));
        }
    }

    /// One part of a W-value: an expression and, if it is there, an F-part.
    fn parse_w_value_part(&mut self) -> (r: Result<Option<WValuePart>, ParseError>)
        requires
            old(self).wf(),
        ensures
            final(self).wf(),
            final(self).tokens == old(self).tokens,
            final(self).pos >= old(self).pos,
            r matches Ok(Some(part)) ==> spec_parse_w_value_part(
                old(self).spec_tokens(),
                old(self).spec_pos(),
            ) == Ok::<Option<(WValuePartView, int)>, ParseError>(
                Some((part@, final(self).spec_pos())),
            ) && final(self).pos > old(self).pos,
            r matches Ok(None) ==> spec_parse_w_value_part(
                old(self).spec_tokens(),
                old(self).spec_pos(),
            ) == Ok::<Option<(WValuePartView, int)>, ParseError>(None) && final(self).pos == old(
                self,
            ).pos,
            r matches Err(e) ==> spec_parse_w_value_part(
                old(self).spec_tokens(),
                old(self).spec_pos(),
            ) == Err::<Option<(WValuePartView, int)>, ParseError>(e),
    {
        let expression = match self.parse_expression() {
            Ok(Some(expression)) => expression,
            Ok(None) => {
                return Ok(None);
            },
            Err(e) => {
                return Err(e);
            },
        };
        let f_part = match self.parse_f_part() {
            Ok(f_part) => f_part,
            Err(e) => {
                return Err(e);
            },
        };
        Ok(Some(WValuePart { expression, f_part }))
    }

    /// An expression: an atom, or a sign and an atom, and then operators and
    /// atoms in turn; or nothing.
    fn parse_expression(&mut self) -> (r: Result<Option<Box<Node>>, ParseError>)
        requires
            old(self).wf(),
        ensures
            final(self).wf(),
            final(self).tokens == old(self).tokens,
            final(self).pos >= old(self).pos,
            r matches Ok(Some(node)) ==> spec_parse_expression(
                old(self).spec_tokens(),
                old(self).spec_pos(),
            ) == Ok::<Option<(NodeView, int)>, ParseError>(Some((node@, final(self).spec_pos())))
                && final(self).pos > old(self).pos,
            r matches Ok(None) ==> spec_parse_expression(
                old(self).spec_tokens(),
                old(self).spec_pos(),
            ) == Ok::<Option<(NodeView, int)>, ParseError>(None) && final(self).pos == old(self).pos,
            r matches Err(e) ==> spec_parse_expression(old(self).spec_tokens(), old(self).spec_pos())
                == Err::<Option<(NodeView, int)>, ParseError>(e),
    {
        let node: Box<Node> = match self.parse_atom() {
            Ok(Some(atom)) => atom,
            Err(e) => {
                return Err(e);
            },
            Ok(None) => {
                let token = self.peek();
                if token == Token::PLUS || token == Token::MINUS {
                    self.advance();
                    let atom = match self.parse_atom() {
                        Ok(Some(atom)) => atom,
                        Ok(None) => {
                            return Err(self.error(ParseErrorKind::ExpectedAtom));
                        },
                        Err(e) => {
                            return Err(e);
                        },
                    };
                    Box::new(Node::Expression(Expression { left: None, operator: token, right: atom }))
                } else {
                    return Ok(None);
                }
            },
        };
        match self.parse_expression_tail(node) {
            Ok(node) => Ok(Some(node)),
            Err(e) => Err(e),
        }
    }

    /// The rest of an expression behind `head`.
    fn parse_expression_tail(&mut self, head: Box<Node>) -> (r: Result<Box<Node>, ParseError>)
        requires
            old(self).wf(),
        ensures
            final(self).wf(),
            final(self).tokens == old(self).tokens,
            final(self).pos >= old(self).pos,
            r matches Ok(node) ==> spec_parse_expression_tail(
                old(self).spec_tokens(),
                old(self).spec_pos(),
                head@,
            ) == Ok::<(NodeView, int), ParseError>((node@, final(self).spec_pos())),
            r matches Err(e) ==> spec_parse_expression_tail(
                old(self).spec_tokens(),
                old(self).spec_pos(),
                head@,
            ) == Err::<(NodeView, int), ParseError>(e),
    {
        let ghost t = self.spec_tokens();
        let ghost first = head@;
        let mut current = head;
        loop
            invariant
                self.wf(),
                self.tokens == old(self).tokens,
                t == self.spec_tokens(),
                t == old(self).spec_tokens(),
                first == head@,
                self.pos >= old(self).pos,
                spec_parse_expression_tail(t, self.pos as int, current@)
                    == spec_parse_expression_tail(t, old(self).pos as int, first),
            decreases t.len() - self.pos,
        {
            let token = self.peek();
            match token {
                Token::PLUS
                | Token::MINUS
                | Token::ASTERISK
                | Token::DIVIDE
                | Token::SHIFTDIVIDE
                | Token::FIELDSIGN => {},
                _ => {
                    return Ok(current);
                },
            }
            self.advance();
            let atom = match self.parse_atom() {
                Ok(Some(atom)) => atom,
                Ok(None) => {
                    return Err(self.error(ParseErrorKind::ExpectedAtom));
                },
                Err(e) => {
                    return Err(e);
                },
            };
            current = Box::new(
                Node::Expression(Expression { left: Some(current), operator: token, right: atom }),
            );
        }
    }

    /// An atom: a number, a symbol or the asterisk; or nothing.
    fn parse_atom(&mut self) -> (r: Result<Option<Box<Node>>, ParseError>)
        requires
            old(self).wf(),
        ensures
            final(self).wf(),
            final(self).tokens == old(self).tokens,
            r matches Ok(Some(node)) ==> spec_parse_atom(old(self).spec_tokens(), old(self).spec_pos())
                == Ok::<Option<(NodeView, int)>, ParseError>(Some((node@, final(self).spec_pos())))
                && final(self).pos == old(self).pos + 1,
            r matches Ok(None) ==> spec_parse_atom(old(self).spec_tokens(), old(self).spec_pos())
                == Ok::<Option<(NodeView, int)>, ParseError>(None) && final(self).pos == old(self).pos,
            r matches Err(e) ==> spec_parse_atom(old(self).spec_tokens(), old(self).spec_pos())
                == Err::<Option<(NodeView, int)>, ParseError>(e) && final(self).pos == old(self).pos,
    {
        match self.peek() {
            Token::NUMBER => {
                match parse_number(self.tokens[self.pos].literal.as_str()) {
                    Some(value) => {
                        self.advance();
                        Ok(Some(Box::new(Node::Number(Number { value }))))
                    },
                    None => Err(self.error(ParseErrorKind::NumberTooLarge)),
                }
            },
            Token::STRING => {
                let name = self.tokens[self.pos].literal.clone();
                self.advance();
                Ok(Some(Box::new(Node::Symbol(Symbol { name }))))
            },
            Token::ASTERISK => {
                self.advance();
                Ok(Some(Box::new(Node::Asterisk(Asterisk {  }))))
            },
            _ => Ok(None),
        }
    }
}

} // verus!
