//! The lexer: from the characters of a source text to lexemes.

use vstd::prelude::*;

use crate::mix::char_codes::{get_code, spec_code_of};
use crate::mix::text::{chars_of, push_char};

verus! {

/// The kinds of lexeme.
#[allow(non_camel_case_types)]
#[derive(Copy, Clone, PartialEq, Eq, Debug, Structural)]
pub enum Token {
    ILLEGAL,
    EOF,
    EOL,
    WS,
    STRING,
    NUMBER,
    PLUS,
    MINUS,
    ASTERISK,
    DIVIDE,
    SHIFTDIVIDE,
    FIELDSIGN,
    COMMA,
    LPAREN,
    RPAREN,
    LITERALQUOTE,
    STRINGLITERAL,
    CHARCODE,
}

/// A lexeme: its kind, its text, and the line and column at which the lexer
/// stood when it had read it.
#[derive(Debug, Clone)]
pub struct Lexeme {
    pub token: Token,
    pub literal: String,
    pub line: usize,
    pub col: usize,
}

/// A lexeme as plain values.
pub struct LexemeView {
    pub token: Token,
    pub literal: Seq<char>,
    pub line: nat,
    pub col: nat,
}

impl View for Lexeme {
    type V = LexemeView;

    open spec fn view(&self) -> LexemeView {
        LexemeView {
            token: self.token,
            literal: self.literal@,
            line: self.line as nat,
            col: self.col as nat,
        }
    }
}

/// What the lexer finds at a position: the kind of the lexeme, its text,
/// and the position behind it.
pub struct Scanned {
    pub token: Token,
    pub literal: Seq<char>,
    pub end: int,
}

/// A blank or a tab.
pub open spec fn spec_is_whitespace(ch: char) -> bool {
    ch == ' ' || ch == '\t'
}

/// A capital letter from A to Z, or one of the Greek capitals delta, sigma
/// and pi.
pub open spec fn spec_is_letter(ch: char) -> bool {
    ('A' <= ch && ch <= 'Z') || ch == '\u{394}' || ch == '\u{3a3}' || ch == '\u{3a0}'
}

/// A digit from 0 to 9.
pub open spec fn spec_is_digit(ch: char) -> bool {
    '0' <= ch && ch <= '9'
}

/// A letter or a digit.
pub open spec fn spec_is_alpha_num(ch: char) -> bool {
    spec_is_letter(ch) || spec_is_digit(ch)
}

/// A character that the character table holds.
pub open spec fn spec_is_char_code(ch: char) -> bool {
    spec_code_of(ch) is Some
}

/// The line of the position `pos`: 1 plus the number of line ends before
/// it.
pub open spec fn spec_line_at(s: Seq<char>, pos: int) -> nat
    decreases pos,
{
    if pos <= 0 {
        1
    } else if s[pos - 1] == '\n' {
        spec_line_at(s, pos - 1) + 1
    } else {
        spec_line_at(s, pos - 1)
    }
}

/// The column of the position `pos`: the number of characters between the
/// last line end before it and itself.
pub open spec fn spec_col_at(s: Seq<char>, pos: int) -> nat
    decreases pos,
{
    if pos <= 0 {
        0
    } else if s[pos - 1] == '\n' {
        0
    } else {
        spec_col_at(s, pos - 1) + 1
    }
}

/// The position of the first line end from `from` on, or the end of the
/// text.
pub open spec fn spec_line_end(s: Seq<char>, from: int) -> int
    decreases s.len() - from,
{
    if from < 0 || from >= s.len() || s[from] == '\n' {
        from
    } else {
        spec_line_end(s, from + 1)
    }
}

/// The position behind the blanks and tabs that start at `from`.
pub open spec fn spec_blank_end(s: Seq<char>, from: int) -> int
    decreases s.len() - from,
{
    if from < 0 || from >= s.len() || !spec_is_whitespace(s[from]) {
        from
    } else {
        spec_blank_end(s, from + 1)
    }
}

/// The position behind the letters and digits that start at `from`.
pub open spec fn spec_alpha_num_end(s: Seq<char>, from: int) -> int
    decreases s.len() - from,
{
    if from < 0 || from >= s.len() || !spec_is_alpha_num(s[from]) {
        from
    } else {
        spec_alpha_num_end(s, from + 1)
    }
}

/// The position of the first character from `from` on that ends a string
/// literal, well or badly: a quote, or a character that the character
/// table does not hold; or the end of the text.
pub open spec fn spec_string_end(s: Seq<char>, from: int) -> int
    decreases s.len() - from,
{
    if from < 0 || from >= s.len() || s[from] == '"' || !spec_is_char_code(s[from]) {
        from
    } else {
        spec_string_end(s, from + 1)
    }
}

/// A line end is not before the position from which it was looked for, and
/// not behind the end of the text.
pub proof fn lemma_line_end_bounds(s: Seq<char>, from: int)
    requires
        0 <= from <= s.len(),
    ensures
        from <= spec_line_end(s, from) <= s.len(),
    decreases s.len() - from,
{
    if from < s.len() && s[from] != '\n' {
        lemma_line_end_bounds(s, from + 1);
    }
}

/// Whether every character from `from` to `to` is a digit.
pub open spec fn spec_all_digits(s: Seq<char>, from: int, to: int) -> bool {
    forall|i: int| from <= i < to ==> spec_is_digit(#[trigger] s[i])
}

/// The kind of a lexeme of one character.
pub open spec fn spec_single(ch: char) -> Token {
    if ch == '\n' {
        Token::EOL
    } else if ch == '+' {
        Token::PLUS
    } else if ch == '-' {
        Token::MINUS
    } else if ch == '*' {
        Token::ASTERISK
    } else if ch == '/' {
        Token::DIVIDE
    } else if ch == ':' {
        Token::FIELDSIGN
    } else if ch == ',' {
        Token::COMMA
    } else if ch == '(' {
        Token::LPAREN
    } else if ch == ')' {
        Token::RPAREN
    } else if ch == '=' {
        Token::LITERALQUOTE
    } else {
        Token::ILLEGAL
    }
}

/// What the lexer finds at `pos`.
///
/// A `#` starts a comment that runs to the end of the line and is read as
/// that line end. A `*` in the first column makes the whole line a comment,
/// after which the lexer goes on with the next line. Blanks and tabs are
/// one WS lexeme with the text of one blank. Letters and digits are a
/// NUMBER where all are digits and a STRING otherwise. A quote starts a
/// string literal, which runs to the next quote; a character before it that
/// the character table does not hold, or the end of the text, makes it
/// ILLEGAL. Two slashes are SHIFTDIVIDE. The end of the text, and the
/// character with code 0, are EOF, which the lexer never gets past.
pub open spec fn spec_scan_at(s: Seq<char>, pos: int) -> Scanned
    decreases s.len() - pos,
{
    if pos < 0 || pos >= s.len() || s[pos] == '\0' {
        Scanned { token: Token::EOF, literal: Seq::empty(), end: pos }
    } else if s[pos] == '#' {
        let end = spec_line_end(s, pos + 1);
        if end >= s.len() {
            Scanned { token: Token::EOF, literal: Seq::empty(), end }
        } else {
            Scanned { token: Token::EOL, literal: seq!['\n'], end: end + 1 }
        }
    } else if s[pos] == '*' && spec_col_at(s, pos) == 0 {
        let end = spec_line_end(s, pos + 1);
        if end >= s.len() {
            Scanned { token: Token::EOF, literal: Seq::empty(), end }
        } else {
            proof {
                lemma_line_end_bounds(s, pos + 1);
            }
            spec_scan_at(s, end + 1)
        }
    } else if spec_is_whitespace(s[pos]) {
        Scanned { token: Token::WS, literal: seq![' '], end: spec_blank_end(s, pos + 1) }
    } else if spec_is_alpha_num(s[pos]) {
        let end = spec_alpha_num_end(s, pos + 1);
        Scanned {
            token: if spec_all_digits(s, pos, end) {
                Token::NUMBER
            } else {
                Token::STRING
            },
            literal: s.subrange(pos, end),
            end,
        }
    } else if s[pos] == '"' {
        let end = spec_string_end(s, pos + 1);
        if end >= s.len() {
            Scanned { token: Token::ILLEGAL, literal: s.subrange(pos, end), end }
        } else {
            Scanned {
                token: if s[end] == '"' {
                    Token::STRINGLITERAL
                } else {
                    Token::ILLEGAL
                },
                literal: s.subrange(pos, end + 1),
                end: end + 1,
            }
        }
    } else if s[pos] == '/' && pos + 1 < s.len() && s[pos + 1] == '/' {
        Scanned { token: Token::SHIFTDIVIDE, literal: s.subrange(pos, pos + 2), end: pos + 2 }
    } else {
        Scanned { token: spec_single(s[pos]), literal: s.subrange(pos, pos + 1), end: pos + 1 }
    }
}

/// A blank or a tab.
pub fn is_whitespace(ch: char) -> (r: bool)
    ensures
        r == spec_is_whitespace(ch),
{
    ch == ' ' || ch == '\t'
}

/// A capital letter from A to Z, or one of the Greek capitals delta, sigma
/// and pi.
pub fn is_letter(ch: char) -> (r: bool)
    ensures
        r == spec_is_letter(ch),
{
    ('A' <= ch && ch <= 'Z') || ch == '\u{394}' || ch == '\u{3a3}' || ch == '\u{3a0}'
}

/// A digit from 0 to 9.
pub fn is_digit(ch: char) -> (r: bool)
    ensures
        r == spec_is_digit(ch),
{
    '0' <= ch && ch <= '9'
}

/// A letter or a digit.
pub fn is_alpha_num(ch: char) -> (r: bool)
    ensures
        r == spec_is_alpha_num(ch),
{
    is_letter(ch) || is_digit(ch)
}

/// A character that the character table holds.
pub fn is_char_code(ch: char) -> (r: bool)
    ensures
        r == spec_is_char_code(ch),
{
    get_code(&ch).is_some()
}

/// The text between two positions.
pub fn text_between(chars: &Vec<char>, from: usize, to: usize) -> (text: String)
    requires
        from <= to <= chars@.len(),
    ensures
        text@ == chars@.subrange(from as int, to as int),
{
    let mut text = String::new();
    let mut i: usize = from;
    while i < to
        invariant
            from <= i <= to <= chars@.len(),
            text@ == chars@.subrange(from as int, i as int),
        decreases to - i,
    {
        push_char(&mut text, chars[i]);
        assert(chars@.subrange(from as int, i as int).push(chars@[i as int]) =~= chars@.subrange(
            from as int,
            i + 1,
        ));
        i += 1;
    }
    text
}

/// A lexer over a source text.
pub struct Lexer {
    chars: Vec<char>,
    pos: usize,
    line: usize,
    col: usize,
}

impl Lexer {
    /// The characters of the source text.
    pub closed spec fn spec_text(&self) -> Seq<char> {
        self.chars@
    }

    /// The position of the next character to read.
    pub closed spec fn spec_pos(&self) -> int {
        self.pos as int
    }

    /// The lexer stands inside its text, and knows its line and column.
    pub closed spec fn wf(&self) -> bool {
        &&& self.pos <= self.chars@.len()
        &&& self.chars@.len() < usize::MAX
        &&& self.line == spec_line_at(self.chars@, self.pos as int)
        &&& self.col == spec_col_at(self.chars@, self.pos as int)
    }

    /// A lexer at the start of `input`.
    pub fn new(input: &String) -> (lexer: Lexer)
        requires
            input@.len() < usize::MAX,
        ensures
            lexer.wf(),
            lexer.spec_text() == input@,
            lexer.spec_pos() == 0,
    {
        Lexer { chars: chars_of(input.as_str()), pos: 0, line: 1, col: 0 }
    }

    /// Whether the lexer stands at the end of its text.
    pub fn at_end(&self) -> (r: bool)
        requires
            self.wf(),
        ensures
            r == (self.spec_pos() >= self.spec_text().len()),
    {
        self.pos >= self.chars.len()
    }

    /// The next lexeme.
    pub fn scan(&mut self) -> (lexeme: Lexeme)
        requires
            old(self).wf(),
        ensures
            final(self).wf(),
            final(self).spec_text() == old(self).spec_text(),
            final(self).spec_pos() == spec_scan_at(old(self).spec_text(), old(self).spec_pos()).end,
            lexeme@ == (LexemeView {
                token: spec_scan_at(old(self).spec_text(), old(self).spec_pos()).token,
                literal: spec_scan_at(old(self).spec_text(), old(self).spec_pos()).literal,
                line: spec_line_at(final(self).spec_text(), final(self).spec_pos()),
                col: spec_col_at(final(self).spec_text(), final(self).spec_pos()),
            }),
    {
        let (token, literal) = self.scan_token();
        Lexeme { token, literal, line: self.line, col: self.col }
    }

    /// The kind and the text of the next lexeme.
    fn scan_token(&mut self) -> (r: (Token, String))
        requires
            old(self).wf(),
        ensures
            final(self).wf(),
            final(self).chars@ == old(self).chars@,
            final(self).pos == spec_scan_at(old(self).chars@, old(self).pos as int).end,
            r.0 == spec_scan_at(old(self).chars@, old(self).pos as int).token,
            r.1@ == spec_scan_at(old(self).chars@, old(self).pos as int).literal,
    {
        loop
            invariant
                self.wf(),
                self.chars@ == old(self).chars@,
                spec_scan_at(self.chars@, self.pos as int) == spec_scan_at(
                    old(self).chars@,
                    old(self).pos as int,
                ),
            decreases self.chars@.len() - self.pos,
        {
            if self.pos >= self.chars.len() || self.chars[self.pos] == '\0' {
                return (Token::EOF, String::new());
            }
            let start = self.pos;
            let ch = self.chars[start];
            if ch == '#' {
                self.read();
                self.skip_line();
                if self.pos >= self.chars.len() {
                    return (Token::EOF, String::new());
                }
                self.read();
                let mut text = String::new();
                push_char(&mut text, '\n');
                assert(text@ =~= seq!['\n']);
                return (Token::EOL, text);
            }
            if ch == '*' && self.col == 0 {
                self.read();
                self.skip_line();
                if self.pos >= self.chars.len() {
                    return (Token::EOF, String::new());
                }
                self.read();
                continue ;
            }
            if is_whitespace(ch) {
                self.read();
                self.scan_whitespace();
                let mut text = String::new();
                push_char(&mut text, ' ');
                assert(text@ =~= seq![' ']);
                return (Token::WS, text);
            }
            if is_alpha_num(ch) {
                return self.scan_alpha_num();
            }
            if ch == '"' {
                return self.scan_string_literal();
            }
            if ch == '/' && start + 1 < self.chars.len() && self.chars[start + 1] == '/' {
                self.read();
                self.read();
                return (Token::SHIFTDIVIDE, text_between(&self.chars, start, start + 2));
            }
            self.read();
            let token = match ch {
                '\n' => Token::EOL,
                '+' => Token::PLUS,
                '-' => Token::MINUS,
                '*' => Token::ASTERISK,
                '/' => Token::DIVIDE,
                ':' => Token::FIELDSIGN,
                ',' => Token::COMMA,
                '(' => Token::LPAREN,
                ')' => Token::RPAREN,
                '=' => Token::LITERALQUOTE,
                _ => Token::ILLEGAL,
            };
            return (token, text_between(&self.chars, start, start + 1));
        }
    }

    /// Reads up to the end of the line, and not past it.
    fn skip_line(&mut self)
        requires
            old(self).wf(),
        ensures
            final(self).wf(),
            final(self).chars@ == old(self).chars@,
            final(self).pos == spec_line_end(old(self).chars@, old(self).pos as int),
            final(self).pos >= old(self).pos,
    {
        while self.pos < self.chars.len() && self.chars[self.pos] != '\n'
            invariant
                self.wf(),
                self.chars@ == old(self).chars@,
                self.pos >= old(self).pos,
                spec_line_end(self.chars@, self.pos as int) == spec_line_end(
                    old(self).chars@,
                    old(self).pos as int,
                ),
            decreases self.chars@.len() - self.pos,
        {
            self.read();
        }
    }

    /// Reads the blanks and tabs that follow.
    fn scan_whitespace(&mut self)
        requires
            old(self).wf(),
        ensures
            final(self).wf(),
            final(self).chars@ == old(self).chars@,
            final(self).pos == spec_blank_end(old(self).chars@, old(self).pos as int),
    {
        while self.pos < self.chars.len() && is_whitespace(self.chars[self.pos])
            invariant
                self.wf(),
                self.chars@ == old(self).chars@,
                spec_blank_end(self.chars@, self.pos as int) == spec_blank_end(
                    old(self).chars@,
                    old(self).pos as int,
                ),
            decreases self.chars@.len() - self.pos,
        {
            self.read();
        }
    }

    /// Reads a run of letters and digits: a NUMBER where all are digits, a
    /// STRING otherwise.
    fn scan_alpha_num(&mut self) -> (r: (Token, String))
        requires
            old(self).wf(),
            old(self).pos < old(self).chars@.len(),
            spec_is_alpha_num(old(self).chars@[old(self).pos as int]),
        ensures
            final(self).wf(),
            final(self).chars@ == old(self).chars@,
            final(self).pos == spec_alpha_num_end(old(self).chars@, old(self).pos + 1),
            r.0 == (if spec_all_digits(
                old(self).chars@,
                old(self).pos as int,
                final(self).pos as int,
            ) {
                Token::NUMBER
            } else {
                Token::STRING
            }),
            r.1@ == old(self).chars@.subrange(old(self).pos as int, final(self).pos as int),
    {
        let start = self.pos;
        let mut all_digits = is_digit(self.chars[self.pos]);
        self.read();
        while self.pos < self.chars.len() && is_alpha_num(self.chars[self.pos])
            invariant
                self.wf(),
                self.chars@ == old(self).chars@,
                start == old(self).pos,
                start < self.pos,
                all_digits == spec_all_digits(self.chars@, start as int, self.pos as int),
                spec_alpha_num_end(self.chars@, self.pos as int) == spec_alpha_num_end(
                    old(self).chars@,
                    old(self).pos + 1,
                ),
            decreases self.chars@.len() - self.pos,
        {
            if !is_digit(self.chars[self.pos]) {
                all_digits = false;
            }
            self.read();
        }
        let text = text_between(&self.chars, start, self.pos);
        if all_digits {
            (Token::NUMBER, text)
        } else {
            (Token::STRING, text)
        }
    }

    /// Reads a string literal from its opening quote on.
    fn scan_string_literal(&mut self) -> (r: (Token, String))
        requires
            old(self).wf(),
            old(self).pos < old(self).chars@.len(),
            old(self).chars@[old(self).pos as int] == '"',
        ensures
            final(self).wf(),
            final(self).chars@ == old(self).chars@,
            final(self).pos == spec_scan_at(old(self).chars@, old(self).pos as int).end,
            r.0 == spec_scan_at(old(self).chars@, old(self).pos as int).token,
            r.1@ == spec_scan_at(old(self).chars@, old(self).pos as int).literal,
    {
        let start = self.pos;
        self.read();
        while self.pos < self.chars.len() && self.chars[self.pos] != '"' && is_char_code(
            self.chars[self.pos],
        )
            invariant
                self.wf(),
                self.chars@ == old(self).chars@,
                start == old(self).pos,
                start < self.pos,
                spec_string_end(self.chars@, self.pos as int) == spec_string_end(
                    old(self).chars@,
                    old(self).pos + 1,
                ),
            decreases self.chars@.len() - self.pos,
        {
            self.read();
        }
        if self.pos >= self.chars.len() {
            return (Token::ILLEGAL, text_between(&self.chars, start, self.pos));
        }
        let closing = self.chars[self.pos] == '"';
        self.read();
        let text = text_between(&self.chars, start, self.pos);
        if closing {
            (Token::STRINGLITERAL, text)
        } else {
            (Token::ILLEGAL, text)
        }
    }

    /// Reads one character and moves on: to the next column, or to the
    /// start of the next line behind a line end. At the end of the text it
    /// returns the character with code 0 and stays.
    pub fn read(&mut self) -> (ch: char)
        requires
            old(self).wf(),
        ensures
            final(self).wf(),
            final(self).spec_text() == old(self).spec_text(),
            old(self).spec_pos() < old(self).spec_text().len() ==> ch == old(self).spec_text()[old(self).spec_pos()],
            old(self).spec_pos() < old(self).spec_text().len() ==> final(self).spec_pos() == old(self).spec_pos() + 1,
            old(self).spec_pos() >= old(self).spec_text().len() ==> ch == '\0',
            old(self).spec_pos() >= old(self).spec_text().len() ==> final(self).spec_pos() == old(self).spec_pos(),
    {
        if self.pos >= self.chars.len() {
            return '\0';
        }
        let ch = self.chars[self.pos];
        proof {
            lemma_position_bounds(self.chars@, self.pos as int);
        }
        self.pos += 1;
        if ch == '\n' {
            self.line += 1;
            self.col = 0;
        } else {
            self.col += 1;
        }
        ch
    }

    /// Takes back the character that was read last, and with it the line
    /// and the column. At the start of the text nothing happens.
    pub fn unread(&mut self)
        requires
            old(self).wf(),
        ensures
            final(self).wf(),
            final(self).spec_text() == old(self).spec_text(),
            final(self).spec_pos() == (if old(self).spec_pos() > 0 {
                old(self).spec_pos() - 1
            } else {
                0
            }),
    {
        if self.pos == 0 {
            return ;
        }
        self.pos -= 1;
        if self.chars[self.pos] == '\n' {
            self.line -= 1;
            let mut col: usize = 0;
            let mut at: usize = self.pos;
            while at > 0 && self.chars[at - 1] != '\n'
                invariant
                    at <= self.pos <= self.chars@.len(),
                    col + at <= self.pos,
                    spec_col_at(self.chars@, self.pos as int) == col + spec_col_at(
                        self.chars@,
                        at as int,
                    ),
                decreases at,
            {
                at -= 1;
                col += 1;
            }
            self.col = col;
        } else {
            self.col -= 1;
        }
    }
}

/// The blanks that start at a position do not end before it, nor behind the
/// end of the text; likewise the letters and digits, and the characters of
/// a string literal.
pub proof fn lemma_run_bounds(s: Seq<char>, from: int)
    requires
        0 <= from <= s.len(),
    ensures
        from <= spec_blank_end(s, from) <= s.len(),
        from <= spec_alpha_num_end(s, from) <= s.len(),
        from <= spec_string_end(s, from) <= s.len(),
    decreases s.len() - from,
{
    if from < s.len() {
        lemma_run_bounds(s, from + 1);
    }
}

/// A lexeme other than EOF ends behind the position at which it starts, and
/// no lexeme ends behind the end of the text.
pub proof fn lemma_scan_advances(s: Seq<char>, pos: int)
    requires
        0 <= pos <= s.len(),
    ensures
        pos <= spec_scan_at(s, pos).end <= s.len(),
        spec_scan_at(s, pos).token != Token::EOF ==> spec_scan_at(s, pos).end > pos,
    decreases s.len() - pos,
{
    if pos < s.len() {
        lemma_line_end_bounds(s, pos + 1);
        lemma_run_bounds(s, pos + 1);
        if s[pos] == '*' && spec_col_at(s, pos) == 0 && s[pos] != '\0' && s[pos] != '#' {
            let end = spec_line_end(s, pos + 1);
            if end < s.len() {
                lemma_scan_advances(s, end + 1);
            }
        }
    }
}

/// The line of a position is at most one more than the position, and its
/// column is at most the position.
pub proof fn lemma_position_bounds(s: Seq<char>, pos: int)
    requires
        0 <= pos,
    ensures
        spec_line_at(s, pos) <= pos + 1,
        spec_col_at(s, pos) <= pos,
    decreases pos,
{
    if pos > 0 {
        lemma_position_bounds(s, pos - 1);
    }
}

} // verus!
