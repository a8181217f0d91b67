use negroni::mixal::{Lexer, Token};

fn tokens_of(source: &str) -> Vec<(Token, String)> {
    let mut lexer = Lexer::new(&source.to_string());
    let mut found = vec![];
    loop {
        let lexeme = lexer.scan();
        let done = lexeme.token == Token::EOF;
        found.push((lexeme.token, lexeme.literal));
        if done {
            return found;
        }
    }
}

fn pair(token: Token, literal: &str) -> (Token, String) {
    (token, literal.to_string())
}

#[test]
fn lexemes_of_a_statement() {
    assert_eq!(
        tokens_of("LOOP LDA 2000,1(0:3)\n"),
        vec![
            pair(Token::STRING, "LOOP"),
            pair(Token::WS, " "),
            pair(Token::STRING, "LDA"),
            pair(Token::WS, " "),
            pair(Token::NUMBER, "2000"),
            pair(Token::COMMA, ","),
            pair(Token::NUMBER, "1"),
            pair(Token::LPAREN, "("),
            pair(Token::NUMBER, "0"),
            pair(Token::FIELDSIGN, ":"),
            pair(Token::NUMBER, "3"),
            pair(Token::RPAREN, ")"),
            pair(Token::EOL, "\n"),
            pair(Token::EOF, ""),
        ]
    );
}

#[test]
fn lexemes_of_operators() {
    assert_eq!(
        tokens_of("+-*/ // =:"),
        vec![
            pair(Token::PLUS, "+"),
            pair(Token::MINUS, "-"),
            pair(Token::ASTERISK, "*"),
            pair(Token::DIVIDE, "/"),
            pair(Token::WS, " "),
            pair(Token::SHIFTDIVIDE, "//"),
            pair(Token::WS, " "),
            pair(Token::LITERALQUOTE, "="),
            pair(Token::FIELDSIGN, ":"),
            pair(Token::EOF, ""),
        ]
    );
}

#[test]
fn blanks_and_tabs_are_one_lexeme() {
    assert_eq!(
        tokens_of("A \t  B"),
        vec![
            pair(Token::STRING, "A"),
            pair(Token::WS, " "),
            pair(Token::STRING, "B"),
            pair(Token::EOF, ""),
        ]
    );
}

#[test]
fn numbers_and_strings() {
    assert_eq!(
        tokens_of("123 2H H2 \u{394}\u{3a3}\u{3a0}"),
        vec![
            pair(Token::NUMBER, "123"),
            pair(Token::WS, " "),
            pair(Token::STRING, "2H"),
            pair(Token::WS, " "),
            pair(Token::STRING, "H2"),
            pair(Token::WS, " "),
            pair(Token::STRING, "\u{394}\u{3a3}\u{3a0}"),
            pair(Token::EOF, ""),
        ]
    );
}

#[test]
fn a_hash_starts_a_comment_up_to_the_end_of_the_line() {
    assert_eq!(
        tokens_of("A # all of this\nB # and this"),
        vec![
            pair(Token::STRING, "A"),
            pair(Token::WS, " "),
            pair(Token::EOL, "\n"),
            pair(Token::STRING, "B"),
            pair(Token::WS, " "),
            pair(Token::EOF, ""),
        ]
    );
}

#[test]
fn an_asterisk_in_the_first_column_makes_the_line_a_comment() {
    assert_eq!(
        tokens_of("* a comment\n* another\nHLT\n 2*3\n* the last"),
        vec![
            pair(Token::STRING, "HLT"),
            pair(Token::EOL, "\n"),
            pair(Token::WS, " "),
            pair(Token::NUMBER, "2"),
            pair(Token::ASTERISK, "*"),
            pair(Token::NUMBER, "3"),
            pair(Token::EOL, "\n"),
            pair(Token::EOF, ""),
        ]
    );
}

#[test]
fn string_literals() {
    assert_eq!(
        tokens_of("\"HELLO\" \"A.B,C\""),
        vec![
            pair(Token::STRINGLITERAL, "\"HELLO\""),
            pair(Token::WS, " "),
            pair(Token::STRINGLITERAL, "\"A.B,C\""),
            pair(Token::EOF, ""),
        ]
    );
    assert_eq!(tokens_of("\"HEllo\"")[0], pair(Token::ILLEGAL, "\"HEl"));
    assert_eq!(tokens_of("\"HELLO"), vec![pair(Token::ILLEGAL, "\"HELLO"), pair(Token::EOF, "")]);
    assert_eq!(tokens_of("\"AB\nC\"")[0], pair(Token::ILLEGAL, "\"AB\n"));
}

#[test]
fn other_characters_are_illegal() {
    assert_eq!(
        tokens_of("a$"),
        vec![pair(Token::ILLEGAL, "a"), pair(Token::ILLEGAL, "$"), pair(Token::EOF, "")]
    );
}

#[test]
fn the_end_of_the_text_is_never_passed() {
    let mut lexer = Lexer::new(&"A".to_string());
    assert_eq!(lexer.scan().token, Token::STRING);
    assert_eq!(lexer.scan().token, Token::EOF);
    assert_eq!(lexer.scan().token, Token::EOF);
    assert_eq!(tokens_of(""), vec![pair(Token::EOF, "")]);
}

#[test]
fn a_lexeme_knows_the_line_and_column_of_its_end() {
    let mut lexer = Lexer::new(&"LDA 2000\n HLT".to_string());
    let lda = lexer.scan();
    assert_eq!((lda.line, lda.col), (1, 3));
    let blank = lexer.scan();
    assert_eq!((blank.line, blank.col), (1, 4));
    let number = lexer.scan();
    assert_eq!((number.line, number.col), (1, 8));
    let eol = lexer.scan();
    assert_eq!(eol.token, Token::EOL);
    assert_eq!((eol.line, eol.col), (2, 0));
    let blank = lexer.scan();
    assert_eq!((blank.line, blank.col), (2, 1));
    let hlt = lexer.scan();
    assert_eq!((hlt.line, hlt.col), (2, 4));
    let eof = lexer.scan();
    assert_eq!(eof.token, Token::EOF);
    assert_eq!((eof.line, eof.col), (2, 4));
}

#[test]
fn unread_takes_back_one_character_with_line_and_column() {
    let mut lexer = Lexer::new(&"AB\nC".to_string());
    assert_eq!(lexer.read(), 'A');
    assert_eq!(lexer.read(), 'B');
    assert_eq!(lexer.read(), '\n');
    lexer.unread();
    let eol = lexer.scan();
    assert_eq!(eol.token, Token::EOL);
    assert_eq!((eol.line, eol.col), (2, 0));
    lexer.unread();
    lexer.unread();
    let b = lexer.scan();
    assert_eq!(b.literal, "B");
    assert_eq!((b.line, b.col), (1, 2));
    assert_eq!(lexer.read(), '\n');
    assert_eq!(lexer.read(), 'C');
    assert_eq!(lexer.read(), '\0');
    assert_eq!(lexer.read(), '\0');
    assert!(lexer.at_end());
}
