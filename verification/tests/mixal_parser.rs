use negroni::mixal::ast::{Node, Statement, Symbol};
use negroni::mixal::{ParseError, ParseErrorKind, Parser, Program, Token};

fn parse(source: &str) -> Result<Program, ParseError> {
    Parser::new(&source.to_string()).parse()
}

fn kind_of(source: &str) -> ParseErrorKind {
    parse(source).err().unwrap().kind
}

fn name_of(symbol: &Option<Symbol>) -> Option<&str> {
    symbol.as_ref().map(|s| s.name.as_str())
}

fn number_of(node: &Node) -> usize {
    match node {
        Node::Number(n) => n.value,
        _ => panic!("no number"),
    }
}

fn symbol_of(node: &Node) -> &str {
    match node {
        Node::Symbol(s) => s.name.as_str(),
        _ => panic!("no symbol"),
    }
}

#[test]
fn a_program_of_three_statements() {
    let program = parse("START JMP FOO\n FOO EQU 1000\n END START").unwrap();
    assert_eq!(program.statements.len(), 3);
    match &program.statements[0] {
        Statement::Mix(s) => {
            assert_eq!(name_of(&s.symbol), Some("START"));
            assert_eq!(s.op, "JMP");
            assert_eq!(symbol_of(s.a_part.as_ref().unwrap()), "FOO");
            assert!(s.index_part.is_none());
            assert!(s.f_part.is_none());
        }
        _ => panic!("no statement of the machine"),
    }
    match &program.statements[1] {
        Statement::Equ(s) => {
            assert_eq!(name_of(&s.symbol), Some("FOO"));
            assert_eq!(s.address.parts.len(), 1);
            assert_eq!(number_of(&s.address.parts[0].expression), 1000);
            assert!(s.address.parts[0].f_part.is_none());
        }
        _ => panic!("no EQU"),
    }
    match &program.statements[2] {
        Statement::End(s) => {
            assert_eq!(name_of(&s.symbol), None);
            assert_eq!(symbol_of(&s.address.parts[0].expression), "START");
        }
        _ => panic!("no END"),
    }
}

#[test]
fn the_parts_of_a_statement() {
    let program = parse("LOOP LDA TABLE+1,2(0:3)\n").unwrap();
    match &program.statements[0] {
        Statement::Mix(s) => {
            assert_eq!(name_of(&s.symbol), Some("LOOP"));
            assert_eq!(s.op, "LDA");
            match s.a_part.as_ref().unwrap().as_ref() {
                Node::Expression(e) => {
                    assert_eq!(e.operator, Token::PLUS);
                    assert_eq!(symbol_of(e.left.as_ref().unwrap()), "TABLE");
                    assert_eq!(number_of(&e.right), 1);
                }
                _ => panic!("no expression"),
            }
            assert_eq!(number_of(s.index_part.as_ref().unwrap()), 2);
            match s.f_part.as_ref().unwrap().as_ref() {
                Node::Expression(e) => {
                    assert_eq!(e.operator, Token::FIELDSIGN);
                    assert_eq!(number_of(e.left.as_ref().unwrap()), 0);
                    assert_eq!(number_of(&e.right), 3);
                }
                _ => panic!("no expression"),
            }
        }
        _ => panic!("no statement of the machine"),
    }
}

#[test]
fn operators_apply_from_left_to_right() {
    let program = parse(" CON 1+2*3\n").unwrap();
    match &program.statements[0] {
        Statement::Con(s) => match s.address.parts[0].expression.as_ref() {
            Node::Expression(outer) => {
                assert_eq!(outer.operator, Token::ASTERISK);
                assert_eq!(number_of(&outer.right), 3);
                match outer.left.as_ref().unwrap().as_ref() {
                    Node::Expression(inner) => {
                        assert_eq!(inner.operator, Token::PLUS);
                        assert_eq!(number_of(inner.left.as_ref().unwrap()), 1);
                        assert_eq!(number_of(&inner.right), 2);
                    }
                    _ => panic!("no inner expression"),
                }
            }
            _ => panic!("no expression"),
        },
        _ => panic!("no CON"),
    }
}

#[test]
fn a_sign_before_the_first_atom() {
    let program = parse(" ENTA -5\n").unwrap();
    match &program.statements[0] {
        Statement::Mix(s) => match s.a_part.as_ref().unwrap().as_ref() {
            Node::Expression(e) => {
                assert!(e.left.is_none());
                assert_eq!(e.operator, Token::MINUS);
                assert_eq!(number_of(&e.right), 5);
            }
            _ => panic!("no expression"),
        },
        _ => panic!("no statement of the machine"),
    }
}

#[test]
fn literal_constants_asterisks_and_w_values() {
    let program = parse(" LDA =5=\n JMP *+2\nX EQU 1(0:2),3\n ALF \"HELLO\"\n").unwrap();
    assert_eq!(program.statements.len(), 4);
    match &program.statements[0] {
        Statement::Mix(s) => match s.a_part.as_ref().unwrap().as_ref() {
            Node::LiteralConstant(l) => assert_eq!(number_of(&l.value), 5),
            _ => panic!("no literal constant"),
        },
        _ => panic!("no statement of the machine"),
    }
    match &program.statements[1] {
        Statement::Mix(s) => match s.a_part.as_ref().unwrap().as_ref() {
            Node::Expression(e) => {
                assert!(matches!(e.left.as_ref().unwrap().as_ref(), Node::Asterisk(_)));
                assert_eq!(e.operator, Token::PLUS);
            }
            _ => panic!("no expression"),
        },
        _ => panic!("no statement of the machine"),
    }
    match &program.statements[2] {
        Statement::Equ(s) => {
            assert_eq!(s.address.parts.len(), 2);
            assert!(s.address.parts[0].f_part.is_some());
            assert!(s.address.parts[1].f_part.is_none());
            assert_eq!(number_of(&s.address.parts[1].expression), 3);
        }
        _ => panic!("no EQU"),
    }
    match &program.statements[3] {
        Statement::Alf(s) => assert_eq!(s.char_code, "\"HELLO\""),
        _ => panic!("no ALF"),
    }
}

#[test]
fn empty_lines_and_comments_are_no_statements() {
    let program = parse("\n\n* a comment\n HLT  # stop\n   \n\n NOP\n\n").unwrap();
    assert_eq!(program.statements.len(), 2);
    assert_eq!(parse("").unwrap().statements.len(), 0);
    assert_eq!(parse("\n  \n").unwrap().statements.len(), 0);
}

#[test]
fn the_first_word_is_the_label_unless_it_is_a_mnemonic() {
    let program = parse("HLT\n  HLT\nHERE HLT\n  THERE HLT\n2H NOP\n").unwrap();
    let labels: Vec<Option<String>> = program
        .statements
        .iter()
        .map(|s| match s {
            Statement::Mix(m) => m.symbol.as_ref().map(|x| x.name.clone()),
            _ => None,
        })
        .collect();
    assert_eq!(
        labels,
        vec![None, None, Some("HERE".to_string()), Some("THERE".to_string()), Some("2H".to_string())]
    );
}

#[test]
fn what_the_parser_misses() {
    assert_eq!(kind_of("FOO\n"), ParseErrorKind::ExpectedOpCode);
    assert_eq!(kind_of("5 HLT\n"), ParseErrorKind::ExpectedOpCode);
    assert_eq!(kind_of("FOO BAR 1\n"), ParseErrorKind::UnknownOpCode);
    assert_eq!(kind_of(" HLT 0 0\n"), ParseErrorKind::ExpectedEndOfLine);
    assert_eq!(kind_of(" LDA 1 ,2\n"), ParseErrorKind::ExpectedEndOfLine);
    assert_eq!(kind_of("X EQU\n"), ParseErrorKind::ExpectedWValue);
    assert_eq!(kind_of(" ORIG (1)\n"), ParseErrorKind::ExpectedWValue);
    assert_eq!(kind_of(" ALF HELLO\n"), ParseErrorKind::ExpectedStringLiteral);
    assert_eq!(kind_of(" ALF \"hello\"\n"), ParseErrorKind::ExpectedStringLiteral);
    assert_eq!(kind_of(" LDA 1,\n"), ParseErrorKind::ExpectedExpression);
    assert_eq!(kind_of(" LDA 1()\n"), ParseErrorKind::ExpectedExpression);
    assert_eq!(kind_of(" LDA ==\n"), ParseErrorKind::ExpectedExpression);
    assert_eq!(kind_of(" CON 1,\n"), ParseErrorKind::ExpectedExpression);
    assert_eq!(kind_of(" LDA 1+\n"), ParseErrorKind::ExpectedAtom);
    assert_eq!(kind_of(" LDA -\n"), ParseErrorKind::ExpectedAtom);
    assert_eq!(kind_of(" LDA =5\n"), ParseErrorKind::ExpectedLiteralQuote);
    assert_eq!(kind_of(" LDA 1(2\n"), ParseErrorKind::ExpectedRightParen);
    assert_eq!(
        kind_of(" CON 99999999999999999999999999999999999999999\n"),
        ParseErrorKind::NumberTooLarge
    );
}

#[test]
fn an_error_names_the_line_and_the_column() {
    let e = parse(" LDA 1,\n").err().unwrap();
    assert_eq!(e.kind, ParseErrorKind::ExpectedExpression);
    assert_eq!((e.line, e.col), (1, 7));
    let e = parse(" HLT\n LDA 1,\n").err().unwrap();
    assert_eq!(e.kind, ParseErrorKind::ExpectedExpression);
    assert_eq!((e.line, e.col), (2, 7));
    let e = parse(" HLT\n NOP\n LDA 1(2\n").err().unwrap();
    assert_eq!(e.kind, ParseErrorKind::ExpectedRightParen);
    assert_eq!((e.line, e.col), (3, 8));
    let e = parse(" FOO 1\n").err().unwrap();
    assert_eq!(e.kind, ParseErrorKind::ExpectedOpCode);
    assert_eq!((e.line, e.col), (1, 5));
    let e = parse("FOO BAR 1\n").err().unwrap();
    assert_eq!(e.kind, ParseErrorKind::UnknownOpCode);
    assert_eq!((e.line, e.col), (1, 4));
    assert_eq!(e.message(), "unknown op code");
    let e = parse("5 HLT\n").err().unwrap();
    assert_eq!(e.kind, ParseErrorKind::ExpectedOpCode);
    assert_eq!((e.line, e.col), (1, 0));
    let e = parse(" HLT\n\n  X EQU\n").err().unwrap();
    assert_eq!(e.kind, ParseErrorKind::ExpectedWValue);
    assert_eq!((e.line, e.col), (3, 7));
    let e = parse(" NOP\n LDA 1+").err().unwrap();
    assert_eq!(e.kind, ParseErrorKind::ExpectedAtom);
    assert_eq!((e.line, e.col), (2, 7));
}
