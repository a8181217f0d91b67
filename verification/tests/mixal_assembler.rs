use negroni::mix::op_codes;
use negroni::mix::{Address, Instruction, Sign, Word};
use negroni::mixal::ast::{
    ConStatement, EndStatement, Expression, MixStatement, Node, Number, OrigStatement, Program,
    Statement, Symbol, WValue, WValuePart,
};
use negroni::mixal::Token;
use negroni::mixal::symbol::internal_name_for;
use negroni::mixal::{assemble_source, AssembleError, Assembler, ParseErrorKind, Parser, SourceError};

fn assemble(source: &str) -> Result<Assembler, AssembleError> {
    let program = Parser::new(&source.to_string()).parse().unwrap();
    let mut assembler = Assembler::new();
    match assembler.assemble(program) {
        Ok(()) => Ok(assembler),
        Err(e) => Err(e),
    }
}

fn error_of(source: &str) -> AssembleError {
    assemble(source).err().unwrap()
}

fn instruction_word(operation: u8, address: isize, index: u8, modification: u8) -> Word {
    Word::from_instruction(&Instruction {
        operation,
        modification,
        address: Address::from_value(address),
        index_specification: index,
    })
}

fn symbol(name: &str) -> Symbol {
    Symbol { name: name.to_string() }
}

#[test]
fn a_forward_reference_is_filled_in() {
    let assembler = assemble("START JMP FOO\n FOO EQU 1000\n END START").unwrap();
    assert_eq!(assembler.words.len(), 1);
    assert_eq!(assembler.words[&0], Word { sign: Sign::Positive, bytes: [15, 40, 0, 0, 39] });
    let instruction = Instruction::from_word(assembler.words[&0]);
    assert_eq!(instruction.operation, op_codes::JMP);
    assert_eq!(instruction.address.value(), 1000);
    assert_eq!(assembler.program_start, 0);
}

#[test]
fn a_forward_reference_to_a_label() {
    let assembler = assemble(" ORIG 100\nBEGIN JMP DONE\n NOP\n LDA DONE,1(1:3)\nDONE HLT\n END BEGIN\n").unwrap();
    assert_eq!(assembler.words[&100], instruction_word(op_codes::JMP, 103, 0, 0));
    assert_eq!(assembler.words[&101], instruction_word(op_codes::NOP, 0, 0, 0));
    assert_eq!(assembler.words[&102], instruction_word(op_codes::LDA, 103, 1, 11));
    assert_eq!(assembler.words[&103], instruction_word(op_codes::HLT, 0, 0, 2));
    assert_eq!(assembler.words.len(), 4);
    assert_eq!(assembler.program_start, 100);
}

#[test]
fn the_modification_of_the_table_where_the_statement_gives_none() {
    let assembler = assemble(
        " LDA 1\n STJ 2\n MOVE 3\n CHAR\n SRC 4\n JLE 5\n ENN3 6\n CMPX 7\n JXNP 8\n DEC6 9\n IN 10\n",
    )
    .unwrap();
    assert_eq!(assembler.words[&0], instruction_word(8, 1, 0, 5));
    assert_eq!(assembler.words[&1], instruction_word(32, 2, 0, 2));
    assert_eq!(assembler.words[&2], instruction_word(7, 3, 0, 1));
    assert_eq!(assembler.words[&3], instruction_word(5, 0, 0, 1));
    assert_eq!(assembler.words[&4], instruction_word(6, 4, 0, 5));
    assert_eq!(assembler.words[&5], instruction_word(39, 5, 0, 9));
    assert_eq!(assembler.words[&6], instruction_word(51, 6, 0, 3));
    assert_eq!(assembler.words[&7], instruction_word(63, 7, 0, 5));
    assert_eq!(assembler.words[&8], instruction_word(47, 8, 0, 5));
    assert_eq!(assembler.words[&9], instruction_word(54, 9, 0, 1));
    assert_eq!(assembler.words[&10], instruction_word(36, 10, 0, 0));
}

#[test]
fn literal_constants_are_emitted_at_end() {
    let assembler = assemble("START LDA =5=\n ADD =-7=\n SUB =5=\n HLT\n END START\n").unwrap();
    assert_eq!(assembler.words[&0], instruction_word(op_codes::LDA, 4, 0, 5));
    assert_eq!(assembler.words[&1], instruction_word(op_codes::ADD, 5, 0, 5));
    assert_eq!(assembler.words[&2], instruction_word(op_codes::SUB, 4, 0, 5));
    assert_eq!(assembler.words[&3], instruction_word(op_codes::HLT, 0, 0, 2));
    assert_eq!(assembler.words[&4], Word::from_value(5));
    assert_eq!(assembler.words[&5], Word::from_value(-7));
    assert_eq!(assembler.words.len(), 6);
    assert_eq!(assembler.program_start, 0);
}

#[test]
fn local_symbols() {
    let assembler = assemble("2H NOP\n JMP 2F\n JMP 2B\n2H NOP\n JMP 2B\n END 0\n").unwrap();
    assert_eq!(assembler.words[&0], instruction_word(op_codes::NOP, 0, 0, 0));
    assert_eq!(assembler.words[&1], instruction_word(op_codes::JMP, 3, 0, 0));
    assert_eq!(assembler.words[&2], instruction_word(op_codes::JMP, 0, 0, 0));
    assert_eq!(assembler.words[&3], instruction_word(op_codes::NOP, 0, 0, 0));
    assert_eq!(assembler.words[&4], instruction_word(op_codes::JMP, 3, 0, 0));
}

#[test]
fn pseudo_operations() {
    let assembler = assemble(
        "X EQU 5\nY EQU X*2+1\n ORIG 100\nA CON Y\n CON 0-X\n ALF \"HELLO\"\n ALF \"AB\"\nB CON *\n CON 2:3\n CON 7/2\n END A\n",
    )
    .unwrap();
    assert_eq!(assembler.words[&100], Word::from_value(11));
    assert_eq!(assembler.words[&101], Word::from_value(-5));
    assert_eq!(assembler.words[&102], Word { sign: Sign::Positive, bytes: [8, 5, 13, 13, 16] });
    assert_eq!(assembler.words[&103], Word { sign: Sign::Positive, bytes: [1, 2, 0, 0, 0] });
    assert_eq!(assembler.words[&104], Word::from_value(104));
    assert_eq!(assembler.words[&105], Word::from_value(19));
    assert_eq!(assembler.words[&106], Word::from_value(3));
    assert_eq!(assembler.words.len(), 7);
    assert_eq!(assembler.program_start, 100);
    assert_eq!(assembler.location_counter, 107);
}

#[test]
fn a_w_value_is_its_first_part() {
    let assembler = assemble(" CON 1(0:2),3\n").unwrap();
    assert_eq!(assembler.words[&0], Word::from_value(1));
}

#[test]
fn a_forward_reference_outside_an_address_field_is_zero_for_good() {
    let assembler = assemble(" LDA 7(F)\nF EQU 3\n END 0\n").unwrap();
    assert_eq!(assembler.words[&0], instruction_word(op_codes::LDA, 7, 0, 0));
    let assembler = assemble(" CON F\nF EQU 3\n END 0\n").unwrap();
    assert_eq!(assembler.words[&0], Word::zero());
}

#[test]
fn why_a_program_is_not_assembled() {
    assert_eq!(error_of("X NOP\nX NOP\n"), AssembleError::DuplicateSymbol);
    assert_eq!(error_of("X EQU 1\nX EQU 2\n"), AssembleError::DuplicateSymbol);
    assert_eq!(error_of(" JMP NOWHERE\n END 0\n"), AssembleError::UnresolvedSymbol);
    assert_eq!(error_of(" LDA 0(NOWHERE)\n END 0\n"), AssembleError::UnresolvedSymbol);
    assert_eq!(error_of(" CON 7//2\n"), AssembleError::UnsupportedOp);
    assert_eq!(error_of(" CON 7/0\n"), AssembleError::DivisionByZero);
    assert_eq!(
        error_of(" CON 4611686018427387904*4611686018427387904\n"),
        AssembleError::Overflow
    );
    assert_eq!(error_of(" CON 1073741824\n"), AssembleError::ValueOutOfRange);
    assert_eq!(error_of(" LDA 4096\n"), AssembleError::ValueOutOfRange);
    assert_eq!(error_of(" LDA 0-4096\n"), AssembleError::ValueOutOfRange);
    assert_eq!(error_of(" LDA 0,64\n"), AssembleError::ValueOutOfRange);
    assert_eq!(error_of(" LDA 0(64)\n"), AssembleError::ValueOutOfRange);
    assert_eq!(error_of(" LDA 0(0-1)\n"), AssembleError::ValueOutOfRange);
    assert_eq!(error_of(" JMP FAR\nFAR EQU 5000\n"), AssembleError::ValueOutOfRange);
    assert_eq!(error_of(" LDA =1073741824=\n END 0\n"), AssembleError::ValueOutOfRange);
    assert_eq!(error_of(" ORIG 4001\n"), AssembleError::LocationOutOfRange);
    assert_eq!(error_of(" ORIG 4000\n NOP\n"), AssembleError::LocationOutOfRange);
    assert_eq!(error_of(" ORIG 4000\n LDA =1=\n END 0\n"), AssembleError::LocationOutOfRange);
    assert_eq!(error_of(" END 4000\n"), AssembleError::LocationOutOfRange);
    assert_eq!(error_of(" ALF \"TOOLONG\"\n"), AssembleError::BadCharCode);
    assert_eq!(assemble(" ORIG 3999\n NOP\n").unwrap().location_counter, 4000);
}

#[test]
fn an_operation_that_the_table_does_not_hold() {
    let mut assembler = Assembler::new();
    let program = Program {
        statements: vec![Statement::Mix(MixStatement {
            symbol: None,
            op: "FOO".to_string(),
            a_part: None,
            index_part: None,
            f_part: None,
        })],
    };
    assert_eq!(assembler.assemble(program), Err(AssembleError::UnknownOp));
    assert!(assembler.words.is_empty());
}

#[test]
fn assembly_stops_at_the_first_statement_that_fails() {
    let program = Parser::new(&" NOP\n CON 1/0\n NOP\n".to_string()).parse().unwrap();
    let mut assembler = Assembler::new();
    assert_eq!(assembler.assemble(program), Err(AssembleError::DivisionByZero));
    assert_eq!(assembler.words.len(), 1);
    assert_eq!(assembler.location_counter, 1);
}

#[test]
fn which_symbols_are_local() {
    assert!(symbol("2H").is_local_declaration());
    assert!(!symbol("2H").is_local_forward_ref());
    assert!(!symbol("2H").is_local_back_ref());
    assert!(symbol("9F").is_local_forward_ref());
    assert!(!symbol("9F").is_local_declaration());
    assert!(symbol("0B").is_local_back_ref());
    assert!(!symbol("0B").is_local_forward_ref());
    for name in ["2H", "9F", "0B"] {
        assert!(symbol(name).is_local());
    }
    for name in ["FOO", "H", "22H", "2HH", "H2", "2", "2X", "", "A2H", "2H "] {
        assert!(!symbol(name).is_local());
        assert!(!symbol(name).is_local_declaration());
    }
}

#[test]
fn the_names_under_which_symbols_are_kept() {
    assert_eq!(symbol("2H").internal_name(), "__loc:2");
    assert_eq!(symbol("2F").internal_name(), "__loc:2");
    assert_eq!(symbol("2B").internal_name(), "__loc:2");
    assert_eq!(symbol("7H").internal_name(), "__loc:7");
    assert_eq!(symbol("FOO").internal_name(), "FOO");
    assert_eq!(symbol("H2").internal_name(), "H2");
    assert_eq!(internal_name_for("5B", true), "__loc:5");
    assert_eq!(internal_name_for("5B", false), "5B");
    assert_eq!(internal_name_for("", true), "__loc:");
}

#[test]
fn a_source_text_is_assembled_in_one_step() {
    let assembler = assemble_source(&"START JMP FOO\n FOO EQU 1000\n END START".to_string()).unwrap();
    assert_eq!(assembler.words[&0], instruction_word(op_codes::JMP, 1000, 0, 0));
    assert_eq!(assembler.program_start, 0);
    match assemble_source(&" LDA 1,\n".to_string()) {
        Err(SourceError::Parse(e)) => assert_eq!(e.kind, ParseErrorKind::ExpectedExpression),
        _ => panic!("no error of the parser"),
    }
    match assemble_source(&" CON 1/0\n".to_string()) {
        Err(SourceError::Assemble(e)) => assert_eq!(e, AssembleError::DivisionByZero),
        _ => panic!("no error of the assembler"),
    }
}

fn number(value: usize) -> Box<Node> {
    Box::new(Node::Number(Number { value }))
}

fn w_value(value: isize) -> WValue {
    let expression = if value >= 0 {
        number(value as usize)
    } else {
        Box::new(Node::Expression(Expression {
            left: None,
            operator: Token::MINUS,
            right: number((-value) as usize),
        }))
    };
    WValue { parts: vec![WValuePart { expression, f_part: None }] }
}

fn put_together_again(assembler: &Assembler) -> Program {
    let mut statements = vec![];
    for location in 0..4000 {
        if let Some(word) = assembler.words.get(&location) {
            statements.push(Statement::Orig(OrigStatement {
                symbol: None,
                address: w_value(location as isize),
            }));
            statements.push(Statement::Con(ConStatement {
                symbol: None,
                address: w_value(word.value()),
            }));
        }
    }
    statements.push(Statement::End(EndStatement {
        symbol: None,
        address: w_value(assembler.program_start as isize),
    }));
    Program { statements }
}

#[test]
fn a_program_put_together_from_its_words_assembles_to_the_same_words() {
    let sources = [
        "START JMP FOO\n FOO EQU 1000\n END START",
        " ORIG 100\nBEGIN JMP DONE\n NOP\n LDA DONE,1(1:3)\nDONE HLT\n END BEGIN\n",
        "START LDA =5=\n ADD =-7=\n ENTA 0-4095,6(63)\n CON 0-1073741823\n ALF \"HELLO\"\n ORIG 3997\n CON 1073741823\n END 3997\n",
        " END 0\n",
    ];
    for source in sources {
        let first = assemble(source).unwrap();
        let mut second = Assembler::new();
        assert_eq!(second.assemble(put_together_again(&first)), Ok(()));
        assert_eq!(second.words, first.words);
        assert_eq!(second.program_start, first.program_start);
    }
}
