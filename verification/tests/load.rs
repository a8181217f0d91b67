use negroni::computer::Computer;
use negroni::mix;
use negroni::operations::Operation;

#[test]
fn load_test_lda() {
    let mut computer = Computer::new();
    computer.memory[2000] = mix::Word {
        bytes: [1, 14, 3, 5, 4],
        sign: mix::Sign::Negative,
    };

    let tests = [
        (
            mix::Instruction {
                address: mix::Address::from_value(2000),
                index_specification: 0,
                modification: mix::field_spec(0, 5),
                operation: mix::op_codes::LDA,
            },
            mix::Word {
                bytes: [1, 14, 3, 5, 4],
                sign: mix::Sign::Negative,
            },
        ),
        (
            mix::Instruction {
                address: mix::Address::from_value(2000),
                index_specification: 0,
                modification: mix::field_spec(1, 5),
                operation: mix::op_codes::LDA,
            },
            mix::Word {
                bytes: [1, 14, 3, 5, 4],
                sign: mix::Sign::Positive,
            },
        ),
        (
            mix::Instruction {
                address: mix::Address::from_value(2000),
                index_specification: 0,
                modification: mix::field_spec(3, 5),
                operation: mix::op_codes::LDA,
            },
            mix::Word {
                bytes: [0, 0, 3, 5, 4],
                sign: mix::Sign::Positive,
            },
        ),
        (
            mix::Instruction {
                address: mix::Address::from_value(2000),
                index_specification: 0,
                modification: mix::field_spec(0, 3),
                operation: mix::op_codes::LDA,
            },
            mix::Word {
                bytes: [0, 0, 1, 14, 3],
                sign: mix::Sign::Negative,
            },
        ),
        (
            mix::Instruction {
                address: mix::Address::from_value(2000),
                index_specification: 0,
                modification: mix::field_spec(4, 4),
                operation: mix::op_codes::LDA,
            },
            mix::Word {
                bytes: [0, 0, 0, 0, 5],
                sign: mix::Sign::Positive,
            },
        ),
        (
            mix::Instruction {
                address: mix::Address::from_value(2000),
                index_specification: 0,
                modification: mix::field_spec(0, 0),
                operation: mix::op_codes::LDA,
            },
            mix::Word {
                bytes: [0, 0, 0, 0, 0],
                sign: mix::Sign::Negative,
            },
        ),
        (
            mix::Instruction {
                address: mix::Address::from_value(2000),
                index_specification: 0,
                modification: mix::field_spec(1, 1),
                operation: mix::op_codes::LDA,
            },
            mix::Word {
                bytes: [0, 0, 0, 0, 1],
                sign: mix::Sign::Positive,
            },
        ),
    ];

    for (instruction, expected_acc) in &tests {
        instruction.decode().unwrap().execute(&mut computer).unwrap();

        assert_eq!(computer.accumulator, *expected_acc);
    }
}

#[test]
fn load_test_ldx() {
    let mut computer = Computer::new();
    computer.memory[2000] = mix::Word {
        bytes: [1, 14, 3, 5, 4],
        sign: mix::Sign::Negative,
    };

    let tests = [
        (
            mix::Instruction {
                address: mix::Address::from_value(2000),
                index_specification: 0,
                modification: mix::field_spec(0, 5),
                operation: mix::op_codes::LDX,
            },
            mix::Word {
                bytes: [1, 14, 3, 5, 4],
                sign: mix::Sign::Negative,
            },
        ),
        (
            mix::Instruction {
                address: mix::Address::from_value(2000),
                index_specification: 0,
                modification: mix::field_spec(1, 5),
                operation: mix::op_codes::LDX,
            },
            mix::Word {
                bytes: [1, 14, 3, 5, 4],
                sign: mix::Sign::Positive,
            },
        ),
        (
            mix::Instruction {
                address: mix::Address::from_value(2000),
                index_specification: 0,
                modification: mix::field_spec(3, 5),
                operation: mix::op_codes::LDX,
            },
            mix::Word {
                bytes: [0, 0, 3, 5, 4],
                sign: mix::Sign::Positive,
            },
        ),
        (
            mix::Instruction {
                address: mix::Address::from_value(2000),
                index_specification: 0,
                modification: mix::field_spec(0, 3),
                operation: mix::op_codes::LDX,
            },
            mix::Word {
                bytes: [0, 0, 1, 14, 3],
                sign: mix::Sign::Negative,
            },
        ),
        (
            mix::Instruction {
                address: mix::Address::from_value(2000),
                index_specification: 0,
                modification: mix::field_spec(4, 4),
                operation: mix::op_codes::LDX,
            },
            mix::Word {
                bytes: [0, 0, 0, 0, 5],
                sign: mix::Sign::Positive,
            },
        ),
        (
            mix::Instruction {
                address: mix::Address::from_value(2000),
                index_specification: 0,
                modification: mix::field_spec(0, 0),
                operation: mix::op_codes::LDX,
            },
            mix::Word {
                bytes: [0, 0, 0, 0, 0],
                sign: mix::Sign::Negative,
            },
        ),
        (
            mix::Instruction {
                address: mix::Address::from_value(2000),
                index_specification: 0,
                modification: mix::field_spec(1, 1),
                operation: mix::op_codes::LDX,
            },
            mix::Word {
                bytes: [0, 0, 0, 0, 1],
                sign: mix::Sign::Positive,
            },
        ),
    ];

    for (instruction, expected_ext) in &tests {
        instruction.decode().unwrap().execute(&mut computer).unwrap();

        assert_eq!(computer.extension, *expected_ext);
    }
}

#[test]
fn load_test_ldi() {
    let mut computer = Computer::new();
    computer.memory[2000] = mix::Word {
        bytes: [0, 0, 0, 5, 4],
        sign: mix::Sign::Negative,
    };

    let tests = [
        (
            1,
            mix::Instruction {
                address: mix::Address::from_value(2000),
                index_specification: 0,
                modification: mix::field_spec(0, 5),
                operation: mix::op_codes::LD1,
            },
            mix::Address {
                bytes: [5, 4],
                sign: mix::Sign::Negative,
            },
        ),
        (
            2,
            mix::Instruction {
                address: mix::Address::from_value(2000),
                index_specification: 0,
                modification: mix::field_spec(1, 5),
                operation: mix::op_codes::LD2,
            },
            mix::Address {
                bytes: [5, 4],
                sign: mix::Sign::Positive,
            },
        ),
        (
            3,
            mix::Instruction {
                address: mix::Address::from_value(2000),
                index_specification: 0,
                modification: mix::field_spec(3, 5),
                operation: mix::op_codes::LD3,
            },
            mix::Address {
                bytes: [5, 4],
                sign: mix::Sign::Positive,
            },
        ),
        (
            4,
            mix::Instruction {
                address: mix::Address::from_value(2000),
                index_specification: 0,
                modification: mix::field_spec(0, 3),
                operation: mix::op_codes::LD4,
            },
            mix::Address {
                bytes: [0, 0],
                sign: mix::Sign::Negative,
            },
        ),
        (
            5,
            mix::Instruction {
                address: mix::Address::from_value(2000),
                index_specification: 0,
                modification: mix::field_spec(4, 4),
                operation: mix::op_codes::LD5,
            },
            mix::Address {
                bytes: [0, 5],
                sign: mix::Sign::Positive,
            },
        ),
        (
            6,
            mix::Instruction {
                address: mix::Address::from_value(2000),
                index_specification: 0,
                modification: mix::field_spec(0, 0),
                operation: mix::op_codes::LD6,
            },
            mix::Address {
                bytes: [0, 0],
                sign: mix::Sign::Negative,
            },
        ),
    ];

    for (index, instruction, expected_reg) in &tests {
        instruction.decode().unwrap().execute(&mut computer).unwrap();

        assert_eq!(computer.indexes[(index - 1) as usize], *expected_reg);
    }
}

#[test]
fn load_test_ldan() {
    let mut computer = Computer::new();
    computer.memory[2000] = mix::Word {
        bytes: [1, 14, 3, 5, 4],
        sign: mix::Sign::Negative,
    };

    let tests = [
        (
            mix::Instruction {
                address: mix::Address::from_value(2000),
                index_specification: 0,
                modification: mix::field_spec(0, 5),
                operation: mix::op_codes::LDAN,
            },
            mix::Word {
                bytes: [1, 14, 3, 5, 4],
                sign: mix::Sign::Positive,
            },
        ),
        (
            mix::Instruction {
                address: mix::Address::from_value(2000),
                index_specification: 0,
                modification: mix::field_spec(1, 5),
                operation: mix::op_codes::LDAN,
            },
            mix::Word {
                bytes: [1, 14, 3, 5, 4],
                sign: mix::Sign::Negative,
            },
        ),
        (
            mix::Instruction {
                address: mix::Address::from_value(2000),
                index_specification: 0,
                modification: mix::field_spec(3, 5),
                operation: mix::op_codes::LDAN,
            },
            mix::Word {
                bytes: [0, 0, 3, 5, 4],
                sign: mix::Sign::Negative,
            },
        ),
        (
            mix::Instruction {
                address: mix::Address::from_value(2000),
                index_specification: 0,
                modification: mix::field_spec(0, 3),
                operation: mix::op_codes::LDAN,
            },
            mix::Word {
                bytes: [0, 0, 1, 14, 3],
                sign: mix::Sign::Positive,
            },
        ),
        (
            mix::Instruction {
                address: mix::Address::from_value(2000),
                index_specification: 0,
                modification: mix::field_spec(4, 4),
                operation: mix::op_codes::LDAN,
            },
            mix::Word {
                bytes: [0, 0, 0, 0, 5],
                sign: mix::Sign::Negative,
            },
        ),
        (
            mix::Instruction {
                address: mix::Address::from_value(2000),
                index_specification: 0,
                modification: mix::field_spec(0, 0),
                operation: mix::op_codes::LDAN,
            },
            mix::Word {
                bytes: [0, 0, 0, 0, 0],
                sign: mix::Sign::Positive,
            },
        ),
        (
            mix::Instruction {
                address: mix::Address::from_value(2000),
                index_specification: 0,
                modification: mix::field_spec(1, 1),
                operation: mix::op_codes::LDAN,
            },
            mix::Word {
                bytes: [0, 0, 0, 0, 1],
                sign: mix::Sign::Negative,
            },
        ),
    ];

    for (instruction, expected_acc) in &tests {
        instruction.decode().unwrap().execute(&mut computer).unwrap();

        assert_eq!(computer.accumulator, *expected_acc);
    }
}

#[test]
fn load_test_ldxn() {
    let mut computer = Computer::new();
    computer.memory[2000] = mix::Word {
        bytes: [1, 14, 3, 5, 4],
        sign: mix::Sign::Negative,
    };

    let tests = [
        (
            mix::Instruction {
                address: mix::Address::from_value(2000),
                index_specification: 0,
                modification: mix::field_spec(0, 5),
                operation: mix::op_codes::LDXN,
            },
            mix::Word {
                bytes: [1, 14, 3, 5, 4],
                sign: mix::Sign::Positive,
            },
        ),
        (
            mix::Instruction {
                address: mix::Address::from_value(2000),
                index_specification: 0,
                modification: mix::field_spec(1, 5),
                operation: mix::op_codes::LDXN,
            },
            mix::Word {
                bytes: [1, 14, 3, 5, 4],
                sign: mix::Sign::Negative,
            },
        ),
        (
            mix::Instruction {
                address: mix::Address::from_value(2000),
                index_specification: 0,
                modification: mix::field_spec(3, 5),
                operation: mix::op_codes::LDXN,
            },
            mix::Word {
                bytes: [0, 0, 3, 5, 4],
                sign: mix::Sign::Negative,
            },
        ),
        (
            mix::Instruction {
                address: mix::Address::from_value(2000),
                index_specification: 0,
                modification: mix::field_spec(0, 3),
                operation: mix::op_codes::LDXN,
            },
            mix::Word {
                bytes: [0, 0, 1, 14, 3],
                sign: mix::Sign::Positive,
            },
        ),
        (
            mix::Instruction {
                address: mix::Address::from_value(2000),
                index_specification: 0,
                modification: mix::field_spec(4, 4),
                operation: mix::op_codes::LDXN,
            },
            mix::Word {
                bytes: [0, 0, 0, 0, 5],
                sign: mix::Sign::Negative,
            },
        ),
        (
            mix::Instruction {
                address: mix::Address::from_value(2000),
                index_specification: 0,
                modification: mix::field_spec(0, 0),
                operation: mix::op_codes::LDXN,
            },
            mix::Word {
                bytes: [0, 0, 0, 0, 0],
                sign: mix::Sign::Positive,
            },
        ),
        (
            mix::Instruction {
                address: mix::Address::from_value(2000),
                index_specification: 0,
                modification: mix::field_spec(1, 1),
                operation: mix::op_codes::LDXN,
            },
            mix::Word {
                bytes: [0, 0, 0, 0, 1],
                sign: mix::Sign::Negative,
            },
        ),
    ];

    for (instruction, expected_ext) in &tests {
        instruction.decode().unwrap().execute(&mut computer).unwrap();

        assert_eq!(computer.extension, *expected_ext);
    }
}

#[test]
fn load_test_ldin() {
    let mut computer = Computer::new();
    computer.memory[2000] = mix::Word {
        bytes: [0, 0, 0, 5, 4],
        sign: mix::Sign::Negative,
    };

    let tests = [
        (
            1,
            mix::Instruction {
                address: mix::Address::from_value(2000),
                index_specification: 0,
                modification: mix::field_spec(0, 5),
                operation: mix::op_codes::LD1N,
            },
            mix::Address {
                bytes: [5, 4],
                sign: mix::Sign::Positive,
            },
        ),
        (
            2,
            mix::Instruction {
                address: mix::Address::from_value(2000),
                index_specification: 0,
                modification: mix::field_spec(1, 5),
                operation: mix::op_codes::LD2N,
            },
            mix::Address {
                bytes: [5, 4],
                sign: mix::Sign::Negative,
            },
        ),
        (
            3,
            mix::Instruction {
                address: mix::Address::from_value(2000),
                index_specification: 0,
                modification: mix::field_spec(3, 5),
                operation: mix::op_codes::LD3N,
            },
            mix::Address {
                bytes: [5, 4],
                sign: mix::Sign::Negative,
            },
        ),
        (
            4,
            mix::Instruction {
                address: mix::Address::from_value(2000),
                index_specification: 0,
                modification: mix::field_spec(0, 3),
                operation: mix::op_codes::LD4N,
            },
            mix::Address {
                bytes: [0, 0],
                sign: mix::Sign::Positive,
            },
        ),
        (
            5,
            mix::Instruction {
                address: mix::Address::from_value(2000),
                index_specification: 0,
                modification: mix::field_spec(4, 4),
                operation: mix::op_codes::LD5N,
            },
            mix::Address {
                bytes: [0, 5],
                sign: mix::Sign::Negative,
            },
        ),
        (
            6,
            mix::Instruction {
                address: mix::Address::from_value(2000),
                index_specification: 0,
                modification: mix::field_spec(0, 0),
                operation: mix::op_codes::LD6N,
            },
            mix::Address {
                bytes: [0, 0],
                sign: mix::Sign::Positive,
            },
        ),
    ];

    for (index, instruction, expected_reg) in &tests {
        instruction.decode().unwrap().execute(&mut computer).unwrap();

        assert_eq!(computer.indexes[(index - 1) as usize], *expected_reg);
    }
}
