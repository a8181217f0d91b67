use negroni::computer::Computer;
use negroni::mix;
use negroni::operations::Operation;

#[test]
fn test_inca() {
    let tests = [
        (
            mix::Instruction {
                address: mix::Address::from_value(2000),
                index_specification: 0,
                modification: 0,
                operation: mix::op_codes::INCA,
            },
            mix::Word::from_value(3000),
        ),
        (
            mix::Instruction {
                address: mix::Address::from_value(-2000),
                index_specification: 0,
                modification: 0,
                operation: mix::op_codes::INCA,
            },
            mix::Word::from_value(-1000),
        ),
    ];


    for (instruction, expected_acc) in &tests {
        let mut computer = Computer::new();
        computer.accumulator = mix::Word::from_value(1000);

        instruction.decode().unwrap().execute(&mut computer).unwrap();

        assert_eq!(computer.accumulator, *expected_acc)
    }
}

#[test]
fn test_incx() {
    let tests = [
        (
            mix::Instruction {
                address: mix::Address::from_value(2000),
                index_specification: 0,
                modification: 0,
                operation: mix::op_codes::INCX,
            },
            mix::Word::from_value(3000),
        ),
        (
            mix::Instruction {
                address: mix::Address::from_value(-2000),
                index_specification: 0,
                modification: 0,
                operation: mix::op_codes::INCX,
            },
            mix::Word::from_value(-1000),
        ),
    ];


    for (instruction, expected_ext) in &tests {
        let mut computer = Computer::new();
        computer.extension = mix::Word::from_value(1000);

        instruction.decode().unwrap().execute(&mut computer).unwrap();

        assert_eq!(computer.extension, *expected_ext)
    }
}

#[test]
fn test_inci() {
    let tests = [
        (
            1,
            mix::Instruction {
                address: mix::Address::from_value(2000),
                index_specification: 0,
                modification: 0,
                operation: mix::op_codes::INC1,
            },
            mix::Address::from_value(3000),
        ),
        (
            2,
            mix::Instruction {
                address: mix::Address::from_value(-2000),
                index_specification: 0,
                modification: 0,
                operation: mix::op_codes::INC2,
            },
            mix::Address::from_value(-1000),
        ),
        (
            3,
            mix::Instruction {
                address: mix::Address::from_value(100),
                index_specification: 1,
                modification: 0,
                operation: mix::op_codes::INC3,
            },
            mix::Address::from_value(1100),
        ),
        (
            4,
            mix::Instruction {
                address: mix::Address::from_value(750),
                index_specification: 2,
                modification: 0,
                operation: mix::op_codes::INC4,
            },
            mix::Address::from_value(1750),
        ),
        (
            5,
            mix::Instruction {
                address: mix::Address::zero(),
                index_specification: 3,
                modification: 0,
                operation: mix::op_codes::INC5,
            },
            mix::Address::from_value(1000),
        ),
        (
            6,
            mix::Instruction {
                address: mix::Address::from_value(-1000),
                index_specification: 2,
                modification: 0,
                operation: mix::op_codes::INC6,
            },
            mix::Address::zero(),
        ),
    ];

    for (index, instruction, expected_reg) in &tests {
        let mut computer = Computer::new();
        computer.indexes[(index - 1) as usize] = mix::Address::from_value(1000);

        instruction.decode().unwrap().execute(&mut computer).unwrap();

        assert_eq!(computer.indexes[(index - 1) as usize], *expected_reg)
    }
}

#[test]
fn test_deca() {
    let tests = [
        (
            mix::Instruction {
                address: mix::Address::from_value(2000),
                index_specification: 0,
                modification: 1,
                operation: mix::op_codes::DECA,
            },
            mix::Word::from_value(-1000),
        ),
        (
            mix::Instruction {
                address: mix::Address::from_value(-2000),
                index_specification: 0,
                modification: 1,
                operation: mix::op_codes::DECA,
            },
            mix::Word::from_value(3000),
        ),
    ];


    for (instruction, expected_acc) in &tests {
        let mut computer = Computer::new();
        computer.accumulator = mix::Word::from_value(1000);

        instruction.decode().unwrap().execute(&mut computer).unwrap();

        assert_eq!(computer.accumulator, *expected_acc)
    }
}

#[test]
fn test_decx() {
    let tests = [
        (
            mix::Instruction {
                address: mix::Address::from_value(2000),
                index_specification: 0,
                modification: 1,
                operation: mix::op_codes::DECX,
            },
            mix::Word::from_value(-1000),
        ),
        (
            mix::Instruction {
                address: mix::Address::from_value(-2000),
                index_specification: 0,
                modification: 1,
                operation: mix::op_codes::DECX,
            },
            mix::Word::from_value(3000),
        ),
    ];


    for (instruction, expected_ext) in &tests {
        let mut computer = Computer::new();
        computer.extension = mix::Word::from_value(1000);

        instruction.decode().unwrap().execute(&mut computer).unwrap();

        assert_eq!(computer.extension, *expected_ext)
    }
}

#[test]
fn test_deci() {
    let tests = [
        (
            1,
            mix::Instruction {
                address: mix::Address::from_value(2000),
                index_specification: 0,
                modification: 1,
                operation: mix::op_codes::DEC1,
            },
            mix::Address::from_value(-1000),
        ),
        (
            2,
            mix::Instruction {
                address: mix::Address::from_value(-2000),
                index_specification: 0,
                modification: 1,
                operation: mix::op_codes::DEC2,
            },
            mix::Address::from_value(3000),
        ),
        (
            3,
            mix::Instruction {
                address: mix::Address::from_value(100),
                index_specification: 1,
                modification: 1,
                operation: mix::op_codes::DEC3,
            },
            mix::Address::from_value(900),
        ),
        (
            4,
            mix::Instruction {
                address: mix::Address::from_value(750),
                index_specification: 2,
                modification: 1,
                operation: mix::op_codes::DEC4,
            },
            mix::Address::from_value(250),
        ),
        (
            5,
            mix::Instruction {
                address: mix::Address::zero(),
                index_specification: 3,
                modification: 1,
                operation: mix::op_codes::DEC5,
            },
            mix::Address::from_value(1000),
        ),
        (
            6,
            mix::Instruction {
                address: mix::Address::from_value(1000),
                index_specification: 2,
                modification: 1,
                operation: mix::op_codes::DEC6,
            },
            mix::Address::zero(),
        ),
    ];

    for (index, instruction, expected_reg) in &tests {
        let mut computer = Computer::new();
        computer.indexes[(index - 1) as usize] = mix::Address::from_value(1000);

        instruction.decode().unwrap().execute(&mut computer).unwrap();

        assert_eq!(computer.indexes[(index - 1) as usize], *expected_reg)
    }
}
