use negroni::computer::Computer;
use negroni::mix;
use negroni::operations::Operation;

#[test]
fn test_div() {
    let tests = [
        (
            mix::Word {
                bytes: [0, 0, 0, 0, 0],
                sign: mix::Sign::Positive,
            },
            mix::Word {
                bytes: [0, 0, 0, 0, 17],
                sign: mix::Sign::Negative,
            },
            mix::Word {
                bytes: [0, 0, 0, 0, 3],
                sign: mix::Sign::Positive,
            },
            mix::Instruction {
                address: mix::Address::from_value(1000),
                index_specification: 0,
                modification: mix::field_spec(0, 5),
                operation: mix::op_codes::DIV,
            },
            mix::Word {
                bytes: [0, 0, 0, 0, 5],
                sign: mix::Sign::Positive,
            },
            mix::Word {
                bytes: [0, 0, 0, 0, 2],
                sign: mix::Sign::Positive,
            },
            false,
        ),
        (
            mix::Word {
                bytes: [0, 0, 0, 0, 0], // -[0]
                sign: mix::Sign::Negative,
            },
            mix::Word {
                bytes: [19, 19, 0, 3, 1], // +[1235][0][3][1]
                sign: mix::Sign::Positive,
            },
            mix::Word {
                bytes: [0, 0, 0, 2, 0], // -[0][0][0][2][0]
                sign: mix::Sign::Negative,
            },
            mix::Instruction {
                address: mix::Address::from_value(1000),
                index_specification: 0,
                modification: mix::field_spec(0, 5),
                operation: mix::op_codes::DIV,
            },
            mix::Word {
                bytes: [0, 9, 41, 32, 1], // +[0][617][?][?]
                sign: mix::Sign::Positive,
            },
            mix::Word {
                bytes: [0, 0, 0, 1, 1], // -[0][0][0][?][1]
                sign: mix::Sign::Negative,
            },
            false,
        ),
        (
            mix::Word {
                bytes: [5, 4, 3, 2, 1],
                sign: mix::Sign::Negative,
            },
            mix::Word {
                bytes: [0, 9, 8, 7, 6],
                sign: mix::Sign::Positive,
            },
            mix::Word {
                bytes: [0, 0, 0, 0, 0],
                sign: mix::Sign::Negative,
            },
            mix::Instruction {
                address: mix::Address::from_value(1000),
                index_specification: 0,
                modification: mix::field_spec(0, 5),
                operation: mix::op_codes::DIV,
            },
            mix::Word {
                bytes: [0, 0, 0, 0, 0],
                sign: mix::Sign::Positive,
            },
            mix::Word {
                bytes: [0, 0, 0, 0, 0],
                sign: mix::Sign::Positive,
            },
            true,
        ),
        (
            mix::Word {
                bytes: [5, 4, 3, 2, 1],
                sign: mix::Sign::Negative,
            },
            mix::Word {
                bytes: [0, 9, 8, 7, 6],
                sign: mix::Sign::Positive,
            },
            mix::Word {
                bytes: [0, 0, 0, 0, 20],
                sign: mix::Sign::Negative,
            },
            mix::Instruction {
                address: mix::Address::from_value(1000),
                index_specification: 0,
                modification: mix::field_spec(0, 5),
                operation: mix::op_codes::DIV,
            },
            mix::Word {
                bytes: [0, 0, 0, 0, 0],
                sign: mix::Sign::Positive,
            },
            mix::Word {
                bytes: [0, 0, 0, 0, 0],
                sign: mix::Sign::Positive,
            },
            true,
        ),
    ];

    for (prev_acc, prev_ext, prev_mem, instruction, expected_acc, expected_ext, expected_ov) in
        &tests
    {
        let mut computer = Computer::new();
        computer.accumulator = *prev_acc;
        computer.extension = *prev_ext;
        computer.memory[1000] = *prev_mem;

        instruction.decode().unwrap().execute(&mut computer).unwrap();

        assert_eq!(computer.accumulator, *expected_acc);
        assert_eq!(computer.extension, *expected_ext);
        assert_eq!(computer.overflow, *expected_ov);
    }
}
