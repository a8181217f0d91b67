use negroni::computer::Computer;
use negroni::mix;
use negroni::operations::Operation;

#[test]
fn test_mul() {
    let tests = [
        (
            mix::Word {
                bytes: [1, 1, 1, 1, 1],
                sign: mix::Sign::Positive,
            },
            mix::Word {
                bytes: [1, 1, 1, 1, 1],
                sign: mix::Sign::Positive,
            },
            mix::Instruction {
                address: mix::Address::from_value(1000),
                index_specification: 0,
                modification: mix::field_spec(0, 5),
                operation: mix::op_codes::MUL,
            },
            mix::Word {
                bytes: [0, 1, 2, 3, 4],
                sign: mix::Sign::Positive,
            },
            mix::Word {
                bytes: [5, 4, 3, 2, 1],
                sign: mix::Sign::Positive,
            },
        ),
        (
            mix::Word {
                bytes: [0, 0, 0, 1, 48], // -[112]
                sign: mix::Sign::Negative,
            },
            mix::Word {
                bytes: [2, 43, 12, 63, 39], // ?[2][?][?][?][?]
                sign: mix::Sign::Negative,
            },
            mix::Instruction {
                address: mix::Address::from_value(1000),
                index_specification: 0,
                modification: mix::field_spec(1, 1),
                operation: mix::op_codes::MUL,
            },
            mix::Word {
                bytes: [0, 0, 0, 0, 0],
                sign: mix::Sign::Negative,
            },
            mix::Word {
                bytes: [0, 0, 0, 3, 32], // -[224]
                sign: mix::Sign::Negative,
            },
        ),
        (
            mix::Word {
                bytes: [50, 0, 1, 48, 4], // -[50][0][112][4]
                sign: mix::Sign::Negative,
            },
            mix::Word {
                bytes: [2, 0, 0, 0, 0], // -[2][0][0][0][0]
                sign: mix::Sign::Negative,
            },
            mix::Instruction {
                address: mix::Address::from_value(1000),
                index_specification: 0,
                modification: mix::field_spec(0, 5),
                operation: mix::op_codes::MUL,
            },
            mix::Word {
                bytes: [1, 36, 0, 3, 32], // +[100][0][224]
                sign: mix::Sign::Positive,
            },
            mix::Word {
                bytes: [8, 0, 0, 0, 0], // +[8][0][0][0][0]
                sign: mix::Sign::Positive,
            },
        ),
    ];

    for (prev_acc, prev_mem, instruction, expected_acc, expected_ext) in &tests {
        let mut computer = Computer::new();
        computer.accumulator = *prev_acc;
        computer.memory[1000] = *prev_mem;

        instruction.decode().unwrap().execute(&mut computer).unwrap();

        assert_eq!(computer.accumulator, *expected_acc);
        assert_eq!(computer.extension, *expected_ext);
    }
}
