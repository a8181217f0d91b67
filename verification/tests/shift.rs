use negroni::computer::Computer;
use negroni::mix;
use negroni::operations::Operation;

#[test]
fn test_shifts() {
    let mut computer = Computer::new();
    computer.accumulator = mix::Word {
        bytes: [1, 2, 3, 4, 5],
        sign: mix::Sign::Positive,
    };
    computer.extension = mix::Word {
        bytes: [6, 7, 8, 9, 0],
        sign: mix::Sign::Negative,
    };

    let tests = [
        (
            mix::Instruction {
                address: mix::Address::from_value(1),
                index_specification: 0,
                modification: 3,
                operation: mix::op_codes::SRAX,
            },
            mix::Word {
                bytes: [0, 1, 2, 3, 4],
                sign: mix::Sign::Positive,
            },
            mix::Word {
                bytes: [5, 6, 7, 8, 9],
                sign: mix::Sign::Negative,
            },
        ),
        (
            mix::Instruction {
                address: mix::Address::from_value(2),
                index_specification: 0,
                modification: 0,
                operation: mix::op_codes::SLA,
            },
            mix::Word {
                bytes: [2, 3, 4, 0, 0],
                sign: mix::Sign::Positive,
            },
            mix::Word {
                bytes: [5, 6, 7, 8, 9],
                sign: mix::Sign::Negative,
            },
        ),
        (
            mix::Instruction {
                address: mix::Address::from_value(4),
                index_specification: 0,
                modification: 5,
                operation: mix::op_codes::SRC,
            },
            mix::Word {
                bytes: [6, 7, 8, 9, 2],
                sign: mix::Sign::Positive,
            },
            mix::Word {
                bytes: [3, 4, 0, 0, 5],
                sign: mix::Sign::Negative,
            },
        ),
        (
            mix::Instruction {
                address: mix::Address::from_value(2),
                index_specification: 0,
                modification: 1,
                operation: mix::op_codes::SRA,
            },
            mix::Word {
                bytes: [0, 0, 6, 7, 8],
                sign: mix::Sign::Positive,
            },
            mix::Word {
                bytes: [3, 4, 0, 0, 5],
                sign: mix::Sign::Negative,
            },
        ),
        (
            mix::Instruction {
                address: mix::Address::from_value(501),
                index_specification: 0,
                modification: 4,
                operation: mix::op_codes::SLC,
            },
            mix::Word {
                bytes: [0, 6, 7, 8, 3],
                sign: mix::Sign::Positive,
            },
            mix::Word {
                bytes: [4, 0, 0, 5, 0],
                sign: mix::Sign::Negative,
            },
        ),
    ];

    for (instruction, expected_acc, expected_ext) in &tests {
        instruction.decode().unwrap().execute(&mut computer).unwrap();

        assert_eq!(computer.accumulator, *expected_acc);
        assert_eq!(computer.extension, *expected_ext);
    }
}
