use negroni::computer::Computer;
use negroni::mix;
use negroni::operations::Operation;

#[test]
fn address_transfer_test_enta() {
    let mut computer = Computer::new();
    let instruction = mix::Instruction {
        address: mix::Address::from_value(2000),
        index_specification: 0,
        modification: 2,
        operation: mix::op_codes::ENTA,
    };

    instruction.decode().unwrap().execute(&mut computer).unwrap();

    assert_eq!(computer.accumulator.value(), 2000)
}

#[test]
fn test_enta_neg() {
    let mut computer = Computer::new();
    let instruction = mix::Instruction {
        address: mix::Address::from_value(-2000),
        index_specification: 0,
        modification: 2,
        operation: mix::op_codes::ENTA,
    };

    instruction.decode().unwrap().execute(&mut computer).unwrap();

    assert_eq!(computer.accumulator.value(), -2000)
}
