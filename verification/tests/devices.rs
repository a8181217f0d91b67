use negroni::computer::{Computer, ExecutionFault};
use negroni::io::{DeviceError, DeviceKind, IoDevice, IoMessage};
use negroni::mix::op_codes;
use negroni::mix::{Address, Instruction, Sign, Word};
use negroni::operations::Operation;

fn instruction(operation: u8, address: isize, index: u8, modification: u8) -> Instruction {
    Instruction {
        operation,
        modification,
        address: Address::from_value(address),
        index_specification: index,
    }
}

fn execute(computer: &mut Computer, i: &Instruction) -> Result<(), ExecutionFault> {
    match i.decode() {
        Ok(operation) => operation.execute(computer),
        Err(fault) => Err(fault),
    }
}

fn memory_of_zeros() -> Vec<Word> {
    vec![Word::zero(); 4000]
}

#[test]
fn a_new_device_is_ready_and_empty() {
    let device = IoDevice::new(DeviceKind::Tape);
    assert!(!device.busy());
    assert!(device.mailbox.is_empty());
    assert!(device.blocks.is_empty());
    assert_eq!(device.position, 0);
    assert!(device.lines.is_empty());
    assert_eq!(IoDevice::new(DeviceKind::Tape).block_size(), 100);
    assert_eq!(IoDevice::new(DeviceKind::Disk).block_size(), 100);
    assert_eq!(IoDevice::new(DeviceKind::CardReader).block_size(), 16);
    assert_eq!(IoDevice::new(DeviceKind::CardPunch).block_size(), 16);
    assert_eq!(IoDevice::new(DeviceKind::LinePrinter).block_size(), 24);
}

#[test]
fn send_waits_in_the_mailbox_until_the_device_works() {
    let mut device = IoDevice::new(DeviceKind::Tape);
    let mut memory = memory_of_zeros();
    memory[10] = Word::from_value(77);
    device.set_busy();
    device.send(IoMessage { operation: op_codes::OUT, address: 10 });
    assert!(device.busy());
    assert_eq!(device.mailbox.len(), 1);
    assert!(device.blocks.is_empty());
    device.wait_ready(&mut memory, &Word::zero()).unwrap();
    assert!(!device.busy());
    assert!(device.mailbox.is_empty());
    assert_eq!(device.blocks[&0][0], Word::from_value(77));
    assert_eq!(device.blocks[&0].len(), 100);
    assert_eq!(device.position, 1);
}

#[test]
fn messages_are_carried_out_in_the_order_of_sending() {
    let mut device = IoDevice::new(DeviceKind::Tape);
    let mut memory = memory_of_zeros();
    memory[0] = Word::from_value(1);
    memory[100] = Word::from_value(2);
    device.send(IoMessage { operation: op_codes::OUT, address: 0 });
    device.send(IoMessage { operation: op_codes::OUT, address: 100 });
    device.send(IoMessage { operation: op_codes::IOC, address: -1 });
    device.send(IoMessage { operation: op_codes::IN, address: 200 });
    device.wait_ready(&mut memory, &Word::zero()).unwrap();
    assert_eq!(device.blocks[&0][0], Word::from_value(1));
    assert_eq!(device.blocks[&1][0], Word::from_value(2));
    assert_eq!(memory[200], Word::from_value(2));
    assert_eq!(device.position, 2);
}

#[test]
fn a_tape_skips_back_no_further_than_its_start() {
    let mut device = IoDevice::new(DeviceKind::Tape);
    device.control(5, &Word::zero()).unwrap();
    assert_eq!(device.position, 5);
    device.control(-2, &Word::zero()).unwrap();
    assert_eq!(device.position, 3);
    device.control(0, &Word::zero()).unwrap();
    assert_eq!(device.position, 3);
    device.control(-10, &Word::zero()).unwrap();
    assert_eq!(device.position, 0);
}

#[test]
fn a_tape_block_that_was_never_written_gives_no_words() {
    let mut device = IoDevice::new(DeviceKind::Tape);
    let mut memory = memory_of_zeros();
    memory[5] = Word::from_value(9);
    let message = IoMessage { operation: op_codes::IN, address: 0 };
    device.perform(&message, &mut memory, &Word::zero()).unwrap();
    assert_eq!(memory[5], Word::from_value(9));
    assert_eq!(device.position, 1);
}

#[test]
fn a_disk_takes_its_block_from_the_extension_register() {
    let mut device = IoDevice::new(DeviceKind::Disk);
    let mut memory = memory_of_zeros();
    memory[1000] = Word::from_value(3);
    let out = IoMessage { operation: op_codes::OUT, address: 1000 };
    device.perform(&out, &mut memory, &Word::from_value(500)).unwrap();
    assert!(device.blocks.contains_key(&500));
    assert_eq!(device.blocks.len(), 1);
    let read = IoMessage { operation: op_codes::IN, address: 2000 };
    device.perform(&read, &mut memory, &Word::from_value(499)).unwrap();
    assert_eq!(memory[2000], Word::zero());
    device.perform(&read, &mut memory, &Word::from_value(500)).unwrap();
    assert_eq!(memory[2000], Word::from_value(3));
    assert_eq!(
        device.perform(&read, &mut memory, &Word::from_value(-1)),
        Err(DeviceError::BadBlock)
    );
    assert_eq!(device.perform(&read, &mut memory, &Word::negative_zero()), Ok(()));
}

#[test]
fn the_card_reader_packs_five_characters_to_a_word() {
    let mut computer = Computer::new();
    computer.io_devices[16].lines.push("HELLO WORLD".to_string());
    computer.io_devices[16].lines.push("SECOND".to_string());
    execute(&mut computer, &instruction(op_codes::IN, 100, 0, 16)).unwrap();
    assert!(computer.io_devices[16].busy());
    assert_eq!(computer.memory[100], Word::zero());
    computer.service_devices().unwrap();
    assert!(!computer.io_devices[16].busy());
    assert_eq!(computer.memory[100], Word { sign: Sign::Positive, bytes: [8, 5, 13, 13, 16] });
    assert_eq!(computer.memory[101], Word { sign: Sign::Positive, bytes: [0, 26, 16, 19, 13] });
    assert_eq!(computer.memory[102], Word { sign: Sign::Positive, bytes: [4, 0, 0, 0, 0] });
    for i in 103..116 {
        assert_eq!(computer.memory[i], Word::zero());
    }
    assert_eq!(computer.io_devices[16].position, 1);
    execute(&mut computer, &instruction(op_codes::IN, 200, 0, 16)).unwrap();
    computer.service_devices().unwrap();
    assert_eq!(computer.memory[200], Word { sign: Sign::Positive, bytes: [22, 5, 3, 16, 15] });
    assert_eq!(computer.memory[201], Word { sign: Sign::Positive, bytes: [4, 0, 0, 0, 0] });
}

#[test]
fn a_card_with_a_character_outside_the_table_stops_the_reader() {
    let mut computer = Computer::new();
    computer.io_devices[16].lines.push("hello".to_string());
    execute(&mut computer, &instruction(op_codes::IN, 100, 0, 16)).unwrap();
    assert_eq!(
        computer.service_devices(),
        Err(ExecutionFault::Device(DeviceError::BadCharCode))
    );
    assert_eq!(computer.memory[100], Word::zero());
    assert_eq!(computer.io_devices[16].position, 0);
    assert!(computer.io_devices[16].mailbox.is_empty());
}

#[test]
fn the_line_printer_writes_a_line_of_120_characters() {
    let mut computer = Computer::new();
    computer.memory[500] = Word::from_char_code("HELLO").unwrap();
    computer.memory[501] = Word::from_char_code(" MIX.").unwrap();
    execute(&mut computer, &instruction(op_codes::OUT, 500, 0, 18)).unwrap();
    computer.service_devices().unwrap();
    let mut expected = "HELLO MIX.".to_string();
    while expected.len() < 120 {
        expected.push(' ');
    }
    assert_eq!(computer.io_devices[18].lines, vec![expected.clone()]);
    execute(&mut computer, &instruction(op_codes::IOC, 0, 0, 18)).unwrap();
    computer.service_devices().unwrap();
    assert_eq!(computer.io_devices[18].lines, vec![expected, "\u{c}".to_string()]);
}

#[test]
fn the_card_punch_writes_a_card_of_80_characters() {
    let mut computer = Computer::new();
    computer.memory[500] = Word::from_char_code("CARDS").unwrap();
    execute(&mut computer, &instruction(op_codes::OUT, 500, 0, 17)).unwrap();
    computer.service_devices().unwrap();
    let mut expected = "CARDS".to_string();
    while expected.len() < 80 {
        expected.push(' ');
    }
    assert_eq!(computer.io_devices[17].lines, vec![expected]);
}

#[test]
fn a_byte_without_a_character_cannot_be_printed() {
    let mut computer = Computer::new();
    computer.memory[500] = Word { sign: Sign::Positive, bytes: [1, 2, 3, 4, 60] };
    execute(&mut computer, &instruction(op_codes::OUT, 500, 0, 18)).unwrap();
    assert_eq!(
        computer.service_devices(),
        Err(ExecutionFault::Device(DeviceError::BadCharCode))
    );
    assert!(computer.io_devices[18].lines.is_empty());
}

#[test]
fn what_a_device_cannot_do_at_all() {
    let mut memory = memory_of_zeros();
    let x = Word::zero();
    let input = IoMessage { operation: op_codes::IN, address: 0 };
    let output = IoMessage { operation: op_codes::OUT, address: 0 };
    let control = IoMessage { operation: op_codes::IOC, address: 0 };
    let mut reader = IoDevice::new(DeviceKind::CardReader);
    assert_eq!(reader.perform(&output, &mut memory, &x), Err(DeviceError::Unsupported));
    assert_eq!(reader.perform(&control, &mut memory, &x), Err(DeviceError::Unsupported));
    let mut punch = IoDevice::new(DeviceKind::CardPunch);
    assert_eq!(punch.perform(&input, &mut memory, &x), Err(DeviceError::Unsupported));
    assert_eq!(punch.perform(&control, &mut memory, &x), Err(DeviceError::Unsupported));
    let mut printer = IoDevice::new(DeviceKind::LinePrinter);
    assert_eq!(printer.perform(&input, &mut memory, &x), Err(DeviceError::Unsupported));
    let mut tape = IoDevice::new(DeviceKind::Tape);
    let unknown = IoMessage { operation: op_codes::LDA, address: 0 };
    assert_eq!(tape.perform(&unknown, &mut memory, &x), Err(DeviceError::UnknownOperation));
    let outside = IoMessage { operation: op_codes::IN, address: 3901 };
    assert_eq!(tape.perform(&outside, &mut memory, &x), Err(DeviceError::Address));
    let below = IoMessage { operation: op_codes::OUT, address: -1 };
    assert_eq!(tape.perform(&below, &mut memory, &x), Err(DeviceError::Address));
    let last = IoMessage { operation: op_codes::OUT, address: 3900 };
    assert_eq!(tape.perform(&last, &mut memory, &x), Ok(()));
}

#[test]
fn an_io_operation_waits_for_the_one_before_it() {
    let mut computer = Computer::new();
    computer.memory[1000] = Word::from_value(42);
    execute(&mut computer, &instruction(op_codes::OUT, 1000, 0, 0)).unwrap();
    assert!(computer.io_devices[0].busy());
    assert_eq!(computer.io_devices[0].mailbox.len(), 1);
    assert!(computer.io_devices[0].blocks.is_empty());
    execute(&mut computer, &instruction(op_codes::IOC, -1, 0, 0)).unwrap();
    assert_eq!(computer.io_devices[0].blocks[&0][0], Word::from_value(42));
    assert_eq!(computer.io_devices[0].position, 1);
    assert_eq!(computer.io_devices[0].mailbox.len(), 1);
    assert!(computer.io_devices[0].busy());
    execute(&mut computer, &instruction(op_codes::IN, 2000, 0, 0)).unwrap();
    assert_eq!(computer.io_devices[0].position, 0);
    assert_eq!(computer.memory[2000], Word::zero());
    computer.service_devices().unwrap();
    assert_eq!(computer.memory[2000], Word::from_value(42));
    assert!(!computer.io_devices[0].busy());
}

#[test]
fn the_devices_by_their_names() {
    assert_eq!(negroni::io::TapeUnit::new().kind, DeviceKind::Tape);
    assert_eq!(negroni::io::DiskUnit::new().kind, DeviceKind::Disk);
    assert_eq!(negroni::io::CardReader::new().kind, DeviceKind::CardReader);
    assert_eq!(negroni::io::CardPunch::new().kind, DeviceKind::CardPunch);
    assert_eq!(negroni::io::LinePrinter::new().kind, DeviceKind::LinePrinter);
    assert_eq!(negroni::io::TapeUnit::block_size(), 100);
    assert_eq!(negroni::io::DiskUnit::block_size(), 100);
    assert_eq!(negroni::io::CardReader::block_size(), 16);
    assert_eq!(negroni::io::CardPunch::block_size(), 16);
    assert_eq!(negroni::io::LinePrinter::block_size(), 24);
    let computer = Computer::new();
    for slot in 0..19 {
        let kind = computer.io_devices[slot].kind;
        if slot < 8 {
            assert_eq!(kind, DeviceKind::Tape);
        } else if slot < 16 {
            assert_eq!(kind, DeviceKind::Disk);
        } else if slot == 16 {
            assert_eq!(kind, DeviceKind::CardReader);
        } else if slot == 17 {
            assert_eq!(kind, DeviceKind::CardPunch);
        } else {
            assert_eq!(kind, DeviceKind::LinePrinter);
        }
    }
}
