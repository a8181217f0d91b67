//! The processor: registers, memory, devices, and the cycle that fetches an
//! instruction, decodes it and carries it out.

use std::collections::HashMap;
use vstd::prelude::*;

use crate::io::card_punch::CardPunch;
use crate::io::card_reader::CardReader;
use crate::io::disk::DiskUnit;
use crate::io::line_printer::LinePrinter;
use crate::io::tape::TapeUnit;
use crate::io::io_device::{
    spec_drain_error, spec_drained_device, spec_drained_memory, DeviceError, DeviceKind, IoDevice,
    IoDeviceView};
use crate::io::transfer::spec_words_wf;
use crate::mix::address::Address;
use crate::mix::field::{is_valid_field_spec, valid_field_spec, Comparison};
use crate::mix::instruction::Instruction;
use crate::mix::word::{Sign, Word};
use crate::mix::op_codes;
use crate::operations::{Io, Operation};

verus! {

/// Number of words of memory.
pub const MEMORY_SIZE: usize = 4000;

/// Why an instruction was not carried out.
#[derive(Debug, Copy, Clone, PartialEq, Eq, Structural)]
pub enum ExecutionFault {
    /// No operation has this pair of operation code and modification.
    UnknownOp,
    /// The index specification is above 6.
    IndexSpec,
    /// The modification is no field of a word.
    FieldSpec,
    /// An address outside memory.
    MemoryAddress,
    /// HLT with an address other than zero.
    HaltCode,
    /// A device could not do what it was asked.
    Device(DeviceError),
}

/// The state of the machine.
#[derive(Debug)]
pub struct Computer {
    pub running: bool,
    pub program_counter: usize,
    pub accumulator: Word,
    pub extension: Word,
    pub indexes: [Address; 6],
    pub jump_address: Address,
    pub memory: Vec<Word>,
    pub overflow: bool,
    pub comparison: Comparison,
    pub io_devices: Vec<IoDevice>,
}

/// The state of the machine as plain values.
pub struct ComputerView {
    pub running: bool,
    pub program_counter: int,
    pub accumulator: Word,
    pub extension: Word,
    pub indexes: Seq<Address>,
    pub jump_address: Address,
    pub memory: Seq<Word>,
    pub overflow: bool,
    pub comparison: Comparison,
    pub io_devices: Seq<IoDeviceView>,
}

/// The kind of the device in a slot: tapes in 0 to 7, disks in 8 to 15, then
/// the card reader, the card punch and the line printer.
pub open spec fn spec_device_kind(slot: int) -> DeviceKind {
    if slot < 8 {
        DeviceKind::Tape
    } else if slot < 16 {
        DeviceKind::Disk
    } else if slot == 16 {
        DeviceKind::CardReader
    } else if slot == 17 {
        DeviceKind::CardPunch
    } else {
        DeviceKind::LinePrinter
    }
}

/// The operation that reads the first card of a deck: IN at location 0 from
/// the card reader.
pub open spec fn spec_first_card() -> Io {
    Io {
        instruction: Instruction {
            operation: op_codes::IN,
            modification: 16,
            address: Address::spec_new(Sign::Positive, 0),
            index_specification: 0,
        },
    }
}

/// The views of a list of devices.
pub open spec fn spec_device_views(devices: Seq<IoDevice>) -> Seq<IoDeviceView> {
    Seq::new(devices.len(), |i: int| devices[i]@)
}

impl View for Computer {
    type V = ComputerView;

    open spec fn view(&self) -> ComputerView {
        ComputerView {
            running: self.running,
            program_counter: self.program_counter as int,
            accumulator: self.accumulator,
            extension: self.extension,
            indexes: self.indexes@,
            jump_address: self.jump_address,
            memory: self.memory@,
            overflow: self.overflow,
            comparison: self.comparison,
            io_devices: spec_device_views(self.io_devices@),
        }
    }
}

impl ComputerView {
    /// Memory has 4000 words; every word and every register holds bytes
    /// below 64; the 19 devices are of the kinds of their slots.
    pub open spec fn wf(&self) -> bool {
        &&& self.memory.len() == 4000
        &&& spec_words_wf(self.memory)
        &&& self.accumulator.wf()
        &&& self.extension.wf()
        &&& self.indexes.len() == 6
        &&& forall|i: int| 0 <= i < 6 ==> (#[trigger] self.indexes[i]).wf()
        &&& self.jump_address.wf()
        &&& self.io_devices.len() == 19
        &&& forall|i: int|
            0 <= i < 19 ==> (#[trigger] self.io_devices[i]).wf() && self.io_devices[i].kind
                == spec_device_kind(i)
    }

    /// The address that the instruction means: its address field, plus the
    /// index register that its index specification names, if it names one.
    pub open spec fn spec_indexed_address(&self, instruction: Instruction) -> int {
        if instruction.index_specification == 0 {
            instruction.address.spec_value()
        } else {
            instruction.address.spec_value() + self.indexes[instruction.index_specification
                - 1].spec_value()
        }
    }

    /// Register number `r` as a word: 0 is A, 1 to 6 are the index registers,
    /// 7 is X.
    pub open spec fn spec_register(&self, r: int) -> Word {
        if r == 0 {
            self.accumulator
        } else if r == 7 {
            self.extension
        } else {
            self.indexes[r - 1].spec_cast_to_word()
        }
    }

    /// The state with `word` in register number `r`. An index register takes
    /// the sign and the last two bytes.
    pub open spec fn spec_with_register(self, r: int, word: Word) -> ComputerView {
        if r == 0 {
            ComputerView { accumulator: word, ..self }
        } else if r == 7 {
            ComputerView { extension: word, ..self }
        } else {
            ComputerView { indexes: self.indexes.update(r - 1, word.spec_cast_to_address()), ..self }
        }
    }

    /// The state after a jump to `target`: the address of the next
    /// instruction is in J.
    pub open spec fn spec_jump(self, target: int) -> ComputerView {
        ComputerView {
            jump_address: Address::spec_from_value(self.program_counter + 1),
            program_counter: target,
            ..self
        }
    }

    /// The state with the program counter moved on by one.
    pub open spec fn spec_advance(self) -> ComputerView {
        ComputerView { program_counter: self.program_counter + 1, ..self }
    }

    /// Why the instruction has no address to work with, if it has none: an
    /// index specification above 6.
    pub open spec fn spec_index_fault(&self, instruction: Instruction) -> Option<ExecutionFault> {
        if instruction.index_specification > 6 {
            Some(ExecutionFault::IndexSpec)
        } else {
            None
        }
    }

    /// Why the instruction names no word of memory, if it names none.
    pub open spec fn spec_address_fault(&self, instruction: Instruction) -> Option<ExecutionFault> {
        if instruction.index_specification > 6 {
            Some(ExecutionFault::IndexSpec)
        } else if !(0 <= self.spec_indexed_address(instruction) < 4000) {
            Some(ExecutionFault::MemoryAddress)
        } else {
            None
        }
    }

    /// Why the instruction names no field of a word of memory, if it names
    /// none.
    pub open spec fn spec_operand_fault(&self, instruction: Instruction) -> Option<ExecutionFault> {
        if instruction.index_specification > 6 {
            Some(ExecutionFault::IndexSpec)
        } else if !valid_field_spec(instruction.modification) {
            Some(ExecutionFault::FieldSpec)
        } else if !(0 <= self.spec_indexed_address(instruction) < 4000) {
            Some(ExecutionFault::MemoryAddress)
        } else {
            None
        }
    }

    /// The operand of the instruction: the field that its modification names
    /// of the word of memory that its address names.
    pub open spec fn spec_operand(&self, instruction: Instruction) -> Word {
        self.memory[self.spec_indexed_address(instruction)].spec_apply_field_spec(
            instruction.modification,
        )
    }
}

impl ComputerView {
    /// The instruction under the program counter.
    pub open spec fn spec_fetch(&self) -> Instruction {
        Instruction::spec_from_word(self.memory[self.program_counter])
    }

    /// Why the instruction under the program counter cannot be carried out,
    /// if it cannot: the program counter is outside memory, the word there
    /// stands for no operation, or the operation cannot be carried out.
    pub open spec fn spec_step_fault(&self) -> Option<ExecutionFault> {
        if self.program_counter >= 4000 {
            Some(ExecutionFault::MemoryAddress)
        } else {
            match self.spec_fetch().spec_decode() {
                Err(f) => Some(f),
                Ok(operation) => operation.spec_fault(*self),
            }
        }
    }

    /// The state after the instruction under the program counter: what its
    /// operation leaves, with the program counter moved on by one where the
    /// operation asks for that and was carried out.
    pub open spec fn spec_step(self) -> ComputerView {
        if self.program_counter >= 4000 {
            self
        } else {
            match self.spec_fetch().spec_decode() {
                Err(f) => self,
                Ok(operation) => {
                    let after = operation.spec_effect(self);
                    if operation.spec_fault(self) is None && operation.spec_increments() {
                        after.spec_advance()
                    } else {
                        after
                    }
                },
            }
        }
    }

    /// The first reason for which one of the devices before slot `upto`
    /// stops while it works through its mailbox, if one stops.
    pub open spec fn spec_service_fault(self, upto: int) -> Option<ExecutionFault>
        decreases upto,
    {
        if upto <= 0 {
            None
        } else if self.spec_service_fault(upto - 1) is Some {
            self.spec_service_fault(upto - 1)
        } else {
            let before = self.spec_serviced(upto - 1);
            match spec_drain_error(before.io_devices[upto - 1], before.memory, before.extension) {
                Some(e) => Some(ExecutionFault::Device(e)),
                None => None,
            }
        }
    }

    /// The state after the devices before slot `upto` have worked through
    /// their mailboxes, one device after the other from slot 0 on, up to the
    /// first that stops.
    pub open spec fn spec_serviced(self, upto: int) -> ComputerView
        decreases upto,
    {
        if upto <= 0 {
            self
        } else if self.spec_service_fault(upto - 1) is Some {
            self.spec_serviced(upto - 1)
        } else {
            let before = self.spec_serviced(upto - 1);
            let device = before.io_devices[upto - 1];
            ComputerView {
                memory: spec_drained_memory(device, before.memory, before.extension),
                io_devices: before.io_devices.update(
                    upto - 1,
                    spec_drained_device(device, before.memory, before.extension),
                ),
                ..before
            }
        }
    }

    /// Why the machine cannot be made ready to load a deck, if it cannot.
    pub open spec fn spec_boot_fault(self) -> Option<ExecutionFault> {
        if spec_first_card().spec_fault(self) is Some {
            spec_first_card().spec_fault(self)
        } else {
            spec_first_card().spec_effect(self).spec_service_fault(19)
        }
    }

    /// The state of a machine that is ready to load a deck: the card reader
    /// was asked for a card at location 0, every device has worked through
    /// its mailbox, and the program counter and J are zero. A fault ends
    /// this where it occurs.
    pub open spec fn spec_boot(self) -> ComputerView {
        let asked = spec_first_card().spec_effect(self);
        if spec_first_card().spec_fault(self) is Some {
            asked
        } else if asked.spec_service_fault(19) is Some {
            asked.spec_serviced(19)
        } else {
            ComputerView {
                program_counter: 0,
                jump_address: Address::spec_new(Sign::Positive, 0),
                ..asked.spec_serviced(19)
            }
        }
    }

    /// The machine as it is started: running, and otherwise as it was.
    pub open spec fn spec_started(self) -> ComputerView {
        ComputerView { running: true, ..self }
    }

    /// Why one turn of the machine stops it with a fault, if it does.
    pub open spec fn spec_cycle_fault(self) -> Option<ExecutionFault> {
        if self.spec_step_fault() is Some {
            self.spec_step_fault()
        } else {
            self.spec_step().spec_service_fault(19)
        }
    }

    /// The state after one turn of the machine: one instruction is carried
    /// out, then every device works through its mailbox, and a program
    /// counter that has left memory stops the machine. A fault ends the
    /// turn where it occurs.
    pub open spec fn spec_cycle(self) -> ComputerView {
        if self.spec_step_fault() is Some {
            self.spec_step()
        } else {
            let serviced = self.spec_step().spec_serviced(19);
            if self.spec_step().spec_service_fault(19) is None && serviced.program_counter
                >= 4000 {
                ComputerView { running: false, ..serviced }
            } else {
                serviced
            }
        }
    }

    /// The fault that ends a run of at most `turns` turns, if one does.
    pub open spec fn spec_run_fault(self, turns: nat) -> Option<ExecutionFault>
        decreases turns,
    {
        if turns == 0 || !self.running {
            None
        } else if self.spec_cycle_fault() is Some {
            self.spec_cycle_fault()
        } else {
            self.spec_cycle().spec_run_fault((turns - 1) as nat)
        }
    }

    /// The state after a run: turn after turn while the machine is running,
    /// until a fault or until `turns` turns were made.
    pub open spec fn spec_run(self, turns: nat) -> ComputerView
        decreases turns,
    {
        if turns == 0 || !self.running {
            self
        } else if self.spec_cycle_fault() is Some {
            self.spec_cycle()
        } else {
            self.spec_cycle().spec_run((turns - 1) as nat)
        }
    }

    /// The number of turns that a run of at most `turns` turns makes.
    pub open spec fn spec_run_turns(self, turns: nat) -> nat
        decreases turns,
    {
        if turns == 0 || !self.running {
            0
        } else if self.spec_cycle_fault() is Some {
            1
        } else {
            1 + self.spec_cycle().spec_run_turns((turns - 1) as nat)
        }
    }
}

impl Computer {
    /// Memory has 4000 words; every word and every register holds bytes
    /// below 64; the 19 devices are of the kinds of their slots.
    pub open spec fn wf(&self) -> bool {
        self@.wf()
    }

    /// The address that the instruction means: its address field, plus the
    /// index register that its index specification names, if it names one.
    pub fn get_indexed_address_value(&self, instruction: &Instruction) -> (value: isize)
        requires
            self.wf(),
            instruction.index_specification <= 6,
        ensures
            value == self@.spec_indexed_address(*instruction),
            -20670 <= value <= 20670,
            instruction.address.wf() ==> -8190 <= value <= 8190,
    {
        let index = instruction.index_specification as usize;
        let value = instruction.address.value();
        if index == 0 {
            return value;
        }
        assert(self@.indexes[index - 1].wf());
        let index_value = self.indexes[index - 1].value();
        value + index_value
    }

    /// The number of the word of memory that the instruction names, or why
    /// it names none.
    pub fn memory_address(&self, instruction: &Instruction) -> (r: Result<usize, ExecutionFault>)
        requires
            self.wf(),
        ensures
            r == (match self@.spec_address_fault(*instruction) {
                Some(f) => Err::<usize, ExecutionFault>(f),
                None => Ok(self@.spec_indexed_address(*instruction) as usize),
            }),
            r matches Ok(a) ==> a < 4000,
    {
        if instruction.index_specification > 6 {
            return Err(ExecutionFault::IndexSpec);
        }
        let value = self.get_indexed_address_value(instruction);
        if value < 0 || value >= 4000 {
            return Err(ExecutionFault::MemoryAddress);
        }
        Ok(value as usize)
    }

    /// The operand of the instruction: the field that its modification names
    /// of the word of memory that its address names; or why there is none.
    pub fn operand(&self, instruction: &Instruction) -> (r: Result<Word, ExecutionFault>)
        requires
            self.wf(),
        ensures
            r == (match self@.spec_operand_fault(*instruction) {
                Some(f) => Err::<Word, ExecutionFault>(f),
                None => Ok(self@.spec_operand(*instruction)),
            }),
            r matches Ok(w) ==> w.wf(),
    {
        if instruction.index_specification > 6 {
            return Err(ExecutionFault::IndexSpec);
        }
        if !is_valid_field_spec(instruction.modification) {
            return Err(ExecutionFault::FieldSpec);
        }
        let value = self.get_indexed_address_value(instruction);
        if value < 0 || value >= 4000 {
            return Err(ExecutionFault::MemoryAddress);
        }
        let word = self.memory[value as usize];
        assert(self@.memory[value as int].wf());
        Ok(word.apply_field_spec(instruction.modification))
    }

    /// Register number `r` as a word: 0 is A, 1 to 6 are the index registers,
    /// 7 is X.
    pub fn register(&self, r: u8) -> (word: Word)
        requires
            self.wf(),
            r <= 7,
        ensures
            word == self@.spec_register(r as int),
            word.wf(),
    {
        if r == 0 {
            self.accumulator
        } else if r == 7 {
            self.extension
        } else {
            assert(self@.indexes[r - 1].wf());
            self.indexes[(r - 1) as usize].cast_to_word()
        }
    }

    /// Puts `word` into register number `r`. An index register takes the
    /// sign and the last two bytes.
    pub fn set_register(&mut self, r: u8, word: Word)
        requires
            old(self).wf(),
            r <= 7,
            word.wf(),
        ensures
            final(self).wf(),
            final(self)@ == old(self)@.spec_with_register(r as int, word),
    {
        if r == 0 {
            self.accumulator = word;
        } else if r == 7 {
            self.extension = word;
        } else {
            self.indexes[(r - 1) as usize] = word.cast_to_address();
            assert(self@.indexes =~= old(self)@.indexes.update(r - 1, word.spec_cast_to_address()));
        }
    }

    /// Jumps to `target` and leaves the address of the next instruction in J.
    pub fn jump(&mut self, target: usize)
        requires
            old(self).wf(),
            old(self).program_counter < 4000,
        ensures
            final(self).wf(),
            final(self)@ == old(self)@.spec_jump(target as int),
    {
        self.jump_address = Address::from_value(self.program_counter as isize + 1);
        self.program_counter = target;
    }
    /// A machine at rest: every register and every word of memory is
    /// positive zero, the program counter is 0, the comparison indicator
    /// says equal, and each of the 19 devices has an empty medium.
    pub fn new() -> (computer: Computer)
        ensures
            computer.wf(),
            !computer@.running,
            computer@.program_counter == 0,
            !computer@.overflow,
            computer@.comparison == Comparison::Equal,
            computer@.accumulator == Word::spec_new(Sign::Positive, 0),
            computer@.extension == Word::spec_new(Sign::Positive, 0),
            computer@.jump_address == Address::spec_new(Sign::Positive, 0),
            forall|i: int| 0 <= i < 6 ==> computer@.indexes[i] == Address::spec_new(Sign::Positive, 0),
            forall|i: int| 0 <= i < 4000 ==> computer@.memory[i] == Word::spec_new(Sign::Positive, 0),
            forall|i: int|
                0 <= i < 19 ==> (#[trigger] computer@.io_devices[i]) == IoDevice::spec_empty(
                    spec_device_kind(i),
                ),
    {
        let mut memory: Vec<Word> = Vec::new();
        let mut i: usize = 0;
        while i < 4000
            invariant
                i <= 4000,
                memory@.len() == i,
                forall|k: int| 0 <= k < i ==> memory@[k] == Word::spec_new(Sign::Positive, 0),
                forall|k: int| 0 <= k < i ==> (#[trigger] memory@[k]).wf(),
            decreases 4000 - i,
        {
            memory.push(Word::zero());
            i += 1;
        }
        let mut io_devices: Vec<IoDevice> = Vec::new();
        let mut slot: usize = 0;
        while slot < 8
            invariant
                slot <= 8,
                io_devices@.len() == slot,
                forall|k: int|
                    0 <= k < slot ==> (#[trigger] io_devices@[k])@ == IoDevice::spec_empty(
                        spec_device_kind(k),
                    ) && io_devices@[k].wf(),
            decreases 8 - slot,
        {
            io_devices.push(TapeUnit::new());
            slot += 1;
        }
        while slot < 16
            invariant
                8 <= slot <= 16,
                io_devices@.len() == slot,
                forall|k: int|
                    0 <= k < slot ==> (#[trigger] io_devices@[k])@ == IoDevice::spec_empty(
                        spec_device_kind(k),
                    ) && io_devices@[k].wf(),
            decreases 16 - slot,
        {
            io_devices.push(DiskUnit::new());
            slot += 1;
        }
        io_devices.push(CardReader::new());
        io_devices.push(CardPunch::new());
        io_devices.push(LinePrinter::new());
        let zero = Address::zero();
        let computer = Computer {
            running: false,
            program_counter: 0,
            accumulator: Word::zero(),
            extension: Word::zero(),
            indexes: [zero, zero, zero, zero, zero, zero],
            jump_address: zero,
            memory,
            overflow: false,
            comparison: Comparison::Equal,
            io_devices,
        };
        assert forall|k: int| 0 <= k < 19 implies (#[trigger] computer@.io_devices[k]).wf()
            && computer@.io_devices[k].kind == spec_device_kind(k) by {
            assert(computer@.io_devices[k] == computer.io_devices@[k]@);
        }
        assert forall|k: int| 0 <= k < 19 implies (#[trigger] computer@.io_devices[k])
            == IoDevice::spec_empty(spec_device_kind(k)) by {
            assert(computer@.io_devices[k] == computer.io_devices@[k]@);
        }
        computer
    }

    /// The instruction under the program counter, or a fault where the
    /// program counter is outside memory.
    pub fn fetch(&self) -> (r: Result<Instruction, ExecutionFault>)
        requires
            self.wf(),
        ensures
            r == (if self@.program_counter >= 4000 {
                Err::<Instruction, ExecutionFault>(ExecutionFault::MemoryAddress)
            } else {
                Ok(self@.spec_fetch())
            }),
    {
        if self.program_counter >= 4000 {
            return Err(ExecutionFault::MemoryAddress);
        }
        let word = self.memory[self.program_counter];
        Ok(Instruction::from_word(word))
    }

    /// Fetches the instruction under the program counter, decodes it,
    /// carries it out and moves the program counter on by one where the
    /// operation asks for that.
    pub fn fetch_decode_execute(&mut self) -> (r: Result<(), ExecutionFault>)
        requires
            old(self).wf(),
        ensures
            final(self).wf(),
            r == (match old(self)@.spec_step_fault() {
                Some(f) => Err::<(), ExecutionFault>(f),
                None => Ok(()),
            }),
            final(self)@ == old(self)@.spec_step(),
    {
        let instruction = match self.fetch() {
            Ok(instruction) => instruction,
            Err(f) => {
                return Err(f);
            },
        };
        let operation = match instruction.decode() {
            Ok(operation) => operation,
            Err(f) => {
                return Err(f);
            },
        };
        match operation.execute(self) {
            Ok(()) => {},
            Err(f) => {
                return Err(f);
            },
        }
        if operation.should_increment_program_counter() {
            self.program_counter += 1;
        }
        Ok(())
    }

    /// Lets every device work through its mailbox, one device after the
    /// other from slot 0 on. Stops at the first device that stops.
    pub fn service_devices(&mut self) -> (r: Result<(), ExecutionFault>)
        requires
            old(self).wf(),
        ensures
            final(self).wf(),
            r == (match old(self)@.spec_service_fault(19) {
                Some(f) => Err::<(), ExecutionFault>(f),
                None => Ok(()),
            }),
            final(self)@ == old(self)@.spec_serviced(19),
    {
        let extension = self.extension;
        let mut slot: usize = 0;
        while slot < 19
            invariant
                slot <= 19,
                self.wf(),
                extension == self.extension,
                old(self)@.spec_service_fault(slot as int) is None,
                self@ == old(self)@.spec_serviced(slot as int),
            decreases 19 - slot,
        {
            let ghost views = self@.io_devices;
            assert(views[slot as int].wf());
            let mut device = self.io_devices.remove(slot);
            assert(device@ == views[slot as int]);
            let outcome = device.wait_ready(&mut self.memory, &extension);
            let ghost after = device@;
            self.io_devices.insert(slot, device);
            assert(self@.io_devices =~= views.update(slot as int, after));
            match outcome {
                Ok(()) => {},
                Err(e) => {
                    proof {
                        lemma_service_stops(old(self)@, slot as int + 1, 19);
                    }
                    return Err(ExecutionFault::Device(e));
                },
            }
            slot += 1;
        }
        Ok(())
    }

    /// Puts the words of an assembled program into memory, each at its
    /// location, and sets the program counter to the start of the program.
    pub fn load(&mut self, words: &HashMap<usize, Word>, program_start: usize)
        requires
            old(self).wf(),
            forall|k: usize| (#[trigger] words@.contains_key(k)) ==> k < 4000 && words@[k].wf(),
        ensures
            final(self).wf(),
            final(self)@ == (ComputerView {
                memory: Seq::new(
                    4000,
                    |i: int|
                        if words@.contains_key(i as usize) {
                            words@[i as usize]
                        } else {
                            old(self)@.memory[i]
                        },
                ),
                program_counter: program_start as int,
                ..old(self)@
            }),
    {
        broadcast use vstd::std_specs::hash::group_hash_axioms;

        let mut location: usize = 0;
        while location < 4000
            invariant
                location <= 4000,
                self.wf(),
                forall|k: usize| (#[trigger] words@.contains_key(k)) ==> k < 4000 && words@[k].wf(),
                self@ == (ComputerView { memory: self@.memory, ..old(self)@ }),
                forall|i: int|
                    0 <= i < 4000 ==> self@.memory[i] == (if i < location && words@.contains_key(
                        i as usize,
                    ) {
                        words@[i as usize]
                    } else {
                        old(self)@.memory[i]
                    }),
            decreases 4000 - location,
        {
            match words.get(&location) {
                Some(word) => {
                    assert(words@.contains_key(location));
                    self.memory.set(location, *word);
                },
                None => {},
            }
            location += 1;
        }
        self.program_counter = program_start;
        assert(self@.memory =~= Seq::new(
            4000,
            |i: int|
                if words@.contains_key(i as usize) {
                    words@[i as usize]
                } else {
                    old(self)@.memory[i]
                },
        ));
    }

    /// Makes the machine ready to load a deck: the first card goes from the
    /// card reader to the start of memory, and the program counter and J
    /// are set to zero. The card is the loader, which reads the rest.
    pub fn boot(&mut self) -> (r: Result<(), ExecutionFault>)
        requires
            old(self).wf(),
        ensures
            final(self).wf(),
            final(self)@ == old(self)@.spec_boot(),
            r == (match old(self)@.spec_boot_fault() {
                Some(f) => Err::<(), ExecutionFault>(f),
                None => Ok(()),
            }),
    {
        let first = Io::new(
            &Instruction {
                operation: op_codes::IN,
                modification: 16,
                address: Address::zero(),
                index_specification: 0,
            },
        );
        assert(first.instruction.address.bytes =~= spec_first_card().instruction.address.bytes);
        match first.execute(self) {
            Ok(()) => {},
            Err(f) => {
                return Err(f);
            },
        }
        match self.service_devices() {
            Ok(()) => {},
            Err(f) => {
                return Err(f);
            },
        }
        self.program_counter = 0;
        self.jump_address = Address::zero();
        Ok(())
    }

    /// One turn of the machine: one instruction, then the devices; a
    /// program counter that has left memory stops the machine.
    pub fn cycle(&mut self) -> (r: Result<(), ExecutionFault>)
        requires
            old(self).wf(),
        ensures
            final(self).wf(),
            r == (match old(self)@.spec_cycle_fault() {
                Some(f) => Err::<(), ExecutionFault>(f),
                None => Ok(()),
            }),
            final(self)@ == old(self)@.spec_cycle(),
    {
        match self.fetch_decode_execute() {
            Ok(()) => {},
            Err(f) => {
                return Err(f);
            },
        }
        match self.service_devices() {
            Ok(()) => {},
            Err(f) => {
                return Err(f);
            },
        }
        if self.program_counter >= MEMORY_SIZE {
            self.running = false;
        }
        Ok(())
    }

    /// Runs the machine, turn after turn, while it is running and no fault
    /// occurs, for at most `turns` turns. Returns the number of turns made.
    pub fn run(&mut self, turns: u64) -> (r: Result<u64, ExecutionFault>)
        requires
            old(self).wf(),
        ensures
            final(self).wf(),
            final(self)@ == old(self)@.spec_run(turns as nat),
            r == (match old(self)@.spec_run_fault(turns as nat) {
                Some(f) => Err::<u64, ExecutionFault>(f),
                None => Ok(old(self)@.spec_run_turns(turns as nat) as u64),
            }),
    {
        let idle = |c: &Computer| {  };
        self.run_interactive(turns, &idle)
    }

    /// Runs the machine as `run` does, calling `f` on the machine before
    /// each turn that is started: before the first turn on the machine as
    /// it is, before each later one on what the turns so far have left.
    #[verifier::rlimit(40)]
    pub fn run_interactive<F: Fn(&Computer) -> ()>(&mut self, turns: u64, f: &F) -> (r: Result<
        u64,
        ExecutionFault,
    >)
        requires
            old(self).wf(),
            forall|c: &Computer| call_requires(*f, (c,)),
        ensures
            final(self).wf(),
            final(self)@ == old(self)@.spec_run(turns as nat),
            r == (match old(self)@.spec_run_fault(turns as nat) {
                Some(f) => Err::<u64, ExecutionFault>(f),
                None => Ok(old(self)@.spec_run_turns(turns as nat) as u64),
            }),
            forall|k: nat|
                k < old(self)@.spec_run_turns(turns as nat) ==> spec_hook_called(
                    *f,
                    #[trigger] old(self)@.spec_run(k),
                ),
    {
        let mut made: u64 = 0;
        while self.running && made < turns
            invariant
                made <= turns,
                self.wf(),
                forall|c: &Computer| call_requires(*f, (c,)),
                self@.spec_run((turns - made) as nat) == old(self)@.spec_run(turns as nat),
                self@.spec_run_fault((turns - made) as nat) == old(self)@.spec_run_fault(
                    turns as nat,
                ),
                made + self@.spec_run_turns((turns - made) as nat) == old(self)@.spec_run_turns(
                    turns as nat,
                ),
                self@ == old(self)@.spec_run(made as nat),
                old(self)@.spec_run_fault(made as nat) is None,
                old(self)@.spec_run_turns(made as nat) == made,
                forall|k: nat|
                    k < made ==> spec_hook_called(*f, #[trigger] old(self)@.spec_run(k)),
            decreases turns - made,
        {
            call_hook(f, self);
            proof {
                lemma_run_one_more(old(self)@, made as nat);
            }
            match self.cycle() {
                Ok(()) => {},
                Err(e) => {
                    return Err(e);
                },
            }
            made += 1;
        }
        Ok(made)
    }

    /// Starts the machine and runs it as `start` does, calling `f` on the
    /// machine before each turn that is started.
    pub fn start_interactive<F: Fn(&Computer) -> ()>(&mut self, f: F) -> (r: Result<
        (),
        ExecutionFault,
    >)
        requires
            old(self).wf(),
            forall|c: &Computer| call_requires(f, (c,)),
        ensures
            final(self).wf(),
            final(self)@ == (ComputerView { running: true, ..old(self)@ }).spec_run(
                u64::MAX as nat,
            ),
            r == (match (ComputerView { running: true, ..old(self)@ }).spec_run_fault(
                u64::MAX as nat,
            ) {
                Some(f) => Err::<(), ExecutionFault>(f),
                None => Ok(()),
            }),
            forall|k: nat|
                k < old(self)@.spec_started().spec_run_turns(u64::MAX as nat) ==> spec_hook_called(
                    f,
                    #[trigger] old(self)@.spec_started().spec_run(k),
                ),
    {
        self.running = true;
        match self.run_interactive(u64::MAX, &f) {
            Ok(_) => Ok(()),
            Err(e) => Err(e),
        }
    }

    /// Starts the machine and runs it until it halts, until the program
    /// counter leaves memory or until a fault occurs. (A run is cut short
    /// after 2^64 - 1 turns.)
    pub fn start(&mut self) -> (r: Result<(), ExecutionFault>)
        requires
            old(self).wf(),
        ensures
            final(self).wf(),
            final(self)@ == (ComputerView { running: true, ..old(self)@ }).spec_run(
                u64::MAX as nat,
            ),
            r == (match (ComputerView { running: true, ..old(self)@ }).spec_run_fault(
                u64::MAX as nat,
            ) {
                Some(f) => Err::<(), ExecutionFault>(f),
                None => Ok(()),
            }),
    {
        self.running = true;
        match self.run(u64::MAX) {
            Ok(_) => Ok(()),
            Err(f) => Err(f),
        }
    }
}

/// A word that was put together from an instruction is fetched as that
/// instruction: what the assembler emits, the machine takes apart again.
pub proof fn lemma_fetch_assembled(view: ComputerView, instruction: Instruction)
    requires
        0 <= view.program_counter < view.memory.len(),
        view.memory[view.program_counter] == Word::spec_from_instruction(instruction),
    ensures
        view.spec_fetch() == instruction,
{
    crate::mix::laws::lemma_instruction_round_trip(Word::spec_new(Sign::Positive, 0), instruction);
}

/// Whether `f` was called on a machine in the state `view`: some machine in
/// that state has gone through a call of `f`.
pub open spec fn spec_hook_called<F: Fn(&Computer) -> ()>(f: F, view: ComputerView) -> bool {
    exists|c: Computer| c@ == view && #[trigger] call_ensures(f, (&c,), ())
}

/// Calls `f` on the machine.
fn call_hook<F: Fn(&Computer) -> ()>(f: &F, computer: &Computer)
    requires
        forall|c: &Computer| call_requires(*f, (c,)),
    ensures
        call_ensures(*f, (computer,), ()),
        spec_hook_called(*f, computer@),
{
    f(computer)
}

/// As long as the machine runs without a fault, one more turn of a run is
/// one turn of the machine: after `n` turns that were all made, the run of
/// `n + 1` turns leaves what one turn makes of the state after `n`.
pub proof fn lemma_run_one_more(view: ComputerView, n: nat)
    requires
        view.spec_run(n).running,
        view.spec_run_fault(n) is None,
        view.spec_run_turns(n) == n,
    ensures
        view.spec_run(n + 1) == view.spec_run(n).spec_cycle(),
        view.spec_run_fault(n + 1) == view.spec_run(n).spec_cycle_fault(),
        view.spec_run_turns(n + 1) == n + 1,
    decreases n,
{
    let next = view.spec_cycle();
    if n == 0 {
        assert(view.spec_run(0) == view);
        assert(next.spec_run(0) == next);
        assert(next.spec_run_fault(0) is None);
        assert(next.spec_run_turns(0) == 0);
    } else {
        assert(view.running);
        assert(view.spec_cycle_fault() is None);
        assert(view.spec_run(n) == next.spec_run((n - 1) as nat));
        assert(view.spec_run_fault(n) == next.spec_run_fault((n - 1) as nat));
        assert(view.spec_run_turns(n) == 1 + next.spec_run_turns((n - 1) as nat));
        lemma_run_one_more(next, (n - 1) as nat);
        assert(view.spec_run(n + 1) == next.spec_run(n));
        assert(view.spec_run_fault(n + 1) == next.spec_run_fault(n));
        assert(view.spec_run_turns(n + 1) == 1 + next.spec_run_turns(n));
    }
}

/// Once a device has stopped, the devices behind it are not asked: the
/// fault and the state stay what they were at that device.
pub proof fn lemma_service_stops(view: ComputerView, at: int, upto: int)
    requires
        0 <= at <= upto,
        view.spec_service_fault(at) is Some,
    ensures
        view.spec_service_fault(upto) == view.spec_service_fault(at),
        view.spec_serviced(upto) == view.spec_serviced(at),
    decreases upto - at,
{
    if at < upto {
        lemma_service_stops(view, at, upto - 1);
    }
}

} // verus!
