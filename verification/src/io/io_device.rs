//! A device and its mailbox.

use std::collections::HashMap;
use vstd::prelude::*;

use super::media::{
    spec_after_control, spec_after_read, spec_after_write, spec_control_error, spec_read_error,
    spec_read_words, spec_write_error,
};
use super::transfer::{read_block, spec_blocks, spec_blocks_wf, spec_lines, spec_store_block, spec_words_wf, store_block};
use crate::mix::op_codes;
use crate::mix::word::Word;

verus! {

/// What the processor asks of a device: an operation (IN, OUT or IOC) and
/// the address that came with it.
#[derive(Debug, Copy, Clone, PartialEq, Eq, Structural)]
pub struct IoMessage {
    pub operation: u8,
    pub address: isize,
}

/// The kinds of device.
#[derive(Debug, Copy, Clone, PartialEq, Eq, Structural)]
pub enum DeviceKind {
    Tape,
    Disk,
    CardReader,
    CardPunch,
    LinePrinter,
}

/// Why a device could not do what a message asked.
#[derive(Debug, Copy, Clone, PartialEq, Eq, Structural)]
pub enum DeviceError {
    /// No device in this slot.
    NoSuchDevice,
    /// The message's operation is none of IN, OUT and IOC.
    UnknownOperation,
    /// The device cannot do this operation at all.
    Unsupported,
    /// The block does not lie inside memory.
    Address,
    /// The extension register selects no disk block: it is negative.
    BadBlock,
    /// A character without a code, or a byte without a character.
    BadCharCode,
}

/// A device: its medium, the messages it has not worked on yet, and whether
/// it is busy.
#[derive(Debug)]
pub struct IoDevice {
    pub kind: DeviceKind,
    pub busy: bool,
    /// The messages sent and not yet carried out, oldest first.
    pub mailbox: Vec<IoMessage>,
    /// Tape and disk: the blocks written so far, by number.
    pub blocks: HashMap<u64, Vec<Word>>,
    /// Tape: the number of the block under the head. Card reader: the index
    /// of the next card.
    pub position: u64,
    /// Card reader: the cards to read. Card punch and line printer: the
    /// lines written so far.
    pub lines: Vec<String>,
}

/// A device as plain values.
pub struct IoDeviceView {
    pub kind: DeviceKind,
    pub busy: bool,
    pub mailbox: Seq<IoMessage>,
    pub blocks: Map<u64, Seq<Word>>,
    pub position: u64,
    pub lines: Seq<Seq<char>>,
}

/// The number of words in a block of a device of this kind.
pub open spec fn spec_block_size_of(kind: DeviceKind) -> nat {
    match kind {
        DeviceKind::Tape => 100,
        DeviceKind::Disk => 100,
        DeviceKind::CardReader => 16,
        DeviceKind::CardPunch => 16,
        DeviceKind::LinePrinter => 24,
    }
}

/// Why the device cannot carry out `message` in this state, if it cannot.
pub open spec fn spec_perform_error(
    d: IoDeviceView,
    memory: Seq<Word>,
    extension: Word,
    message: IoMessage,
) -> Option<DeviceError> {
    let size = spec_block_size_of(d.kind);
    if message.operation == op_codes::IN {
        if !(0 <= message.address && message.address + size <= memory.len()) {
            Some(DeviceError::Address)
        } else {
            spec_read_error(d, extension)
        }
    } else if message.operation == op_codes::OUT {
        if !(0 <= message.address && message.address + size <= memory.len()) {
            Some(DeviceError::Address)
        } else {
            spec_write_error(
                d,
                memory.subrange(message.address as int, message.address + size),
                extension,
            )
        }
    } else if message.operation == op_codes::IOC {
        spec_control_error(d, extension)
    } else {
        Some(DeviceError::UnknownOperation)
    }
}

/// The device after it carried out `message`, where it can. It is no longer
/// busy.
pub open spec fn spec_device_after(
    d: IoDeviceView,
    memory: Seq<Word>,
    extension: Word,
    message: IoMessage,
) -> IoDeviceView {
    let size = spec_block_size_of(d.kind);
    let after = if message.operation == op_codes::IN {
        spec_after_read(d)
    } else if message.operation == op_codes::OUT {
        spec_after_write(
            d,
            memory.subrange(message.address as int, message.address + size),
            extension,
        )
    } else {
        spec_after_control(d, message.address as int)
    };
    IoDeviceView { busy: false, ..after }
}

/// Memory after the device carried out `message`, where it can: changed by
/// IN alone, which puts the words read at the message's address.
pub open spec fn spec_memory_after(
    d: IoDeviceView,
    memory: Seq<Word>,
    extension: Word,
    message: IoMessage,
) -> Seq<Word> {
    if message.operation == op_codes::IN {
        spec_store_block(memory, message.address as int, spec_read_words(d, extension))
    } else {
        memory
    }
}

/// The device once it has worked through its mailbox, oldest message first,
/// up to the first message that it cannot carry out; that message is gone
/// from the mailbox too.
pub open spec fn spec_drained_device(d: IoDeviceView, memory: Seq<Word>, extension: Word)
    -> IoDeviceView
    decreases d.mailbox.len(),
{
    if d.mailbox.len() == 0 {
        IoDeviceView { busy: false, ..d }
    } else {
        let message = d.mailbox[0];
        let rest = IoDeviceView { mailbox: d.mailbox.drop_first(), ..d };
        if spec_perform_error(rest, memory, extension, message) is Some {
            rest
        } else {
            spec_drained_device(
                spec_device_after(rest, memory, extension, message),
                spec_memory_after(rest, memory, extension, message),
                extension,
            )
        }
    }
}

/// Memory once the device has worked through its mailbox.
pub open spec fn spec_drained_memory(d: IoDeviceView, memory: Seq<Word>, extension: Word) -> Seq<
    Word,
>
    decreases d.mailbox.len(),
{
    if d.mailbox.len() == 0 {
        memory
    } else {
        let message = d.mailbox[0];
        let rest = IoDeviceView { mailbox: d.mailbox.drop_first(), ..d };
        if spec_perform_error(rest, memory, extension, message) is Some {
            memory
        } else {
            spec_drained_memory(
                spec_device_after(rest, memory, extension, message),
                spec_memory_after(rest, memory, extension, message),
                extension,
            )
        }
    }
}

/// The first reason for which the device stops working through its mailbox,
/// if it stops.
pub open spec fn spec_drain_error(d: IoDeviceView, memory: Seq<Word>, extension: Word) -> Option<
    DeviceError,
>
    decreases d.mailbox.len(),
{
    if d.mailbox.len() == 0 {
        None
    } else {
        let message = d.mailbox[0];
        let rest = IoDeviceView { mailbox: d.mailbox.drop_first(), ..d };
        if spec_perform_error(rest, memory, extension, message) is Some {
            spec_perform_error(rest, memory, extension, message)
        } else {
            spec_drain_error(
                spec_device_after(rest, memory, extension, message),
                spec_memory_after(rest, memory, extension, message),
                extension,
            )
        }
    }
}

impl View for IoDevice {
    type V = IoDeviceView;

    open spec fn view(&self) -> IoDeviceView {
        IoDeviceView {
            kind: self.kind,
            busy: self.busy,
            mailbox: self.mailbox@,
            blocks: spec_blocks(self.blocks),
            position: self.position,
            lines: spec_lines(self.lines),
        }
    }
}

impl IoDeviceView {
    /// Every block has the size of the device's blocks and holds words with
    /// bytes below 64.
    pub open spec fn wf(&self) -> bool {
        spec_blocks_wf(self.blocks, spec_block_size_of(self.kind))
    }
}

impl IoDevice {
    /// Every block has the size of the device's blocks and holds words with
    /// bytes below 64.
    pub open spec fn wf(&self) -> bool {
        self@.wf()
    }

    /// The number of words in one block of this device.
    pub open spec fn spec_block_size(&self) -> nat {
        spec_block_size_of(self.kind)
    }

    /// A device of the given kind that is ready, with an empty medium and
    /// an empty mailbox.
    pub open spec fn spec_empty(kind: DeviceKind) -> IoDeviceView {
        IoDeviceView {
            kind,
            busy: false,
            mailbox: Seq::empty(),
            blocks: Map::empty(),
            position: 0,
            lines: Seq::empty(),
        }
    }

    /// A device of the given kind with an empty medium and an empty mailbox.
    pub fn new(kind: DeviceKind) -> (device: IoDevice)
        ensures
            device.wf(),
            device@ == IoDevice::spec_empty(kind),
    {
        broadcast use vstd::std_specs::hash::group_hash_axioms;

        let device = IoDevice {
            kind,
            busy: false,
            mailbox: Vec::new(),
            blocks: HashMap::new(),
            position: 0,
            lines: Vec::new(),
        };
        assert(device@.blocks =~= Map::empty());
        assert(device@.lines =~= Seq::empty());
        device
    }

    /// The number of words in one block: 100 for tapes and disks, 16 for the
    /// card reader and the card punch, 24 for the line printer.
    pub fn block_size(&self) -> (size: usize)
        ensures
            size == self.spec_block_size(),
    {
        match self.kind {
            DeviceKind::Tape => 100,
            DeviceKind::Disk => 100,
            DeviceKind::CardReader => 16,
            DeviceKind::CardPunch => 16,
            DeviceKind::LinePrinter => 24,
        }
    }

    /// Whether the device is busy.
    pub fn busy(&self) -> (b: bool)
        ensures
            b == self@.busy,
    {
        self.busy
    }

    /// Marks the device as busy.
    pub fn set_busy(&mut self)
        ensures
            final(self)@ == (IoDeviceView { busy: true, ..old(self)@ }),
    {
        self.busy = true;
    }

    /// Puts a message at the end of the mailbox, behind all that were sent
    /// before. Nothing is carried out yet.
    pub fn send(&mut self, message: IoMessage)
        ensures
            final(self)@ == (IoDeviceView { mailbox: old(self)@.mailbox.push(message), ..old(self)@ }),
    {
        self.mailbox.push(message);
    }

    /// Carries out one message: IN reads a block into memory at the
    /// message's address, OUT writes the block of memory at that address,
    /// IOC controls the device. Afterwards the device is ready. Where the
    /// message cannot be carried out, nothing changes.
    pub fn perform(&mut self, message: &IoMessage, memory: &mut Vec<Word>, extension: &Word) -> (r:
        Result<(), DeviceError>)
        requires
            old(self).wf(),
            spec_words_wf(old(memory)@),
            extension.wf(),
        ensures
            final(self).wf(),
            final(self)@.kind == old(self)@.kind,
            spec_words_wf(final(memory)@),
            final(memory)@.len() == old(memory)@.len(),
            r == (match spec_perform_error(old(self)@, old(memory)@, *extension, *message) {
                Some(e) => Err::<(), DeviceError>(e),
                None => Ok(()),
            }),
            r is Ok ==> final(self)@ == spec_device_after(
                old(self)@,
                old(memory)@,
                *extension,
                *message,
            ) && final(memory)@ == spec_memory_after(old(self)@, old(memory)@, *extension, *message),
            r is Err ==> final(self)@ == old(self)@ && final(memory)@ == old(memory)@,
    {
        let size = self.block_size();
        if message.operation == op_codes::IN {
            if message.address < 0 || memory.len() < size || message.address as usize > memory.len()
                - size {
                return Err(DeviceError::Address);
            }
            match self.read(extension) {
                Ok(words) => {
                    store_block(memory, message.address as usize, &words);
                    self.busy = false;
                    Ok(())
                },
                Err(e) => Err(e),
            }
        } else if message.operation == op_codes::OUT {
            if message.address < 0 || memory.len() < size || message.address as usize > memory.len()
                - size {
                return Err(DeviceError::Address);
            }
            let words = read_block(memory, message.address as usize, size);
            match self.write(words, extension) {
                Ok(()) => {
                    self.busy = false;
                    Ok(())
                },
                Err(e) => Err(e),
            }
        } else if message.operation == op_codes::IOC {
            match self.control(message.address, extension) {
                Ok(()) => {
                    self.busy = false;
                    Ok(())
                },
                Err(e) => Err(e),
            }
        } else {
            Err(DeviceError::UnknownOperation)
        }
    }

    /// Lets the device work through its mailbox, oldest message first, and
    /// returns when it is ready. It stops at the first message that cannot
    /// be carried out, drops it and reports why.
    pub fn wait_ready(&mut self, memory: &mut Vec<Word>, extension: &Word) -> (r: Result<
        (),
        DeviceError,
    >)
        requires
            old(self).wf(),
            spec_words_wf(old(memory)@),
            extension.wf(),
        ensures
            final(self).wf(),
            final(self)@.kind == old(self)@.kind,
            spec_words_wf(final(memory)@),
            final(memory)@.len() == old(memory)@.len(),
            final(self)@ == spec_drained_device(old(self)@, old(memory)@, *extension),
            final(memory)@ == spec_drained_memory(old(self)@, old(memory)@, *extension),
            r == (match spec_drain_error(old(self)@, old(memory)@, *extension) {
                Some(e) => Err::<(), DeviceError>(e),
                None => Ok(()),
            }),
            r is Ok ==> !final(self)@.busy && final(self)@.mailbox.len() == 0,
    {
        while self.mailbox.len() > 0
            invariant
                self.wf(),
                self@.kind == old(self)@.kind,
                spec_words_wf(memory@),
                extension.wf(),
                memory@.len() == old(memory)@.len(),
                spec_drained_device(self@, memory@, *extension) == spec_drained_device(
                    old(self)@,
                    old(memory)@,
                    *extension,
                ),
                spec_drained_memory(self@, memory@, *extension) == spec_drained_memory(
                    old(self)@,
                    old(memory)@,
                    *extension,
                ),
                spec_drain_error(self@, memory@, *extension) == spec_drain_error(
                    old(self)@,
                    old(memory)@,
                    *extension,
                ),
            decreases self.mailbox.len(),
        {
            let ghost before = self@;
            let message = self.mailbox.remove(0);
            assert(self@.mailbox =~= before.mailbox.drop_first());
            assert(self@ == (IoDeviceView { mailbox: before.mailbox.drop_first(), ..before }));
            match self.perform(&message, memory, extension) {
                Ok(()) => {},
                Err(e) => {
                    return Err(e);
                },
            }
        }
        self.busy = false;
        Ok(())
    }
}

} // verus!
