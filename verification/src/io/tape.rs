//! The tape units: blocks of 100 words, one behind the other.

use vstd::prelude::*;

use super::io_device::{DeviceKind, IoDevice, IoDeviceView};
use super::transfer::{copy_words, spec_words_wf};
use crate::mix::word::Word;

verus! {

/// One more than `position`, or `position` where it is the last one.
pub open spec fn spec_next_position(position: u64) -> u64 {
    if position < u64::MAX {
        (position + 1) as u64
    } else {
        position
    }
}

/// The position `m` blocks away from `position`, no further back than the
/// start of the tape.
pub open spec fn spec_skip_position(position: u64, m: int) -> u64 {
    if position + m < 0 {
        0
    } else if position + m > u64::MAX {
        u64::MAX
    } else {
        (position + m) as u64
    }
}

/// The words of the block under the head; none where that block was never
/// written.
pub open spec fn spec_tape_read_words(d: IoDeviceView) -> Seq<Word> {
    if d.blocks.contains_key(d.position) {
        d.blocks[d.position]
    } else {
        Seq::empty()
    }
}

/// The tape after a block was read: it has moved on by one block.
pub open spec fn spec_tape_after_read(d: IoDeviceView) -> IoDeviceView {
    IoDeviceView { position: spec_next_position(d.position), ..d }
}

/// The tape after a block was written: the block is where the head was, and
/// the tape has moved on by one block.
pub open spec fn spec_tape_after_write(d: IoDeviceView, words: Seq<Word>) -> IoDeviceView {
    IoDeviceView {
        blocks: d.blocks.insert(d.position, words),
        position: spec_next_position(d.position),
        ..d
    }
}

/// The tape after it skipped `m` blocks: forwards for a positive `m`,
/// backwards for a negative one, and no further back than its start.
pub open spec fn spec_tape_after_control(d: IoDeviceView, m: int) -> IoDeviceView {
    IoDeviceView { position: spec_skip_position(d.position, m), ..d }
}

/// A tape unit.
pub struct TapeUnit {}

impl TapeUnit {
    /// A tape unit with an empty tape at its start.
    pub fn new() -> (device: IoDevice)
        ensures
            device.wf(),
            device@ == IoDevice::spec_empty(DeviceKind::Tape),
    {
        IoDevice::new(DeviceKind::Tape)
    }

    /// The number of words in a block.
    pub fn block_size() -> (size: usize)
        ensures
            size == 100,
    {
        100
    }

    /// Reads the block under the head and moves on by one block. A block
    /// that was never written gives no words.
    pub fn read(device: &mut IoDevice) -> (words: Vec<Word>)
        requires
            old(device).wf(),
            old(device)@.kind == DeviceKind::Tape,
        ensures
            final(device).wf(),
            words@ == spec_tape_read_words(old(device)@),
            spec_words_wf(words@),
            words@.len() == 0 || words@.len() == 100,
            final(device)@ == spec_tape_after_read(old(device)@),
    {
        broadcast use vstd::std_specs::hash::group_hash_axioms;

        let words = match device.blocks.get(&device.position) {
            Some(block) => {
                assert(device@.blocks.contains_key(device.position));
                assert(device@.blocks[device.position] == block@);
                copy_words(block)
            },
            None => Vec::new(),
        };
        if device.position < u64::MAX {
            device.position = device.position + 1;
        }
        assert(device@ =~= spec_tape_after_read(old(device)@));
        words
    }

    /// Writes a block under the head and moves on by one block.
    pub fn write(device: &mut IoDevice, words: Vec<Word>)
        requires
            old(device).wf(),
            old(device)@.kind == DeviceKind::Tape,
            words@.len() == 100,
            spec_words_wf(words@),
        ensures
            final(device).wf(),
            final(device)@ == spec_tape_after_write(old(device)@, words@),
    {
        broadcast use vstd::std_specs::hash::group_hash_axioms;

        let ghost block = words@;
        device.blocks.insert(device.position, words);
        if device.position < u64::MAX {
            device.position = device.position + 1;
        }
        assert(device@.blocks =~= old(device)@.blocks.insert(old(device)@.position, block));
        assert(device@ =~= spec_tape_after_write(old(device)@, block));
    }

    /// Skips `m` blocks: forwards for a positive `m`, backwards for a
    /// negative one, and no further back than the start of the tape.
    pub fn control(device: &mut IoDevice, m: isize)
        requires
            old(device).wf(),
            old(device)@.kind == DeviceKind::Tape,
        ensures
            final(device).wf(),
            final(device)@ == spec_tape_after_control(old(device)@, m as int),
    {
        let target: i128 = device.position as i128 + m as i128;
        if target < 0 {
            device.position = 0;
        } else if target > u64::MAX as i128 {
            device.position = u64::MAX;
        } else {
            device.position = target as u64;
        }
        assert(device@ =~= spec_tape_after_control(old(device)@, m as int));
    }
}

} // verus!
