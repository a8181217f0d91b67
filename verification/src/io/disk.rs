//! The disk units: blocks of 100 words, found by the number in the
//! extension register.

use vstd::prelude::*;

use super::io_device::{DeviceError, DeviceKind, IoDevice, IoDeviceView};
use super::transfer::{copy_words, spec_words_wf};
use crate::mix::word::{Sign, Word};

verus! {

/// The number of the block that the extension register selects: its
/// magnitude.
pub open spec fn spec_disk_block(extension: Word) -> u64 {
    extension.magnitude() as u64
}

/// Why the extension register selects no block, if it selects none: it is
/// negative and not zero.
pub open spec fn spec_disk_error(extension: Word) -> Option<DeviceError> {
    if extension.sign == Sign::Negative && extension.magnitude() != 0 {
        Some(DeviceError::BadBlock)
    } else {
        None
    }
}

/// The words of the block that the extension register selects; none where
/// that block was never written.
pub open spec fn spec_disk_read_words(d: IoDeviceView, extension: Word) -> Seq<Word> {
    if d.blocks.contains_key(spec_disk_block(extension)) {
        d.blocks[spec_disk_block(extension)]
    } else {
        Seq::empty()
    }
}

/// The disk after a block was written where the extension register says.
pub open spec fn spec_disk_after_write(d: IoDeviceView, words: Seq<Word>, extension: Word)
    -> IoDeviceView {
    IoDeviceView { blocks: d.blocks.insert(spec_disk_block(extension), words), ..d }
}

/// A disk unit.
pub struct DiskUnit {}

impl DiskUnit {
    /// A disk unit with an empty disk.
    pub fn new() -> (device: IoDevice)
        ensures
            device.wf(),
            device@ == IoDevice::spec_empty(DeviceKind::Disk),
    {
        IoDevice::new(DeviceKind::Disk)
    }

    /// The number of words in a block.
    pub fn block_size() -> (size: usize)
        ensures
            size == 100,
    {
        100
    }

    /// The number of the block that the extension register selects: its
    /// magnitude. A negative number selects no block; negative zero selects
    /// block 0.
    pub fn block(extension: &Word) -> (r: Result<u64, DeviceError>)
        requires
            extension.wf(),
        ensures
            r == (match spec_disk_error(*extension) {
                Some(e) => Err::<u64, DeviceError>(e),
                None => Ok(spec_disk_block(*extension)),
            }),
    {
        let value = extension.value();
        if value < 0 {
            Err(DeviceError::BadBlock)
        } else {
            Ok(value as u64)
        }
    }

    /// Reads the block that the extension register selects. A block that
    /// was never written gives no words.
    pub fn read(device: &mut IoDevice, extension: &Word) -> (r: Result<Vec<Word>, DeviceError>)
        requires
            old(device).wf(),
            old(device)@.kind == DeviceKind::Disk,
            extension.wf(),
        ensures
            final(device)@ == old(device)@,
            r is Ok <==> spec_disk_error(*extension) is None,
            r matches Err(e) ==> spec_disk_error(*extension) == Some(e),
            r matches Ok(words) ==> words@ == spec_disk_read_words(old(device)@, *extension)
                && spec_words_wf(words@) && (words@.len() == 0 || words@.len() == 100),
    {
        broadcast use vstd::std_specs::hash::group_hash_axioms;

        let block = match DiskUnit::block(extension) {
            Ok(block) => block,
            Err(e) => {
                return Err(e);
            },
        };
        let words = match device.blocks.get(&block) {
            Some(found) => {
                assert(device@.blocks.contains_key(block));
                assert(device@.blocks[block] == found@);
                copy_words(found)
            },
            None => Vec::new(),
        };
        Ok(words)
    }

    /// Writes the block that the extension register selects.
    pub fn write(device: &mut IoDevice, words: Vec<Word>, extension: &Word) -> (r: Result<
        (),
        DeviceError,
    >)
        requires
            old(device).wf(),
            old(device)@.kind == DeviceKind::Disk,
            extension.wf(),
            words@.len() == 100,
            spec_words_wf(words@),
        ensures
            final(device).wf(),
            r == (match spec_disk_error(*extension) {
                Some(e) => Err::<(), DeviceError>(e),
                None => Ok(()),
            }),
            r is Ok ==> final(device)@ == spec_disk_after_write(old(device)@, words@, *extension),
            r is Err ==> final(device)@ == old(device)@,
    {
        broadcast use vstd::std_specs::hash::group_hash_axioms;

        let number = match DiskUnit::block(extension) {
            Ok(number) => number,
            Err(e) => {
                return Err(e);
            },
        };
        let ghost block = words@;
        device.blocks.insert(number, words);
        assert(device@.blocks =~= old(device)@.blocks.insert(number, block));
        assert(device@ =~= spec_disk_after_write(old(device)@, block, *extension));
        Ok(())
    }

    /// Moves the arm to the block that the extension register selects. The
    /// disk is as it was.
    pub fn control(device: &mut IoDevice, extension: &Word) -> (r: Result<(), DeviceError>)
        requires
            old(device).wf(),
            old(device)@.kind == DeviceKind::Disk,
            extension.wf(),
        ensures
            final(device)@ == old(device)@,
            r == (match spec_disk_error(*extension) {
                Some(e) => Err::<(), DeviceError>(e),
                None => Ok(()),
            }),
    {
        match DiskUnit::block(extension) {
            Ok(_) => Ok(()),
            Err(e) => Err(e),
        }
    }
}

} // verus!
