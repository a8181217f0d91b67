//! What each kind of device does with a block: where it reads it from, where
//! it writes it to, and how it answers a control message.

use vstd::prelude::*;

use super::card_punch::CardPunch;
use super::card_reader::{
    spec_card_error, spec_card_words, spec_cards_after_read, spec_current_card, CardReader,
};
use super::disk::{spec_disk_after_write, spec_disk_error, spec_disk_read_words, DiskUnit};
use super::io_device::{DeviceError, DeviceKind, IoDevice, IoDeviceView};
use super::line_printer::{spec_form_feed, LinePrinter};
use super::tape::{
    spec_tape_after_control, spec_tape_after_read, spec_tape_after_write, spec_tape_read_words,
    TapeUnit,
};
use super::transfer::{spec_after_line, spec_line_error, spec_text_of_words, spec_words_wf};
use crate::mix::word::Word;

verus! {

/// Why the device cannot read a block in this state, if it cannot.
pub open spec fn spec_read_error(d: IoDeviceView, extension: Word) -> Option<DeviceError> {
    match d.kind {
        DeviceKind::Tape => None,
        DeviceKind::Disk => spec_disk_error(extension),
        DeviceKind::CardReader => spec_card_error(d),
        DeviceKind::CardPunch => Some(DeviceError::Unsupported),
        DeviceKind::LinePrinter => Some(DeviceError::Unsupported),
    }
}

/// The words that the device hands over when it reads a block: the block at
/// the tape's position or at the disk block that the extension register
/// selects, none where that block was never written; the sixteen words of
/// the next card.
pub open spec fn spec_read_words(d: IoDeviceView, extension: Word) -> Seq<Word> {
    match d.kind {
        DeviceKind::Tape => spec_tape_read_words(d),
        DeviceKind::Disk => spec_disk_read_words(d, extension),
        DeviceKind::CardReader => spec_card_words(spec_current_card(d)),
        _ => Seq::empty(),
    }
}

/// The device after it read a block: a tape and a card reader have moved on
/// by one.
pub open spec fn spec_after_read(d: IoDeviceView) -> IoDeviceView {
    match d.kind {
        DeviceKind::Tape => spec_tape_after_read(d),
        DeviceKind::CardReader => spec_cards_after_read(d),
        _ => d,
    }
}

/// Why the device cannot write this block in this state, if it cannot.
pub open spec fn spec_write_error(d: IoDeviceView, words: Seq<Word>, extension: Word) -> Option<
    DeviceError,
> {
    match d.kind {
        DeviceKind::Tape => None,
        DeviceKind::Disk => spec_disk_error(extension),
        DeviceKind::CardReader => Some(DeviceError::Unsupported),
        DeviceKind::CardPunch => spec_line_error(words),
        DeviceKind::LinePrinter => spec_line_error(words),
    }
}

/// The device after it wrote a block: at the tape's position, which moves on
/// by one; at the disk block that the extension register selects; as one
/// more line of text on the punch and the printer.
pub open spec fn spec_after_write(d: IoDeviceView, words: Seq<Word>, extension: Word)
    -> IoDeviceView {
    match d.kind {
        DeviceKind::Tape => spec_tape_after_write(d, words),
        DeviceKind::Disk => spec_disk_after_write(d, words, extension),
        DeviceKind::CardPunch => spec_after_line(d, spec_text_of_words(words)),
        DeviceKind::LinePrinter => spec_after_line(d, spec_text_of_words(words)),
        _ => d,
    }
}

/// Why the device cannot follow a control message in this state, if it
/// cannot.
pub open spec fn spec_control_error(d: IoDeviceView, extension: Word) -> Option<DeviceError> {
    match d.kind {
        DeviceKind::Tape => None,
        DeviceKind::Disk => spec_disk_error(extension),
        DeviceKind::CardReader => Some(DeviceError::Unsupported),
        DeviceKind::CardPunch => Some(DeviceError::Unsupported),
        DeviceKind::LinePrinter => None,
    }
}

/// The device after a control message with the amount `m`: a tape has
/// skipped `m` blocks, backwards for a negative `m` and at most to its
/// start; the printer has fed a form; a disk is as it was.
pub open spec fn spec_after_control(d: IoDeviceView, m: int) -> IoDeviceView {
    match d.kind {
        DeviceKind::Tape => spec_tape_after_control(d, m),
        DeviceKind::LinePrinter => spec_after_line(d, spec_form_feed()),
        _ => d,
    }
}

impl IoDevice {
    /// Reads the next block from the medium.
    pub fn read(&mut self, extension: &Word) -> (r: Result<Vec<Word>, DeviceError>)
        requires
            old(self).wf(),
            extension.wf(),
        ensures
            final(self).wf(),
            final(self)@.kind == old(self)@.kind,
            r is Ok <==> spec_read_error(old(self)@, *extension) is None,
            r matches Err(e) ==> spec_read_error(old(self)@, *extension) == Some(e),
            r matches Ok(words) ==> words@ == spec_read_words(old(self)@, *extension),
            r matches Ok(words) ==> spec_words_wf(words@),
            r matches Ok(words) ==> words@.len() == 0 || words@.len() == old(self).spec_block_size(),
            r is Ok ==> final(self)@ == spec_after_read(old(self)@),
            r is Err ==> final(self)@ == old(self)@,
    {
        match self.kind {
            DeviceKind::Tape => Ok(TapeUnit::read(self)),
            DeviceKind::Disk => DiskUnit::read(self, extension),
            DeviceKind::CardReader => CardReader::read(self),
            DeviceKind::CardPunch => Err(DeviceError::Unsupported),
            DeviceKind::LinePrinter => Err(DeviceError::Unsupported),
        }
    }

    /// Writes one block to the medium.
    pub fn write(&mut self, words: Vec<Word>, extension: &Word) -> (r: Result<(), DeviceError>)
        requires
            old(self).wf(),
            extension.wf(),
            words@.len() == old(self).spec_block_size(),
            spec_words_wf(words@),
        ensures
            final(self).wf(),
            final(self)@.kind == old(self)@.kind,
            r == (match spec_write_error(old(self)@, words@, *extension) {
                Some(e) => Err::<(), DeviceError>(e),
                None => Ok(()),
            }),
            r is Ok ==> final(self)@ == spec_after_write(old(self)@, words@, *extension),
            r is Err ==> final(self)@ == old(self)@,
    {
        match self.kind {
            DeviceKind::Tape => {
                TapeUnit::write(self, words);
                Ok(())
            },
            DeviceKind::Disk => DiskUnit::write(self, words, extension),
            DeviceKind::CardReader => Err(DeviceError::Unsupported),
            DeviceKind::CardPunch => CardPunch::write(self, &words),
            DeviceKind::LinePrinter => LinePrinter::write(self, &words),
        }
    }

    /// Follows a control message with the amount `m`.
    pub fn control(&mut self, m: isize, extension: &Word) -> (r: Result<(), DeviceError>)
        requires
            old(self).wf(),
            extension.wf(),
        ensures
            final(self).wf(),
            final(self)@.kind == old(self)@.kind,
            r == (match spec_control_error(old(self)@, *extension) {
                Some(e) => Err::<(), DeviceError>(e),
                None => Ok(()),
            }),
            r is Ok ==> final(self)@ == spec_after_control(old(self)@, m as int),
            r is Err ==> final(self)@ == old(self)@,
    {
        match self.kind {
            DeviceKind::Tape => {
                TapeUnit::control(self, m);
                Ok(())
            },
            DeviceKind::Disk => DiskUnit::control(self, extension),
            DeviceKind::CardReader => Err(DeviceError::Unsupported),
            DeviceKind::CardPunch => Err(DeviceError::Unsupported),
            DeviceKind::LinePrinter => {
                LinePrinter::control(self);
                Ok(())
            },
        }
    }
}

} // verus!
