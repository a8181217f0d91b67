//! The card punch: sixteen words to a card of 80 characters.

use vstd::prelude::*;

use super::io_device::{DeviceError, DeviceKind, IoDevice};
use super::transfer::{
    spec_after_line, spec_line_error, spec_text_of_words, text_of_words};
use crate::mix::word::Word;

verus! {

/// The card punch.
pub struct CardPunch {}

impl CardPunch {
    /// A card punch that has punched nothing yet.
    pub fn new() -> (device: IoDevice)
        ensures
            device.wf(),
            device@ == IoDevice::spec_empty(DeviceKind::CardPunch),
    {
        IoDevice::new(DeviceKind::CardPunch)
    }

    /// The number of words on a card.
    pub fn block_size() -> (size: usize)
        ensures
            size == 16,
    {
        16
    }

    /// Punches a card: the characters of the words, five to a word. Words
    /// with a byte that has no character are not punched.
    pub fn write(device: &mut IoDevice, words: &Vec<Word>) -> (r: Result<(), DeviceError>)
        requires
            old(device).wf(),
            old(device)@.kind == DeviceKind::CardPunch,
        ensures
            final(device).wf(),
            r == (match spec_line_error(words@) {
                Some(e) => Err::<(), DeviceError>(e),
                None => Ok(()),
            }),
            r is Ok ==> final(device)@ == spec_after_line(old(device)@, spec_text_of_words(words@)),
            r is Err ==> final(device)@ == old(device)@,
    {
        match text_of_words(words) {
            Ok(line) => {
                device.lines.push(line);
                assert(device@.lines =~= old(device)@.lines.push(spec_text_of_words(words@)));
                assert(device@ =~= spec_after_line(old(device)@, spec_text_of_words(words@)));
                Ok(())
            },
            Err(_) => Err(DeviceError::BadCharCode),
        }
    }
}

} // verus!
