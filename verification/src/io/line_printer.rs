//! The line printer: 24 words to a line of 120 characters.

use vstd::prelude::*;

use super::io_device::{DeviceError, DeviceKind, IoDevice};
use super::transfer::{
    spec_after_line, spec_line_error, spec_text_of_words, text_of_words};
use crate::mix::text::push_char;
use crate::mix::word::Word;

verus! {

/// The line that a form feed leaves on the paper.
pub open spec fn spec_form_feed() -> Seq<char> {
    seq!['\u{c}']
}

/// The line printer.
pub struct LinePrinter {}

impl LinePrinter {
    /// A line printer that has printed nothing yet.
    pub fn new() -> (device: IoDevice)
        ensures
            device.wf(),
            device@ == IoDevice::spec_empty(DeviceKind::LinePrinter),
    {
        IoDevice::new(DeviceKind::LinePrinter)
    }

    /// The number of words in a line.
    pub fn block_size() -> (size: usize)
        ensures
            size == 24,
    {
        24
    }

    /// Prints a line: the characters of the words, five to a word. Words
    /// with a byte that has no character are not printed.
    pub fn write(device: &mut IoDevice, words: &Vec<Word>) -> (r: Result<(), DeviceError>)
        requires
            old(device).wf(),
            old(device)@.kind == DeviceKind::LinePrinter,
        ensures
            final(device).wf(),
            r == (match spec_line_error(words@) {
                Some(e) => Err::<(), DeviceError>(e),
                None => Ok(()),
            }),
            r is Ok ==> final(device)@ == spec_after_line(old(device)@, spec_text_of_words(words@)),
            r is Err ==> final(device)@ == old(device)@,
    {
        match text_of_words(words) {
            Ok(line) => {
                device.lines.push(line);
                assert(device@.lines =~= old(device)@.lines.push(spec_text_of_words(words@)));
                assert(device@ =~= spec_after_line(old(device)@, spec_text_of_words(words@)));
                Ok(())
            },
            Err(_) => Err(DeviceError::BadCharCode),
        }
    }

    /// Feeds a form: a line of its own with the form feed character.
    pub fn control(device: &mut IoDevice)
        requires
            old(device).wf(),
            old(device)@.kind == DeviceKind::LinePrinter,
        ensures
            final(device).wf(),
            final(device)@ == spec_after_line(old(device)@, spec_form_feed()),
    {
        let mut feed = String::new();
        push_char(&mut feed, '\u{c}');
        assert(feed@ =~= spec_form_feed());
        device.lines.push(feed);
        assert(device@.lines =~= old(device)@.lines.push(spec_form_feed()));
        assert(device@ =~= spec_after_line(old(device)@, spec_form_feed()));
    }
}

} // verus!
