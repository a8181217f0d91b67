//! The card reader: lines of text, sixteen words to a card.

use vstd::prelude::*;

use super::io_device::{DeviceError, DeviceKind, IoDevice, IoDeviceView};
use super::tape::spec_next_position;
use super::transfer::spec_words_wf;
use crate::mix::char_codes::{get_code, spec_code_of};
use crate::mix::text::chars_of;
use crate::mix::word::{Sign, Word};

verus! {

/// The character at column `i` of a card: that of the line, or a blank past
/// its end.
pub open spec fn spec_card_column(line: Seq<char>, i: int) -> char {
    if 0 <= i < line.len() {
        line[i]
    } else {
        ' '
    }
}

/// Whether each of the first 80 columns of a card has a code.
pub open spec fn spec_card_readable(line: Seq<char>) -> bool {
    forall|i: int| 0 <= i < 80 ==> (#[trigger] spec_code_of(spec_card_column(line, i))) is Some
}

/// The word in columns `5k` to `5k + 4` of a card.
pub open spec fn spec_card_word(line: Seq<char>, k: int) -> Word {
    Word {
        sign: Sign::Positive,
        bytes: [
            spec_code_of(spec_card_column(line, 5 * k)).unwrap(),
            spec_code_of(spec_card_column(line, 5 * k + 1)).unwrap(),
            spec_code_of(spec_card_column(line, 5 * k + 2)).unwrap(),
            spec_code_of(spec_card_column(line, 5 * k + 3)).unwrap(),
            spec_code_of(spec_card_column(line, 5 * k + 4)).unwrap(),
        ],
    }
}

/// The sixteen words of a card: the line, blanks up to column 80, five
/// characters to a word.
pub open spec fn spec_card_words(line: Seq<char>) -> Seq<Word> {
    Seq::new(16, |k: int| spec_card_word(line, k))
}

/// The line under the reader, or an empty one past the last card.
pub open spec fn spec_current_card(d: IoDeviceView) -> Seq<char> {
    if d.position < d.lines.len() {
        d.lines[d.position as int]
    } else {
        Seq::empty()
    }
}

/// Why the card under the reader cannot be read, if it cannot: one of its
/// columns holds a character without a code.
pub open spec fn spec_card_error(d: IoDeviceView) -> Option<DeviceError> {
    if spec_card_readable(spec_current_card(d)) {
        None
    } else {
        Some(DeviceError::BadCharCode)
    }
}

/// The reader after a card was read: it has moved on by one card.
pub open spec fn spec_cards_after_read(d: IoDeviceView) -> IoDeviceView {
    IoDeviceView { position: spec_next_position(d.position), ..d }
}

/// The sixteen words of a card, or `None` where one of its first 80 columns
/// holds a character without a code.
pub fn card_words(line: &str) -> (r: Option<Vec<Word>>)
    ensures
        r is Some <==> spec_card_readable(line@),
        r matches Some(words) ==> words@ == spec_card_words(line@) && spec_words_wf(words@),
{
    let chars = chars_of(line);
    let mut codes: Vec<u8> = Vec::new();
    let mut i: usize = 0;
    while i < 80
        invariant
            i <= 80,
            chars@ == line@,
            codes@.len() == i,
            forall|k: int| 0 <= k < i ==> (#[trigger] spec_code_of(spec_card_column(line@, k))) is Some,
            forall|k: int|
                0 <= k < i ==> codes@[k] == (#[trigger] spec_code_of(
                    spec_card_column(line@, k),
                )).unwrap(),
            forall|k: int| 0 <= k < i ==> (#[trigger] codes@[k]) < 56,
        decreases 80 - i,
    {
        let ch = if i < chars.len() {
            chars[i]
        } else {
            ' '
        };
        assert(ch == spec_card_column(line@, i as int));
        match get_code(&ch) {
            Some(code) => {
                codes.push(code);
            },
            None => {
                return None;
            },
        }
        i += 1;
    }
    let mut words: Vec<Word> = Vec::new();
    let mut k: usize = 0;
    while k < 16
        invariant
            k <= 16,
            codes@.len() == 80,
            forall|j: int|
                0 <= j < 80 ==> codes@[j] == (#[trigger] spec_code_of(
                    spec_card_column(line@, j),
                )).unwrap(),
            forall|j: int| 0 <= j < 80 ==> (#[trigger] codes@[j]) < 56,
            words@.len() == k,
            forall|j: int| 0 <= j < k ==> words@[j] == spec_card_word(line@, j),
            forall|j: int| 0 <= j < k ==> (#[trigger] words@[j]).wf(),
        decreases 16 - k,
    {
        let word = Word {
            sign: Sign::Positive,
            bytes: [
                codes[5 * k],
                codes[5 * k + 1],
                codes[5 * k + 2],
                codes[5 * k + 3],
                codes[5 * k + 4],
            ],
        };
        assert(word.bytes =~= spec_card_word(line@, k as int).bytes);
        assert(word.wf()) by {
            assert(codes@[5 * k] < 56);
            assert(codes@[5 * k + 1] < 56);
            assert(codes@[5 * k + 2] < 56);
            assert(codes@[5 * k + 3] < 56);
            assert(codes@[5 * k + 4] < 56);
        }
        words.push(word);
        k += 1;
    }
    assert(words@ =~= spec_card_words(line@));
    Some(words)
}

/// The card reader.
pub struct CardReader {}

impl CardReader {
    /// A card reader with no cards in it.
    pub fn new() -> (device: IoDevice)
        ensures
            device.wf(),
            device@ == IoDevice::spec_empty(DeviceKind::CardReader),
    {
        IoDevice::new(DeviceKind::CardReader)
    }

    /// The number of words on a card.
    pub fn block_size() -> (size: usize)
        ensures
            size == 16,
    {
        16
    }

    /// Reads the next card: its line, with blanks up to column 80, five
    /// characters to a word. Behind the last card there are blank cards. A
    /// card with a character outside the character table is not read.
    pub fn read(device: &mut IoDevice) -> (r: Result<Vec<Word>, DeviceError>)
        requires
            old(device).wf(),
            old(device)@.kind == DeviceKind::CardReader,
        ensures
            final(device).wf(),
            r is Ok <==> spec_card_error(old(device)@) is None,
            r matches Err(e) ==> spec_card_error(old(device)@) == Some(e),
            r matches Ok(words) ==> words@ == spec_card_words(spec_current_card(old(device)@))
                && spec_words_wf(words@) && words@.len() == 16,
            r is Ok ==> final(device)@ == spec_cards_after_read(old(device)@),
            r is Err ==> final(device)@ == old(device)@,
    {
        let found = if device.position < device.lines.len() as u64 {
            let at = device.position as usize;
            assert(device.lines@[at as int]@ == spec_current_card(device@));
            card_words(device.lines[at].as_str())
        } else {
            proof {
                reveal_strlit("");
            }
            assert(""@ =~= spec_current_card(device@));
            card_words("")
        };
        match found {
            Some(words) => {
                if device.position < u64::MAX {
                    device.position = device.position + 1;
                }
                assert(device@ =~= spec_cards_after_read(old(device)@));
                Ok(words)
            },
            None => Err(DeviceError::BadCharCode),
        }
    }
}

} // verus!
