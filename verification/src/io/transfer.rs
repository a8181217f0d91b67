//! What devices share: blocks of words kept by number, and lines of text.

use std::collections::HashMap;
use vstd::prelude::*;

use super::io_device::{DeviceError, IoDeviceView};
use crate::mix::text::string_from_chars;
use crate::mix::word::{spec_chars_of_bytes, CharCodeError, Word};

verus! {

/// Whether every word of `words` has bytes below 64.
pub open spec fn spec_words_wf(words: Seq<Word>) -> bool {
    forall|i: int| 0 <= i < words.len() ==> (#[trigger] words[i]).wf()
}

/// The blocks of a medium by their numbers, each as a sequence of words.
pub open spec fn spec_blocks(blocks: HashMap<u64, Vec<Word>>) -> Map<u64, Seq<Word>> {
    Map::new(|n: u64| blocks@.contains_key(n), |n: u64| blocks@[n]@)
}

/// Whether every block holds `size` words with bytes below 64.
pub open spec fn spec_blocks_wf(blocks: Map<u64, Seq<Word>>, size: nat) -> bool {
    forall|n: u64| #[trigger]
        blocks.contains_key(n) ==> blocks[n].len() == size && spec_words_wf(blocks[n])
}

/// The lines of a text medium, each as a sequence of characters.
pub open spec fn spec_lines(lines: Vec<String>) -> Seq<Seq<char>> {
    Seq::new(lines@.len(), |i: int| lines@[i]@)
}

/// Memory after `block` was copied into it from `address` on.
pub open spec fn spec_store_block(memory: Seq<Word>, address: int, block: Seq<Word>) -> Seq<Word> {
    Seq::new(
        memory.len(),
        |i: int|
            if address <= i < address + block.len() {
                block[i - address]
            } else {
                memory[i]
            },
    )
}

/// The text of a block of words: five characters for each word, in order.
pub open spec fn spec_text_of_words(words: Seq<Word>) -> Seq<char>
    decreases words.len(),
{
    if words.len() == 0 {
        Seq::empty()
    } else {
        spec_text_of_words(words.drop_last()) + spec_chars_of_bytes(words.last().bytes@)
    }
}

/// Whether every byte of every word has a character.
pub open spec fn spec_words_printable(words: Seq<Word>) -> bool {
    forall|i: int, k: int|
        0 <= i < words.len() && 0 <= k < 5 ==> (#[trigger] words[i].bytes[k]) < 56
}

/// Copies `count` words of memory, from `address` on, into a block of their
/// own.
pub fn read_block(memory: &Vec<Word>, address: usize, count: usize) -> (block: Vec<Word>)
    requires
        address + count <= memory@.len(),
    ensures
        block@ == memory@.subrange(address as int, address + count),
{
    let mut block: Vec<Word> = Vec::new();
    let n = memory.len();
    let mut i: usize = 0;
    while i < count
        invariant
            i <= count,
            n == memory@.len(),
            address + count <= n,
            block@ == memory@.subrange(address as int, address + i),
        decreases count - i,
    {
        block.push(memory[address + i]);
        assert(memory@.subrange(address as int, address + i).push(memory@[address + i])
            =~= memory@.subrange(address as int, address + i + 1));
        i += 1;
    }
    block
}

/// Copies `block` into memory from `address` on.
pub fn store_block(memory: &mut Vec<Word>, address: usize, block: &Vec<Word>)
    requires
        address + block@.len() <= old(memory)@.len(),
    ensures
        final(memory)@ == spec_store_block(old(memory)@, address as int, block@),
{
    let n = memory.len();
    let mut i: usize = 0;
    while i < block.len()
        invariant
            i <= block@.len(),
            n == memory@.len(),
            memory@.len() == old(memory)@.len(),
            address + block@.len() <= n,
            forall|k: int| 0 <= k < memory@.len() ==> memory@[k] == (if address <= k < address + i {
                block@[k - address]
            } else {
                old(memory)@[k]
            }),
        decreases block@.len() - i,
    {
        memory.set(address + i, block[i]);
        i += 1;
    }
    assert(memory@ =~= spec_store_block(old(memory)@, address as int, block@));
}

/// The text of `words`, five characters for each word, or the reason why a
/// byte has no character.
pub fn text_of_words(words: &Vec<Word>) -> (r: Result<String, CharCodeError>)
    ensures
        r is Ok <==> spec_words_printable(words@),
        r matches Ok(s) ==> s@ == spec_text_of_words(words@),
        r matches Err(e) ==> e == CharCodeError::BadCharCode,
{
    let mut chars: Vec<char> = Vec::new();
    let mut i: usize = 0;
    while i < words.len()
        invariant
            i <= words@.len(),
            spec_words_printable(words@.take(i as int)),
            chars@ == spec_text_of_words(words@.take(i as int)),
        decreases words@.len() - i,
    {
        let word = words[i];
        let mut k: usize = 0;
        let ghost before = chars@;
        while k < 5
            invariant
                k <= 5,
                i < words@.len(),
                word == words@[i as int],
                forall|j: int| 0 <= j < k ==> word.bytes[j] < 56,
                chars@ == before + spec_chars_of_bytes(word.bytes@).take(k as int),
            decreases 5 - k,
        {
            match crate::mix::char_codes::get_char(&word.bytes[k]) {
                Some(ch) => {
                    chars.push(ch);
                    assert(spec_chars_of_bytes(word.bytes@).take(k as int).push(ch)
                        =~= spec_chars_of_bytes(word.bytes@).take(k + 1));
                },
                None => {
                    assert(!(words@[i as int].bytes[k as int] < 56));
                    return Err(CharCodeError::BadCharCode);
                },
            }
            k += 1;
        }
        proof {
            assert(spec_chars_of_bytes(word.bytes@).take(5) =~= spec_chars_of_bytes(word.bytes@));
            assert(words@.take(i + 1).drop_last() =~= words@.take(i as int));
            assert(words@.take(i + 1).last() == word);
            assert forall|a: int, b: int| 0 <= a < i + 1 && 0 <= b < 5 implies (
            #[trigger] words@.take(i + 1)[a].bytes[b]) < 56 by {
                if a < i {
                    assert(words@.take(i as int)[a].bytes[b] < 56);
                }
            }
        }
        i += 1;
    }
    assert(words@.take(words@.len() as int) =~= words@);
    Ok(string_from_chars(&chars))
}

/// A copy of a block of words.
pub fn copy_words(words: &Vec<Word>) -> (copy: Vec<Word>)
    ensures
        copy@ == words@,
{
    let mut copy: Vec<Word> = Vec::new();
    let mut i: usize = 0;
    while i < words.len()
        invariant
            i <= words@.len(),
            copy@ == words@.take(i as int),
        decreases words@.len() - i,
    {
        copy.push(words[i]);
        assert(words@.take(i as int).push(words@[i as int]) =~= words@.take(i + 1));
        i += 1;
    }
    assert(words@.take(words@.len() as int) =~= words@);
    copy
}

/// Why a block of words cannot be written as a line of text, if it cannot:
/// one of its bytes has no character.
pub open spec fn spec_line_error(words: Seq<Word>) -> Option<DeviceError> {
    if spec_words_printable(words) {
        None
    } else {
        Some(DeviceError::BadCharCode)
    }
}

/// A device of text after one more line was written.
pub open spec fn spec_after_line(d: IoDeviceView, line: Seq<char>) -> IoDeviceView {
    IoDeviceView { lines: d.lines.push(line), ..d }
}

} // verus!
