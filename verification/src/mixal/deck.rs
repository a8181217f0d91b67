//! The deck: an assembled program as punched cards, the loader first.

use std::collections::HashMap;
use vstd::prelude::*;

use crate::mix::char_codes::{get_char, spec_char_of};
use crate::mix::text::{chars_of, padded_digits, spec_padded_digits, string_from_chars};
use crate::mix::word::{Sign, Word};
use crate::operations::arithmetic::multiplication::magnitude;

use super::assembler::spec_emitted_wf;

verus! {

/// The first card of the loader.
pub open spec fn spec_loader_first() -> Seq<char> {
    " O O6 2 O6    I C O4 3 EH A  F F CF    E   EU 3 IH Z EB   EJ  CA. 2 EU   EH 0 EA"@
}

/// The second card of the loader.
pub open spec fn spec_loader_second() -> Seq<char> {
    "   EU 5A-H Z EB  C U 4AEH 5AEN    E  CLU  ABG 2 EH 0 EB J B. A  9    0    A"@
}

/// The groups after one more location: it joins the last group where it
/// follows the last location of that group and the group has fewer than
/// seven; otherwise it starts a group of its own.
pub open spec fn spec_add_location(groups: Seq<Seq<usize>>, location: usize) -> Seq<Seq<usize>> {
    if groups.len() > 0 && 0 < groups.last().len() < 7 && groups.last().last() + 1 == location {
        groups.drop_last().push(groups.last().push(location))
    } else {
        groups.push(seq![location])
    }
}

/// The groups of the first `upto` locations: runs of up to seven locations
/// that follow one another.
pub open spec fn spec_groups(locations: Seq<usize>, upto: int) -> Seq<Seq<usize>>
    decreases upto,
{
    if upto <= 0 {
        Seq::empty()
    } else {
        spec_add_location(spec_groups(locations, upto - 1), locations[upto - 1])
    }
}

/// The views of a list of groups.
pub open spec fn spec_group_views(groups: Seq<Vec<usize>>) -> Seq<Seq<usize>> {
    Seq::new(groups.len(), |i: int| groups[i]@)
}

/// Those of the first `upto` locations of memory at which a word stands, in
/// rising order.
pub open spec fn spec_locations(words: Map<usize, Word>, upto: int) -> Seq<usize>
    decreases upto,
{
    if upto <= 0 {
        Seq::empty()
    } else if words.contains_key((upto - 1) as usize) {
        spec_locations(words, upto - 1).push((upto - 1) as usize)
    } else {
        spec_locations(words, upto - 1)
    }
}

/// The ten characters of a word on a card: the ten decimal digits of its
/// magnitude under a positive sign; under a negative sign the first nine of
/// them and, for the last digit d, the character with the code d + 10.
pub open spec fn spec_word_text(word: Word) -> Seq<char> {
    if word.sign == Sign::Positive {
        spec_padded_digits(word.magnitude(), 10)
    } else {
        spec_padded_digits(word.magnitude() / 10, 9).push(
            spec_char_of((word.magnitude() % 10 + 10) as u8).unwrap(),
        )
    }
}

/// The texts of the words at the first `upto` locations of a group, one
/// behind the other.
pub open spec fn spec_words_text(words: Map<usize, Word>, group: Seq<usize>, upto: int) -> Seq<char>
    decreases upto,
{
    if upto <= 0 {
        Seq::empty()
    } else {
        spec_words_text(words, group, upto - 1) + spec_word_text(words[group[upto - 1]])
    }
}

/// The card of a group: `SHAKE`, the number of its words in one digit, its
/// first location in four digits, and its words.
pub open spec fn spec_card(words: Map<usize, Word>, group: Seq<usize>) -> Seq<char> {
    "SHAKE"@ + spec_padded_digits(group.len(), 1) + spec_padded_digits(group[0] as nat, 4)
        + spec_words_text(words, group, group.len() as int)
}

/// The last card: `TRANS0` and the start of the program in four digits.
pub open spec fn spec_transfer_card(program_start: usize) -> Seq<char> {
    "TRANS0"@ + spec_padded_digits(program_start as nat, 4)
}

/// The cards of the first `upto` groups.
pub open spec fn spec_cards(words: Map<usize, Word>, groups: Seq<Seq<usize>>, upto: int) -> Seq<
    Seq<char>,
>
    decreases upto,
{
    if upto <= 0 {
        Seq::empty()
    } else {
        spec_cards(words, groups, upto - 1).push(spec_card(words, groups[upto - 1]))
    }
}

/// The deck of a program: the two cards of the loader, a card for each
/// group of words, and the transfer card.
pub open spec fn spec_deck(words: Map<usize, Word>, program_start: usize) -> Seq<Seq<char>> {
    let groups = spec_groups(spec_locations(words, 4000), spec_locations(words, 4000).len() as int);
    seq![spec_loader_first(), spec_loader_second()] + spec_cards(
        words,
        groups,
        groups.len() as int,
    ) + seq![spec_transfer_card(program_start)]
}

/// The views of a list of lines.
pub open spec fn spec_line_views(lines: Seq<String>) -> Seq<Seq<char>> {
    Seq::new(lines.len(), |i: int| lines[i]@)
}

/// The two cards of the loader, as one text of two lines.
pub fn loader() -> (text: &'static str)
    ensures
        text@ == spec_loader_first() + seq!['\n'] + spec_loader_second(),
{
    proof {
        reveal_strlit(
            " O O6 2 O6    I C O4 3 EH A  F F CF    E   EU 3 IH Z EB   EJ  CA. 2 EU   EH 0 EA\n   EU 5A-H Z EB  C U 4AEH 5AEN    E  CLU  ABG 2 EH 0 EB J B. A  9    0    A",
        );
        reveal_strlit(
            " O O6 2 O6    I C O4 3 EH A  F F CF    E   EU 3 IH Z EB   EJ  CA. 2 EU   EH 0 EA",
        );
        reveal_strlit(
            "   EU 5A-H Z EB  C U 4AEH 5AEN    E  CLU  ABG 2 EH 0 EB J B. A  9    0    A",
        );
    }
    let text =
        " O O6 2 O6    I C O4 3 EH A  F F CF    E   EU 3 IH Z EB   EJ  CA. 2 EU   EH 0 EA\n   EU 5A-H Z EB  C U 4AEH 5AEN    E  CLU  ABG 2 EH 0 EB J B. A  9    0    A";
    assert(text@ =~= spec_loader_first() + seq!['\n'] + spec_loader_second());
    text
}

/// Those locations of memory at which a word stands, in rising order.
pub fn locations(words: &HashMap<usize, Word>) -> (found: Vec<usize>)
    ensures
        found@ == spec_locations(words@, 4000),
        forall|i: int| 0 <= i < found@.len() ==> words@.contains_key(#[trigger] found@[i]),
{
    broadcast use vstd::std_specs::hash::group_hash_axioms;

    let mut found: Vec<usize> = Vec::new();
    let mut location: usize = 0;
    while location < 4000
        invariant
            location <= 4000,
            found@ == spec_locations(words@, location as int),
            forall|i: int| 0 <= i < found@.len() ==> words@.contains_key(#[trigger] found@[i]),
        decreases 4000 - location,
    {
        if words.contains_key(&location) {
            found.push(location);
        }
        location += 1;
    }
    found
}

/// The groups of a list of locations: runs of up to seven locations that
/// follow one another.
pub fn make_groups(locations: &Vec<usize>) -> (groups: Vec<Vec<usize>>)
    ensures
        spec_group_views(groups@) == spec_groups(locations@, locations@.len() as int),
        forall|i: int| 0 <= i < groups@.len() ==> 0 < (#[trigger] groups@[i])@.len() <= 7,
        forall|i: int, k: int|
            0 <= i < groups@.len() && 0 <= k < groups@[i]@.len() ==> locations@.contains(
                #[trigger] groups@[i]@[k],
            ),
{
    let mut groups: Vec<Vec<usize>> = Vec::new();
    let mut i: usize = 0;
    while i < locations.len()
        invariant
            i <= locations@.len(),
            spec_group_views(groups@) == spec_groups(locations@, i as int),
            forall|j: int| 0 <= j < groups@.len() ==> 0 < (#[trigger] groups@[j])@.len() <= 7,
            forall|j: int, k: int|
                0 <= j < groups@.len() && 0 <= k < groups@[j]@.len() ==> locations@.contains(
                    #[trigger] groups@[j]@[k],
                ),
        decreases locations@.len() - i,
    {
        let location = locations[i];
        assert(locations@.contains(location));
        let ghost before = spec_group_views(groups@);
        let joins = if groups.len() > 0 {
            let last = &groups[groups.len() - 1];
            assert(before.last() == last@);
            last.len() < 7 && last[last.len() - 1] < usize::MAX && last[last.len() - 1] + 1
                == location
        } else {
            false
        };
        if joins {
            let mut last = groups.pop().unwrap();
            let ghost rest = spec_group_views(groups@);
            assert(rest =~= before.drop_last());
            let ghost old_last = last@;
            last.push(location);
            groups.push(last);
            assert(spec_group_views(groups@) =~= rest.push(old_last.push(location)));
        } else {
            let mut group: Vec<usize> = Vec::new();
            group.push(location);
            assert(group@ =~= seq![location]);
            groups.push(group);
            assert(spec_group_views(groups@) =~= before.push(seq![location]));
        }
        i += 1;
    }
    groups
}

/// The ten characters of a word on a card.
pub fn word_text(word: &Word) -> (text: Vec<char>)
    requires
        word.wf(),
    ensures
        text@ == spec_word_text(*word),
{
    let m = magnitude(word);
    if word.sign == Sign::Positive {
        padded_digits(m, 10)
    } else {
        let mut text = padded_digits(m / 10, 9);
        let code = (m % 10 + 10) as u8;
        match get_char(&code) {
            Some(ch) => {
                text.push(ch);
            },
            None => {},
        }
        text
    }
}

/// The card of a group of words.
pub fn card(words: &HashMap<usize, Word>, group: &Vec<usize>) -> (text: String)
    requires
        spec_emitted_wf(words@),
        0 < group@.len() <= 7,
        forall|k: int| 0 <= k < group@.len() ==> words@.contains_key(#[trigger] group@[k]),
    ensures
        text@ == spec_card(words@, group@),
{
    broadcast use vstd::std_specs::hash::group_hash_axioms;

    let mut chars = chars_of("SHAKE");
    let mut count = padded_digits(group.len() as u64, 1);
    let mut start = padded_digits(group[0] as u64, 4);
    chars.append(&mut count);
    chars.append(&mut start);
    let ghost head = chars@;
    let mut i: usize = 0;
    while i < group.len()
        invariant
            i <= group@.len(),
            spec_emitted_wf(words@),
            forall|k: int| 0 <= k < group@.len() ==> words@.contains_key(#[trigger] group@[k]),
            chars@ == head + spec_words_text(words@, group@, i as int),
        decreases group@.len() - i,
    {
        assert(words@.contains_key(group@[i as int]));
        let word = match words.get(&group[i]) {
            Some(word) => *word,
            None => Word::zero(),
        };
        let mut text = word_text(&word);
        let ghost before = chars@;
        let ghost added = text@;
        chars.append(&mut text);
        assert(head + spec_words_text(words@, group@, i as int) + added =~= head + (spec_words_text(
            words@,
            group@,
            i as int,
        ) + added));
        i += 1;
    }
    string_from_chars(&chars)
}

/// The transfer card.
pub fn transfer_card(program_start: usize) -> (text: String)
    ensures
        text@ == spec_transfer_card(program_start),
{
    let mut chars = chars_of("TRANS0");
    let mut start = padded_digits(program_start as u64, 4);
    chars.append(&mut start);
    string_from_chars(&chars)
}

/// The deck of a program, card by card.
pub fn encode_deck(words: &HashMap<usize, Word>, program_start: usize) -> (deck: Vec<String>)
    requires
        spec_emitted_wf(words@),
    ensures
        spec_line_views(deck@) == spec_deck(words@, program_start),
{
    let found = locations(words);
    let groups = make_groups(&found);
    let mut deck: Vec<String> = Vec::new();
    deck.push(
        String::from_str(
            " O O6 2 O6    I C O4 3 EH A  F F CF    E   EU 3 IH Z EB   EJ  CA. 2 EU   EH 0 EA",
        ),
    );
    deck.push(
        String::from_str(
            "   EU 5A-H Z EB  C U 4AEH 5AEN    E  CLU  ABG 2 EH 0 EB J B. A  9    0    A",
        ),
    );
    let ghost loader_cards = seq![spec_loader_first(), spec_loader_second()];
    assert(spec_line_views(deck@) =~= loader_cards);
    let ghost views = spec_group_views(groups@);
    let mut i: usize = 0;
    while i < groups.len()
        invariant
            i <= groups@.len(),
            spec_emitted_wf(words@),
            views == spec_group_views(groups@),
            forall|j: int| 0 <= j < groups@.len() ==> 0 < (#[trigger] groups@[j])@.len() <= 7,
            forall|j: int, k: int|
                0 <= j < groups@.len() && 0 <= k < groups@[j]@.len() ==> found@.contains(
                    #[trigger] groups@[j]@[k],
                ),
            forall|j: int| 0 <= j < found@.len() ==> words@.contains_key(#[trigger] found@[j]),
            spec_line_views(deck@) == loader_cards + spec_cards(words@, views, i as int),
        decreases groups@.len() - i,
    {
        let group = &groups[i];
        assert(views[i as int] == group@);
        assert forall|k: int| 0 <= k < group@.len() implies words@.contains_key(
            #[trigger] group@[k],
        ) by {
            assert(found@.contains(groups@[i as int]@[k]));
        }
        let text = card(words, group);
        let ghost before = spec_line_views(deck@);
        let ghost line = text@;
        deck.push(text);
        assert(spec_line_views(deck@) =~= before.push(line));
        assert(loader_cards + spec_cards(words@, views, i as int).push(line) =~= (loader_cards
            + spec_cards(words@, views, i as int)).push(line));
        i += 1;
    }
    let last = transfer_card(program_start);
    let ghost before = spec_line_views(deck@);
    let ghost line = last@;
    deck.push(last);
    assert(spec_line_views(deck@) =~= before + seq![line]);
    deck
}

} // verus!
