//! The command line: a few words, separated by white space.
//!
//! `w` saves the drawing, `w` and a path saves it there, `q` quits. Any
//! other line does nothing.

use vstd::prelude::*;

use super::action::Action;
use super::action::ActionView;

verus! {

/// Whether `c` separates words: a blank, a tab, a line feed, a form feed
/// or a carriage return.
pub open spec fn is_space(c: char) -> bool {
    c == ' ' || c == '\t' || c == '\n' || c == '\x0C' || c == '\r'
}

/// The length of the word that `text` starts with: the characters before
/// the first separator.
pub open spec fn word_len(text: Seq<char>) -> int
    decreases text.len(),
{
    if text.len() == 0 || is_space(text[0]) {
        0
    } else {
        1 + word_len(text.drop_first())
    }
}

/// The words of `text`: its longest stretches without a separator, in
/// order.
pub open spec fn words(text: Seq<char>) -> Seq<Seq<char>>
    decreases text.len(),
    via words_decreases
{
    if text.len() == 0 {
        Seq::empty()
    } else if is_space(text[0]) {
        words(text.drop_first())
    } else {
        seq![text.take(word_len(text))] + words(text.skip(word_len(text)))
    }
}

#[via_fn]
proof fn words_decreases(text: Seq<char>) {
    if text.len() > 0 && !is_space(text[0]) {
        lemma_word_len_bounds(text);
    }
}

/// A word is no longer than the text that it starts, and not empty where
/// the text starts with a character of a word.
pub proof fn lemma_word_len_bounds(text: Seq<char>)
    ensures
        0 <= word_len(text) <= text.len(),
        text.len() > 0 && !is_space(text[0]) ==> word_len(text) > 0,
    decreases text.len(),
{
    if text.len() > 0 && !is_space(text[0]) {
        lemma_word_len_bounds(text.drop_first());
    }
}

/// The word that `text` starts with ends at `end`, where no separator
/// stands before `end` and `end` is at a separator or at the end of the
/// text.
pub proof fn lemma_word_ends(text: Seq<char>, end: int)
    requires
        0 <= end <= text.len(),
        forall|k: int| 0 <= k < end ==> !is_space(#[trigger] text[k]),
        end == text.len() || is_space(text[end]),
    ensures
        word_len(text) == end,
    decreases end,
{
    if end > 0 {
        let rest = text.drop_first();
        assert forall|k: int| 0 <= k < end - 1 implies !is_space(#[trigger] rest[k]) by {
            assert(rest[k] == text[k + 1]);
        }
        lemma_word_ends(rest, end - 1);
    }
}

/// What a command line asks for: to save, to save to a path, or to quit;
/// `None` for any other line.
pub open spec fn parsed_command(text: Seq<char>) -> Option<ActionView> {
    let found = words(text);
    if found.len() == 1 && found[0] == seq!['w'] {
        Some(ActionView::Save(None))
    } else if found.len() == 2 && found[0] == seq!['w'] {
        Some(ActionView::Save(Some(found[1])))
    } else if found.len() == 1 && found[0] == seq!['q'] {
        Some(ActionView::Quit)
    } else {
        None
    }
}

fn is_space_char(c: char) -> (space: bool)
    ensures
        space == is_space(c),
{
    c == ' ' || c == '\t' || c == '\n' || c == '\x0C' || c == '\r'
}

/// The texts that `found` holds.
pub open spec fn texts(found: Seq<String>) -> Seq<Seq<char>> {
    Seq::new(found.len(), |k: int| found[k]@)
}

/// The words of `text`.
pub fn split_words(text: &str) -> (found: Vec<String>)
    ensures
        texts(found@) == words(text@),
{
    let len = text.unicode_len();
    let mut found: Vec<String> = Vec::new();
    let mut i: usize = 0;
    proof {
        assert(text@.skip(0) =~= text@);
        assert(texts(found@) =~= Seq::<Seq<char>>::empty());
    }
    while i < len
        invariant
            i <= len,
            len == text@.len(),
            words(text@) == texts(found@) + words(text@.skip(i as int)),
        decreases len - i,
    {
        let ghost rest = text@.skip(i as int);
        if is_space_char(text.get_char(i)) {
            proof {
                assert(rest.drop_first() =~= text@.skip(i + 1));
            }
            i += 1;
        } else {
            let mut end: usize = i;
            let mut more = true;
            while more
                invariant
                    i <= end <= len,
                    len == text@.len(),
                    forall|k: int| i <= k < end ==> !is_space(#[trigger] text@[k]),
                    !more ==> end == len || is_space(text@[end as int]),
                    more ==> end < len,
                    i < len,
                    !is_space(text@[i as int]),
                decreases (len - end) + (if more { 1int } else { 0int }),
            {
                if is_space_char(text.get_char(end)) {
                    more = false;
                } else {
                    end += 1;
                    if end == len {
                        more = false;
                    }
                }
            }
            proof {
                assert forall|k: int| 0 <= k < end - i implies !is_space(#[trigger] rest[k]) by {
                    assert(rest[k] == text@[i + k]);
                }
                lemma_word_ends(rest, end - i);
                assert(rest.take(end - i) =~= text@.subrange(i as int, end as int));
                assert(rest.skip(end - i) =~= text@.skip(end as int));
            }
            let word = text.substring_char(i, end).to_owned();
            let ghost before = texts(found@);
            found.push(word);
            proof {
                assert(texts(found@) =~= before + seq![rest.take(end - i)]);
            }
            i = end;
        }
    }
    proof {
        assert(text@.skip(len as int) =~= Seq::<char>::empty());
    }
    found
}

fn is_letter(word: &str, letter: char) -> (same: bool)
    ensures
        same == (word@ == seq![letter]),
{
    if word.unicode_len() == 1 {
        let same = word.get_char(0) == letter;
        proof {
            if same {
                assert(word@ =~= seq![letter]);
            }
        }
        same
    } else {
        false
    }
}

/// Reads a command line; `None` where it asks for nothing that the
/// editor knows.
pub fn run_command(command: &str) -> (action: Option<Action>)
    ensures
        match action {
            Some(action) => parsed_command(command@) == Some(action@),
            None => parsed_command(command@) is None,
        },
{
    let mut found = split_words(command);
    let count = found.len();
    proof {
        assert(count == words(command@).len());
        if count >= 1 {
            assert(texts(found@)[0] == found@[0]@);
        }
        if count >= 2 {
            assert(texts(found@)[1] == found@[1]@);
        }
    }
    if count == 1 {
        if is_letter(found[0].as_str(), 'w') {
            Some(Action::Save(None))
        } else if is_letter(found[0].as_str(), 'q') {
            Some(Action::Quit)
        } else {
            None
        }
    } else if count == 2 {
        if is_letter(found[0].as_str(), 'w') {
            match found.pop() {
                Some(path) => Some(Action::Save(Some(path))),
                None => None,
            }
        } else {
            None
        }
    } else {
        None
    }
}

} // verus!
