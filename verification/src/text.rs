//! Operations on `String` that the standard library has and that verified
//! code cannot call directly. Their contracts are taken on trust from the
//! standard library's documentation.

use vstd::prelude::*;

verus! {

/// `String::from(char)`: the text that holds `c` and nothing else.
#[verifier::external_body]
pub(crate) fn char_to_string(c: char) -> (text: String)
    ensures
        text@ == seq![c],
{
    String::from(c)
}

/// `String::push`: appends `c` to the end of `text`.
#[verifier::external_body]
pub(crate) fn string_push(text: &mut String, c: char)
    ensures
        final(text)@ == old(text)@.push(c),
{
    text.push(c)
}

/// `String::pop`: removes the last character of `text` and returns it;
/// `None` where `text` is empty.
#[verifier::external_body]
pub(crate) fn string_pop(text: &mut String) -> (last: Option<char>)
    ensures
        match last {
            Some(c) => old(text)@.len() > 0 && c == old(text)@.last() && final(text)@ == old(
                text,
            )@.drop_last(),
            None => old(text)@.len() == 0 && final(text)@ == old(text)@,
        },
{
    text.pop()
}

} // verus!
