//! Turning what a word source answered into the secret of a round.

use vstd::prelude::*;
use vstd::string::*;

verus! {

/// The lower-case equivalent of a text, as the standard library computes
/// it from the Unicode character tables.
pub uninterp spec fn lowercase_text(text: Seq<char>) -> Seq<char>;

/// Lower-cases a string slice.
///
/// Trusted: calls `str::to_lowercase` of the standard library. The mapping
/// follows the Unicode tables and is too long to spell out, so the contract
/// only gives it a name: the result is a function of the text alone.
#[verifier::external_body]
pub(crate) fn to_lowercase(text: &str) -> (lower: String)
    ensures
        lower@ == lowercase_text(text@),
{
    text.to_lowercase()
}

/// The secret that a word source's answer yields: its first word, in lower
/// case. An empty answer yields none.
pub fn first_word(words: &Vec<String>) -> (word: Option<String>)
    ensures
        words@.len() == 0 ==> word is None,
        words@.len() > 0 ==> word is Some && word->0@ == lowercase_text(words@[0]@),
{
    if words.len() == 0 {
        None
    } else {
        Some(to_lowercase(words[0].as_str()))
    }
}

} // verus!
