//! Telling words apart: the standard library's test for whitespace, and the
//! step of a word scan that takes its answer.

use vstd::prelude::*;
use crate::text::whitespace;

verus! {

/// `char::is_whitespace` of the standard library, which its documentation
/// gives as the test for the `White_Space` property of Unicode. Taken on
/// trust: its answer for a character is `whitespace` of that character, the
/// property written out as its eleven ranges of code points.
pub assume_specification[ char::is_whitespace ](c: char) -> (answer: bool)
    ensures
        answer == whitespace(c),
;

/// A word scan in progress: the words begun so far, and whether the last
/// character read belongs to one.
pub struct WordScan {
    pub words: usize,
    pub in_word: bool,
}

impl WordScan {
    /// The scan before any character.
    pub fn new() -> (scan: WordScan)
        ensures
            scan.words == 0,
            !scan.in_word,
    {
        WordScan { words: 0, in_word: false }
    }

    /// Reads one more character, given as whether it is whitespace. A word
    /// begins where a character that is none follows the start of the text
    /// or whitespace.
    pub fn step(self, blank: bool) -> (next: WordScan)
        requires
            self.words < usize::MAX,
        ensures
            next.in_word == !blank,
            next.words == self.words + if !blank && !self.in_word {
                1int
            } else {
                0int
            },
    {
        if blank {
            WordScan { words: self.words, in_word: false }
        } else if self.in_word {
            self
        } else {
            WordScan { words: self.words + 1, in_word: true }
        }
    }
}

} // verus!
