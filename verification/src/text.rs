//! What each count of a text is, over the text as a sequence of characters.

use vstd::prelude::*;
use vstd::utf8::encode_utf8;

verus! {

/// Whether a character is whitespace: whether it has the `White_Space`
/// property of Unicode. These are the tab, the line feed, the vertical tab,
/// the form feed and the carriage return (U+0009 to U+000D), the space
/// (U+0020), the next line (U+0085), the no-break space (U+00A0), the ogham
/// space mark (U+1680), the spaces of fixed width (U+2000 to U+200A), the
/// line and the paragraph separator (U+2028, U+2029), the narrow no-break
/// space (U+202F), the medium mathematical space (U+205F) and the
/// ideographic space (U+3000).
pub open spec fn whitespace(c: char) -> bool {
    let code = c as u32;
    ||| 0x0009 <= code <= 0x000D
    ||| code == 0x0020
    ||| code == 0x0085
    ||| code == 0x00A0
    ||| code == 0x1680
    ||| 0x2000 <= code <= 0x200A
    ||| code == 0x2028
    ||| code == 0x2029
    ||| code == 0x202F
    ||| code == 0x205F
    ||| code == 0x3000
}

/// The number of bytes that hold a text in UTF-8.
pub open spec fn byte_count(text: Seq<char>) -> nat {
    encode_utf8(text).len()
}

/// The number of bytes that hold one character in UTF-8.
pub open spec fn utf8_width(c: char) -> nat {
    if (c as u32) < 0x80 {
        1
    } else if (c as u32) < 0x800 {
        2
    } else if (c as u32) < 0x10000 {
        3
    } else {
        4
    }
}

/// The number of characters of a text.
pub open spec fn char_count(text: Seq<char>) -> nat {
    text.len()
}

/// The number of line feeds among the first `n` characters of a text.
pub open spec fn line_feeds(text: Seq<char>, n: int) -> nat
    decreases n,
{
    if n <= 0 {
        0
    } else {
        line_feeds(text, n - 1) + if text[n - 1] == '\n' {
            1nat
        } else {
            0nat
        }
    }
}

/// Whether a text ends in characters that no line feed closes.
pub open spec fn has_open_line(text: Seq<char>) -> bool {
    text.len() > 0 && text.last() != '\n'
}

/// The number of lines of a text: one for each line feed, and one more for
/// what follows the last line feed, if anything does.
pub open spec fn line_count(text: Seq<char>) -> nat {
    line_feeds(text, text.len() as int) + if has_open_line(text) {
        1nat
    } else {
        0nat
    }
}

/// Whether a word begins at position `i` of a text: the character there is
/// no whitespace, and it is the first one or follows whitespace.
pub open spec fn starts_word(text: Seq<char>, i: int) -> bool {
    &&& 0 <= i < text.len()
    &&& !whitespace(text[i])
    &&& (i == 0 || whitespace(text[i - 1]))
}

/// The number of words that begin among the first `n` characters of a text.
pub open spec fn word_starts(text: Seq<char>, n: int) -> nat
    decreases n,
{
    if n <= 0 {
        0
    } else {
        word_starts(text, n - 1) + if starts_word(text, n - 1) {
            1nat
        } else {
            0nat
        }
    }
}

/// The number of words of a text, a word being a run of characters other
/// than whitespace that no such character precedes or follows.
pub open spec fn word_count(text: Seq<char>) -> nat {
    word_starts(text, text.len() as int)
}

} // verus!
