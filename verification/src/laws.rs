//! Laws of the counts: how each behaves when texts are joined, and how the
//! counts of one text relate.

use vstd::prelude::*;
use vstd::utf8::{encode_scalar, encode_utf8};
use crate::text::{
    byte_count, char_count, has_open_line, line_count, line_feeds, starts_word, utf8_width,
    whitespace, word_count, word_starts,
};

verus! {

/// A character takes between one and four bytes.
proof fn lemma_scalar_width(c: char)
    ensures
        1 <= encode_scalar(c as u32).len() <= 4,
{
}

/// A text takes at least one byte for each character, and at most four.
pub proof fn lemma_byte_count_bounds(text: Seq<char>)
    ensures
        char_count(text) <= byte_count(text) <= 4 * char_count(text),
    decreases text.len(),
{
    if text.len() > 0 {
        lemma_scalar_width(text[0]);
        lemma_byte_count_bounds(text.drop_first());
    }
}

/// The encoding of two texts joined is their encodings joined.
proof fn lemma_encoding_concat(a: Seq<char>, b: Seq<char>)
    ensures
        encode_utf8(a + b) == encode_utf8(a) + encode_utf8(b),
    decreases a.len(),
{
    if a.len() > 0 {
        assert((a + b).drop_first() =~= a.drop_first() + b);
        lemma_encoding_concat(a.drop_first(), b);
    }
}

/// The empty text has no bytes, no characters, no lines and no words.
pub proof fn lemma_empty_counts()
    ensures
        byte_count(Seq::<char>::empty()) == 0,
        char_count(Seq::<char>::empty()) == 0,
        line_count(Seq::<char>::empty()) == 0,
        word_count(Seq::<char>::empty()) == 0,
{
}

/// The bytes of two texts joined are the bytes of both.
pub proof fn lemma_byte_count_concat(a: Seq<char>, b: Seq<char>)
    ensures
        byte_count(a + b) == byte_count(a) + byte_count(b),
{
    lemma_encoding_concat(a, b);
}

/// One more character adds its own width in bytes: one for a character
/// below 0x80, two below 0x800, three below 0x10000 and four from there on.
pub proof fn lemma_byte_count_push(text: Seq<char>, c: char)
    ensures
        byte_count(text.push(c)) == byte_count(text) + utf8_width(c),
{
    let one = seq![c];
    assert(text.push(c) =~= text + one);
    lemma_byte_count_concat(text, one);
    assert(encode_utf8(one.drop_first()).len() == 0);
}

/// A text of characters below 0x80 alone has as many bytes as characters.
pub proof fn lemma_byte_count_ascii(text: Seq<char>)
    requires
        forall|i: int| 0 <= i < text.len() ==> utf8_width(#[trigger] text[i]) == 1,
    ensures
        byte_count(text) == char_count(text),
    decreases text.len(),
{
    if text.len() > 0 {
        let front = text.drop_last();
        assert(text =~= front.push(text.last()));
        lemma_byte_count_push(front, text.last());
        lemma_byte_count_ascii(front);
    }
}

/// A text that holds a character of more than one byte has more bytes than
/// characters.
pub proof fn lemma_byte_count_multibyte(text: Seq<char>, i: int)
    requires
        0 <= i < text.len(),
        utf8_width(text[i]) > 1,
    ensures
        char_count(text) < byte_count(text),
{
    let front = text.take(i);
    let back = text.skip(i + 1);
    assert(text =~= front.push(text[i]) + back);
    lemma_byte_count_concat(front.push(text[i]), back);
    lemma_byte_count_push(front, text[i]);
    lemma_byte_count_bounds(front);
    lemma_byte_count_bounds(back);
}

/// The line feeds of two texts joined, counted up to a position in either.
proof fn lemma_line_feeds_concat(a: Seq<char>, b: Seq<char>, n: int)
    requires
        0 <= n <= a.len() + b.len(),
    ensures
        n <= a.len() ==> line_feeds(a + b, n) == line_feeds(a, n),
        n >= a.len() ==> line_feeds(a + b, n) == line_feeds(a, a.len() as int) + line_feeds(
            b,
            n - a.len(),
        ),
    decreases n,
{
    if n > 0 {
        lemma_line_feeds_concat(a, b, n - 1);
    }
}

/// The lines of two texts joined are the lines of both, less one where the
/// second text goes on with the line that the first left open.
pub proof fn lemma_line_count_concat(a: Seq<char>, b: Seq<char>)
    ensures
        line_count(a + b) == line_count(a) + line_count(b) - if has_open_line(a) && b.len() > 0 {
            1int
        } else {
            0int
        },
{
    lemma_line_feeds_concat(a, b, (a.len() + b.len()) as int);
}

/// One more character begins a line where none is open, and adds none where
/// one is: a line feed closes the open line, any other character goes on
/// with it.
pub proof fn lemma_line_count_push(text: Seq<char>, c: char)
    ensures
        line_count(text.push(c)) == line_count(text) + if has_open_line(text) {
            0int
        } else {
            1int
        },
        has_open_line(text.push(c)) == (c != '\n'),
{
    let one = seq![c];
    assert(text.push(c) =~= text + one);
    lemma_line_count_concat(text, one);
    reveal_with_fuel(line_feeds, 2);
}

/// The lines of a text are its line feeds where it ends in one, and one
/// more where it ends otherwise.
pub proof fn lemma_line_count_feeds(text: Seq<char>)
    requires
        text.len() > 0,
    ensures
        line_count(text) == line_feeds(text, text.len() as int) + if text.last() == '\n' {
            0int
        } else {
            1int
        },
{
}

/// A text without line feeds has none up to any position.
proof fn lemma_line_feeds_none(text: Seq<char>, n: int)
    requires
        0 <= n <= text.len(),
        forall|i: int| 0 <= i < text.len() ==> #[trigger] text[i] != '\n',
    ensures
        line_feeds(text, n) == 0,
    decreases n,
{
    if n > 0 {
        lemma_line_feeds_none(text, n - 1);
    }
}

/// Characters other than line feeds with a line feed behind them are one
/// line: in front of a text they add one line to it.
pub proof fn lemma_line_count_closed_segment(segment: Seq<char>, rest: Seq<char>)
    requires
        forall|i: int| 0 <= i < segment.len() ==> #[trigger] segment[i] != '\n',
    ensures
        line_count(segment.push('\n') + rest) == 1 + line_count(rest),
{
    lemma_line_feeds_none(segment, segment.len() as int);
    lemma_line_count_push(segment, '\n');
    lemma_line_count_concat(segment.push('\n'), rest);
}

/// Characters other than line feeds with nothing behind them are one line,
/// unless there are none.
pub proof fn lemma_line_count_open_segment(segment: Seq<char>)
    requires
        segment.len() > 0,
        forall|i: int| 0 <= i < segment.len() ==> #[trigger] segment[i] != '\n',
    ensures
        line_count(segment) == 1,
{
    lemma_line_feeds_none(segment, segment.len() as int);
}

/// The word starts of two texts joined, counted up to a position in either.
/// At the seam a word of the second text is no new word where the first
/// text ends inside one.
proof fn lemma_word_starts_concat(a: Seq<char>, b: Seq<char>, n: int)
    requires
        0 <= n <= a.len() + b.len(),
    ensures
        n <= a.len() ==> word_starts(a + b, n) == word_starts(a, n),
        n > a.len() ==> word_starts(a + b, n) == word_starts(a, a.len() as int) + word_starts(
            b,
            n - a.len(),
        ) - if joins_word(a, b) {
            1int
        } else {
            0int
        },
    decreases n,
{
    if n > 0 {
        lemma_word_starts_concat(a, b, n - 1);
        let i = n - 1;
        if i < a.len() {
            assert(starts_word(a + b, i) == starts_word(a, i));
        } else if i == a.len() {
            assert(starts_word(a + b, i) == (starts_word(b, 0) && !joins_word(a, b)));
        } else {
            assert(starts_word(a + b, i) == starts_word(b, i - a.len()));
        }
    }
}

/// Whether joining two texts makes one word of the last word of the first
/// and the first word of the second: neither text has whitespace at the seam.
pub open spec fn joins_word(a: Seq<char>, b: Seq<char>) -> bool {
    &&& a.len() > 0
    &&& b.len() > 0
    &&& !whitespace(a.last())
    &&& !whitespace(b.first())
}

/// The words of two texts joined are the words of both, less one where a
/// word runs across the seam.
pub proof fn lemma_word_count_concat(a: Seq<char>, b: Seq<char>)
    ensures
        word_count(a + b) == word_count(a) + word_count(b) - if joins_word(a, b) {
            1int
        } else {
            0int
        },
{
    lemma_word_starts_concat(a, b, (a.len() + b.len()) as int);
}

/// One more character begins a word where it is no whitespace and follows
/// the start of the text or whitespace, and changes nothing otherwise.
pub proof fn lemma_word_count_push(text: Seq<char>, c: char)
    ensures
        word_count(text.push(c)) == word_count(text) + if !whitespace(c) && (text.len() == 0
            || whitespace(text.last())) {
            1int
        } else {
            0int
        },
{
    let one = seq![c];
    assert(text.push(c) =~= text + one);
    lemma_word_count_concat(text, one);
    reveal_with_fuel(word_starts, 2);
}

/// Words on both sides of a whitespace character add up: the words of
/// `a`, the separator and `b` in a row are those of `a` and those of `b`.
pub proof fn lemma_word_count_split(a: Seq<char>, separator: char, b: Seq<char>)
    requires
        whitespace(separator),
    ensures
        word_count(a.push(separator) + b) == word_count(a) + word_count(b),
{
    lemma_word_count_push(a, separator);
    lemma_word_count_concat(a.push(separator), b);
}

/// Which whitespace character separates two texts makes no difference to
/// the words.
pub proof fn lemma_word_count_separator(a: Seq<char>, first: char, second: char, b: Seq<char>)
    requires
        whitespace(first),
        whitespace(second),
    ensures
        word_count(a.push(first) + b) == word_count(a.push(second) + b),
{
    lemma_word_count_split(a, first, b);
    lemma_word_count_split(a, second, b);
}

/// A space and a line feed separate words alike: with either one between
/// two texts, the words are those of the first text and those of the
/// second. A word next to a line feed is neither counted twice nor lost.
pub proof fn lemma_word_count_space_or_line_feed(a: Seq<char>, b: Seq<char>)
    ensures
        word_count(a.push(' ') + b) == word_count(a) + word_count(b),
        word_count(a.push('\n') + b) == word_count(a) + word_count(b),
        word_count(a.push(' ') + b) == word_count(a.push('\n') + b),
{
    lemma_word_count_split(a, ' ', b);
    lemma_word_count_split(a, '\n', b);
}

/// The words of a text depend on nothing but which of its characters are
/// whitespace.
pub proof fn lemma_word_count_pattern(a: Seq<char>, b: Seq<char>)
    requires
        a.len() == b.len(),
        forall|i: int| 0 <= i < a.len() ==> whitespace(#[trigger] a[i]) == whitespace(b[i]),
    ensures
        word_count(a) == word_count(b),
{
    lemma_word_starts_pattern(a, b, a.len() as int);
}

proof fn lemma_word_starts_pattern(a: Seq<char>, b: Seq<char>, n: int)
    requires
        a.len() == b.len(),
        0 <= n <= a.len(),
        forall|i: int| 0 <= i < a.len() ==> whitespace(#[trigger] a[i]) == whitespace(b[i]),
    ensures
        word_starts(a, n) == word_starts(b, n),
    decreases n,
{
    if n > 0 {
        lemma_word_starts_pattern(a, b, n - 1);
    }
}

/// A text of whitespace alone has no words.
pub proof fn lemma_word_count_blank(text: Seq<char>)
    requires
        forall|i: int| 0 <= i < text.len() ==> whitespace(#[trigger] text[i]),
    ensures
        word_count(text) == 0,
{
    lemma_word_starts_blank(text, text.len() as int);
}

proof fn lemma_word_starts_blank(text: Seq<char>, n: int)
    requires
        0 <= n <= text.len(),
        forall|i: int| 0 <= i < text.len() ==> whitespace(#[trigger] text[i]),
    ensures
        word_starts(text, n) == 0,
    decreases n,
{
    if n > 0 {
        lemma_word_starts_blank(text, n - 1);
    }
}

/// A text without whitespace is one word, unless it is empty.
pub proof fn lemma_word_count_solid(text: Seq<char>)
    requires
        text.len() > 0,
        forall|i: int| 0 <= i < text.len() ==> !whitespace(#[trigger] text[i]),
    ensures
        word_count(text) == 1,
{
    lemma_word_starts_solid(text, text.len() as int);
}

proof fn lemma_word_starts_solid(text: Seq<char>, n: int)
    requires
        1 <= n <= text.len(),
        forall|i: int| 0 <= i < text.len() ==> !whitespace(#[trigger] text[i]),
    ensures
        word_starts(text, n) == 1,
    decreases n,
{
    if n > 1 {
        lemma_word_starts_solid(text, n - 1);
    } else {
        reveal_with_fuel(word_starts, 2);
    }
}

/// Among `n` characters at most `n` words begin.
pub proof fn lemma_word_starts_bound(text: Seq<char>, n: int)
    requires
        0 <= n,
    ensures
        word_starts(text, n) <= n,
    decreases n,
{
    if n > 0 {
        lemma_word_starts_bound(text, n - 1);
    }
}

/// A run of characters other than whitespace that neither side goes on
/// with is one word: the text around it has the words before it, this one,
/// and the words after it.
pub proof fn lemma_word_count_run(before: Seq<char>, run: Seq<char>, after: Seq<char>)
    requires
        run.len() > 0,
        forall|i: int| 0 <= i < run.len() ==> !whitespace(#[trigger] run[i]),
        before.len() == 0 || whitespace(before.last()),
        after.len() == 0 || whitespace(after.first()),
    ensures
        word_count(before + run + after) == word_count(before) + 1 + word_count(after),
{
    lemma_word_count_solid(run);
    lemma_word_count_concat(before, run);
    lemma_word_count_concat(before + run, after);
}

/// No count exceeds the bytes of the text, so each fits where the length of
/// the text in bytes does.
pub proof fn lemma_counts_within_bytes(text: Seq<char>)
    ensures
        char_count(text) <= byte_count(text),
        line_count(text) <= char_count(text),
        word_count(text) <= char_count(text),
{
    lemma_byte_count_bounds(text);
    lemma_line_count_bound(text, text.len() as int);
    lemma_word_starts_bound(text, text.len() as int);
}

proof fn lemma_line_count_bound(text: Seq<char>, n: int)
    requires
        0 <= n <= text.len(),
    ensures
        line_feeds(text, n) + (if n > 0 && text[n - 1] != '\n' {
            1int
        } else {
            0int
        }) <= n,
    decreases n,
{
    if n > 0 {
        lemma_line_count_bound(text, n - 1);
    }
}

} // verus!
