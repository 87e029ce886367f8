//! The counter: a request bound to the scans that answer it.

use std::sync::Arc;
use vstd::prelude::*;
use vstd::std_specs::convert::FromSpecImpl;
use vstd::std_specs::iter::IteratorSpec;
use crate::config::{Config, CountType, Request};
use crate::report::{all_line, render_all, render_single, single_line};
use crate::scan::WordScan;
use crate::laws::{lemma_byte_count_bounds, lemma_word_starts_bound};
use crate::text::{
    byte_count, char_count, line_count, line_feeds, whitespace, word_count, word_starts,
};

verus! {

/// `std::io::Error`, the failure of a read. The library hands such a value
/// on and never looks inside it.
#[verifier::external_type_specification]
#[verifier::external_body]
pub struct ExIoError(std::io::Error);

/// The label under which a request's counts are reported: the file's path,
/// or nothing for standard input.
pub open spec fn label_of(request: Request) -> Seq<char> {
    match request.file_path {
        Some(path) => path,
        None => Seq::empty(),
    }
}

/// The line that answers a request on a text.
pub open spec fn report_line(request: Request, text: Seq<char>) -> Seq<char> {
    let label = label_of(request);
    match request.count_type {
        CountType::AllCount => all_line(
            byte_count(text),
            line_count(text),
            word_count(text),
            label,
        ),
        CountType::ByteCount => single_line(byte_count(text), label),
        CountType::LineCount => single_line(line_count(text), label),
        CountType::WordCount => single_line(word_count(text), label),
        CountType::CharCount => single_line(char_count(text), label),
    }
}

/// What three scans give together: the first failure in the order bytes,
/// lines, words, or all three counts in this order.
pub open spec fn joined<E>(
    bytes: Result<usize, E>,
    lines: Result<usize, E>,
    words: Result<usize, E>,
) -> Result<(usize, usize, usize), E> {
    match (bytes, lines, words) {
        (Err(error), _, _) => Err(error),
        (Ok(_), Err(error), _) => Err(error),
        (Ok(_), Ok(_), Err(error)) => Err(error),
        (Ok(b), Ok(l), Ok(w)) => Ok((b, l, w)),
    }
}

/// A counting request ready to be answered.
pub struct Counter {
    count_type: CountType,
    file_path: Option<String>,
}

impl View for Counter {
    type V = Request;

    closed spec fn view(&self) -> Request {
        Request {
            count_type: self.count_type,
            file_path: match self.file_path {
                Some(path) => Some(path@),
                None => None,
            },
        }
    }
}

impl Counter {
    /// Answers the request on an input that was read, or failed to be. A
    /// failed read is handed back as it is; a text gives its report line.
    pub fn count(self, input: Result<String, std::io::Error>) -> (result: Result<
        String,
        std::io::Error,
    >)
        ensures
            match input {
                Ok(text) => result matches Ok(line) && line@ == report_line(self@, text@),
                Err(error) => result matches Err(failure) && failure == error,
            },
    {
        match self.count_type {
            CountType::AllCount => {
                let counts = self.count_all(input)?;
                Ok(render_all(counts, self.label()))
            },
            CountType::ByteCount => {
                let count = self.count_bytes(input)?;
                Ok(render_single(count, self.label()))
            },
            CountType::LineCount => {
                let count = self.count_lines(input)?;
                Ok(render_single(count, self.label()))
            },
            CountType::WordCount => {
                let count = self.count_words(input)?;
                Ok(render_single(count, self.label()))
            },
            CountType::CharCount => {
                let count = self.count_chars(input)?;
                Ok(render_single(count, self.label()))
            },
        }
    }

    /// The label of this counter's reports.
    pub fn label(&self) -> (label: &str)
        ensures
            label@ == label_of(self@),
    {
        match &self.file_path {
            Some(path) => path.as_str(),
            None => {
                proof {
                    reveal_strlit("");
                }
                ""
            },
        }
    }

    /// Bytes, lines and words of an input that was read, or its failure.
    pub fn count_all(&self, input: Result<String, std::io::Error>) -> (result: Result<
        (usize, usize, usize),
        std::io::Error,
    >)
        ensures
            match input {
                Ok(text) => result matches Ok(counts) && counts.0 == byte_count(text@) && counts.1
                    == line_count(text@) && counts.2 == word_count(text@),
                Err(error) => result matches Err(failure) && failure == error,
            },
    {
        let input_data = Arc::new(input?);
        Self::count_all_from_input(input_data)
    }

    /// The bytes of an input that was read, or its failure.
    pub fn count_bytes(&self, input: Result<String, std::io::Error>) -> (result: Result<
        usize,
        std::io::Error,
    >)
        ensures
            match input {
                Ok(text) => result matches Ok(count) && count == byte_count(text@),
                Err(error) => result matches Err(failure) && failure == error,
            },
    {
        let input_data = input?;
        Self::count_bytes_from_reader(input_data.as_str())
    }

    /// The lines of an input that was read, or its failure.
    pub fn count_lines(&self, input: Result<String, std::io::Error>) -> (result: Result<
        usize,
        std::io::Error,
    >)
        ensures
            match input {
                Ok(text) => result matches Ok(count) && count == line_count(text@),
                Err(error) => result matches Err(failure) && failure == error,
            },
    {
        let input_data = input?;
        Self::count_lines_from_reader(input_data.as_str())
    }

    /// The words of an input that was read, or its failure.
    pub fn count_words(&self, input: Result<String, std::io::Error>) -> (result: Result<
        usize,
        std::io::Error,
    >)
        ensures
            match input {
                Ok(text) => result matches Ok(count) && count == word_count(text@),
                Err(error) => result matches Err(failure) && failure == error,
            },
    {
        let input_data = input?;
        Self::count_words_from_reader(input_data.as_str())
    }

    /// The characters of an input that was read, or its failure.
    pub fn count_chars(&self, input: Result<String, std::io::Error>) -> (result: Result<
        usize,
        std::io::Error,
    >)
        ensures
            match input {
                Ok(text) => result matches Ok(count) && count == char_count(text@),
                Err(error) => result matches Err(failure) && failure == error,
            },
    {
        let input_data = input?;
        Self::count_chars_from_reader(input_data.as_str())
    }

    /// The number of bytes of a text: what a reader of it would hand over
    /// in all, read by read. A text in memory never fails to be read.
    pub fn count_bytes_from_reader(text: &str) -> (result: Result<usize, std::io::Error>)
        ensures
            result matches Ok(count) && count == byte_count(text@),
    {
        Ok(text.as_bytes().len())
    }

    /// The number of lines of a text: the segments that its line feeds end,
    /// and what follows the last line feed, if anything does.
    pub fn count_lines_from_reader(text: &str) -> (result: Result<usize, std::io::Error>)
        ensures
            result matches Ok(count) && count == line_count(text@),
    {
        let limit: usize = text.as_bytes().len();
        proof {
            lemma_byte_count_bounds(text@);
        }
        let mut closed: usize = 0;
        let mut open: bool = false;
        for c in it: text.chars()
            invariant
                it.seq() == text@,
                text@.len() <= limit,
                closed == line_feeds(text@, it.index() as int),
                open == (it.index() > 0 && text@[it.index() - 1] != '\n'),
                closed + (if open { 1int } else { 0int }) <= it.index(),
        {
            if c == '\n' {
                closed = closed + 1;
                open = false;
            } else {
                open = true;
            }
        }
        if open {
            Ok(closed + 1)
        } else {
            Ok(closed)
        }
    }

    /// The number of words of a text, line feeds being whitespace like any
    /// other: a word next to one is counted once.
    pub fn count_words_from_reader(text: &str) -> (result: Result<usize, std::io::Error>)
        ensures
            result matches Ok(count) && count == word_count(text@),
    {
        let limit: usize = text.as_bytes().len();
        proof {
            lemma_byte_count_bounds(text@);
        }
        let mut scan = WordScan::new();
        for c in it: text.chars()
            invariant
                it.seq() == text@,
                text@.len() <= limit,
                scan.words == word_starts(text@, it.index() as int),
                scan.in_word == (it.index() > 0 && !whitespace(text@[it.index() - 1])),
        {
            proof {
                lemma_word_starts_bound(text@, it.index() as int);
            }
            scan = scan.step(c.is_whitespace());
        }
        Ok(scan.words)
    }

    /// The number of characters of a text: its code points, whatever the
    /// bytes that each one takes.
    pub fn count_chars_from_reader(text: &str) -> (result: Result<usize, std::io::Error>)
        ensures
            result matches Ok(count) && count == char_count(text@),
    {
        let limit: usize = text.as_bytes().len();
        proof {
            lemma_byte_count_bounds(text@);
        }
        let mut total_chars: usize = 0;
        for c in it: text.chars()
            invariant
                it.seq() == text@,
                text@.len() <= limit,
                total_chars == it.index(),
        {
            total_chars = total_chars + 1;
        }
        Ok(total_chars)
    }

    /// Bytes, lines and words of one shared text, each by a scan of its own
    /// over the whole text. The scans read the text and change nothing, so
    /// they can run in any order or side by side; the counts come out in the
    /// order bytes, lines, words.
    pub fn count_all_from_input(input_data: Arc<String>) -> (result: Result<
        (usize, usize, usize),
        std::io::Error,
    >)
        ensures
            result matches Ok(counts) && counts.0 == byte_count(input_data@) && counts.1
                == line_count(input_data@) && counts.2 == word_count(input_data@),
    {
        let bytes = Self::count_bytes_from_reader(input_data.as_str());
        let lines = Self::count_lines_from_reader(input_data.as_str());
        let words = Self::count_words_from_reader(input_data.as_str());
        Self::join_counts(bytes, lines, words)
    }

    /// Joins the outcomes of the three scans once all are in: the counts in
    /// the order bytes, lines, words if every scan gave one, else the failure
    /// of the first scan in this order that failed. No part of the counts
    /// comes out beside a failure.
    pub fn join_counts<E>(
        bytes: Result<usize, E>,
        lines: Result<usize, E>,
        words: Result<usize, E>,
    ) -> (result: Result<(usize, usize, usize), E>)
        ensures
            result == joined(bytes, lines, words),
    {
        let byte_count = bytes?;
        let line_count = lines?;
        let word_count = words?;
        Ok((byte_count, line_count, word_count))
    }
}

/// The combined count of a text is its three single counts side by side:
/// whatever the scans for bytes, lines and words return on a text, the
/// combined count of the same text returns their join, which is the three
/// counts in the order bytes, lines, words.
pub proof fn lemma_all_is_three_scans(
    text: &str,
    input_data: Arc<String>,
    bytes: Result<usize, std::io::Error>,
    lines: Result<usize, std::io::Error>,
    words: Result<usize, std::io::Error>,
    all: Result<(usize, usize, usize), std::io::Error>,
)
    requires
        input_data@ == text@,
        call_ensures(Counter::count_bytes_from_reader, (text,), bytes),
        call_ensures(Counter::count_lines_from_reader, (text,), lines),
        call_ensures(Counter::count_words_from_reader, (text,), words),
        call_ensures(Counter::count_all_from_input, (input_data,), all),
    ensures
        all == joined(bytes, lines, words),
        all matches Ok(counts) && bytes == Ok::<usize, std::io::Error>(counts.0) && lines == Ok::<
            usize,
            std::io::Error,
        >(counts.1) && words == Ok::<usize, std::io::Error>(counts.2),
{
}

impl From<Config> for Counter {
    fn from(config: Config) -> (counter: Counter)
        ensures
            counter@ == config@,
    {
        proof {
            config.lemma_view();
        }
        Counter { count_type: config.count_type, file_path: config.file_path }
    }
}

impl FromSpecImpl<Config> for Counter {
    open spec fn obeys_from_spec() -> bool {
        true
    }

    closed spec fn from_spec(config: Config) -> Counter {
        Counter { count_type: config.count_type, file_path: config.file_path }
    }
}

} // verus!
