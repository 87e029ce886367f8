//! Turning a program's argument list into a counting request.

use vstd::prelude::*;

verus! {

/// Which statistic a counting request asks for.
#[derive(Clone, Copy, PartialEq, Eq, Debug, Structural)]
pub enum CountType {
    ByteCount,
    CharCount,
    WordCount,
    LineCount,
    AllCount,
}

/// A counting request as a mathematical value: the statistic asked for and
/// the file to read, where no file means standard input.
pub struct Request {
    pub count_type: CountType,
    pub file_path: Option<Seq<char>>,
}

/// The message for a flag whose last character names no statistic.
pub const INVALID_FLAG: &'static str =
    "Invalid flag. Use 'c' for byte count, 'l' for line count, 'w' for word count, or 'm' for character count.";

/// The message for an argument list of no accepted shape.
pub const INCORRECT_USAGE: &'static str = "Incorrect usage. Usage: <program> <flag> <file_path>";

/// An argument is a flag when it begins with a dash.
pub open spec fn is_flag(arg: Seq<char>) -> bool {
    arg.len() > 0 && arg[0] == '-'
}

/// The statistic that a flag selects: its last character decides, `c` for
/// bytes, `l` for lines, `w` for words and `m` for characters.
pub open spec fn flag_count_type(arg: Seq<char>) -> Option<CountType> {
    if arg.len() == 0 {
        None
    } else if arg.last() == 'c' {
        Some(CountType::ByteCount)
    } else if arg.last() == 'l' {
        Some(CountType::LineCount)
    } else if arg.last() == 'w' {
        Some(CountType::WordCount)
    } else if arg.last() == 'm' {
        Some(CountType::CharCount)
    } else {
        None
    }
}

/// The request that an argument list stands for, or the message that
/// rejects it. `args[0]` is the program's name. Alone, it asks for all
/// counts of standard input. A second argument that is no flag is the file,
/// and must be the last argument. A second argument that is a flag selects
/// the statistic, and a third one, which must be the last, is the file. At
/// most one flag and one file are taken: a list of any other shape, an empty
/// one and one of more than three arguments among them, is rejected as
/// incorrect usage.
pub open spec fn parse_args(args: Seq<Seq<char>>) -> Result<Request, Seq<char>> {
    if args.len() == 1 {
        Ok(Request { count_type: CountType::AllCount, file_path: None })
    } else if args.len() == 2 && !is_flag(args[1]) {
        Ok(Request { count_type: CountType::AllCount, file_path: Some(args[1]) })
    } else if 2 <= args.len() <= 3 && is_flag(args[1]) {
        match flag_count_type(args[1]) {
            Some(count_type) => Ok(
                Request {
                    count_type,
                    file_path: if args.len() == 3 {
                        Some(args[2])
                    } else {
                        None
                    },
                },
            ),
            None => Err(INVALID_FLAG@),
        }
    } else {
        Err(INCORRECT_USAGE@)
    }
}

/// An accepted argument list holds the program's name, at most one flag and
/// at most one file path, and nothing else: it has between one and three
/// arguments, the second of three is a flag, and the file path is the last
/// argument wherever there is one.
pub proof fn lemma_accepted_shape(args: Seq<Seq<char>>)
    requires
        parse_args(args) is Ok,
    ensures
        1 <= args.len() <= 3,
        args.len() == 3 ==> is_flag(args[1]),
        parse_args(args)->Ok_0.file_path is Some ==> args.len() >= 2
            && parse_args(args)->Ok_0.file_path == Some(args.last()),
        parse_args(args)->Ok_0.file_path is None ==> args.len() <= 2,
{
}

/// A validated counting request.
#[derive(Clone)]
pub struct Config {
    pub(crate) count_type: CountType,
    pub(crate) file_path: Option<String>,
}

impl View for Config {
    type V = Request;

    closed spec fn view(&self) -> Request {
        Request {
            count_type: self.count_type,
            file_path: match self.file_path {
                Some(path) => Some(path@),
                None => None,
            },
        }
    }
}

impl Config {
    /// Reads an argument list. The result is exactly what `parse_args` says
    /// of the arguments' text: the request, or the rejecting message.
    pub fn build(args: &[String]) -> (result: Result<Config, &'static str>)
        ensures
            match parse_args(args.deep_view()) {
                Ok(request) => result matches Ok(config) && config@ == request,
                Err(message) => result matches Err(text) && text@ == message,
            },
    {
        if args.len() == 1 {
            return Ok(Config { count_type: CountType::AllCount, file_path: None });
        }
        if args.len() == 2 || args.len() == 3 {
            let flagged = Self::starts_with_dash(args[1].as_str());
            if args.len() == 2 && !flagged {
                return Ok(
                    Config { count_type: CountType::AllCount, file_path: Some(args[1].clone()) },
                );
            }
            if flagged {
                return match Self::_parse_type(args[1].as_str()) {
                    Some(count_type) => {
                        let file_path = if args.len() == 3 {
                            Some(args[2].clone())
                        } else {
                            None
                        };
                        Ok(Config { count_type, file_path })
                    },
                    None => Err(INVALID_FLAG),
                };
            }
        }
        Err(INCORRECT_USAGE)
    }

    /// Whether an argument begins with a dash.
    fn starts_with_dash(arg: &str) -> (flagged: bool)
        ensures
            flagged == is_flag(arg@),
    {
        !arg.is_empty() && arg.get_char(0) == '-'
    }

    /// The statistic that a flag's last character selects, if any.
    pub fn _parse_type(arg: &str) -> (count_type: Option<CountType>)
        ensures
            count_type == flag_count_type(arg@),
    {
        let len: usize = arg.unicode_len();
        if len == 0 {
            return None;
        }
        match arg.get_char(len - 1) {
            'c' => Some(CountType::ByteCount),
            'l' => Some(CountType::LineCount),
            'w' => Some(CountType::WordCount),
            'm' => Some(CountType::CharCount),
            _ => None,
        }
    }

    /// The view of a configuration holds its two fields.
    pub(crate) proof fn lemma_view(self)
        ensures
            self@.count_type == self.count_type,
            self@.file_path == self.file_path.deep_view(),
    {
    }

    /// The statistic asked for.
    pub fn get_count_type(&self) -> (count_type: CountType)
        ensures
            count_type == self@.count_type,
    {
        self.count_type
    }

    /// The file to read, none for standard input.
    pub fn get_file_path(&self) -> (file_path: Option<String>)
        ensures
            file_path.deep_view() == self@.file_path,
    {
        self.file_path.clone()
    }
}

} // verus!
