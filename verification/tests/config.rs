use gfwc::config::{INCORRECT_USAGE, INVALID_FLAG};
use gfwc::{Config, CountType};

#[test]
fn test_config_build_with_flag_and_file_path() {
    let args = vec!["gfwc".to_string(), "-l".to_string(), "test.txt".to_string()];
    let config = Config::build(&args).unwrap();
    assert_eq!(config.get_count_type(), CountType::LineCount);
    assert_eq!(config.get_file_path(), Some("test.txt".to_string()));
}

#[test]
fn test_config_build_with_only_file_path() {
    let args = vec!["gfwc".to_string(), "test.txt".to_string()];
    let config = Config::build(&args).unwrap();
    assert_eq!(config.get_count_type(), CountType::AllCount);
    assert_eq!(config.get_file_path(), Some("test.txt".to_string()));
}

#[test]
fn test_config_invalid_flag() {
    let args = vec!["gfwc".to_string(), "-z".to_string()];
    let config = Config::build(&args);
    assert!(config.is_err());
}

#[test]
fn test_config_no_flag_defaults_to_all_count() {
    let args = vec!["gfwc".to_string(), "text.txt".to_string()];
    let config = Config::build(&args).unwrap();
    assert_eq!(config.get_count_type(), CountType::AllCount);
    assert_eq!(config.get_file_path(), Some("text.txt".to_string()));
}

#[test]
fn test_config_valid_flag() {
    let args = vec!["gfwc".to_string(), "-w".to_string(), "text.txt".to_string()];
    let config = Config::build(&args).unwrap();
    assert_eq!(config.get_count_type(), CountType::WordCount);
    assert_eq!(config.get_file_path(), Some("text.txt".to_string()));
}

#[test]
fn test_config_only_flag_no_file_path() {
    let args = vec!["gfwc".to_string(), "-w".to_string()];
    let config = Config::build(&args).unwrap();
    assert_eq!(config.get_count_type(), CountType::WordCount);
    assert!(config.get_file_path().is_none());
}

fn strings(args: &[&str]) -> Vec<String> {
    args.iter().map(|arg| arg.to_string()).collect()
}

#[test]
fn program_name_alone_asks_for_all_counts_of_standard_input() {
    let config = Config::build(&strings(&["prog"])).unwrap();
    assert_eq!(config.get_count_type(), CountType::AllCount);
    assert_eq!(config.get_file_path(), None);
}

#[test]
fn each_flag_selects_its_statistic() {
    let cases = [
        ("-c", CountType::ByteCount),
        ("-l", CountType::LineCount),
        ("-w", CountType::WordCount),
        ("-m", CountType::CharCount),
    ];
    for (flag, expected) in cases {
        let with_file = Config::build(&strings(&["prog", flag, "in.txt"])).unwrap();
        assert_eq!(with_file.get_count_type(), expected);
        assert_eq!(with_file.get_file_path(), Some("in.txt".to_string()));
        let without_file = Config::build(&strings(&["prog", flag])).unwrap();
        assert_eq!(without_file.get_count_type(), expected);
        assert_eq!(without_file.get_file_path(), None);
    }
}

#[test]
fn unknown_flag_is_rejected_with_its_message() {
    assert_eq!(Config::build(&strings(&["prog", "-z"])).err(), Some(INVALID_FLAG));
    assert_eq!(Config::build(&strings(&["prog", "-z", "in.txt"])).err(), Some(INVALID_FLAG));
    assert_eq!(Config::build(&strings(&["prog", "-"])).err(), Some(INVALID_FLAG));
    assert_eq!(Config::build(&strings(&["prog", "--"])).err(), Some(INVALID_FLAG));
    assert_eq!(
        INVALID_FLAG,
        "Invalid flag. Use 'c' for byte count, 'l' for line count, 'w' for word count, or 'm' for character count."
    );
}

#[test]
fn wrong_shape_is_rejected_with_its_message() {
    assert_eq!(Config::build(&strings(&[])).err(), Some(INCORRECT_USAGE));
    assert_eq!(Config::build(&strings(&["prog", "a.txt", "b.txt"])).err(), Some(INCORRECT_USAGE));
    assert_eq!(Config::build(&strings(&["prog", "a.txt", "-l"])).err(), Some(INCORRECT_USAGE));
    assert_eq!(Config::build(&strings(&["prog", "", "b.txt"])).err(), Some(INCORRECT_USAGE));
    assert_eq!(INCORRECT_USAGE, "Incorrect usage. Usage: <program> <flag> <file_path>");
}

#[test]
fn last_character_of_the_flag_decides() {
    let config = Config::build(&strings(&["prog", "-lc", "in.txt"])).unwrap();
    assert_eq!(config.get_count_type(), CountType::ByteCount);
    let config = Config::build(&strings(&["prog", "--lines-w"])).unwrap();
    assert_eq!(config.get_count_type(), CountType::WordCount);
    assert_eq!(Config::build(&strings(&["prog", "-cé"])).err(), Some(INVALID_FLAG));
}

#[test]
fn empty_second_argument_is_a_file_path() {
    let config = Config::build(&strings(&["prog", ""])).unwrap();
    assert_eq!(config.get_count_type(), CountType::AllCount);
    assert_eq!(config.get_file_path(), Some(String::new()));
}

#[test]
fn a_second_file_path_is_rejected() {
    let result = Config::build(&strings(&["gfwc", "-l", "a.txt", "b.txt"]));
    assert!(result.is_err());
    assert_eq!(result.err(), Some(INCORRECT_USAGE));
}

#[test]
fn more_than_three_arguments_are_rejected_whatever_they_hold() {
    assert_eq!(
        Config::build(&strings(&["prog", "-m", "in.txt", "more", "-l"])).err(),
        Some(INCORRECT_USAGE)
    );
    assert_eq!(
        Config::build(&strings(&["prog", "a.txt", "b.txt", "c.txt"])).err(),
        Some(INCORRECT_USAGE)
    );
    // the count of the arguments is looked at before the flag is
    assert_eq!(
        Config::build(&strings(&["prog", "-z", "a.txt", "b.txt"])).err(),
        Some(INCORRECT_USAGE)
    );
}

#[test]
fn three_arguments_with_a_flag_are_the_longest_accepted_list() {
    let config = Config::build(&strings(&["prog", "-m", "in.txt"])).unwrap();
    assert_eq!(config.get_count_type(), CountType::CharCount);
    assert_eq!(config.get_file_path(), Some("in.txt".to_string()));
}

#[test]
fn flag_parsing_on_its_own() {
    assert_eq!(Config::_parse_type("-c"), Some(CountType::ByteCount));
    assert_eq!(Config::_parse_type("l"), Some(CountType::LineCount));
    assert_eq!(Config::_parse_type("-xw"), Some(CountType::WordCount));
    assert_eq!(Config::_parse_type("m"), Some(CountType::CharCount));
    assert_eq!(Config::_parse_type(""), None);
    assert_eq!(Config::_parse_type("-C"), None);
    assert_eq!(Config::_parse_type("-c "), None);
}

#[test]
fn a_copy_of_a_configuration_asks_for_the_same() {
    let config = Config::build(&strings(&["prog", "-l", "in.txt"])).unwrap();
    let copy = config.clone();
    assert_eq!(copy.get_count_type(), config.get_count_type());
    assert_eq!(copy.get_file_path(), config.get_file_path());
}
