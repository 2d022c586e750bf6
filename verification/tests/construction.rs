use inquire::error::InquireError;
use inquire::filtering::DefaultFilter;
use inquire::formatter::DefaultFormatter;
use inquire::select::{Select, SelectPrompt};

fn labels(names: &[&str]) -> Vec<String> {
    names.iter().map(|s| s.to_string()).collect()
}

#[test]
fn empty_catalog_is_invalid_configuration() {
    let s = Select::new("pick".to_string(), Vec::new());
    match SelectPrompt::new(s) {
        Err(InquireError::InvalidConfiguration(m)) => {
            assert_eq!(m, "Available options can not be empty");
        }
        _ => panic!("an empty catalog must be rejected at construction"),
    }
}

#[test]
fn empty_catalog_is_invalid_regardless_of_other_configuration() {
    let s = Select::new("pick".to_string(), Vec::new())
        .with_page_size(3)
        .with_vim_mode(true)
        .without_help_message()
        .with_starting_cursor(0);
    let r = SelectPrompt::new(s);
    assert!(matches!(r, Err(InquireError::InvalidConfiguration(_))));
}

#[test]
fn starting_cursor_at_length_is_invalid_configuration() {
    let s = Select::new("pick".to_string(), labels(&["a", "b", "c"])).with_starting_cursor(3);
    match SelectPrompt::new(s) {
        Err(InquireError::InvalidConfiguration(m)) => {
            assert_eq!(m, "Starting cursor index is out-of-bounds of the options length");
        }
        _ => panic!("an out-of-range starting cursor must be rejected at construction"),
    }
}

#[test]
fn starting_cursor_beyond_length_is_invalid_configuration() {
    let s = Select::new("pick".to_string(), labels(&["a", "b"])).with_starting_cursor(10);
    let r = SelectPrompt::new(s);
    assert!(matches!(r, Err(InquireError::InvalidConfiguration(_))));
}

#[test]
fn last_valid_starting_cursor_is_accepted() {
    let s = Select::new("pick".to_string(), labels(&["a", "b", "c"])).with_starting_cursor(2);
    let p = SelectPrompt::new(s).unwrap();
    assert_eq!(p.cursor_index, 2);
}

#[test]
fn initial_filtered_list_is_full_range_in_order() {
    let s = Select::new("pick".to_string(), labels(&["x", "y", "z", "w"]));
    let p = SelectPrompt::new(s).unwrap();
    assert_eq!(p.filtered_options, vec![0, 1, 2, 3]);
    assert_eq!(p.filter_value, "");
    assert_eq!(p.cursor_index, 0);
}

#[test]
fn defaults_are_populated() {
    let s = Select::new("msg".to_string(), labels(&["a"]));
    assert_eq!(s.message, "msg");
    assert_eq!(s.page_size, 7);
    assert!(!s.vim_mode);
    assert_eq!(s.starting_cursor, 0);
    assert_eq!(
        s.help_message,
        Some("\u{2191}\u{2193} to move, space or enter to select, type to filter".to_string())
    );
}

#[test]
fn builders_replace_each_setting() {
    let s = Select::new("msg".to_string(), labels(&["a", "b"]))
        .with_page_size(11)
        .with_vim_mode(true)
        .with_starting_cursor(1)
        .with_help_message("custom help".to_string());
    assert_eq!(s.page_size, 11);
    assert!(s.vim_mode);
    assert_eq!(s.starting_cursor, 1);
    assert_eq!(s.help_message, Some("custom help".to_string()));
    let s = s.without_help_message();
    assert_eq!(s.help_message, None);
}

#[test]
fn filter_and_formatter_builders_swap_the_capabilities() {
    let s = Select::new("msg".to_string(), labels(&["Apple"]))
        .with_filter(DefaultFilter)
        .with_formatter(DefaultFormatter);
    let p = SelectPrompt::new(s).unwrap();
    let ans = p.get_final_answer().unwrap();
    assert_eq!(ans.index, 0);
    assert_eq!(p.format_answer(&ans), "Apple");
}

#[test]
fn error_descriptions() {
    let invalid = InquireError::InvalidConfiguration("whatever".to_string());
    assert_eq!(invalid.description(), "invalid configuration");
    assert_eq!(InquireError::OperationCanceled.description(), "operation canceled");
}
