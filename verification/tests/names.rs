use rustedbot::commands::names::{is_valid_command_name, is_valid_username};

#[test]
fn command_names_are_ascii_letters_and_digits() {
    assert!(is_valid_command_name("cmd1"));
    assert!(!is_valid_command_name("cmd-1"));
    assert!(is_valid_command_name("A"));
    assert!(is_valid_command_name("0"));
    assert!(is_valid_command_name("GreetMe42"));
    assert!(!is_valid_command_name(""));
    assert!(!is_valid_command_name("cmd 1"));
    assert!(!is_valid_command_name("cmd_1"));
    assert!(!is_valid_command_name("cmd1\n"));
    assert!(!is_valid_command_name("\ncmd1"));
    assert!(!is_valid_command_name("caf\u{e9}"));
    assert!(!is_valid_command_name("\u{661}"));
}

#[test]
fn usernames_start_in_lower_case_and_have_3_to_25_characters() {
    assert!(is_valid_username("abc"));
    assert!(!is_valid_username("Abc"));
    assert!(!is_valid_username("ab"));
    assert!(is_valid_username("a_b"));
    assert!(is_valid_username("a12"));
    assert!(is_valid_username("caml_bot"));
    assert!(!is_valid_username("1ab"));
    assert!(!is_valid_username("_ab"));
    assert!(!is_valid_username("abC"));
    assert!(!is_valid_username("ab-c"));
    assert!(!is_valid_username(""));
    assert!(!is_valid_username("abc\n"));
    assert!(!is_valid_username("ab\u{e9}"));
    assert!(is_valid_username("abcdefghijklmnopqrstuvwxy"));
    assert!(!is_valid_username("abcdefghijklmnopqrstuvwxyz"));
}
