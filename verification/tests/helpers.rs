use rustedbot::helpers::{
    has_at_least_four_args, has_at_least_n_args, has_at_least_one_arg, has_more_than_one_arg,
};

#[test]
fn empty_text_has_no_args() {
    assert!(!has_at_least_n_args("", 1));
    assert!(!has_at_least_n_args("", 2));
    assert!(has_at_least_n_args("", 0));
    assert!(!has_at_least_one_arg(""));
    assert!(!has_more_than_one_arg(""));
    assert!(!has_at_least_four_args(""));
}

#[test]
fn blank_text_has_no_args() {
    assert!(!has_at_least_n_args("   ", 1));
    assert!(!has_at_least_n_args(" \t\n ", 1));
    assert!(!has_at_least_one_arg("  "));
    assert!(!has_more_than_one_arg("  "));
}

#[test]
fn three_tokens_are_three_args() {
    assert!(has_at_least_n_args("a b c", 3));
    assert!(!has_at_least_n_args("a b c", 4));
    assert!(has_at_least_one_arg("a b c"));
    assert!(has_more_than_one_arg("a b c"));
    assert!(!has_at_least_four_args("a b c"));
    assert!(has_at_least_four_args("a b c d"));
    assert!(has_at_least_four_args("60 4 7 1 extra"));
}

#[test]
fn whitespace_runs_separate_once() {
    assert!(has_at_least_n_args("  a   b  ", 2));
    assert!(!has_at_least_n_args("  a   b  ", 3));
    assert!(!has_more_than_one_arg("a "));
    assert!(has_at_least_one_arg(" a"));
}
