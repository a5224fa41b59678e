use agent_runner::lines::split_lines;

#[test]
fn splits_terminated_lines() {
    assert_eq!(split_lines("a\nb\n"), vec!["a", "b"]);
}

#[test]
fn discards_unterminated_trailing_fragment() {
    assert_eq!(split_lines("a\nb"), vec!["a"]);
}

#[test]
fn empty_input_has_no_lines() {
    assert_eq!(split_lines(""), Vec::<String>::new());
}

#[test]
fn input_without_newline_has_no_lines() {
    assert_eq!(split_lines("never finished"), Vec::<String>::new());
}

#[test]
fn lone_newline_is_one_empty_line() {
    assert_eq!(split_lines("\n"), vec![""]);
}

#[test]
fn adjacent_newlines_keep_empty_lines() {
    assert_eq!(split_lines("\n\na\n"), vec!["", "", "a"]);
}

#[test]
fn splits_only_at_newline() {
    // Carriage returns are ordinary characters under this policy.
    assert_eq!(split_lines("a\r\nb\n"), vec!["a\r", "b"]);
}

#[test]
fn handles_multibyte_characters() {
    assert_eq!(split_lines("héllo\nwörld\n"), vec!["héllo", "wörld"]);
}
