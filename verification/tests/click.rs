use netstatus::command::split_command;

#[test]
fn command_splits_on_whitespace() {
    assert_eq!(
        split_command("nm-connection-editor --show"),
        vec!["nm-connection-editor".to_string(), "--show".to_string()]
    );
}

#[test]
fn repeated_and_mixed_whitespace_separates_words() {
    assert_eq!(
        split_command("  a \t b\n\nc  "),
        vec!["a".to_string(), "b".to_string(), "c".to_string()]
    );
}

#[test]
fn empty_and_blank_commands_give_no_words() {
    assert!(split_command("").is_empty());
    assert!(split_command(" \t \n").is_empty());
}

#[test]
fn single_word_command() {
    assert_eq!(split_command("true"), vec!["true".to_string()]);
}
