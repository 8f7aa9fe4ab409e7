use gpt_cli::should_exit::{should_exit, TextColor};

const VERSION: &str = "1.2.3";

#[test]
fn test_should_exit_empty_args() {
    let args: Vec<String> = vec![];
    let result = should_exit(&args, VERSION);

    assert_eq!(result.exit, true);
    assert_eq!(result.is_error, true);
    assert_eq!(result.messages.len(), 2);
    assert_eq!(result.messages[0].text.as_str(), "Please add description, which command you want to execute.");
    assert_eq!(result.messages[0].color, Some(TextColor::Red));
    assert_eq!(result.messages[1].text.as_str(), "eg.: cargo run -- show calendar");
    assert_eq!(result.messages[1].color, Some(TextColor::White));
}

#[test]
fn test_should_exit_version() {
    let args: Vec<String> = vec![String::from("--version")];
    let result = should_exit(&args, VERSION);

    assert_eq!(result.exit, true);
    assert_eq!(result.is_error, false);
    assert_eq!(result.messages.len(), 1);
    assert_eq!(result.messages[0].text.as_str(), VERSION);
}

#[test]
fn test_should_exit_no_exit() {
    let args: Vec<String> = vec![String::from("show"), String::from("calendar")];
    let result = should_exit(&args, VERSION);

    assert_eq!(result.exit, false);
    assert_eq!(result.is_error, false);
    assert_eq!(result.messages.len(), 0);
}

#[test]
fn version_with_other_words_does_not_exit() {
    let args: Vec<String> = vec![String::from("--version"), String::from("x")];
    let result = should_exit(&args, VERSION);
    assert!(!result.exit);
    let args: Vec<String> = vec![String::from("list files")];
    assert!(!should_exit(&args, VERSION).exit);
}
