use gpt_cli::decompose::{decompose, split_words};

#[test]
fn test_decompose_ls() {
    assert_eq!(decompose("ls"), ("ls".to_string(), Vec::<String>::new()));
}

#[test]
fn test_decompose_ls_la() {
    assert_eq!(decompose("ls -la"), ("ls".to_string(), vec!["-la".to_string()]));
}

#[test]
fn test_decompose_strip_code_marks() {
    assert_eq!(decompose("`ls -l`"), ("ls".to_string(), vec!["-l".to_string()]));
}

#[test]
fn test_decompose_graphic_cards() {
    assert_eq!(
        decompose("lspci | grep VGA"),
        ("bash".to_string(), vec!["-c".to_string(), "lspci | grep VGA".to_string()])
    );
}

#[test]
fn decompose_empty_input() {
    assert_eq!(decompose(""), (String::new(), Vec::<String>::new()));
    assert_eq!(decompose("   "), (String::new(), Vec::<String>::new()));
}

#[test]
fn decompose_single_backtick() {
    assert_eq!(decompose("`"), (String::new(), Vec::<String>::new()));
    assert_eq!(decompose("``"), (String::new(), Vec::<String>::new()));
}

#[test]
fn decompose_mixed_whitespace() {
    assert_eq!(
        decompose("\tgit  log\n--oneline\u{3000}-n 3 "),
        (
            "git".to_string(),
            vec!["log".to_string(), "--oneline".to_string(), "-n".to_string(), "3".to_string()]
        )
    );
}

#[test]
fn decompose_pipe_keeps_stripped_line() {
    assert_eq!(
        decompose("`ps aux  |  grep x`"),
        ("bash".to_string(), vec!["-c".to_string(), "ps aux  |  grep x".to_string()])
    );
}

#[test]
fn decompose_pipe_as_program_is_not_a_pipeline() {
    assert_eq!(decompose("| grep x"), ("|".to_string(), vec!["grep".to_string(), "x".to_string()]));
}

#[test]
fn decompose_pipe_inside_a_word_is_not_a_pipeline() {
    assert_eq!(decompose("echo a|b"), ("echo".to_string(), vec!["a|b".to_string()]));
}

#[test]
fn split_words_matches_split_whitespace() {
    let s = " a\u{a0}b \u{2028}c\r\n ddd\u{85}";
    let expected: Vec<String> = s.split_whitespace().map(|w| w.to_string()).collect();
    assert_eq!(split_words(s), expected);
}
