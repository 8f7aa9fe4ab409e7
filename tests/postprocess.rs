use gpt_cli::postprocess::{action_from_setting, get_postprocess_action, PostprocessAction};

#[test]
fn test_get_postprocess_action_confirm() {
    let answer = "This is a normal answer.".to_string();
    let action = get_postprocess_action(None, &answer);
    assert_eq!(action, PostprocessAction::Confirm);
}

#[test]
fn test_get_postprocess_action_copy() {
    let answer = "This is an answer containing $variable.".to_string();
    let action = get_postprocess_action(None, &answer);
    assert_eq!(action, PostprocessAction::Copy);
}

#[test]
fn test_get_postprocess_action_export() {
    let answer = "export MY_VARIABLE=value".to_string();
    let action = get_postprocess_action(None, &answer);
    assert_eq!(action, PostprocessAction::Copy);
}

#[test]
fn test_get_postprocess_action_env_confirm() {
    let answer = "This is a normal answer.".to_string();
    let action = get_postprocess_action(Some("confirm"), &answer);
    assert_eq!(action, PostprocessAction::Confirm);
}

#[test]
fn test_get_postprocess_action_env_copy() {
    let answer = "This is a normal answer.".to_string();
    let action = get_postprocess_action(Some("copy"), &answer);
    assert_eq!(action, PostprocessAction::Copy);
}

#[test]
fn test_get_postprocess_action_env_out() {
    let answer = "This is a normal answer.".to_string();
    let action = get_postprocess_action(Some("out"), &answer);
    assert_eq!(action, PostprocessAction::Out);
}

#[test]
fn test_get_postprocess_action_env_invalid() {
    let answer = "This is a normal answer.".to_string();
    let action = get_postprocess_action(Some("invalid"), &answer);
    assert_eq!(action, PostprocessAction::Confirm);
}

#[test]
fn out_setting_is_not_overridden_by_variables() {
    assert_eq!(get_postprocess_action(Some("out"), "echo $HOME"), PostprocessAction::Out);
    assert_eq!(get_postprocess_action(Some("copy"), "ls"), PostprocessAction::Copy);
}

#[test]
fn export_only_counts_at_the_start() {
    assert_eq!(get_postprocess_action(None, "echo export"), PostprocessAction::Confirm);
    assert_eq!(get_postprocess_action(None, "exportfs -a"), PostprocessAction::Copy);
    assert_eq!(get_postprocess_action(None, ""), PostprocessAction::Confirm);
}

#[test]
fn settings_are_case_sensitive() {
    assert_eq!(action_from_setting(Some("OUT")), PostprocessAction::Confirm);
    assert_eq!(action_from_setting(Some("")), PostprocessAction::Confirm);
    assert_eq!(action_from_setting(None), PostprocessAction::Confirm);
}
