use crate::text::{contains_char, opt_view, same_text, starts_with_text};
use vstd::prelude::*;

verus! {

/// What to do with a generated answer.
#[derive(Debug, Clone, Copy, PartialEq, Eq, Structural)]
pub enum PostprocessAction {
    /// Ask, then run the command.
    Confirm,
    /// Put the text on the clipboard.
    Copy,
    /// Print the text.
    Out,
}

/// The action that a configured setting selects; anything unknown, or no
/// setting at all, selects `Confirm`.
pub open spec fn setting_action(setting: Option<Seq<char>>) -> PostprocessAction {
    match setting {
        Some(v) => if v == "copy"@ {
            PostprocessAction::Copy
        } else if v == "out"@ {
            PostprocessAction::Out
        } else {
            PostprocessAction::Confirm
        },
        None => PostprocessAction::Confirm,
    }
}

/// Text that mentions a shell variable (`$`) or starts with `export`.
pub open spec fn looks_like_variable(text: Seq<char>) -> bool {
    text.contains('$') || (text.len() >= "export"@.len() && text.take("export"@.len() as int)
        == "export"@)
}

/// The action for `text` under `setting`: the configured one, except that
/// text which looks like a variable is copied rather than confirmed.
pub open spec fn postprocess_action(setting: Option<Seq<char>>, text: Seq<char>) -> PostprocessAction {
    let by_setting = setting_action(setting);
    if by_setting == PostprocessAction::Confirm && looks_like_variable(text) {
        PostprocessAction::Copy
    } else {
        by_setting
    }
}

/// The action that the configured setting (`"confirm"`, `"copy"` or `"out"`) selects.
pub fn action_from_setting(setting: Option<&str>) -> (r: PostprocessAction)
    ensures
        r == setting_action(opt_view(setting)),
{
    match setting {
        Some(v) => {
            if same_text(v, "confirm") {
                proof {
                    reveal_strlit("confirm");
                    reveal_strlit("copy");
                    reveal_strlit("out");
                }
                assert(v@.len() == 7);
                PostprocessAction::Confirm
            } else if same_text(v, "copy") {
                PostprocessAction::Copy
            } else if same_text(v, "out") {
                PostprocessAction::Out
            } else {
                PostprocessAction::Confirm
            }
        },
        None => PostprocessAction::Confirm,
    }
}

/// Decides what to do with `answer_text`, given the configured default action.
pub fn get_postprocess_action(setting: Option<&str>, answer_text: &str) -> (r: PostprocessAction)
    ensures
        r == postprocess_action(opt_view(setting), answer_text@),
{
    let by_setting = action_from_setting(setting);
    if by_setting == PostprocessAction::Confirm && (contains_char(answer_text, '$')
        || starts_with_text(answer_text, "export")) {
        return PostprocessAction::Copy;
    }
    by_setting
}

} // verus!
