use crate::text::same_text;
use vstd::prelude::*;
use vstd::string::*;

verus! {

/// What is printed when no task is given.
pub const USAGE_MESSAGE: &'static str = "Please add description, which command you want to execute.";

/// An example of a task, printed after the usage message.
pub const USAGE_EXAMPLE: &'static str = "eg.: cargo run -- show calendar";

/// The colors that messages are printed in.
#[derive(Debug, Clone, Copy, PartialEq, Eq, Structural)]
pub enum TextColor {
    Red,
    White,
}

/// A line of text for the terminal, in a color or in the default one.
#[derive(Debug)]
pub struct StyledText {
    pub text: String,
    pub color: Option<TextColor>,
}

/// Whether the program stops before asking anything, and what it prints then.
#[derive(Debug)]
pub struct ShouldExit {
    pub exit: bool,
    pub is_error: bool,
    pub messages: Vec<StyledText>,
}

/// `m` shows `text` in `color`.
pub open spec fn styled(m: StyledText, text: Seq<char>, color: Option<TextColor>) -> bool {
    m.text@ == text && m.color == color
}

/// Decides from the command-line arguments whether to stop at once: with no
/// argument, with a usage message (an error); with `--version` alone, with
/// `version`; else not.
pub fn should_exit(args: &Vec<String>, version: &str) -> (r: ShouldExit)
    ensures
        args@.len() == 0 ==> r.exit && r.is_error && r.messages@.len() == 2 && styled(
            r.messages@[0],
            USAGE_MESSAGE@,
            Some(TextColor::Red),
        ) && styled(r.messages@[1], USAGE_EXAMPLE@, Some(TextColor::White)),
        args@.len() == 1 && args@[0]@ == "--version"@ ==> r.exit && !r.is_error
            && r.messages@.len() == 1 && styled(r.messages@[0], version@, None),
        args@.len() > 1 || (args@.len() == 1 && args@[0]@ != "--version"@) ==> !r.exit
            && !r.is_error && r.messages@.len() == 0,
{
    if args.len() == 0 {
        let messages = vec![
            StyledText { text: String::from_str(USAGE_MESSAGE), color: Some(TextColor::Red) },
            StyledText { text: String::from_str(USAGE_EXAMPLE), color: Some(TextColor::White) },
        ];
        return ShouldExit { exit: true, messages, is_error: true };
    } else if args.len() == 1 && same_text(args[0].as_str(), "--version") {
        let messages = vec![StyledText { text: String::from_str(version), color: None }];
        return ShouldExit { exit: true, messages, is_error: false };
    }
    ShouldExit { exit: false, messages: Vec::new(), is_error: false }
}

} // verus!
