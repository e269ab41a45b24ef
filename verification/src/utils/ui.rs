//! What the shell does when a prompt brings no line.
use vstd::prelude::*;
use vstd::string::*;
use crate::repl::output::said;
use crate::repl::output::warned;
use crate::repl::output::Message;
use crate::repl::output::MessageView;

verus! {

/// Why a prompt brought no line.
#[derive(Clone, Copy, PartialEq, Eq, Debug, Structural)]
pub enum PromptFailure {
    /// The operator interrupted the prompt, as with Ctrl-C.
    Interrupted,
    /// The operator left the prompt, as with Esc.
    Canceled,
    /// Anything else: the terminal could not be read.
    Other,
}

impl PromptFailure {
    /// Whether the operator asked to leave.
    pub open spec fn asked(self) -> bool {
        self == PromptFailure::Interrupted || self == PromptFailure::Canceled
    }

    /// The last message of the session: a farewell on the standard output
    /// when the operator asked to leave, a complaint on the standard error
    /// otherwise.
    pub open spec fn last_words(self) -> MessageView {
        if self.asked() {
            said("exiting..."@)
        } else {
            warned("unexpected error prompting text."@)
        }
    }

    /// The exit code of the program: 0 when the operator asked to leave, 101
    /// otherwise.
    pub open spec fn code(self) -> i32 {
        if self.asked() {
            0
        } else {
            101
        }
    }

    /// The message to show before the program ends.
    pub fn farewell(&self) -> (message: Message)
        ensures
            message@ == self.last_words(),
    {
        match self {
            PromptFailure::Interrupted | PromptFailure::Canceled => Message::say(
                String::from_str("exiting..."),
            ),
            PromptFailure::Other => Message::warn(
                String::from_str("unexpected error prompting text."),
            ),
        }
    }

    /// The exit code with which the program is to end.
    pub fn exit_code(&self) -> (code: i32)
        ensures
            code == self.code(),
    {
        match self {
            PromptFailure::Interrupted | PromptFailure::Canceled => 0,
            PromptFailure::Other => 101,
        }
    }
}

} // verus!
