//! What the shell shows: messages, each for one of the two output streams.
use vstd::prelude::*;
use vstd::string::*;

verus! {

/// The stream on which a message is shown.
#[derive(Clone, Copy, PartialEq, Eq, Debug, Structural)]
pub enum Stream {
    Stdout,
    Stderr,
}

/// One message: a text that is shown at once, followed by a line break. The
/// text itself may span several lines.
#[derive(Clone, PartialEq, Eq, Debug)]
pub struct Message {
    pub stream: Stream,
    pub text: String,
}

/// The mathematical value of a [`Message`].
pub ghost struct MessageView {
    pub stream: Stream,
    pub text: Seq<char>,
}

impl View for Message {
    type V = MessageView;

    open spec fn view(&self) -> MessageView {
        MessageView { stream: self.stream, text: self.text@ }
    }
}

/// The values of a list of messages.
pub open spec fn message_views(messages: Seq<Message>) -> Seq<MessageView> {
    messages.map_values(|m: Message| m@)
}

/// The message `text` for the standard output.
pub open spec fn said(text: Seq<char>) -> MessageView {
    MessageView { stream: Stream::Stdout, text }
}

/// The message `text` for the standard error.
pub open spec fn warned(text: Seq<char>) -> MessageView {
    MessageView { stream: Stream::Stderr, text }
}

/// What a step of the shell shows, and whether the shell ends after it.
#[derive(Clone, PartialEq, Eq, Debug)]
pub struct Report {
    /// The messages, in the order in which they are shown.
    pub messages: Vec<Message>,
    /// Whether the program ends, with exit code 0, once the messages are
    /// shown. It does after the step `Exit` and after a restart that the
    /// gateway took.
    pub leave: bool,
}

/// The mathematical value of a [`Report`].
pub ghost struct ReportView {
    pub messages: Seq<MessageView>,
    pub leave: bool,
}

impl View for Report {
    type V = ReportView;

    open spec fn view(&self) -> ReportView {
        ReportView { messages: message_views(self.messages@), leave: self.leave }
    }
}

impl Message {
    /// A message for the standard output.
    pub fn say(text: String) -> (message: Message)
        ensures
            message@ == said(text@),
    {
        Message { stream: Stream::Stdout, text }
    }

    /// A message for the standard error.
    pub fn warn(text: String) -> (message: Message)
        ensures
            message@ == warned(text@),
    {
        Message { stream: Stream::Stderr, text }
    }
}

impl Report {
    /// A report of the given messages after which the shell goes on.
    pub fn of(messages: Vec<Message>) -> (report: Report)
        ensures
            report@ == (ReportView { messages: message_views(messages@), leave: false }),
    {
        Report { messages, leave: false }
    }
}

} // verus!
