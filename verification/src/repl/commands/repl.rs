//! The commands about the shell itself.
use vstd::prelude::*;
use vstd::string::*;
use crate::repl::commands::command_text;
use crate::repl::commands::command_views;
use crate::repl::output::message_views;
use crate::repl::output::said;
use crate::repl::output::Message;
use crate::repl::output::MessageView;
use crate::repl::output::Report;
use crate::repl::output::ReportView;
use crate::state::AppState;
use crate::repl::commands::Action;
use crate::repl::commands::Command;
use crate::repl::commands::CommandView;

verus! {

/// The value of the `help` command.
pub open spec fn help_entry() -> CommandView {
    CommandView {
        name: "help"@,
        description: "lists all commands."@,
        args: None,
        run: Action::Help,
    }
}

/// The command that lists the commands.
pub fn help() -> (command: Command)
    ensures
        command@ == help_entry(),
{
    Command { name: "help", description: "lists all commands.", args: None, run: Action::Help }
}

/// What `help` shows of the given commands: a heading and one line for each
/// command, in their order.
pub open spec fn help_messages(commands: Seq<CommandView>) -> Seq<MessageView> {
    seq![said("available commands:"@)] + commands.map_values(
        |c: CommandView| said("[>] "@ + command_text(c)),
    )
}

/// Runs `help`: lists the commands that the shell holds.
pub fn run_help(state: &AppState) -> (report: Report)
    ensures
        report@ == (ReportView {
            messages: help_messages(command_views(state.commands@)),
            leave: false,
        }),
{
    let mut messages = vec![Message::say(String::from_str("available commands:"))];
    let ghost lines = command_views(state.commands@).map_values(
        |c: CommandView| said("[>] "@ + command_text(c)),
    );
    assert(message_views(messages@) == seq![said("available commands:"@)] + lines.take(0));
    let mut i: usize = 0;
    while i < state.commands.len()
        invariant
            i <= state.commands@.len(),
            lines == command_views(state.commands@).map_values(
                |c: CommandView| said("[>] "@ + command_text(c)),
            ),
            message_views(messages@) == seq![said("available commands:"@)] + lines.take(i as int),
        decreases state.commands@.len() - i,
    {
        let mut text = String::from_str("[>] ");
        text.append(state.commands[i].to_string().as_str());
        let message = Message::say(text);
        proof {
            assert(lines.take(i + 1) == lines.take(i as int).push(lines[i as int]));
            assert(message_views(messages@.push(message)) == message_views(messages@).push(
                message@,
            ));
        }
        messages.push(message);
        i += 1;
    }
    assert(lines.take(state.commands@.len() as int) == lines);
    Report::of(messages)
}

} // verus!
