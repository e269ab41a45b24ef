//! The commands about the local network.
use vstd::prelude::*;
use vstd::string::*;
use crate::api::LanStatus;
use crate::repl::output::message_views;
use crate::repl::output::said;
use crate::repl::output::warned;
use crate::repl::output::Message;
use crate::repl::output::MessageView;
use crate::repl::output::Report;
use crate::repl::output::ReportView;
use crate::state::AppState;
use crate::utils::text::decimal;
use crate::utils::text::decimal_text;
use crate::utils::text::string_texts;
use crate::repl::commands::Action;
use crate::repl::commands::Command;
use crate::repl::commands::CommandView;

verus! {

/// The value of the `lan-status` command.
pub open spec fn status_entry() -> CommandView {
    CommandView {
        name: "lan-status"@,
        description: "lists the status of the local network (LAN)."@,
        args: None,
        run: Action::LanStatus,
    }
}

/// The command that shows the state of the local network.
pub fn status() -> (command: Command)
    ensures
        command@ == status_entry(),
{
    Command {
        name: "lan-status",
        description: "lists the status of the local network (LAN).",
        args: None,
        run: Action::LanStatus,
    }
}

/// The line for the IPv6 address at position `i` of the list, counted from
/// one.
pub open spec fn ip6_line(i: int, address: Seq<char>) -> Seq<char> {
    "  [IPv6 address #"@ + decimal_text((i + 1) as nat) + "] "@ + address
}

/// The lines for a list of IPv6 addresses.
pub open spec fn ip6_messages(addresses: Seq<Seq<char>>) -> Seq<MessageView> {
    Seq::new(addresses.len(), |i: int| said(ip6_line(i, addresses[i])))
}

/// What `lan-status` shows: a heading, the IPv4 address, the subnet mask,
/// the MAC address and each IPv6 address; or, on the standard error, that
/// the status could not be had.
pub open spec fn status_messages(found: Option<LanStatus>) -> Seq<MessageView> {
    match found {
        Some(status) => seq![
            said("<LAN>"@),
            said("  [IPv4 address] "@ + status.ip4@),
            said("  [subnet mask] "@ + status.netmask@),
            said("  [MAC address] "@ + status.mac@),
        ] + ip6_messages(string_texts(status.ip6_list@)),
        None => seq![warned("failed to request the status of the local network."@)],
    }
}

fn labelled(label: &str, value: &str) -> (message: Message)
    ensures
        message@ == said(label@ + value@),
{
    let mut text = String::from_str(label);
    text.append(value);
    Message::say(text)
}

/// Writes down the state of the local network, or that there is none to
/// show.
pub fn show_status(found: &Option<LanStatus>) -> (messages: Vec<Message>)
    ensures
        message_views(messages@) == status_messages(*found),
{
    match found {
        Some(status) => {
            let mut messages = vec![
                Message::say(String::from_str("<LAN>")),
                labelled("  [IPv4 address] ", status.ip4.as_str()),
                labelled("  [subnet mask] ", status.netmask.as_str()),
                labelled("  [MAC address] ", status.mac.as_str()),
            ];
            let ghost head = message_views(messages@);
            let ghost addresses = string_texts(status.ip6_list@);
            assert(head == seq![
                said("<LAN>"@),
                said("  [IPv4 address] "@ + status.ip4@),
                said("  [subnet mask] "@ + status.netmask@),
                said("  [MAC address] "@ + status.mac@),
            ]);
            assert(head + ip6_messages(addresses).take(0) == head);
            let mut i: usize = 0;
            while i < status.ip6_list.len()
                invariant
                    i <= status.ip6_list@.len(),
                    addresses == string_texts(status.ip6_list@),
                    message_views(messages@) == head + ip6_messages(addresses).take(i as int),
                decreases status.ip6_list@.len() - i,
            {
                let mut text = String::from_str("  [IPv6 address #");
                text.append(decimal(i + 1).as_str());
                text.append("] ");
                text.append(status.ip6_list[i].as_str());
                let message = Message::say(text);
                proof {
                    let all = ip6_messages(addresses);
                    assert(message@ == all[i as int]);
                    assert(all.take(i + 1) == all.take(i as int).push(all[i as int]));
                    assert(message_views(messages@.push(message)) == message_views(
                        messages@,
                    ).push(message@));
                }
                messages.push(message);
                i += 1;
            }
            assert(ip6_messages(addresses).take(status.ip6_list@.len() as int) == ip6_messages(
                addresses,
            ));
            messages
        },
        None => {
            let messages = vec![
                Message::warn(
                    String::from_str("failed to request the status of the local network."),
                ),
            ];
            assert(message_views(messages@) == seq![
                warned("failed to request the status of the local network."@),
            ]);
            messages
        },
    }
}

/// Runs `lan-status`: shows what the client has of the local network.
pub fn run_status(state: &AppState) -> (report: Report)
    ensures
        report@ == (ReportView { messages: status_messages(None), leave: false }),
{
    let found = state.api.lan_status();
    Report::of(show_status(&found))
}

} // verus!
