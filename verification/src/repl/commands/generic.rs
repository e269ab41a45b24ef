//! The commands that speak to the gateway about its devices and itself.
use vstd::prelude::*;
use vstd::string::*;
use crate::api::complaint_text;
use crate::api::fetched;
use crate::api::responses::device_text;
use crate::api::responses::ConnectedDevice;
use crate::api::responses::ConnectedDeviceView;
use crate::api::Exchange;
use crate::repl::output::message_views;
use crate::repl::output::said;
use crate::repl::output::warned;
use crate::repl::output::Message;
use crate::repl::output::MessageView;
use crate::repl::output::Report;
use crate::repl::output::ReportView;
use crate::state::AppState;
use crate::utils::text::decimal;
use crate::utils::text::decimal_text;
use crate::repl::commands::Action;
use crate::repl::commands::Arg;
use crate::repl::commands::ArgType;
use crate::repl::commands::ArgView;
use crate::repl::commands::Command;
use crate::repl::commands::CommandView;

verus! {

/// The value of the `devices` command.
pub open spec fn devices_entry() -> CommandView {
    CommandView {
        name: "devices"@,
        description: "lists connected devices."@,
        args: None,
        run: Action::Devices,
    }
}

/// The value of the `device` command, which takes a MAC address.
pub open spec fn device_entry() -> CommandView {
    CommandView {
        name: "device"@,
        description: "lists information about a device"@,
        args: Some(seq![ArgView { name: "mac"@, typing: ArgType::String }]),
        run: Action::Device,
    }
}

/// The value of the `restart` command.
pub open spec fn restart_entry() -> CommandView {
    CommandView {
        name: "restart"@,
        description: "restarts the device."@,
        args: None,
        run: Action::Restart,
    }
}

/// The command that lists the connected devices.
pub fn devices() -> (command: Command)
    ensures
        command@ == devices_entry(),
{
    Command {
        name: "devices",
        description: "lists connected devices.",
        args: None,
        run: Action::Devices,
    }
}

/// The command that shows one connected device.
pub fn device() -> (command: Command)
    ensures
        command@ == device_entry(),
{
    let args = vec![Arg { name: "mac", typing: ArgType::String }];
    assert(args@.map_values(|a: Arg| a@) == seq![
        ArgView { name: "mac"@, typing: ArgType::String },
    ]);
    Command {
        name: "device",
        description: "lists information about a device",
        args: Some(args),
        run: Action::Device,
    }
}

/// The command that restarts the gateway.
pub fn restart() -> (command: Command)
    ensures
        command@ == restart_entry(),
{
    Command {
        name: "restart",
        description: "restarts the device.",
        args: None,
        run: Action::Restart,
    }
}

/// The complaint about an exchange that brought no body, as the messages
/// to show: one for the standard error, or none.
pub open spec fn complaint_messages<T>(outcome: Exchange<T>) -> Seq<MessageView> {
    match complaint_text(outcome) {
        Some(text) => seq![warned(text)],
        None => Seq::empty(),
    }
}

/// Starts a report with the complaint about `outcome`, if there is one.
pub fn complain<T>(outcome: &Exchange<T>) -> (messages: Vec<Message>)
    ensures
        message_views(messages@) == complaint_messages(*outcome),
{
    let mut messages: Vec<Message> = Vec::new();
    match outcome.complaint() {
        Some(text) => {
            let ghost shown = text@;
            messages.push(Message::warn(text));
            assert(message_views(messages@) == seq![warned(shown)]);
        },
        None => {
            assert(message_views(messages@) == Seq::<MessageView>::empty());
        },
    }
    messages
}

/// The values of a list of devices.
pub open spec fn device_views(devices: Seq<ConnectedDevice>) -> Seq<ConnectedDeviceView> {
    devices.map_values(|d: ConnectedDevice| d@)
}

/// The line that stands above a list of `count` devices.
pub open spec fn devices_heading(count: nat) -> Seq<char> {
    if count > 1 {
        "[#] "@ + decimal_text(count) + " devices found:"@
    } else {
        "[#] "@ + decimal_text(count) + " device found:"@
    }
}

/// What `devices` shows: that the list could not be read, that no device is
/// connected, or a heading and the card of each device in the order of the
/// list.
pub open spec fn devices_messages(found: Option<Seq<ConnectedDeviceView>>) -> Seq<MessageView> {
    match found {
        None => seq![said("failed to read devices."@)],
        Some(devices) => if devices.len() == 0 {
            seq![said("[#] found no device connected."@)]
        } else {
            seq![said(devices_heading(devices.len()))] + devices.map_values(
                |d: ConnectedDeviceView| said(device_text(d)),
            )
        },
    }
}

/// The devices that an exchange brought, as values.
pub open spec fn fetched_devices(outcome: Exchange<Vec<ConnectedDevice>>) -> Option<
    Seq<ConnectedDeviceView>,
> {
    match fetched(outcome) {
        Some(devices) => Some(device_views(devices@)),
        None => None,
    }
}

/// Runs `devices`, given what became of the request for the list: shows the
/// complaint about the exchange, if there is one, and then what was found.
/// An empty list is no failure.
pub fn run_devices(state: &AppState, outcome: Exchange<Vec<ConnectedDevice>>) -> (report: Report)
    ensures
        report@ == (ReportView {
            messages: complaint_messages(outcome) + devices_messages(fetched_devices(outcome)),
            leave: false,
        }),
{
    let mut messages = complain(&outcome);
    let ghost complaints = message_views(messages@);
    match state.api.connected_devices(outcome) {
        Some(devices) => {
            let count = devices.len();
            let ghost cards = device_views(devices@).map_values(
                |d: ConnectedDeviceView| said(device_text(d)),
            );
            if count == 0 {
                let text = String::from_str("[#] found no device connected.");
                messages.push(Message::say(text));
                assert(message_views(messages@) == complaints + seq![
                    said("[#] found no device connected."@),
                ]);
            } else {
                let mut heading = String::from_str("[#] ");
                heading.append(decimal(count).as_str());
                if count > 1 {
                    heading.append(" devices found:");
                } else {
                    heading.append(" device found:");
                }
                messages.push(Message::say(heading));
                assert(message_views(messages@) == complaints + seq![
                    said(devices_heading(count as nat)),
                ] + cards.take(0));
                let mut i: usize = 0;
                while i < count
                    invariant
                        i <= count == devices@.len(),
                        cards == device_views(devices@).map_values(
                            |d: ConnectedDeviceView| said(device_text(d)),
                        ),
                        message_views(messages@) == complaints + seq![
                            said(devices_heading(count as nat)),
                        ] + cards.take(i as int),
                    decreases count - i,
                {
                    let card = Message::say(devices[i].to_string());
                    proof {
                        assert(cards.take(i + 1) == cards.take(i as int).push(cards[i as int]));
                        assert(message_views(messages@.push(card)) == message_views(
                            messages@,
                        ).push(card@));
                    }
                    messages.push(card);
                    i += 1;
                }
                assert(cards.take(count as int) == cards);
            }
        },
        None => {
            messages.push(Message::say(String::from_str("failed to read devices.")));
            assert(message_views(messages@) == complaints + seq![said("failed to read devices."@)]);
        },
    }
    Report::of(messages)
}

/// What `device` shows for the address `mac`: the card of the device, or
/// that none was found.
pub open spec fn device_message(mac: Seq<char>, found: Option<ConnectedDeviceView>) -> MessageView {
    match found {
        Some(device) => said(device_text(device)),
        None => said("no device with address '"@ + mac + "' found."@),
    }
}

/// The device that an exchange brought, as a value.
pub open spec fn fetched_device(outcome: Exchange<ConnectedDevice>) -> Option<ConnectedDeviceView> {
    match fetched(outcome) {
        Some(device) => Some(device@),
        None => None,
    }
}

/// Runs `device`, given what became of the request for the device whose
/// address is the first argument: shows the complaint about the exchange, if
/// there is one, and then the device or that there is none.
pub fn run_device(
    state: &AppState,
    args: &Vec<&str>,
    outcome: Exchange<ConnectedDevice>,
) -> (report: Report)
    requires
        args@.len() >= 1,
    ensures
        report@ == (ReportView {
            messages: complaint_messages(outcome).push(
                device_message(args@[0]@, fetched_device(outcome)),
            ),
            leave: false,
        }),
{
    let mac = args[0];
    let mut messages = complain(&outcome);
    let ghost complaints = message_views(messages@);
    let message = match state.api.connected_device(outcome) {
        Some(device) => Message::say(device.to_string()),
        None => {
            let mut text = String::from_str("no device with address '");
            text.append(mac);
            text.append("' found.");
            Message::say(text)
        },
    };
    assert(message_views(messages@.push(message)) == complaints.push(message@));
    messages.push(message);
    Report::of(messages)
}

/// What `restart` shows and whether the shell ends: it ends when the gateway
/// took the order, since the gateway then goes down.
pub open spec fn restart_report(taken: bool) -> ReportView {
    if taken {
        ReportView { messages: seq![said("restarting..."@)], leave: true }
    } else {
        ReportView { messages: seq![said("failed to restart the device."@)], leave: false }
    }
}

/// Runs `restart`, given what became of the request.
pub fn run_restart(state: &AppState, outcome: Exchange<()>) -> (report: Report)
    ensures
        report@ == restart_report(outcome is Answered),
{
    match state.api.restart(outcome) {
        Ok(_) => {
            let messages = vec![Message::say(String::from_str("restarting..."))];
            assert(message_views(messages@) == seq![said("restarting..."@)]);
            Report { messages, leave: true }
        },
        Err(_) => {
            let messages = vec![Message::say(String::from_str("failed to restart the device."))];
            assert(message_views(messages@) == seq![said("failed to restart the device."@)]);
            Report { messages, leave: false }
        },
    }
}

} // verus!
