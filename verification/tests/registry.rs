use gf1200_cli::repl::commands::find_command;
use gf1200_cli::repl::commands::generic::device;
use gf1200_cli::repl::commands::generic::devices;
use gf1200_cli::repl::commands::generic::restart;
use gf1200_cli::repl::commands::lan::status;
use gf1200_cli::repl::commands::list_commands;
use gf1200_cli::repl::commands::repl::help;
use gf1200_cli::repl::commands::Action;
use gf1200_cli::repl::commands::Arg;
use gf1200_cli::repl::commands::ArgType;
use gf1200_cli::repl::commands::Command;

#[test]
fn the_commands_in_their_order() {
    let names: Vec<&str> = list_commands().iter().map(|c| c.name).collect();
    assert_eq!(names, vec!["devices", "device", "restart", "lan-status", "help"]);
    assert_eq!(list_commands(), vec![devices(), device(), restart(), status(), help()]);
    assert_eq!(list_commands(), list_commands());
}

#[test]
fn what_each_command_is() {
    assert_eq!(
        devices(),
        Command {
            name: "devices",
            description: "lists connected devices.",
            args: None,
            run: Action::Devices,
        }
    );
    assert_eq!(
        device(),
        Command {
            name: "device",
            description: "lists information about a device",
            args: Some(vec![Arg { name: "mac", typing: ArgType::String }]),
            run: Action::Device,
        }
    );
    assert_eq!(restart().run, Action::Restart);
    assert_eq!(restart().args, None);
    assert_eq!(status().name, "lan-status");
    assert_eq!(status().run, Action::LanStatus);
    assert_eq!(help().run, Action::Help);
}

#[test]
fn find_command_round_trip() {
    assert_eq!(find_command("devices").unwrap().name, "devices");
    assert_eq!(find_command("nonexistent"), None);
}

#[test]
fn every_listed_command_is_found_under_its_name() {
    for command in list_commands() {
        assert_eq!(find_command(command.name), Some(command));
    }
}

#[test]
fn lookup_is_exact() {
    for name in ["", "Devices", "DEVICES", "devices ", " devices", "dev", "devicess", "exit", "lan"]
    {
        assert_eq!(find_command(name), None, "{name:?}");
    }
}

#[test]
fn names_are_unique() {
    let commands = list_commands();
    for (i, a) in commands.iter().enumerate() {
        for b in commands.iter().skip(i + 1) {
            assert_ne!(a.name, b.name);
        }
    }
}

#[test]
fn how_commands_are_listed() {
    assert_eq!(devices().to_string(), "devices - lists connected devices.");
    assert_eq!(device().to_string(), "device <mac (string)> - lists information about a device");
    assert_eq!(restart().to_string(), "restart - restarts the device.");
    assert_eq!(
        status().to_string(),
        "lan-status - lists the status of the local network (LAN)."
    );
    assert_eq!(help().to_string(), "help - lists all commands.");
    let two = Command {
        name: "ping",
        description: "pings.",
        args: Some(vec![
            Arg { name: "host", typing: ArgType::IpAddress },
            Arg { name: "loud", typing: ArgType::Bool },
        ]),
        run: Action::Help,
    };
    assert_eq!(two.to_string(), "ping <host (IPv4/6 address)> <loud (boolean)> - pings.");
    let none = Command { name: "nop", description: "nothing.", args: Some(vec![]), run: Action::Help };
    assert_eq!(none.to_string(), "nop - nothing.");
}

#[test]
fn how_parameters_are_shown() {
    let arg = Arg { name: "mac", typing: ArgType::String };
    assert_eq!(arg.to_string(), "<mac (string)>");
    assert_eq!(arg.detail(), "Arg { name: \"mac\", typing: any string }");
}
