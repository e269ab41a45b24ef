use gf1200_cli::repl::commands::find_command;
use gf1200_cli::repl::commands::generic::device;
use gf1200_cli::repl::commands::list_commands;
use gf1200_cli::repl::commands::Action;
use gf1200_cli::repl::commands::Arg;
use gf1200_cli::repl::commands::ArgType;
use gf1200_cli::repl::commands::ArgValidationError;
use gf1200_cli::repl::commands::Command;

fn command(args: Option<Vec<Arg>>) -> Command {
    Command { name: "probe", description: "a command for trying things.", args, run: Action::Help }
}

fn three() -> Vec<Arg> {
    vec![
        Arg { name: "host", typing: ArgType::IpAddress },
        Arg { name: "on", typing: ArgType::Bool },
        Arg { name: "label", typing: ArgType::String },
    ]
}

#[test]
fn commands_without_parameters_take_nothing() {
    for declared in list_commands() {
        if declared.args.is_none() {
            assert_eq!(declared.validate_args(&vec![]), Ok(()), "{}", declared.name);
            assert_eq!(
                declared.validate_args(&vec!["anything"]),
                Err(ArgValidationError::CommandTakesNoArgs),
                "{}",
                declared.name
            );
            assert_eq!(
                declared.validate_args(&vec!["a", "b", "c"]),
                Err(ArgValidationError::CommandTakesNoArgs),
                "{}",
                declared.name
            );
        }
    }
}

#[test]
fn an_empty_parameter_list_takes_nothing_either() {
    let declared = command(Some(vec![]));
    assert_eq!(declared.validate_args(&vec![]), Ok(()));
    assert_eq!(declared.validate_args(&vec!["x"]), Err(ArgValidationError::ExtraArgs(1)));
}

#[test]
fn one_too_many_is_one_extra() {
    let declared = command(Some(three()));
    assert_eq!(
        declared.validate_args(&vec!["10.0.0.1", "true", "x", "y"]),
        Err(ArgValidationError::ExtraArgs(1))
    );
    assert_eq!(
        declared.validate_args(&vec!["not", "of", "any", "type"]),
        Err(ArgValidationError::ExtraArgs(1))
    );
    assert_eq!(
        declared.validate_args(&vec!["a", "b", "c", "d", "e", "f"]),
        Err(ArgValidationError::ExtraArgs(3))
    );
}

#[test]
fn one_too_few_misses_the_last_parameter() {
    let declared = command(Some(three()));
    assert_eq!(
        declared.validate_args(&vec!["10.0.0.1", "true"]),
        Err(ArgValidationError::Missing(vec![Arg { name: "label", typing: ArgType::String }]))
    );
    assert_eq!(
        declared.validate_args(&vec!["wrong", "wrong"]),
        Err(ArgValidationError::Missing(vec![Arg { name: "label", typing: ArgType::String }]))
    );
    assert_eq!(
        declared.validate_args(&vec!["10.0.0.1"]),
        Err(ArgValidationError::Missing(vec![
            Arg { name: "on", typing: ArgType::Bool },
            Arg { name: "label", typing: ArgType::String },
        ]))
    );
    assert_eq!(declared.validate_args(&vec![]), Err(ArgValidationError::Missing(three())));
}

#[test]
fn the_first_wrong_type_is_reported() {
    let declared = command(Some(three()));
    assert_eq!(declared.validate_args(&vec!["10.0.0.1", "true", "x"]), Ok(()));
    assert_eq!(declared.validate_args(&vec!["::1", "0", ""]), Ok(()));
    assert_eq!(
        declared.validate_args(&vec!["10.0.0.1", "maybe", "x"]),
        Err(ArgValidationError::WrongType {
            arg: Arg { name: "on", typing: ArgType::Bool },
            found: ArgType::String,
        })
    );
    assert_eq!(
        declared.validate_args(&vec!["true", "maybe", "x"]),
        Err(ArgValidationError::WrongType {
            arg: Arg { name: "host", typing: ArgType::IpAddress },
            found: ArgType::Bool,
        })
    );
    assert_eq!(
        declared.validate_args(&vec!["10.0.0.1", "10.0.0.2", "x"]),
        Err(ArgValidationError::WrongType {
            arg: Arg { name: "on", typing: ArgType::Bool },
            found: ArgType::IpAddress,
        })
    );
}

#[test]
fn device_without_address_misses_mac() {
    let declared = find_command("device").unwrap();
    assert_eq!(
        declared.validate_args(&vec![]),
        Err(ArgValidationError::Missing(vec![Arg { name: "mac", typing: ArgType::String }]))
    );
}

#[test]
fn device_with_two_words_has_one_extra() {
    let declared = device();
    assert_eq!(
        declared.validate_args(&vec!["AA:BB:CC:DD:EE:FF", "extra"]),
        Err(ArgValidationError::ExtraArgs(1))
    );
    assert_eq!(declared.validate_args(&vec!["AA:BB:CC:DD:EE:FF"]), Ok(()));
}

#[test]
fn messages_of_the_errors() {
    assert_eq!(
        ArgValidationError::CommandTakesNoArgs.to_string(),
        "this command takes no arguments."
    );
    assert_eq!(
        ArgValidationError::ExtraArgs(1).to_string(),
        "this command takes 1 fewer arguments."
    );
    assert_eq!(
        ArgValidationError::ExtraArgs(120).to_string(),
        "this command takes 120 fewer arguments."
    );
    assert_eq!(
        ArgValidationError::Missing(vec![Arg { name: "mac", typing: ArgType::String }])
            .to_string(),
        "required arguments: [Arg { name: \"mac\", typing: any string }]"
    );
    assert_eq!(
        ArgValidationError::Missing(three()).to_string(),
        "required arguments: [Arg { name: \"host\", typing: a valid IPv4 or IPv6 address }, \
         Arg { name: \"on\", typing: one of: '0', '1', 'true' or 'false' }, \
         Arg { name: \"label\", typing: any string }]"
    );
    assert_eq!(ArgValidationError::Missing(vec![]).to_string(), "required arguments: []");
    assert_eq!(
        ArgValidationError::WrongType {
            arg: Arg { name: "on", typing: ArgType::Bool },
            found: ArgType::IpAddress,
        }
        .to_string(),
        "expected argument: <on (boolean)>, but received IPv4/6 address."
    );
}
