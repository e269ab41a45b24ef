//! The commands of the shell, their parameters, and the validation of the
//! arguments that an operator gives them.
use vstd::prelude::*;
use vstd::string::*;
use crate::repl::commands::generic::device;
use crate::repl::commands::generic::device_entry;
use crate::repl::commands::generic::devices;
use crate::repl::commands::generic::devices_entry;
use crate::repl::commands::generic::restart;
use crate::repl::commands::generic::restart_entry;
use crate::repl::commands::lan::status;
use crate::repl::commands::lan::status_entry;
use crate::repl::commands::repl::help;
use crate::repl::commands::repl::help_entry;
use crate::utils::ip::ip_text;
use crate::utils::ip::is_ip;
use crate::utils::text::chars_of;
use crate::utils::text::decimal;
use crate::utils::text::decimal_text;
use crate::utils::text::join;
use crate::utils::text::join_text;
use crate::utils::text::same_text;
use crate::utils::text::string_texts;

pub mod generic;
pub mod lan;
pub mod repl;

verus! {

/// The values of a list of commands.
pub open spec fn command_views(commands: Seq<Command>) -> Seq<CommandView> {
    commands.map_values(|c: Command| c@)
}

/// The commands of the shell, in the order in which they are listed.
pub open spec fn registry() -> Seq<CommandView> {
    seq![devices_entry(), device_entry(), restart_entry(), status_entry(), help_entry()]
}

/// The first of `entries`, from `from` on, that is called `name`.
pub open spec fn first_named(entries: Seq<CommandView>, name: Seq<char>, from: int) -> Option<
    CommandView,
>
    decreases entries.len() - from,
{
    if from < 0 || from >= entries.len() {
        None
    } else if entries[from].name == name {
        Some(entries[from])
    } else {
        first_named(entries, name, from + 1)
    }
}

/// The command of the shell that is called `name`, letter for letter.
pub open spec fn lookup(name: Seq<char>) -> Option<CommandView> {
    first_named(registry(), name, 0)
}

/// Gets a list of all registered commands.
pub fn list_commands() -> (commands: Vec<Command>)
    ensures
        command_views(commands@) == registry(),
{
    let commands = vec![devices(), device(), restart(), status(), help()];
    assert(command_views(commands@) == registry());
    commands
}

/// Finds the command that is called `name`, if there is one.
pub fn find_command(name: &str) -> (found: Option<Command>)
    ensures
        match found {
            Some(command) => lookup(name@) == Some(command@),
            None => lookup(name@) is None,
        },
{
    let mut commands = list_commands();
    let ghost entries = command_views(commands@);
    let mut i: usize = 0;
    while i < commands.len()
        invariant
            i <= commands@.len(),
            entries == registry(),
            entries == command_views(commands@),
            lookup(name@) == first_named(entries, name@, i as int),
        decreases commands@.len() - i,
    {
        assert(entries[i as int] == commands@[i as int]@);
        if same_text(commands[i].name, name) {
            let command = commands.swap_remove(i);
            return Some(command);
        }
        i += 1;
    }
    None
}

/// No two commands of the shell share a name.
pub proof fn law_names_are_unique()
    ensures
        forall|i: int, j: int|
            0 <= i < j < registry().len() ==> (#[trigger] registry()[i]).name != (
            #[trigger] registry()[j]).name,
{
    reveal_strlit("devices");
    reveal_strlit("device");
    reveal_strlit("restart");
    reveal_strlit("lan-status");
    reveal_strlit("help");
    let names = registry();
    assert(names.len() == 5);
    assert(names[0].name.len() == 7 && names[0].name[0] == 'd');
    assert(names[1].name.len() == 6);
    assert(names[2].name.len() == 7 && names[2].name[0] == 'r');
    assert(names[3].name.len() == 10);
    assert(names[4].name.len() == 4);
    assert forall|i: int, j: int| 0 <= i < j < names.len() implies (#[trigger] names[i]).name != (
    #[trigger] names[j]).name by {
        if i == 0 && j == 2 {
            assert(names[i].name[0] != names[j].name[0]);
        } else {
            assert(names[i].name.len() != names[j].name.len());
        }
    }
}

/// What `first_named` finds from `from` on: the first entry of that name, or
/// nothing when no entry from there on has it.
pub proof fn lemma_first_named(entries: Seq<CommandView>, name: Seq<char>, from: int)
    requires
        0 <= from <= entries.len(),
    ensures
        match first_named(entries, name, from) {
            Some(entry) => exists|i: int|
                {
                    &&& from <= i < entries.len()
                    &&& entry == #[trigger] entries[i]
                    &&& entry.name == name
                    &&& forall|j: int| from <= j < i ==> (#[trigger] entries[j]).name != name
                },
            None => forall|j: int|
                from <= j < entries.len() ==> (#[trigger] entries[j]).name != name,
        },
    decreases entries.len() - from,
{
    if from < entries.len() && entries[from].name != name {
        lemma_first_named(entries, name, from + 1);
    }
}

/// Looking up the name of a command of the shell finds that very command.
pub proof fn law_lookup_finds_each(i: int)
    requires
        0 <= i < registry().len(),
    ensures
        lookup(registry()[i].name) == Some(registry()[i]),
{
    law_names_are_unique();
    lemma_first_named(registry(), registry()[i].name, 0);
}

/// A lookup finds a command of the shell under the name that was asked for,
/// or nothing when no command has that name.
pub proof fn law_lookup(name: Seq<char>)
    ensures
        match lookup(name) {
            Some(entry) => entry.name == name && registry().contains(entry),
            None => forall|i: int|
                0 <= i < registry().len() ==> (#[trigger] registry()[i]).name != name,
        },
{
    lemma_first_named(registry(), name, 0);
}

/// The kinds of value that a parameter can ask for.
#[derive(Clone, Copy, PartialEq, Eq, Debug, Structural)]
pub enum ArgType {
    /// Any text.
    String,
    /// One of the literals `0`, `1`, `true`, `false`.
    Bool,
    /// An IPv4 or IPv6 address literal.
    IpAddress,
}

/// Whether `raw` is one of the four boolean literals.
pub open spec fn bool_text(raw: Seq<char>) -> bool {
    raw == "0"@ || raw == "1"@ || raw == "true"@ || raw == "false"@
}

impl ArgType {
    /// Whether a value written as `raw` is of this type.
    pub open spec fn accepts(self, raw: Seq<char>) -> bool {
        match self {
            ArgType::String => true,
            ArgType::Bool => bool_text(raw),
            ArgType::IpAddress => ip_text(raw),
        }
    }

    /// The most specific type of a value written as `raw`: boolean before
    /// address, address before plain text.
    pub open spec fn inferred(raw: Seq<char>) -> ArgType {
        if bool_text(raw) {
            ArgType::Bool
        } else if ip_text(raw) {
            ArgType::IpAddress
        } else {
            ArgType::String
        }
    }

    /// The short name shown to the operator.
    pub open spec fn name(self) -> Seq<char> {
        match self {
            ArgType::String => "string"@,
            ArgType::Bool => "boolean"@,
            ArgType::IpAddress => "IPv4/6 address"@,
        }
    }

    /// The longer description of the values that are accepted.
    pub open spec fn description(self) -> Seq<char> {
        match self {
            ArgType::String => "any string"@,
            ArgType::Bool => "one of: '0', '1', 'true' or 'false'"@,
            ArgType::IpAddress => "a valid IPv4 or IPv6 address"@,
        }
    }

    /// Checks for what type a `value` would be.
    pub fn from_value(value: &str) -> (found: Self)
        ensures
            found == Self::inferred(value@),
    {
        if ArgType::Bool.matches(value) {
            ArgType::Bool
        } else if ArgType::IpAddress.matches(value) {
            ArgType::IpAddress
        } else {
            ArgType::String
        }
    }

    /// Checks if `value` matches this type.
    pub fn matches(&self, value: &str) -> (yes: bool)
        ensures
            yes == self.accepts(value@),
    {
        match self {
            ArgType::Bool => same_text(value, "0") || same_text(value, "1") || same_text(
                value,
                "true",
            ) || same_text(value, "false"),
            ArgType::IpAddress => {
                let chars = chars_of(value);
                is_ip(chars.as_slice())
            },
            ArgType::String => true,
        }
    }

    /// The short name of this type, as text.
    pub fn to_string(&self) -> (text: String)
        ensures
            text@ == self.name(),
    {
        match self {
            ArgType::String => String::from_str("string"),
            ArgType::Bool => String::from_str("boolean"),
            ArgType::IpAddress => String::from_str("IPv4/6 address"),
        }
    }

    /// The description of the accepted values, as text.
    pub fn describe(&self) -> (text: String)
        ensures
            text@ == self.description(),
    {
        match self {
            ArgType::String => String::from_str("any string"),
            ArgType::Bool => String::from_str("one of: '0', '1', 'true' or 'false'"),
            ArgType::IpAddress => String::from_str("a valid IPv4 or IPv6 address"),
        }
    }
}

/// The type that is inferred for a value always accepts that value.
pub proof fn law_inferred_type_accepts(raw: Seq<char>)
    ensures
        ArgType::inferred(raw).accepts(raw),
{
}

/// One parameter of a command: what it is called and what it accepts.
#[derive(Clone, Copy, PartialEq, Eq, Debug)]
pub struct Arg {
    pub name: &'static str,
    pub typing: ArgType,
}

/// The mathematical value of an [`Arg`].
pub ghost struct ArgView {
    pub name: Seq<char>,
    pub typing: ArgType,
}

impl View for Arg {
    type V = ArgView;

    open spec fn view(&self) -> ArgView {
        ArgView { name: self.name@, typing: self.typing }
    }
}

/// How a parameter is shown in a command's synopsis: `<name (type)>`.
pub open spec fn arg_text(arg: ArgView) -> Seq<char> {
    "<"@ + arg.name + " ("@ + arg.typing.name() + ")>"@
}

/// How a parameter is shown in full: its name in quotes and the description
/// of what it accepts.
pub open spec fn arg_detail(arg: ArgView) -> Seq<char> {
    "Arg { name: \""@ + arg.name + "\", typing: "@ + arg.typing.description() + " }"@
}

impl Arg {
    /// The parameter as it stands in a synopsis.
    pub fn to_string(&self) -> (text: String)
        ensures
            text@ == arg_text(self@),
    {
        let mut text = String::from_str("<");
        text.append(self.name);
        text.append(" (");
        text.append(self.typing.to_string().as_str());
        text.append(")>");
        text
    }

    /// The parameter in full.
    pub fn detail(&self) -> (text: String)
        ensures
            text@ == arg_detail(self@),
    {
        let mut text = String::from_str("Arg { name: \"");
        text.append(self.name);
        text.append("\", typing: ");
        text.append(self.typing.describe().as_str());
        text.append(" }");
        text
    }
}

/// The values of a list of parameters.
pub open spec fn arg_views(args: Seq<Arg>) -> Seq<ArgView> {
    args.map_values(|a: Arg| a@)
}

/// The texts of a list of given arguments.
pub open spec fn given_texts(given: Seq<&str>) -> Seq<Seq<char>> {
    given.map_values(|g: &str| g@)
}

/// Why a list of given arguments does not fit a command.
#[derive(Clone, PartialEq, Eq, Debug)]
pub enum ArgValidationError {
    /// Arguments were given to a command that declares no parameters.
    CommandTakesNoArgs,
    /// More arguments were given than the command has parameters, by this
    /// many.
    ExtraArgs(usize),
    /// Fewer arguments were given than the command has parameters; these
    /// parameters got none.
    Missing(Vec<Arg>),
    /// The argument for `arg` is not of its type; it looks like a `found`.
    WrongType { arg: Arg, found: ArgType },
}

/// The mathematical value of an [`ArgValidationError`].
pub ghost enum ArgValidationFault {
    CommandTakesNoArgs,
    ExtraArgs(nat),
    Missing(Seq<ArgView>),
    WrongType { arg: ArgView, found: ArgType },
}

impl View for ArgValidationError {
    type V = ArgValidationFault;

    open spec fn view(&self) -> ArgValidationFault {
        match self {
            ArgValidationError::CommandTakesNoArgs => ArgValidationFault::CommandTakesNoArgs,
            ArgValidationError::ExtraArgs(n) => ArgValidationFault::ExtraArgs(*n as nat),
            ArgValidationError::Missing(args) => ArgValidationFault::Missing(arg_views(args@)),
            ArgValidationError::WrongType { arg, found } => ArgValidationFault::WrongType {
                arg: arg@,
                found: *found,
            },
        }
    }
}

/// The message that tells the operator of a fault.
pub open spec fn fault_text(fault: ArgValidationFault) -> Seq<char> {
    match fault {
        ArgValidationFault::CommandTakesNoArgs => "this command takes no arguments."@,
        ArgValidationFault::ExtraArgs(n) => "this command takes "@ + decimal_text(n)
            + " fewer arguments."@,
        ArgValidationFault::Missing(args) => "required arguments: ["@ + join_text(
            args.map_values(|a: ArgView| arg_detail(a)),
            ", "@,
        ) + "]"@,
        ArgValidationFault::WrongType { arg, found } => "expected argument: "@ + arg_text(arg)
            + ", but received "@ + found.name() + "."@,
    }
}

impl ArgValidationError {
    /// The message for the operator.
    pub fn to_string(&self) -> (text: String)
        ensures
            text@ == fault_text(self@),
    {
        match self {
            ArgValidationError::CommandTakesNoArgs => String::from_str(
                "this command takes no arguments.",
            ),
            ArgValidationError::ExtraArgs(n) => {
                let mut text = String::from_str("this command takes ");
                text.append(decimal(*n).as_str());
                text.append(" fewer arguments.");
                text
            },
            ArgValidationError::Missing(args) => {
                let mut details: Vec<String> = Vec::new();
                let mut i: usize = 0;
                while i < args.len()
                    invariant
                        i <= args@.len(),
                        string_texts(details@) == arg_views(args@).map_values(
                            |a: ArgView| arg_detail(a),
                        ).take(i as int),
                    decreases args@.len() - i,
                {
                    let detail = args[i].detail();
                    proof {
                        let all = arg_views(args@).map_values(|a: ArgView| arg_detail(a));
                        assert(all.take(i + 1) == all.take(i as int).push(all[i as int]));
                        assert(string_texts(details@.push(detail)) == string_texts(details@).push(
                            detail@,
                        ));
                    }
                    details.push(detail);
                    i += 1;
                }
                proof {
                    let all = arg_views(args@).map_values(|a: ArgView| arg_detail(a));
                    assert(all.take(args@.len() as int) == all);
                }
                let mut text = String::from_str("required arguments: [");
                text.append(join(&details, ", ").as_str());
                text.append("]");
                text
            },
            ArgValidationError::WrongType { arg, found } => {
                let mut text = String::from_str("expected argument: ");
                text.append(arg.to_string().as_str());
                text.append(", but received ");
                text.append(found.to_string().as_str());
                text.append(".");
                text
            },
        }
    }
}

/// The first position from `from` on at which the given text is not of the
/// declared type, if there is one. Both lists have the same length.
pub open spec fn first_mismatch(declared: Seq<ArgView>, given: Seq<Seq<char>>, from: int) -> Option<
    int,
>
    decreases declared.len() - from,
{
    if from < 0 || from >= declared.len() {
        None
    } else if !declared[from].typing.accepts(given[from]) {
        Some(from)
    } else {
        first_mismatch(declared, given, from + 1)
    }
}

/// What the validation of `given` against the parameters `declared` finds.
///
/// A command without parameters takes no arguments. Otherwise the count is
/// checked before any type, and of the arguments of a wrong type only the
/// first is reported, with the type that its text looks like.
pub open spec fn validation(declared: Option<Seq<ArgView>>, given: Seq<Seq<char>>) -> Result<
    (),
    ArgValidationFault,
> {
    match declared {
        None => if given.len() == 0 {
            Ok(())
        } else {
            Err(ArgValidationFault::CommandTakesNoArgs)
        },
        Some(params) => if given.len() > params.len() {
            Err(ArgValidationFault::ExtraArgs((given.len() - params.len()) as nat))
        } else if given.len() < params.len() {
            Err(ArgValidationFault::Missing(params.skip(given.len() as int)))
        } else {
            match first_mismatch(params, given, 0) {
                Some(i) => Err(
                    ArgValidationFault::WrongType {
                        arg: params[i],
                        found: ArgType::inferred(given[i]),
                    },
                ),
                None => Ok(()),
            }
        },
    }
}

/// What `first_mismatch` finds from `from` on: the least position that does
/// not fit, or nothing when every position fits.
pub proof fn lemma_first_mismatch(declared: Seq<ArgView>, given: Seq<Seq<char>>, from: int)
    requires
        0 <= from <= declared.len(),
    ensures
        match first_mismatch(declared, given, from) {
            Some(i) => {
                &&& from <= i < declared.len()
                &&& !declared[i].typing.accepts(given[i])
                &&& forall|j: int|
                    from <= j < i ==> (#[trigger] declared[j]).typing.accepts(given[j])
            },
            None => forall|j: int|
                from <= j < declared.len() ==> (#[trigger] declared[j]).typing.accepts(given[j]),
        },
    decreases declared.len() - from,
{
    if from < declared.len() && declared[from].typing.accepts(given[from]) {
        lemma_first_mismatch(declared, given, from + 1);
    }
}

/// A command that declares no parameters accepts the empty list of arguments
/// and rejects every other list in the same way.
pub proof fn law_no_parameters(given: Seq<Seq<char>>)
    ensures
        given.len() == 0 ==> validation(None, given) == Ok::<(), ArgValidationFault>(()),
        given.len() > 0 ==> validation(None, given) == Err::<(), ArgValidationFault>(
            ArgValidationFault::CommandTakesNoArgs,
        ),
{
}

/// One argument more than the command has parameters is reported as one
/// extra argument, whatever the arguments are.
pub proof fn law_one_too_many(declared: Seq<ArgView>, given: Seq<Seq<char>>)
    requires
        given.len() == declared.len() + 1,
    ensures
        validation(Some(declared), given) == Err::<(), ArgValidationFault>(
            ArgValidationFault::ExtraArgs(1),
        ),
{
}

/// One argument fewer than the command has parameters is reported as missing
/// exactly the last parameter.
pub proof fn law_one_too_few(declared: Seq<ArgView>, given: Seq<Seq<char>>)
    requires
        declared.len() >= 1,
        given.len() + 1 == declared.len(),
    ensures
        validation(Some(declared), given) == Err::<(), ArgValidationFault>(
            ArgValidationFault::Missing(seq![declared.last()]),
        ),
{
    assert(declared.skip(given.len() as int) == seq![declared.last()]);
}

/// The count is judged before any type: with a wrong count the outcome is an
/// error about the count, and it is the same for any arguments of that count.
pub proof fn law_count_before_types(
    declared: Seq<ArgView>,
    given: Seq<Seq<char>>,
    other: Seq<Seq<char>>,
)
    requires
        given.len() != declared.len(),
        other.len() == given.len(),
    ensures
        validation(Some(declared), given) == validation(Some(declared), other),
        validation(Some(declared), given) matches Err(e) && (e is ExtraArgs || e is Missing),
{
}

/// With the right count, validation succeeds exactly when every argument is
/// of its parameter's type.
pub proof fn law_accepts_when_all_fit(declared: Seq<ArgView>, given: Seq<Seq<char>>)
    requires
        given.len() == declared.len(),
    ensures
        validation(Some(declared), given) is Ok <==> forall|i: int|
            0 <= i < declared.len() ==> (#[trigger] declared[i]).typing.accepts(given[i]),
{
    lemma_first_mismatch(declared, given, 0);
}

/// With the right count, the first argument that is not of its parameter's
/// type is the one reported, with the type that its text looks like; what
/// comes after it plays no part.
pub proof fn law_first_wrong_type(declared: Seq<ArgView>, given: Seq<Seq<char>>, at: int)
    requires
        given.len() == declared.len(),
        0 <= at < declared.len(),
        !declared[at].typing.accepts(given[at]),
        forall|j: int| 0 <= j < at ==> (#[trigger] declared[j]).typing.accepts(given[j]),
    ensures
        validation(Some(declared), given) == Err::<(), ArgValidationFault>(
            ArgValidationFault::WrongType {
                arg: declared[at],
                found: ArgType::inferred(given[at]),
            },
        ),
{
    lemma_first_mismatch(declared, given, 0);
}

/// The value of a validation's outcome.
pub open spec fn outcome_view(outcome: Result<(), ArgValidationError>) -> Result<
    (),
    ArgValidationFault,
> {
    match outcome {
        Ok(()) => Ok(()),
        Err(e) => Err(e@),
    }
}

/// What running a command asks of the shell.
#[derive(Clone, Copy, PartialEq, Eq, Debug, Structural)]
pub enum Action {
    /// List the devices connected to the gateway.
    Devices,
    /// Show the device with the given MAC address.
    Device,
    /// Restart the gateway.
    Restart,
    /// Show the state of the local network.
    LanStatus,
    /// List the commands.
    Help,
}

/// A command of the shell.
#[derive(Clone, PartialEq, Eq, Debug)]
pub struct Command {
    /// A name to call this command in the shell.
    pub name: &'static str,
    /// What this command does.
    pub description: &'static str,
    /// A list of arguments this command takes, if any.
    pub args: Option<Vec<Arg>>,
    /// What to do when this command is called.
    pub run: Action,
}

/// The mathematical value of a [`Command`].
pub ghost struct CommandView {
    pub name: Seq<char>,
    pub description: Seq<char>,
    pub args: Option<Seq<ArgView>>,
    pub run: Action,
}

impl View for Command {
    type V = CommandView;

    open spec fn view(&self) -> CommandView {
        CommandView {
            name: self.name@,
            description: self.description@,
            args: match self.args {
                Some(args) => Some(arg_views(args@)),
                None => None,
            },
            run: self.run,
        }
    }
}

/// The parameters of a synopsis, divided by single spaces; empty for a
/// command without parameters.
pub open spec fn synopsis_args(args: Option<Seq<ArgView>>) -> Seq<char> {
    match args {
        Some(params) => join_text(params.map_values(|a: ArgView| arg_text(a)), " "@),
        None => Seq::empty(),
    }
}

/// How a command is listed: its name, its parameters if it has any, a dash
/// and its description.
pub open spec fn command_text(command: CommandView) -> Seq<char> {
    let line = synopsis_args(command.args);
    if line.len() > 0 {
        command.name + " "@ + line + " - "@ + command.description
    } else {
        command.name + " - "@ + command.description
    }
}

impl Command {
    /// The command as it is listed.
    pub fn to_string(&self) -> (text: String)
        ensures
            text@ == command_text(self@),
    {
        let line = match &self.args {
            Some(args) => {
                let mut shown: Vec<String> = Vec::new();
                let mut i: usize = 0;
                while i < args.len()
                    invariant
                        i <= args@.len(),
                        string_texts(shown@) == arg_views(args@).map_values(
                            |a: ArgView| arg_text(a),
                        ).take(i as int),
                    decreases args@.len() - i,
                {
                    let one = args[i].to_string();
                    proof {
                        let all = arg_views(args@).map_values(|a: ArgView| arg_text(a));
                        assert(all.take(i + 1) == all.take(i as int).push(all[i as int]));
                        assert(string_texts(shown@.push(one)) == string_texts(shown@).push(one@));
                    }
                    shown.push(one);
                    i += 1;
                }
                proof {
                    let all = arg_views(args@).map_values(|a: ArgView| arg_text(a));
                    assert(all.take(args@.len() as int) == all);
                }
                join(&shown, " ")
            },
            None => String::new(),
        };
        let mut text = String::from_str(self.name);
        if !line.as_str().is_empty() {
            text.append(" ");
            text.append(line.as_str());
        }
        text.append(" - ");
        text.append(self.description);
        text
    }

    /// Checks for missing or extra arguments, and then typing.
    /// Called before the command is run.
    pub fn validate_args(&self, given_args: &Vec<&str>) -> (outcome: Result<
        (),
        ArgValidationError,
    >)
        ensures
            outcome_view(outcome) == validation(self@.args, given_texts(given_args@)),
    {
        let given = given_args.len();
        match &self.args {
            None => {
                if given == 0 {
                    Ok(())
                } else {
                    Err(ArgValidationError::CommandTakesNoArgs)
                }
            },
            Some(args) => {
                let declared = args.len();
                let ghost params = arg_views(args@);
                let ghost texts = given_texts(given_args@);
                if given > declared {
                    Err(ArgValidationError::ExtraArgs(given - declared))
                } else if given < declared {
                    let mut missing: Vec<Arg> = Vec::new();
                    let mut i: usize = given;
                    while i < declared
                        invariant
                            given <= i <= declared,
                            declared == args@.len(),
                            params == arg_views(args@),
                            arg_views(missing@) == params.subrange(given as int, i as int),
                        decreases declared - i,
                    {
                        let arg = args[i];
                        proof {
                            assert(arg_views(missing@.push(arg)) == arg_views(missing@).push(
                                arg@,
                            ));
                            assert(params.subrange(given as int, i + 1) == params.subrange(
                                given as int,
                                i as int,
                            ).push(params[i as int]));
                        }
                        missing.push(arg);
                        i += 1;
                    }
                    assert(params.subrange(given as int, declared as int) == params.skip(
                        given as int,
                    ));
                    Err(ArgValidationError::Missing(missing))
                } else {
                    let mut i: usize = 0;
                    while i < declared
                        invariant
                            i <= declared,
                            declared == args@.len(),
                            declared == given_args@.len(),
                            self@.args == Some(params),
                            params == arg_views(args@),
                            texts == given_texts(given_args@),
                            first_mismatch(params, texts, 0) == first_mismatch(
                                params,
                                texts,
                                i as int,
                            ),
                        decreases declared - i,
                    {
                        let arg = args[i];
                        let value = given_args[i];
                        assert(params[i as int] == arg@);
                        assert(texts[i as int] == value@);
                        if !arg.typing.matches(value) {
                            return Err(
                                ArgValidationError::WrongType {
                                    arg,
                                    found: ArgType::from_value(value),
                                },
                            );
                        }
                        i += 1;
                    }
                    Ok(())
                }
            },
        }
    }
}

} // verus!
