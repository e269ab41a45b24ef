//! The shell: one line in, one decision out.
//!
//! `REPL::interpret` says what a line that the operator typed asks for. The
//! program around the shell reads the lines, does what the steps ask, and
//! shows the reports.
use vstd::prelude::*;
use vstd::string::*;
use crate::repl::commands::fault_text;
use crate::repl::commands::find_command;
use crate::repl::commands::given_texts;
use crate::repl::commands::law_lookup;
use crate::repl::commands::lookup;
use crate::repl::commands::registry;
use crate::repl::commands::validation;
use crate::repl::commands::Action;
use crate::repl::commands::ArgValidationError;
use crate::repl::commands::ArgValidationFault;
use crate::repl::commands::Command;
use crate::repl::commands::CommandView;
use crate::repl::output::message_views;
use crate::repl::output::said;
use crate::repl::output::warned;
use crate::repl::output::Message;
use crate::repl::output::MessageView;
use crate::repl::output::Report;
use crate::repl::output::ReportView;
use crate::state::AppState;
use crate::utils::text::chars_of;
use crate::utils::text::same_text;

pub mod commands;
pub mod output;

verus! {

/// What `char::is_whitespace` says of a character: whether it has the
/// Unicode property `White_Space`.
pub uninterp spec fn unicode_white_space(c: char) -> bool;

/// Whether a character is white space. Of the ASCII characters these are the
/// space and the six from U+0009 to U+000D, tab to carriage return; of the
/// others, those that have the Unicode property `White_Space`.
pub open spec fn white_space(c: char) -> bool {
    if c <= '\u{7f}' {
        c == ' ' || ('\u{9}' <= c && c <= '\u{d}')
    } else {
        unicode_white_space(c)
    }
}

/// `char::is_whitespace` depends on the character alone: it says whether the
/// character has the Unicode property `White_Space`. Among the ASCII
/// characters the space and U+0009 to U+000D have that property and no
/// other; beyond ASCII the result is only given a name.
pub assume_specification[ char::is_whitespace ](c: char) -> (yes: bool)
    ensures
        yes == white_space(c),
        yes == unicode_white_space(c),
;

/// The length of the longest prefix of `s` that is free of white space.
pub open spec fn word_len(s: Seq<char>) -> nat
    decreases s.len(),
{
    if s.len() == 0 || white_space(s[0]) {
        0
    } else {
        1 + word_len(s.skip(1))
    }
}

/// The words of `s`: its longest runs of characters that are not white
/// space, in their order. White space only divides words, so no word is
/// empty, and a text of white space alone has no words.
pub open spec fn words(s: Seq<char>) -> Seq<Seq<char>>
    decreases s.len(),
{
    if s.len() == 0 {
        Seq::empty()
    } else if white_space(s[0]) {
        words(s.skip(1))
    } else if word_len(s) >= s.len() {
        seq![s]
    } else {
        seq![s.take(word_len(s) as int)] + words(s.skip(word_len(s) as int))
    }
}

/// A text with no white space before `k`, and the end or white space at `k`,
/// starts with a word of length `k`.
proof fn lemma_word_len(s: Seq<char>, k: int)
    requires
        0 <= k <= s.len(),
        forall|i: int| 0 <= i < k ==> !white_space(s[i]),
        k < s.len() ==> white_space(s[k]),
    ensures
        word_len(s) == k,
    decreases k,
{
    if k > 0 {
        lemma_word_len(s.skip(1), k - 1);
    }
}

/// Whether `w` can be a word: it is not empty and holds no white space.
pub open spec fn is_word(w: Seq<char>) -> bool {
    w.len() > 0 && forall|j: int| 0 <= j < w.len() ==> !white_space(#[trigger] w[j])
}

/// No word is empty, and no word holds white space.
pub proof fn law_words_hold_no_white_space(s: Seq<char>)
    ensures
        forall|i: int| 0 <= i < words(s).len() ==> is_word(#[trigger] words(s)[i]),
    decreases s.len(),
{
    if s.len() == 0 {
        assert(words(s).len() == 0);
    } else {
        if white_space(s[0]) {
            law_words_hold_no_white_space(s.skip(1));
            assert(words(s) == words(s.skip(1)));
        } else {
            let n = word_len(s) as int;
            lemma_word_free(s);
            if n < s.len() {
                law_words_hold_no_white_space(s.skip(n));
                let rest = words(s.skip(n));
                assert(words(s) == seq![s.take(n)] + rest);
                assert(is_word(s.take(n)));
                assert forall|i: int| 0 <= i < words(s).len() implies is_word(
                    #[trigger] words(s)[i],
                ) by {
                    if i > 0 {
                        assert(words(s)[i] == rest[i - 1]);
                    }
                }
            } else {
                assert(words(s) == seq![s]);
                assert(is_word(s));
            }
        }
    }
}

/// The first word of a text reaches as far as the text is free of white
/// space, and no further than the text.
proof fn lemma_word_free(s: Seq<char>)
    ensures
        word_len(s) <= s.len(),
        forall|j: int| 0 <= j < word_len(s) ==> !white_space(#[trigger] s[j]),
    decreases s.len(),
{
    if s.len() > 0 && !white_space(s[0]) {
        lemma_word_free(s.skip(1));
        assert forall|j: int| 0 <= j < word_len(s) implies !white_space(#[trigger] s[j]) by {
            if j > 0 {
                assert(s[j] == s.skip(1)[j - 1]);
            }
        }
    }
}

/// Divides a line into its words.
pub fn split_words<'a>(line: &'a str) -> (tokens: Vec<&'a str>)
    ensures
        given_texts(tokens@) == words(line@),
{
    let chars = chars_of(line);
    let n = chars.len();
    let mut tokens: Vec<&'a str> = Vec::new();
    let mut i: usize = 0;
    proof {
        assert(line@.skip(0) == line@);
        assert(given_texts(tokens@) + words(line@) == words(line@));
    }
    while i < n
        invariant
            i <= n,
            n == chars@.len(),
            chars@ == line@,
            words(line@) == given_texts(tokens@) + words(line@.skip(i as int)),
        decreases n - i,
    {
        let ghost rest = line@.skip(i as int);
        if chars[i].is_whitespace() {
            assert(rest.skip(1) == line@.skip(i + 1));
            i += 1;
        } else {
            let start = i;
            while i < n && !chars[i].is_whitespace()
                invariant
                    start <= i <= n,
                    n == chars@.len(),
                    forall|j: int| start <= j < i ==> !white_space(chars@[j]),
                decreases n - i,
            {
                i += 1;
            }
            let token = line.substring_char(start, i);
            proof {
                lemma_word_len(rest, i - start);
                assert(rest.take(i - start) == token@);
                assert(i == n ==> rest == token@ && words(line@.skip(i as int)).len() == 0);
                assert(rest.skip(i - start) == line@.skip(i as int));
                assert(given_texts(tokens@.push(token)) == given_texts(tokens@).push(token@));
                assert(given_texts(tokens@) + (seq![token@] + words(line@.skip(i as int)))
                    == given_texts(tokens@).push(token@) + words(line@.skip(i as int)));
            }
            tokens.push(token);
        }
    }
    assert(given_texts(tokens@) + Seq::<Seq<char>>::empty() == given_texts(tokens@));
    tokens
}

/// What a line asks of the shell.
#[derive(Clone, PartialEq, Eq, Debug)]
pub enum Step<'l> {
    /// End the session, with exit code 0.
    Exit,
    /// Nothing: the line holds no word.
    Idle,
    /// The first word names no command.
    Unknown { name: &'l str },
    /// The first word names `command`, whose parameters the other words do
    /// not fit.
    Rejected { command: Command, error: ArgValidationError },
    /// Run `command` with the other words as `args`, which fit its
    /// parameters.
    Run { command: Command, args: Vec<&'l str> },
}

/// The mathematical value of a [`Step`].
pub ghost enum StepView {
    Exit,
    Idle,
    Unknown { name: Seq<char> },
    Rejected { command: CommandView, error: ArgValidationFault },
    Run { command: CommandView, args: Seq<Seq<char>> },
}

impl View for Step<'_> {
    type V = StepView;

    open spec fn view(&self) -> StepView {
        match self {
            Step::Exit => StepView::Exit,
            Step::Idle => StepView::Idle,
            Step::Unknown { name } => StepView::Unknown { name: name@ },
            Step::Rejected { command, error } => StepView::Rejected {
                command: command@,
                error: error@,
            },
            Step::Run { command, args } => StepView::Run {
                command: command@,
                args: given_texts(args@),
            },
        }
    }
}

/// What the line `line` asks of the shell.
///
/// The line `exit`, written exactly so, ends the session. Any other line is
/// divided into words: the first names the command, which is looked up in the
/// shell's table, and the others are its arguments, which are validated
/// against its parameters before it may run.
pub open spec fn step_of(line: Seq<char>) -> StepView {
    let tokens = words(line);
    if line == "exit"@ {
        StepView::Exit
    } else if tokens.len() == 0 {
        StepView::Idle
    } else {
        match lookup(tokens[0]) {
            None => StepView::Unknown { name: tokens[0] },
            Some(command) => match validation(command.args, tokens.skip(1)) {
                Ok(()) => StepView::Run { command, args: tokens.skip(1) },
                Err(error) => StepView::Rejected { command, error },
            },
        }
    }
}

/// What the shell shows for a step by itself: that a command is unknown, on
/// the standard output, or that a command could not be run and why, on the
/// standard error. The other steps show nothing by themselves.
pub open spec fn step_messages(step: StepView) -> Seq<MessageView> {
    match step {
        StepView::Unknown { name } => seq![said("unknown command: '"@ + name + "'."@)],
        StepView::Rejected { command, error } => seq![
            warned("failed to run '"@ + command.name + "'\n\\====> "@ + fault_text(error)),
        ],
        _ => Seq::empty(),
    }
}

/// What the shell shows for a step by itself, and whether the session ends
/// with it: it ends with `Exit` and with no other step.
pub open spec fn step_report(step: StepView) -> ReportView {
    ReportView { messages: step_messages(step), leave: step is Exit }
}

impl Step<'_> {
    /// What the shell shows for this step by itself, and whether the session
    /// ends with it. `Exit` shows nothing and ends the session; after every
    /// other step the shell goes on, unless the command that a `Run` step
    /// runs ends it.
    pub fn report(&self) -> (report: Report)
        ensures
            report@ == step_report(self@),
    {
        let mut messages: Vec<Message> = Vec::new();
        let mut leave = false;
        match self {
            Step::Exit => {
                leave = true;
                assert(message_views(messages@) == Seq::<MessageView>::empty());
            },
            Step::Unknown { name } => {
                let mut text = String::from_str("unknown command: '");
                text.append(name);
                text.append("'.");
                messages.push(Message::say(text));
                assert(message_views(messages@) == seq![
                    said("unknown command: '"@ + name@ + "'."@),
                ]);
            },
            Step::Rejected { command, error } => {
                let mut text = String::from_str("failed to run '");
                text.append(command.name);
                text.append("'\n\\====> ");
                text.append(error.to_string().as_str());
                messages.push(Message::warn(text));
                assert(message_views(messages@) == seq![
                    warned(
                        "failed to run '"@ + command.name@ + "'\n\\====> "@ + fault_text(error@),
                    ),
                ]);
            },
            _ => {
                assert(message_views(messages@) == Seq::<MessageView>::empty());
            },
        }
        Report { messages, leave }
    }
}

/// The shell.
pub struct REPL<'s> {
    state: AppState<'s>,
}

impl<'s> REPL<'s> {
    /// The state that the shell holds.
    pub closed spec fn held(&self) -> AppState<'s> {
        self.state
    }

    /// A shell that holds `state`.
    pub fn new(state: AppState<'s>) -> (repl: Self)
        ensures
            repl.held() == state,
    {
        Self { state }
    }

    /// The state that the shell holds.
    pub fn state(&self) -> (state: &AppState<'s>)
        ensures
            *state == self.held(),
    {
        &self.state
    }

    /// Says what the line `line` asks of the shell.
    pub fn interpret<'l>(&self, line: &'l str) -> (step: Step<'l>)
        ensures
            step@ == step_of(line@),
    {
        if same_text(line, "exit") {
            return Step::Exit;
        }
        let mut tokens = split_words(line);
        if tokens.len() == 0 {
            return Step::Idle;
        }
        let ghost all = given_texts(tokens@);
        let name = tokens.remove(0);
        assert(given_texts(tokens@) == all.skip(1));
        assert(all[0] == name@);
        match find_command(name) {
            None => Step::Unknown { name },
            Some(command) => match command.validate_args(&tokens) {
                Ok(()) => Step::Run { command, args: tokens },
                Err(error) => Step::Rejected { command, error },
            },
        }
    }
}

/// A step that runs a command runs a command of the shell's table, found
/// under the first word of the line, with arguments that pass its validation.
pub proof fn law_run_is_validated(line: Seq<char>)
    ensures
        step_of(line) matches StepView::Run { command, args } ==> {
            &&& words(line).len() >= 1
            &&& lookup(words(line)[0]) == Some(command)
            &&& args == words(line).skip(1)
            &&& validation(command.args, args) is Ok
        },
{
}

/// A text of white space alone has no words.
pub proof fn lemma_blank_has_no_words(s: Seq<char>)
    requires
        forall|i: int| 0 <= i < s.len() ==> white_space(#[trigger] s[i]),
    ensures
        words(s).len() == 0,
    decreases s.len(),
{
    if s.len() > 0 {
        assert(white_space(s[0]));
        assert forall|i: int| 0 <= i < s.skip(1).len() implies white_space(
            #[trigger] s.skip(1)[i],
        ) by {
            assert(s.skip(1)[i] == s[i + 1]);
        }
        lemma_blank_has_no_words(s.skip(1));
    }
}

/// A line that is empty or holds white space alone asks nothing of the
/// shell.
pub proof fn law_blank_line_is_idle(line: Seq<char>)
    requires
        forall|i: int| 0 <= i < line.len() ==> white_space(#[trigger] line[i]),
    ensures
        step_of(line) == StepView::Idle,
{
    reveal_strlit("exit");
    lemma_blank_has_no_words(line);
    if line == "exit"@ {
        assert(white_space(line[0]));
        assert(line[0] == 'e');
    }
}

/// A step that runs a command without parameters carries no argument, and a
/// step that runs `device` carries exactly one, the address.
pub proof fn law_run_carries_what_is_declared(line: Seq<char>)
    ensures
        step_of(line) matches StepView::Run { command, args } ==> {
            &&& command.args is None ==> args.len() == 0
            &&& command.args matches Some(declared) ==> args.len() == declared.len()
            &&& command.run == Action::Device ==> args.len() == 1
        },
{
    match step_of(line) {
        StepView::Run { command, args } => {
            law_lookup(words(line)[0]);
            let i = choose|i: int| 0 <= i < registry().len() && registry()[i] == command;
            assert(registry()[i] == command);
        },
        _ => {},
    }
}

} // verus!
