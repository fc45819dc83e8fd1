//! From a classified command line to the command it selects.
//!
//! The rules, in order:
//!
//! 1. with no option, no flag and no argument, the usage is shown and the
//!    process fails;
//! 2. with the option `help` or the flag `h`, the usage is shown;
//! 3. otherwise the command word decides, and its first argument is what the
//!    command works on.

use crate::argparser::{
    is_flag_group, is_option, lemma_flag_is_kept, lemma_option_is_kept, option_name, parse,
    Arguments, ArgumentsView,
};
use crate::names::{is_among, reads};
use vstd::prelude::*;

verus! {

/// What a command line asks for.
#[derive(Clone, Debug, PartialEq, Eq)]
pub enum Command {
    /// Show the usage and end the process with `code`.
    Usage { code: i32 },
    /// Show the help on a command.
    Help(Option<String>),
    /// Install a package.
    Install(Option<String>),
    /// Install a package again.
    Reinstall(Option<String>),
    /// Activate a tool.
    Activate(Option<String>),
    /// Deactivate a tool.
    Deactivate(Option<String>),
    /// Report that the command word is not known.
    Unknown(String),
}

/// The mathematical content of [`Command`].
pub enum CommandView {
    Usage { code: i32 },
    Help(Option<Seq<char>>),
    Install(Option<Seq<char>>),
    Reinstall(Option<Seq<char>>),
    Activate(Option<Seq<char>>),
    Deactivate(Option<Seq<char>>),
    Unknown(Seq<char>),
}

/// The content of an optional string.
pub open spec fn optional_text(text: Option<String>) -> Option<Seq<char>> {
    match text {
        Some(text) => Some(text@),
        None => None,
    }
}

impl View for Command {
    type V = CommandView;

    open spec fn view(&self) -> CommandView {
        match self {
            Command::Usage { code } => CommandView::Usage { code: *code },
            Command::Help(subject) => CommandView::Help(optional_text(*subject)),
            Command::Install(subject) => CommandView::Install(optional_text(*subject)),
            Command::Reinstall(subject) => CommandView::Reinstall(optional_text(*subject)),
            Command::Activate(subject) => CommandView::Activate(optional_text(*subject)),
            Command::Deactivate(subject) => CommandView::Deactivate(optional_text(*subject)),
            Command::Unknown(word) => CommandView::Unknown(word@),
        }
    }
}

/// The first of the arguments, if there is one.
pub open spec fn first_argument(arguments: Seq<Seq<char>>) -> Option<Seq<char>> {
    if arguments.len() > 0 {
        Some(arguments[0])
    } else {
        None
    }
}

/// The command that a classified command line selects.
pub open spec fn route(line: ArgumentsView) -> CommandView {
    if line.options.len() == 0 && line.flags.len() == 0 && line.arguments.len() == 0 {
        CommandView::Usage { code: 1 }
    } else if line.options.contains("help"@) || line.flags.contains("h"@) {
        CommandView::Usage { code: 0 }
    } else if line.command == "help"@ {
        CommandView::Help(first_argument(line.arguments))
    } else if line.command == "install"@ {
        CommandView::Install(first_argument(line.arguments))
    } else if line.command == "reinstall"@ {
        CommandView::Reinstall(first_argument(line.arguments))
    } else if line.command == "activate"@ {
        CommandView::Activate(first_argument(line.arguments))
    } else if line.command == "deactivate"@ {
        CommandView::Deactivate(first_argument(line.arguments))
    } else {
        CommandView::Unknown(line.command)
    }
}

/// Selects the command that a classified command line asks for.
pub fn dispatch(line: &Arguments) -> (command: Command)
    ensures
        command@ == route(line@),
{
    if line.options.len() == 0 && line.flags.len() == 0 && line.arguments.len() == 0 {
        return Command::Usage { code: 1 };
    }
    if is_among(&line.options, "help") || is_among(&line.flags, "h") {
        return Command::Usage { code: 0 };
    }
    let subject = if line.arguments.len() > 0 {
        Some(line.arguments[0].clone())
    } else {
        None
    };
    assert(optional_text(subject) == first_argument(line@.arguments));
    let word = line.command.as_str();
    if reads(word, "help") {
        Command::Help(subject)
    } else if reads(word, "install") {
        Command::Install(subject)
    } else if reads(word, "reinstall") {
        Command::Reinstall(subject)
    } else if reads(word, "activate") {
        Command::Activate(subject)
    } else if reads(word, "deactivate") {
        Command::Deactivate(subject)
    } else {
        Command::Unknown(line.command.clone())
    }
}

/// A command line that holds the token `--help` shows the usage and ends
/// with status 0, whatever else it holds.
pub proof fn lemma_help_option_shows_usage(tokens: Seq<Seq<char>>)
    requires
        tokens.contains("--help"@),
    ensures
        route(parse(tokens)) == (CommandView::Usage { code: 0 }),
{
    reveal_strlit("--help");
    reveal_strlit("help");
    let i = choose|i: int| 0 <= i < tokens.len() && tokens[i] == "--help"@;
    assert(is_option(tokens[i]));
    assert(option_name(tokens[i]) =~= "help"@);
    lemma_option_is_kept(tokens, i);
}

/// A command line that holds an `h` behind the dash of a flag group shows the
/// usage and ends with status 0, whatever else it holds.
pub proof fn lemma_help_flag_shows_usage(tokens: Seq<Seq<char>>, i: int, j: int)
    requires
        0 <= i < tokens.len(),
        is_flag_group(tokens[i]),
        1 <= j < tokens[i].len(),
        tokens[i][j] == 'h',
    ensures
        route(parse(tokens)) == (CommandView::Usage { code: 0 }),
{
    reveal_strlit("h");
    assert(seq![tokens[i][j]] =~= "h"@);
    lemma_flag_is_kept(tokens, i, j);
}

} // verus!
