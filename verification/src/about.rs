//! Usage and help texts.

use crate::names::{given, name_or_empty, reads};
use vstd::prelude::*;
use vstd::string::StringExecFns;

verus! {

/// The one-line usage summary.
pub open spec fn spec_about() -> Seq<char> {
    "Usage: codeydog [options...] [command] [args...]"@
}

/// What is said of a command that is not known.
pub open spec fn spec_unknown_command(command: Seq<char>) -> Seq<char> {
    "Unknown command: "@ + command
}

/// The help on `command`: a description of `help` itself, and for every other
/// name the remark that it is not known.
pub open spec fn spec_help(command: Seq<char>) -> Seq<char> {
    if command == "help"@ {
        "Usage: codeydog help [command]\n\nShows information about a command and how to use it."@
    } else {
        spec_unknown_command(command)
    }
}

/// Returns the top-level usage summary.
pub fn about() -> (text: String)
    ensures
        text@ == spec_about(),
{
    String::from_str("Usage: codeydog [options...] [command] [args...]")
}

/// Returns what is said of a command that is not known.
pub fn unknown_command(command: &str) -> (text: String)
    ensures
        text@ == spec_unknown_command(command@),
{
    String::from_str("Unknown command: ").concat(command)
}

/// Returns the help on a command. An absent command counts as one with an
/// empty name.
pub fn help(command: Option<&String>) -> (text: String)
    ensures
        text@ == spec_help(given(command)),
{
    let command = name_or_empty(command);
    if reads(command.as_str(), "help") {
        String::from_str(
            "Usage: codeydog help [command]\n\nShows information about a command and how to use it.",
        )
    } else {
        unknown_command(command.as_str())
    }
}

} // verus!
