//! Command-line arguments of the Seris binary.

use vstd::prelude::*;

use crate::text::{opt_text, same_text};

verus! {

/// CLI subcommands supported by the Seris binary.
#[derive(Debug, Clone, PartialEq, Eq)]
pub enum Command {
    /// Run the bot (no argument).
    RunBot,
    /// Replace the binary with the latest release.
    SelfUpdate,
    /// Print the usage text.
    Help,
    /// An argument the binary does not know.
    Unknown(String),
}

/// Whether `command` is what the first argument `arg` asks for.
pub open spec fn command_for(command: Command, arg: Option<Seq<char>>) -> bool {
    match arg {
        None => command is RunBot,
        Some(a) => if a == "self-update"@ {
            command is SelfUpdate
        } else if a == "-h"@ || a == "--help"@ || a == "help"@ {
            command is Help
        } else {
            command matches Command::Unknown(other) && other@ == a
        },
    }
}

/// Reads the command that a first argument asks for.
pub fn command_of(arg: Option<String>) -> (command: Command)
    ensures
        command_for(command, opt_text(arg)),
{
    match arg {
        None => Command::RunBot,
        Some(a) => {
            if same_text(a.as_str(), "self-update") {
                Command::SelfUpdate
            } else if same_text(a.as_str(), "-h") || same_text(a.as_str(), "--help") || same_text(a.as_str(), "help") {
                Command::Help
            } else {
                Command::Unknown(a)
            }
        },
    }
}

/// The first item of a sequence of arguments, if any.
pub open spec fn first_argument(args: Seq<String>) -> Option<Seq<char>> {
    if args.len() > 0 { Some(args[0]@) } else { None }
}

/// Parses the first positional CLI argument.
pub fn parse<I: Iterator<Item = String>>(mut args: I) -> (command: Command)
    ensures
        vstd::std_specs::iter::IteratorSpec::obeys_prophetic_iter_laws(&args) ==> command_for(
            command,
            first_argument(vstd::std_specs::iter::IteratorSpec::remaining(&args)),
        ),
{
    command_of(args.next())
}

/// The help text of the binary.
pub open spec fn usage_text() -> Seq<char> {
    "Usage: seris [self-update]\n\nCommands:\n  self-update   Download and install the latest release binary\n"@
}

/// Returns the help text for the binary.
pub fn usage() -> (text: &'static str)
    ensures
        text@ == usage_text(),
{
    "Usage: seris [self-update]\n\nCommands:\n  self-update   Download and install the latest release binary\n"
}

} // verus!
