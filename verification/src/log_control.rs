//! The commands with which the log level is changed while the application
//! runs, one per line of input: `log` followed by the name of a level.

use vstd::prelude::*;
use crate::text::{has_prefix, lowercase, lowercase_of, skip_chars, starts_with, trimmed, trimmed_of};

verus! {

/// The word that starts a command, with the space that follows it.
pub const LOG_PREFIX: &'static str = "log ";

/// What a line of input asks for.
#[derive(Debug, Clone, PartialEq, Eq)]
pub enum LogCommand {
    /// Set the log level to the one named.
    SetLevel(String),
    /// A level was asked for that does not exist.
    UnknownLevel(String),
    /// The line is not a command.
    UnknownCommand(String),
    /// The line is empty.
    Nothing,
}

/// Mathematical model of a [`LogCommand`].
pub enum LogCommandView {
    SetLevel(Seq<char>),
    UnknownLevel(Seq<char>),
    UnknownCommand(Seq<char>),
    Nothing,
}

impl View for LogCommand {
    type V = LogCommandView;

    open spec fn view(&self) -> LogCommandView {
        match self {
            LogCommand::SetLevel(level) => LogCommandView::SetLevel(level@),
            LogCommand::UnknownLevel(level) => LogCommandView::UnknownLevel(level@),
            LogCommand::UnknownCommand(command) => LogCommandView::UnknownCommand(command@),
            LogCommand::Nothing => LogCommandView::Nothing,
        }
    }
}

/// Whether `level` names a log level.
pub open spec fn is_level(level: Seq<char>) -> bool {
    level == "trace"@ || level == "debug"@ || level == "info"@ || level == "warn"@ || level
        == "error"@
}

/// What the argument of a `log` command asks for.
pub open spec fn level_command_of(level: Seq<char>) -> LogCommandView {
    if is_level(level) {
        LogCommandView::SetLevel(level)
    } else {
        LogCommandView::UnknownLevel(level)
    }
}

/// What a line asks for once it is trimmed and in lower case.
pub open spec fn command_of(command: Seq<char>) -> LogCommandView {
    if starts_with(command, LOG_PREFIX@) {
        level_command_of(trimmed_of(command.subrange(LOG_PREFIX@.len() as int, command.len() as int)))
    } else if command.len() > 0 {
        LogCommandView::UnknownCommand(command)
    } else {
        LogCommandView::Nothing
    }
}

/// What a line of input asks for. Case and the white space around the line
/// and around the level do not matter.
pub open spec fn log_command_of(line: Seq<char>) -> LogCommandView {
    command_of(lowercase_of(trimmed_of(line)))
}

/// Reads the argument of a `log` command.
pub fn level_command(level: &str) -> (command: LogCommand)
    ensures
        command@ == level_command_of(level@),
{
    let level = String::from_str(level);
    if level == String::from_str("trace") || level == String::from_str("debug") || level
        == String::from_str("info") || level == String::from_str("warn") || level
        == String::from_str("error") {
        LogCommand::SetLevel(level)
    } else {
        LogCommand::UnknownLevel(level)
    }
}

/// Reads a line that is already trimmed and in lower case.
pub fn read_command(command: &str) -> (read: LogCommand)
    ensures
        read@ == command_of(command@),
{
    if has_prefix(command, LOG_PREFIX) {
        let prefix_len: usize = LOG_PREFIX.unicode_len();
        level_command(trimmed(skip_chars(command, prefix_len)))
    } else if command.unicode_len() > 0 {
        LogCommand::UnknownCommand(String::from_str(command))
    } else {
        LogCommand::Nothing
    }
}

/// Reads a line of input.
pub fn parse_log_command(line: &str) -> (command: LogCommand)
    ensures
        command@ == log_command_of(line@),
{
    let normal = lowercase(trimmed(line));
    read_command(normal.as_str())
}

} // verus!
