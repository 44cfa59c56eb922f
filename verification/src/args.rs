//! The arguments of the program: what the command line says, over what
//! the environment says, over the defaults.

use crate::command::Command;
use crate::DEFAULT_TIMEOUT;
use vstd::prelude::*;
use vstd::string::*;

verus! {

/// The arguments as they were parsed, from the command line or from the
/// environment. `P` is the type of a path.
#[derive(Debug)]
pub struct Args<P> {
    pub arg_command: Command,
    pub arg_entry: Option<String>,
    pub flag_timeout: Option<u8>,
    pub flag_no_group: bool,
    pub flag_preview: bool,
    pub flag_full_screen: bool,
    pub flag_use_keyring: bool,
    pub flag_remove_key: bool,
    pub flag_database: Option<P>,
    pub flag_key_file: Option<P>,
    pub flag_help: bool,
    pub flag_version: bool,
}

/// No database was named, on the command line or in the environment.
#[derive(Clone, Copy, Debug, PartialEq, Eq, Structural)]
pub struct NoDatabase;

impl NoDatabase {
    /// What to tell the user.
    pub fn message(&self) -> (text: String)
        ensures
            text@ == "No database file were found. Use `--help` to get more info."@,
    {
        String::from_str("No database file were found. Use `--help` to get more info.")
    }
}

/// `first` where it holds something, `second` where it does not.
pub open spec fn or_else<T>(first: Option<T>, second: Option<T>) -> Option<T> {
    match first {
        Some(_) => first,
        None => second,
    }
}

/// The seconds after which the clipboard is cleared: what the command
/// line says, else what the environment says, else [`DEFAULT_TIMEOUT`].
/// Zero stands for never, and comes out as no timeout at all.
pub open spec fn timeout_of(cmd: Option<u8>, env: Option<u8>) -> Option<u8> {
    let seconds = match or_else(cmd, env) {
        Some(seconds) => seconds,
        None => DEFAULT_TIMEOUT,
    };
    if seconds != 0 {
        Some(seconds)
    } else {
        None
    }
}

/// The command that was meant. No command at all means `clip`. A word
/// that is no command, with no entry after it, is the entry to clip: the
/// name of the command may be left out.
pub open spec fn command_meant(command: Command, entry: Option<String>) -> Command {
    match command {
        Command::Unknown(word) if word@.len() == 0 || entry is None => Command::Clip,
        other => other,
    }
}

/// The entry that was meant: see [`command_meant`].
pub open spec fn entry_meant(command: Command, entry: Option<String>) -> Option<String> {
    match command {
        Command::Unknown(word) if word@.len() != 0 && entry is None => Some(word),
        _ => entry,
    }
}

fn first_of<T>(first: Option<T>, second: Option<T>) -> (chosen: Option<T>)
    ensures
        chosen == or_else(first, second),
{
    match first {
        Some(value) => Some(value),
        None => second,
    }
}

/// Settles the timeout: see [`timeout_of`].
pub fn resolve_timeout(cmd: Option<u8>, env: Option<u8>) -> (timeout: Option<u8>)
    ensures
        timeout == timeout_of(cmd, env),
{
    let seconds = match first_of(cmd, env) {
        Some(seconds) => seconds,
        None => DEFAULT_TIMEOUT,
    };
    if seconds != 0 {
        Some(seconds)
    } else {
        None
    }
}

/// Merges the arguments of the command line, `cmd`, with those of the
/// environment, `env`. Command and entry are those of the command line. A
/// switch is on where either has it on; a value is taken from the command
/// line first. Without a database there is nothing to work on.
pub fn get_args<P>(cmd: Args<P>, env: Args<P>) -> (merged: Result<Args<P>, NoDatabase>)
    ensures
        merged is Err <==> cmd.flag_database is None && env.flag_database is None,
        merged matches Ok(args) ==> {
            &&& args.arg_command == command_meant(cmd.arg_command, cmd.arg_entry)
            &&& args.arg_entry == entry_meant(cmd.arg_command, cmd.arg_entry)
            &&& args.flag_timeout == timeout_of(cmd.flag_timeout, env.flag_timeout)
            &&& args.flag_use_keyring == (cmd.flag_use_keyring || env.flag_use_keyring)
            &&& args.flag_no_group == (cmd.flag_no_group || env.flag_no_group)
            &&& args.flag_preview == (cmd.flag_preview || env.flag_preview)
            &&& args.flag_full_screen == (cmd.flag_full_screen || env.flag_full_screen)
            &&& args.flag_key_file == or_else(cmd.flag_key_file, env.flag_key_file)
            &&& args.flag_database == or_else(cmd.flag_database, env.flag_database)
            &&& args.flag_remove_key == cmd.flag_remove_key
            &&& args.flag_help == cmd.flag_help
            &&& args.flag_version == cmd.flag_version
        },
{
    let (arg_command, arg_entry) = match cmd.arg_command {
        Command::Unknown(word) => {
            if word.as_str().is_empty() {
                (Command::Clip, cmd.arg_entry)
            } else if cmd.arg_entry.is_none() {
                (Command::Clip, Some(word))
            } else {
                (Command::Unknown(word), cmd.arg_entry)
            }
        },
        other => (other, cmd.arg_entry),
    };
    let flag_database = match first_of(cmd.flag_database, env.flag_database) {
        Some(database) => Some(database),
        None => {
            return Err(NoDatabase);
        },
    };
    Ok(
        Args {
            arg_command,
            arg_entry,
            flag_timeout: resolve_timeout(cmd.flag_timeout, env.flag_timeout),
            flag_no_group: cmd.flag_no_group || env.flag_no_group,
            flag_preview: cmd.flag_preview || env.flag_preview,
            flag_full_screen: cmd.flag_full_screen || env.flag_full_screen,
            flag_use_keyring: cmd.flag_use_keyring || env.flag_use_keyring,
            flag_remove_key: cmd.flag_remove_key,
            flag_database,
            flag_key_file: first_of(cmd.flag_key_file, env.flag_key_file),
            flag_help: cmd.flag_help,
            flag_version: cmd.flag_version,
        },
    )
}

/// The version of the program from its three numbers, with dots between
/// them; empty where one of them is not known.
pub open spec fn version_text(
    major: Option<Seq<char>>,
    minor: Option<Seq<char>>,
    patch: Option<Seq<char>>,
) -> Seq<char> {
    match (major, minor, patch) {
        (Some(major), Some(minor), Some(patch)) => major + "."@ + minor + "."@ + patch,
        _ => Seq::empty(),
    }
}

/// The view of a text that may not be there.
pub open spec fn text_of(text: Option<&str>) -> Option<Seq<char>> {
    match text {
        Some(text) => Some(text@),
        None => None,
    }
}

/// Writes the version of the program.
pub fn version(major: Option<&str>, minor: Option<&str>, patch: Option<&str>) -> (text: String)
    ensures
        text@ == version_text(text_of(major), text_of(minor), text_of(patch)),
{
    match (major, minor, patch) {
        (Some(major), Some(minor), Some(patch)) => {
            let mut text = String::from_str(major);
            text.append(".");
            text.append(minor);
            text.append(".");
            text.append(patch);
            text
        },
        _ => String::new(),
    }
}

} // verus!
