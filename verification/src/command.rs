//! The commands of the program, and what each of them comes to once the
//! database is open.

use vstd::prelude::*;
use vstd::string::*;

verus! {

/// What the user asked the program to do.
#[derive(Debug, PartialEq, Eq)]
pub enum Command {
    /// Copy a password to the clipboard.
    Clip,
    /// Show an entry.
    Show,
    /// Something else, in lower case as every command.
    Unknown(String),
}

/// `text` in lower case, as the standard library's `str::to_lowercase`
/// makes it.
pub uninterp spec fn lowercased(text: Seq<char>) -> Seq<char>;

/// Calls the standard library's `str::to_lowercase`, which maps each
/// character to its lower case by the rules of Unicode. The result depends
/// on the text alone.
#[verifier::external_body]
fn to_lowercase(text: &str) -> (lowered: String)
    ensures
        lowered@ == lowercased(text@),
{
    text.to_lowercase()
}

/// Whether a command is this one, after its name in lower case.
pub open spec fn names_clip(lowered: Seq<char>) -> bool {
    lowered == "clip"@ || lowered == "c"@
}

/// Whether a command is this one, after its name in lower case.
pub open spec fn names_show(lowered: Seq<char>) -> bool {
    lowered == "show"@ || lowered == "s"@
}

fn is_word(text: &String, word: &str) -> (same: bool)
    ensures
        same == (text@ == word@),
{
    let word = String::from_str(word);
    *text == word
}

/// The command that goes by `lowered`, a name in lower case: `clip` and
/// `show`, each also by its first letter, and anything else as unknown.
pub fn command_named(lowered: String) -> (command: Command)
    ensures
        names_clip(lowered@) ==> command == Command::Clip,
        !names_clip(lowered@) && names_show(lowered@) ==> command == Command::Show,
        !names_clip(lowered@) && !names_show(lowered@) ==> command == Command::Unknown(lowered),
{
    if is_word(&lowered, "clip") || is_word(&lowered, "c") {
        Command::Clip
    } else if is_word(&lowered, "show") || is_word(&lowered, "s") {
        Command::Show
    } else {
        Command::Unknown(lowered)
    }
}

/// Reads a command, in whatever case it is written.
pub fn parse_command(text: &str) -> (command: Command)
    ensures
        names_clip(lowercased(text@)) ==> command == Command::Clip,
        !names_clip(lowercased(text@)) && names_show(lowercased(text@)) ==> command
            == Command::Show,
        !names_clip(lowercased(text@)) && !names_show(lowercased(text@)) ==> (command matches Command::Unknown(
            name,
        ) && name@ == lowercased(text@)),
{
    command_named(to_lowercase(text))
}

/// What to do with the open database.
#[derive(Clone, Copy, Debug, PartialEq, Eq, Structural)]
pub enum Task {
    /// Write the password of the one entry found to standard output.
    PrintPassword,
    /// Copy the password of the one entry found to the clipboard.
    ClipFound,
    /// Show the one entry found.
    ShowFound,
    /// Let the user pick an entry, and copy its password to the clipboard.
    PickAndClip,
    /// Let the user pick an entry, and show it.
    PickAndShow,
}

/// Why there is nothing to do with the open database.
#[derive(Clone, Copy, Debug, PartialEq, Eq, Structural)]
pub enum RunError {
    /// The entry cannot be told from the query, and standard output is
    /// not a terminal, so the user cannot be asked.
    NoSingleMatch,
    /// The command is none of the program's.
    UnknownCommand,
}

/// What to tell the user when the query does not settle the entry and the
/// user cannot be asked: the query, or a mark where there was none.
pub open spec fn no_single_match_line(query: Option<Seq<char>>) -> Seq<char> {
    "No single match for "@ + match query {
        Some(query) => query,
        None => "[empty]"@,
    } + "."@
}

/// What to tell the user about a command that the program does not have.
pub open spec fn unknown_command_line(name: Seq<char>) -> Seq<char> {
    "Unknown command `"@ + name + "`. Use `--help` to get more info."@
}

/// Writes the message for [`RunError::NoSingleMatch`].
pub fn no_single_match(query: Option<&str>) -> (line: String)
    ensures
        line@ == no_single_match_line(
            match query {
                Some(query) => Some(query@),
                None => None,
            },
        ),
{
    let mut line = String::from_str("No single match for ");
    match query {
        Some(query) => line.append(query),
        None => line.append("[empty]"),
    }
    line.append(".");
    line
}

/// Writes the message for [`RunError::UnknownCommand`].
pub fn unknown_command(name: &str) -> (line: String)
    ensures
        line@ == unknown_command_line(name@),
{
    let mut line = String::from_str("Unknown command `");
    line.append(name);
    line.append("`. Use `--help` to get more info.");
    line
}

/// What `command` comes to. `found` is the number of entries that the
/// query matches, where there is a query; `stdout_tty` tells whether
/// standard output is a terminal.
///
/// A query with one match settles the entry. Its password goes to the
/// clipboard, unless output is piped: then it is written there. In every
/// other case the user picks the entry, which takes a terminal.
pub open spec fn task_of(command: Command, found: Option<usize>, stdout_tty: bool) -> Result<
    Task,
    RunError,
> {
    match command {
        Command::Clip => if found == Some(1usize) {
            if stdout_tty {
                Ok(Task::ClipFound)
            } else {
                Ok(Task::PrintPassword)
            }
        } else if stdout_tty {
            Ok(Task::PickAndClip)
        } else {
            Err(RunError::NoSingleMatch)
        },
        Command::Show => if found == Some(1usize) {
            Ok(Task::ShowFound)
        } else {
            Ok(Task::PickAndShow)
        },
        Command::Unknown(_) => Err(RunError::UnknownCommand),
    }
}

/// Decides what `command` comes to, given what the query found and where
/// the output goes.
pub fn run(command: &Command, found: Option<usize>, stdout_tty: bool) -> (task: Result<
    Task,
    RunError,
>)
    ensures
        task == task_of(*command, found, stdout_tty),
{
    let single = match found {
        Some(count) => count == 1,
        None => false,
    };
    match command {
        Command::Clip => {
            if single {
                if stdout_tty {
                    Ok(Task::ClipFound)
                } else {
                    Ok(Task::PrintPassword)
                }
            } else if stdout_tty {
                Ok(Task::PickAndClip)
            } else {
                Err(RunError::NoSingleMatch)
            }
        },
        Command::Show => {
            if single {
                Ok(Task::ShowFound)
            } else {
                Ok(Task::PickAndShow)
            }
        },
        Command::Unknown(_) => Err(RunError::UnknownCommand),
    }
}

} // verus!
