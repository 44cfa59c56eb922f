use kp::args::{get_args, resolve_timeout, version, Args, NoDatabase};
use kp::command::Command;

fn blank(command: Command) -> Args<String> {
    Args {
        arg_command: command,
        arg_entry: None,
        flag_timeout: None,
        flag_no_group: false,
        flag_preview: false,
        flag_full_screen: false,
        flag_use_keyring: false,
        flag_remove_key: false,
        flag_database: None,
        flag_key_file: None,
        flag_help: false,
        flag_version: false,
    }
}

fn with_database(command: Command) -> Args<String> {
    let mut args = blank(command);
    args.flag_database = Some(String::from("cmd.kdbx"));
    args
}

#[test]
fn timeout_defaults_to_five_seconds() {
    assert_eq!(resolve_timeout(None, None), Some(5));
}

#[test]
fn timeout_of_the_command_line_wins() {
    assert_eq!(resolve_timeout(Some(9), Some(7)), Some(9));
    assert_eq!(resolve_timeout(Some(9), None), Some(9));
    assert_eq!(resolve_timeout(None, Some(7)), Some(7));
    assert_eq!(resolve_timeout(Some(255), Some(1)), Some(255));
}

#[test]
fn timeout_of_zero_means_none() {
    assert_eq!(resolve_timeout(Some(0), None), None);
    assert_eq!(resolve_timeout(Some(0), Some(7)), None);
    assert_eq!(resolve_timeout(None, Some(0)), None);
    assert_eq!(resolve_timeout(Some(3), Some(0)), Some(3));
}

#[test]
fn no_database_is_an_error() {
    assert_eq!(get_args(blank(Command::Clip), blank(Command::Clip)).err(), Some(NoDatabase));
    assert_eq!(
        NoDatabase.message(),
        "No database file were found. Use `--help` to get more info."
    );
}

#[test]
fn database_of_the_command_line_wins() {
    let mut env = blank(Command::Clip);
    env.flag_database = Some(String::from("env.kdbx"));
    env.flag_key_file = Some(String::from("env.key"));

    let merged = get_args(with_database(Command::Clip), env).expect("a database");
    assert_eq!(merged.flag_database.as_deref(), Some("cmd.kdbx"));
    assert_eq!(merged.flag_key_file.as_deref(), Some("env.key"));

    let mut env = blank(Command::Clip);
    env.flag_database = Some(String::from("env.kdbx"));
    let mut cmd = blank(Command::Clip);
    cmd.flag_key_file = Some(String::from("cmd.key"));
    let merged = get_args(cmd, env).expect("a database");
    assert_eq!(merged.flag_database.as_deref(), Some("env.kdbx"));
    assert_eq!(merged.flag_key_file.as_deref(), Some("cmd.key"));
}

#[test]
fn switches_are_on_where_either_has_them_on() {
    let mut env = blank(Command::Clip);
    env.flag_use_keyring = true;
    env.flag_preview = true;
    env.flag_remove_key = true;
    env.flag_help = true;
    env.flag_version = true;
    let mut cmd = with_database(Command::Show);
    cmd.flag_no_group = true;
    let merged = get_args(cmd, env).expect("a database");
    assert!(merged.flag_use_keyring);
    assert!(merged.flag_preview);
    assert!(merged.flag_no_group);
    assert!(!merged.flag_full_screen);
    assert!(!merged.flag_remove_key);
    assert!(!merged.flag_help);
    assert!(!merged.flag_version);
    assert_eq!(merged.arg_command, Command::Show);
    assert_eq!(merged.flag_timeout, Some(5));
}

#[test]
fn no_command_means_clip() {
    let merged = get_args(with_database(Command::Unknown(String::new())), blank(Command::Clip))
        .expect("a database");
    assert_eq!(merged.arg_command, Command::Clip);
    assert_eq!(merged.arg_entry, None);

    let mut cmd = with_database(Command::Unknown(String::new()));
    cmd.arg_entry = Some(String::from("gmail"));
    let merged = get_args(cmd, blank(Command::Clip)).expect("a database");
    assert_eq!(merged.arg_command, Command::Clip);
    assert_eq!(merged.arg_entry.as_deref(), Some("gmail"));
}

#[test]
fn lone_word_is_the_entry_to_clip() {
    let cmd = with_database(Command::Unknown(String::from("git.sr.ht")));
    let merged = get_args(cmd, blank(Command::Clip)).expect("a database");
    assert_eq!(merged.arg_command, Command::Clip);
    assert_eq!(merged.arg_entry.as_deref(), Some("git.sr.ht"));
}

#[test]
fn misspelled_command_stays_unknown() {
    let mut cmd = with_database(Command::Unknown(String::from("klip")));
    cmd.arg_entry = Some(String::from("github.com"));
    let merged = get_args(cmd, blank(Command::Clip)).expect("a database");
    assert_eq!(merged.arg_command, Command::Unknown(String::from("klip")));
    assert_eq!(merged.arg_entry.as_deref(), Some("github.com"));
}

#[test]
fn command_of_the_environment_is_not_taken() {
    let mut env = blank(Command::Show);
    env.arg_entry = Some(String::from("from-env"));
    env.flag_timeout = Some(7);
    let merged = get_args(with_database(Command::Clip), env).expect("a database");
    assert_eq!(merged.arg_command, Command::Clip);
    assert_eq!(merged.arg_entry, None);
    assert_eq!(merged.flag_timeout, Some(7));
}

#[test]
fn version_has_three_numbers_or_nothing() {
    assert_eq!(version(Some("0"), Some("3"), Some("12")), "0.3.12");
    assert_eq!(version(Some("1"), Some("0"), Some("0")), "1.0.0");
    assert_eq!(version(None, Some("3"), Some("12")), "");
    assert_eq!(version(Some("0"), None, Some("12")), "");
    assert_eq!(version(Some("0"), Some("3"), None), "");
    assert_eq!(version(None, None, None), "");
}
