use kp::stdin::{is_tty, read_password, trim_newlines, Stdin, TtyOp};

const ECHO: u64 = 0o10;
const ECHONL: u64 = 0o100;

fn trimmed(text: &str) -> Vec<u8> {
    let mut bytes = text.as_bytes().to_vec();
    trim_newlines(&mut bytes);
    bytes
}

#[test]
fn trim_newlines_cuts_the_end_of_the_line() {
    assert_eq!(trimmed("secret\n"), b"secret".to_vec());
    assert_eq!(trimmed("secret\r\n"), b"secret".to_vec());
    assert_eq!(trimmed("secret\n\r\n\n"), b"secret".to_vec());
    assert_eq!(trimmed("secret\r"), b"secret".to_vec());
}

#[test]
fn trim_newlines_leaves_the_rest() {
    assert_eq!(trimmed("secret"), b"secret".to_vec());
    assert_eq!(trimmed(" two words \n"), b" two words ".to_vec());
    assert_eq!(trimmed("\nline\nbreak\n"), b"\nline\nbreak".to_vec());
    assert_eq!(trimmed("tab\t\n"), b"tab\t".to_vec());
}

#[test]
fn trim_newlines_of_nothing_but_newlines_is_empty() {
    assert_eq!(trimmed(""), Vec::<u8>::new());
    assert_eq!(trimmed("\n"), Vec::<u8>::new());
    assert_eq!(trimmed("\r\n\r\n"), Vec::<u8>::new());
}

#[test]
fn read_password_trims_what_was_read() {
    assert_eq!(read_password(String::from("correct-horse\n")).as_str(), "correct-horse");
    assert_eq!(read_password(String::from("correct-horse\r\n")).as_str(), "correct-horse");
    assert_eq!(read_password(String::from("correct-horse")).as_str(), "correct-horse");
    assert_eq!(read_password(String::from("correct horse \n")).as_str(), "correct horse ");
    assert_eq!(read_password(String::from("first\nsecond\n\n")).as_str(), "first\nsecond");
    assert_eq!(read_password(String::from("pässwörd\n")).as_str(), "pässwörd");
    assert_eq!(read_password(String::from("\n")).as_str(), "");
    assert_eq!(read_password(String::new()).as_str(), "");
}

#[test]
fn stdin_keeps_the_modes_of_a_terminal() {
    assert_eq!(Stdin::new(1, 0, 0o105073), Stdin(Some(0o105073)));
    assert!(Stdin::new(1, 0, 0o105073).is_tty());
    assert_eq!(Stdin::new(1, 0, 0o105073).reset_tty(), Some(0o105073));
}

#[test]
fn stdin_that_is_no_terminal_keeps_nothing() {
    assert_eq!(Stdin::new(0, 0, 0o105073), Stdin(None));
    assert_eq!(Stdin::new(1, -1, 0o105073), Stdin(None));
    assert_eq!(Stdin::new(0, -1, 0), Stdin(None));
    assert_eq!(Stdin::new(2, 0, 0o105073), Stdin(None));
    assert!(!Stdin::new(0, 0, 0).is_tty());
    assert_eq!(Stdin::new(0, 0, 0o105073).reset_tty(), None);
}

#[test]
fn terminal_is_silenced_read_and_restored() {
    let stdin = Stdin(Some(0o105073));
    assert_eq!(
        stdin.read_password(ECHO, ECHONL),
        vec![
            TtyOp::SetModes { lflag: 0o105163 },
            TtyOp::ReadLine,
            TtyOp::SetModes { lflag: 0o105073 },
        ]
    );
}

#[test]
fn silencing_clears_echo_and_sets_the_echo_of_newlines() {
    let silent = Stdin(Some(0o105163));
    assert_eq!(silent.read_password(ECHO, ECHONL)[0], TtyOp::SetModes { lflag: 0o105163 });
    let bare = Stdin(Some(0));
    assert_eq!(bare.read_password(ECHO, ECHONL)[0], TtyOp::SetModes { lflag: ECHONL });
    let other_platform = Stdin(Some(0x5cb));
    assert_eq!(
        other_platform.read_password(0x8, 0x10),
        vec![
            TtyOp::SetModes { lflag: 0x5d3 },
            TtyOp::ReadLine,
            TtyOp::SetModes { lflag: 0x5cb },
        ]
    );
}

#[test]
fn pipe_is_read_to_its_end() {
    assert_eq!(Stdin(None).read_password(ECHO, ECHONL), vec![TtyOp::ReadAll]);
}

#[test]
fn only_one_means_a_terminal() {
    assert!(is_tty(1));
    assert!(!is_tty(0));
    assert!(!is_tty(-1));
    assert!(!is_tty(2));
}
