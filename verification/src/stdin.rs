//! Reading the password from standard input: from a terminal that does
//! not echo it, or from a pipe.

use crate::pwd::{into_bytes, Pwd};
use vstd::prelude::*;
use vstd::utf8::*;

verus! {

/// Whether `byte` is a line feed or a carriage return.
pub open spec fn is_newline(byte: u8) -> bool {
    byte == 0x0a || byte == 0x0d
}

/// `bytes` without the line feeds and carriage returns at its end.
pub open spec fn trimmed(bytes: Seq<u8>) -> Seq<u8>
    decreases bytes.len(),
{
    if bytes.len() > 0 && is_newline(bytes.last()) {
        trimmed(bytes.drop_last())
    } else {
        bytes
    }
}

/// Removes the line feeds and carriage returns at the end of `password`.
pub fn trim_newlines(password: &mut Vec<u8>)
    ensures
        final(password)@ == trimmed(old(password)@),
{
    let mut len = password.len();
    while len > 0 && (password[len - 1] == 0x0a || password[len - 1] == 0x0d)
        invariant
            len == password@.len(),
            trimmed(password@) == trimmed(old(password)@),
        decreases len,
    {
        password.pop();
        len -= 1;
    }
}

/// Trimming cuts a password at its end and nowhere else: what is left is
/// the beginning of `bytes`, all that was cut is line feeds and carriage
/// returns, and what is left does not end in one.
pub proof fn lemma_trimmed_shape(bytes: Seq<u8>)
    ensures
        trimmed(bytes).len() <= bytes.len(),
        trimmed(bytes) == bytes.take(trimmed(bytes).len() as int),
        forall|i: int| trimmed(bytes).len() <= i < bytes.len() ==> is_newline(#[trigger] bytes[i]),
        trimmed(bytes).len() > 0 ==> !is_newline(trimmed(bytes).last()),
    decreases bytes.len(),
{
    if bytes.len() > 0 && is_newline(bytes.last()) {
        let init = bytes.drop_last();
        lemma_trimmed_shape(init);
        assert(init.take(trimmed(init).len() as int) =~= bytes.take(trimmed(init).len() as int));
        assert forall|i: int| trimmed(bytes).len() <= i < bytes.len() implies is_newline(
            #[trigger] bytes[i],
        ) by {
            if i < init.len() {
                assert(bytes[i] == init[i]);
            }
        }
    } else {
        assert(bytes.take(bytes.len() as int) =~= bytes);
    }
}

/// Trimming twice is trimming once.
pub proof fn lemma_trimmed_is_idempotent(bytes: Seq<u8>)
    ensures
        trimmed(trimmed(bytes)) == trimmed(bytes),
    decreases bytes.len(),
{
    if bytes.len() > 0 && is_newline(bytes.last()) {
        lemma_trimmed_is_idempotent(bytes.drop_last());
    }
}

/// Text stays text when it is trimmed.
pub proof fn lemma_trimmed_text_is_text(bytes: Seq<u8>)
    requires
        valid_utf8(bytes),
    ensures
        valid_utf8(trimmed(bytes)),
    decreases bytes.len(),
{
    if bytes.len() > 0 && is_newline(bytes.last()) {
        let last = bytes.last();
        let cut = bytes.len() - 1;
        assert(!is_continuation_byte(last)) by {
            utf8_byte_ranges_bitwise(last);
        }
        is_char_boundary_iff_not_is_continuation_byte(bytes, cut);
        valid_utf8_split(bytes, cut);
        assert(bytes.subrange(0, cut) =~= bytes.drop_last());
        lemma_trimmed_text_is_text(bytes.drop_last());
    }
}

/// Whether `c` is a line feed or a carriage return.
pub open spec fn is_newline_char(c: char) -> bool {
    c == '\n' || c == '\r'
}

/// `text` without the line feeds and carriage returns at its end.
pub open spec fn trimmed_text(text: Seq<char>) -> Seq<char>
    decreases text.len(),
{
    if text.len() > 0 && is_newline_char(text.last()) {
        trimmed_text(text.drop_last())
    } else {
        text
    }
}

proof fn lemma_encode_push(text: Seq<char>, c: char)
    ensures
        encode_utf8(text.push(c)) == encode_utf8(text) + encode_scalar(c as u32),
    decreases text.len(),
{
    if text.len() == 0 {
        assert(text.push(c).drop_first() =~= Seq::<char>::empty());
        assert(encode_utf8(text.push(c)) =~= encode_scalar(c as u32) + encode_utf8(
            Seq::<char>::empty(),
        ));
        assert(encode_utf8(text) + encode_scalar(c as u32) =~= encode_scalar(c as u32));
        assert(encode_scalar(c as u32) + encode_utf8(Seq::<char>::empty()) =~= encode_scalar(
            c as u32,
        ));
    } else {
        assert(text.push(c).drop_first() =~= text.drop_first().push(c));
        lemma_encode_push(text.drop_first(), c);
        assert(encode_utf8(text.push(c)) =~= encode_utf8(text) + encode_scalar(c as u32));
    }
}

/// The last byte of a character's encoding is a line feed or a carriage
/// return only for these two characters, which are encoded in one byte.
proof fn lemma_last_byte_of_char(c: char)
    ensures
        encode_scalar(c as u32).len() > 0,
        is_newline(encode_scalar(c as u32).last()) <==> is_newline_char(c),
        is_newline_char(c) ==> encode_scalar(c as u32).len() == 1,
{
    let scalar = c as u32;
    char_is_scalar(c);
    if has_width_1_encoding(scalar) {
        assert((scalar & 0x7F) as u8 == scalar) by (bit_vector)
            requires
                scalar <= 0x7F,
        ;
    } else {
        let low = (scalar & 0x3F) as u8;
        assert(0x80u8 | low >= 0x80) by (bit_vector);
    }
}

/// Trimming the bytes of a text is trimming the text: the line feeds and
/// carriage returns at the end of the bytes are those at the end of the
/// text.
pub proof fn lemma_trimmed_bytes_of_text(text: Seq<char>)
    ensures
        trimmed(encode_utf8(text)) == encode_utf8(trimmed_text(text)),
        decode_utf8(trimmed(encode_utf8(text))) == trimmed_text(text),
    decreases text.len(),
{
    if text.len() > 0 {
        let init = text.drop_last();
        let c = text.last();
        assert(init.push(c) =~= text);
        lemma_encode_push(init, c);
        lemma_last_byte_of_char(c);
        let bytes = encode_utf8(text);
        assert(bytes.last() == encode_scalar(c as u32).last());
        if is_newline_char(c) {
            assert(bytes.drop_last() =~= encode_utf8(init));
            lemma_trimmed_bytes_of_text(init);
        }
    }
    encode_utf8_decode_utf8(trimmed_text(text));
}

/// Makes the password of what was read from standard input: the text
/// without the line feeds and carriage returns at its end. Nothing else
/// is taken away, white space inside the password least of all.
pub fn read_password(raw: String) -> (pwd: Pwd)
    ensures
        pwd@ == trimmed(encode_utf8(raw@)),
        pwd.text() == trimmed_text(raw@),
{
    let mut bytes = into_bytes(raw);
    proof {
        encode_utf8_valid_utf8(raw@);
        lemma_trimmed_text_is_text(bytes@);
        lemma_trimmed_bytes_of_text(raw@);
    }
    trim_newlines(&mut bytes);
    Pwd::from_utf8(bytes).unwrap()
}

/// The local modes of a terminal with echo switched off: the bits of
/// `echo` cleared, those of `echonl` set, so that the line feed that ends
/// the password still shows.
pub open spec fn silenced(lflag: u64, echo: u64, echonl: u64) -> u64 {
    (lflag & !echo) | echonl
}

/// One thing to do on standard input.
#[derive(Clone, Copy, Debug, PartialEq, Eq, Structural)]
pub enum TtyOp {
    /// Give the terminal these local modes, at once.
    SetModes { lflag: u64 },
    /// Read one line.
    ReadLine,
    /// Read to the end.
    ReadAll,
}

/// Whether a file is a terminal, from what `isatty` returned for it: 1
/// says that it is, anything else that it is not.
pub fn is_tty(isatty: i32) -> (tty: bool)
    ensures
        tty == (isatty == 1),
{
    isatty == 1
}

/// Standard input: the local modes that its terminal had when the
/// program started, or nothing where it is not a terminal.
#[derive(Clone, Copy, Debug, PartialEq, Eq)]
pub struct Stdin(pub Option<u64>);

impl Stdin {
    /// What is kept of standard input after asking the platform:
    /// `isatty` is what `isatty` returned, `tcgetattr` what `tcgetattr`
    /// returned, `lflag` the local modes that it delivered. The modes are
    /// kept where input is a terminal and its attributes could be had.
    pub open spec fn probed(isatty: i32, tcgetattr: i32, lflag: u64) -> Stdin {
        if isatty == 1 && tcgetattr == 0 {
            Stdin(Some(lflag))
        } else {
            Stdin(None)
        }
    }

    /// What is kept of standard input after asking the platform.
    pub fn new(isatty: i32, tcgetattr: i32, lflag: u64) -> (stdin: Stdin)
        ensures
            stdin == Stdin::probed(isatty, tcgetattr, lflag),
    {
        if is_tty(isatty) && tcgetattr == 0 {
            Stdin(Some(lflag))
        } else {
            Stdin(None)
        }
    }

    /// Whether standard input is a terminal whose modes are known.
    pub fn is_tty(&self) -> (tty: bool)
        ensures
            tty == self.0 is Some,
    {
        self.0.is_some()
    }

    /// What reading the password takes. A terminal is silenced, starting
    /// from the modes that were saved and not from those it happens to
    /// have, read by the line, and given the saved modes back; anything
    /// else is read to its end.
    pub open spec fn reading(self, echo: u64, echonl: u64) -> Seq<TtyOp> {
        match self.0 {
            Some(saved) => seq![
                TtyOp::SetModes { lflag: silenced(saved, echo, echonl) },
                TtyOp::ReadLine,
                TtyOp::SetModes { lflag: saved },
            ],
            None => seq![TtyOp::ReadAll],
        }
    }

    /// The things to do, in this order, to read the password. `echo` and
    /// `echonl` are the bits that the platform gives to these two local
    /// modes. Every one of them is to be done, also after a read that
    /// failed: the last gives the terminal its modes back.
    pub fn read_password(&self, echo: u64, echonl: u64) -> (ops: Vec<TtyOp>)
        ensures
            ops@ == self.reading(echo, echonl),
    {
        match self.0 {
            Some(saved) => {
                let ops = vec![
                    TtyOp::SetModes { lflag: (saved & !echo) | echonl },
                    TtyOp::ReadLine,
                    TtyOp::SetModes { lflag: saved },
                ];
                assert(ops@ =~= self.reading(echo, echonl));
                ops
            },
            None => {
                let ops = vec![TtyOp::ReadAll];
                assert(ops@ =~= self.reading(echo, echonl));
                ops
            },
        }
    }

    /// The local modes to give back to the terminal; none where there is
    /// no terminal, and nothing to do.
    pub fn reset_tty(&self) -> (lflag: Option<u64>)
        ensures
            lflag == self.0,
    {
        self.0
    }
}

/// The terminal is left as it was found: where reading the password
/// changes the modes of the terminal, the last thing it does is to set
/// the modes that were saved; and where there is no terminal, no modes
/// are set at all.
pub proof fn lemma_reading_restores_modes(stdin: Stdin, echo: u64, echonl: u64)
    ensures
        stdin.0 matches Some(saved) ==> stdin.reading(echo, echonl).last() == (TtyOp::SetModes {
            lflag: saved,
        }),
        stdin.0 is None ==> forall|i: int|
            0 <= i < stdin.reading(echo, echonl).len() ==> !(stdin.reading(echo, echonl)[i]
                is SetModes),
{
}

/// Silencing switches echo off and the echo of line feeds on, and
/// touches no other mode.
pub proof fn lemma_silenced_modes(lflag: u64, echo: u64, echonl: u64)
    ensures
        silenced(lflag, echo, echonl) & echonl == echonl,
        silenced(lflag, echo, echonl) & (echo & !echonl) == 0,
        silenced(lflag, echo, echonl) & !(echo | echonl) == lflag & !(echo | echonl),
        silenced(silenced(lflag, echo, echonl), echo, echonl) == silenced(lflag, echo, echonl),
{
    assert(((lflag & !echo) | echonl) & echonl == echonl) by (bit_vector);
    assert(((lflag & !echo) | echonl) & (echo & !echonl) == 0) by (bit_vector);
    assert(((lflag & !echo) | echonl) & !(echo | echonl) == lflag & !(echo | echonl))
        by (bit_vector);
    assert(((((lflag & !echo) | echonl) & !echo) | echonl) == ((lflag & !echo) | echonl))
        by (bit_vector);
}

} // verus!
