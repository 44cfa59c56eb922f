//! A secret that is erased from memory when it goes out of use.

use crate::fence::{compiler_fence, memory_fence};
use std::ops::Deref;
use vstd::prelude::*;
use vstd::std_specs::convert::FromSpecImpl;
use vstd::utf8::*;

verus! {

/// `len` bytes, each of them zero.
pub open spec fn zeros(len: nat) -> Seq<u8> {
    Seq::new(len, |i: int| 0u8)
}

/// Hands `text` over to the standard library's `String::into_bytes`,
/// which gives back the buffer of the string, its UTF-8 encoding, without
/// copying it.
#[verifier::external_body]
pub(crate) fn into_bytes(text: String) -> (bytes: Vec<u8>)
    ensures
        bytes@ == encode_utf8(text@),
{
    text.into_bytes()
}

/// Asks the standard library's `std::str::from_utf8` to read `bytes` as
/// text. It answers with the text that these bytes encode when they are
/// well-formed UTF-8, and with an error, here `None`, when they are not.
#[verifier::external_body]
fn as_text(bytes: &[u8]) -> (text: Option<&str>)
    ensures
        text is Some <==> valid_utf8(bytes@),
        text matches Some(t) ==> encode_utf8(t@) == bytes@,
{
    match std::str::from_utf8(bytes) {
        Ok(text) => Some(text),
        Err(_) => None,
    }
}

/// The standard library's `Vec::len`: the number of bytes in `buf`. A
/// destructor may call only what opens no invariant and does not unwind,
/// which `len` does not, so that is said here.
#[verifier::external_body]
fn byte_count(buf: &Vec<u8>) -> (len: usize)
    ensures
        len == buf@.len(),
    opens_invariants none
    no_unwind
{
    buf.len()
}

/// The standard library's indexed store into a `Vec`: the byte at `at`
/// becomes `byte`, every other byte stays. The index is in range, so the
/// store does not unwind; it opens no invariant.
#[verifier::external_body]
fn store(buf: &mut Vec<u8>, at: usize, byte: u8)
    requires
        at < old(buf)@.len(),
    ensures
        final(buf)@ == old(buf)@.update(at as int, byte),
    opens_invariants none
    no_unwind
{
    buf[at] = byte;
}

/// The standard library's `std::hint::black_box`, shown the buffer. It
/// is a hint to the compiler to take it that the bytes of `buf` are read
/// here, and so not to drop the writes before it as dead; the standard
/// library promises its best effort and no more. It changes nothing,
/// opens no invariant and does not unwind.
#[verifier::external_body]
fn observe(buf: &Vec<u8>)
    opens_invariants none
    no_unwind
{
    std::hint::black_box(buf);
}

/// Overwrites every byte of `buf` with zero. The length stays. The
/// buffer is then shown to the compiler as read, and a memory fence and a
/// compiler fence are passed, so that the zeros are written before
/// anything that follows, the release of the buffer above all.
pub fn zero_memory(buf: &mut Vec<u8>)
    ensures
        final(buf)@ == zeros(old(buf)@.len()),
    opens_invariants none
    no_unwind
{
    let len = byte_count(buf);
    let mut i: usize = 0;
    while i < len
        invariant
            buf@.len() == len,
            i <= len,
            forall|j: int| 0 <= j < i ==> buf@[j] == 0u8,
        decreases len - i,
    {
        store(buf, i, 0u8);
        i += 1;
    }
    assert(buf@ =~= zeros(len as nat));
    observe(buf);
    memory_fence();
    compiler_fence();
}

/// A secret string. Its bytes are overwritten with zeros before its
/// memory is given back.
pub struct Pwd {
    bytes: Vec<u8>,
}

impl View for Pwd {
    type V = Seq<u8>;

    closed spec fn view(&self) -> Seq<u8> {
        self.bytes@
    }
}

impl Pwd {
    #[verifier::type_invariant]
    spec fn well_formed(self) -> bool {
        valid_utf8(self.bytes@)
    }

    /// The characters of the secret.
    pub open spec fn text(&self) -> Seq<char> {
        decode_utf8(self@)
    }

    /// Takes `bytes` for a secret where they are well-formed UTF-8. Where
    /// they are not, they are overwritten with zeros and dropped: they may
    /// be part of a secret all the same.
    pub fn from_utf8(bytes: Vec<u8>) -> (pwd: Option<Pwd>)
        ensures
            pwd is Some <==> valid_utf8(bytes@),
            pwd matches Some(p) ==> p@ == bytes@,
    {
        let mut bytes = bytes;
        if as_text(bytes.as_slice()).is_some() {
            Some(Pwd { bytes })
        } else {
            zero_memory(&mut bytes);
            None
        }
    }

    /// The number of bytes in the secret.
    pub fn len(&self) -> (len: usize)
        ensures
            len == self@.len(),
    {
        self.bytes.len()
    }

    /// The secret as text.
    pub fn as_str(&self) -> (text: &str)
        ensures
            text@ == self.text(),
            encode_utf8(text@) == self@,
    {
        proof {
            use_type_invariant(self);
        }
        let text = as_text(self.bytes.as_slice()).unwrap();
        proof {
            encode_utf8_decode_utf8(text@);
        }
        text
    }

    /// Overwrites the secret with zeros.
    pub fn wipe(&mut self)
        ensures
            final(self)@ == zeros(old(self)@.len()),
        opens_invariants none
        no_unwind
    {
        proof {
            lemma_zeros_are_text(self.bytes@.len());
        }
        zero_memory(&mut self.bytes);
    }
}

/// A run of zero bytes is well-formed UTF-8.
proof fn lemma_zeros_are_text(len: nat)
    ensures
        valid_utf8(zeros(len)),
{
    let z = zeros(len);
    assert(z.subrange(0, 0) =~= Seq::<u8>::empty());
    assert(partial_valid_utf8(z, 0));
    assert forall|i: int| 0 <= i < len implies #[trigger] is_leading_byte_width_1(z[i]) by {
        assert(z[i] == 0u8);
    }
    partial_valid_utf8_extend_ascii_block(z, 0, len as int);
    assert(z.subrange(0, len as int) =~= z);
}

/// Erasure is complete: once a secret has been wiped, none of the bytes
/// in its place is a byte of the secret. This is said of secrets that hold
/// no zero byte. A zero byte of a secret is overwritten with zero like the
/// others, and is then no different from what was there before.
pub proof fn lemma_wipe_is_complete(secret: Seq<u8>, i: int, j: int)
    requires
        forall|k: int| 0 <= k < secret.len() ==> secret[k] != 0u8,
        0 <= i < secret.len(),
        0 <= j < secret.len(),
    ensures
        zeros(secret.len())[i] != secret[j],
{
}

/// A secret survives being stored as bytes: the secret made of the bytes
/// that encode a text reads as that text.
pub proof fn lemma_bytes_round_trip(text: Seq<char>, read: Pwd)
    requires
        read@ == encode_utf8(text),
    ensures
        valid_utf8(read@),
        read.text() == text,
{
    encode_utf8_valid_utf8(text);
    encode_utf8_decode_utf8(text);
}

impl Drop for Pwd {
    /// Wipes the secret. This runs wherever a secret goes out of use, on
    /// every path.
    fn drop(&mut self)
        ensures
            final(self)@ == zeros(old(self)@.len()),
        opens_invariants none
        no_unwind
    {
        self.wipe();
    }
}

impl Deref for Pwd {
    type Target = str;

    fn deref(&self) -> (text: &str)
        ensures
            text@ == self.text(),
    {
        self.as_str()
    }
}

/// What `from` promises is said of the bytes of the secret, in its own
/// contract below: two secrets of the same bytes are still two buffers,
/// so no one value can be named as the result.
impl FromSpecImpl<String> for Pwd {
    open spec fn obeys_from_spec() -> bool {
        false
    }

    open spec fn from_spec(text: String) -> Pwd {
        choose|pwd: Pwd| pwd@ == encode_utf8(text@)
    }
}

impl From<String> for Pwd {
    fn from(text: String) -> (pwd: Pwd)
        ensures
            pwd@ == encode_utf8(text@),
            pwd.text() == text@,
    {
        proof {
            encode_utf8_valid_utf8(text@);
            encode_utf8_decode_utf8(text@);
        }
        Pwd { bytes: into_bytes(text) }
    }
}

} // verus!
