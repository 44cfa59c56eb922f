//! The credential store: a secret cached outside the process, one slot per
//! database, named after the path of the database.

use crate::pwd::Pwd;
use crate::text::{decimal, to_decimal};
use vstd::prelude::*;
use vstd::string::*;
use vstd::utf8::{decode_utf8, encode_utf8, encode_utf8_decode_utf8, encode_utf8_valid_utf8, valid_utf8};

verus! {

/// Start value of the rolling hash.
pub const HASH_SEED: u64 = 1153;

/// Multiplier of the rolling hash.
pub const HASH_FACTOR: u64 = 33;

/// One round of the rolling hash: the accumulator times [`HASH_FACTOR`],
/// reduced to 64 bits, then xor-ed with the next byte.
pub open spec fn mix(acc: u64, byte: u8) -> u64 {
    (((acc as nat * HASH_FACTOR as nat) % 0x1_0000_0000_0000_0000) as u64) ^ (byte as u64)
}

/// The rolling hash of a byte string: [`mix`] folded over the bytes from the
/// first to the last, starting at [`HASH_SEED`].
pub open spec fn hash_bytes(data: Seq<u8>) -> u64 {
    data.fold_left(HASH_SEED, |acc: u64, byte: u8| mix(acc, byte))
}

/// Hashes the UTF-8 bytes of `data`. The hash is not cryptographic: it only
/// spreads database paths over account names.
pub fn hash(data: &str) -> (h: u64)
    ensures
        h == hash_bytes(encode_utf8(data@)),
{
    let bytes = data.as_bytes();
    let mut acc: u64 = HASH_SEED;
    let mut i: usize = 0;
    while i < bytes.len()
        invariant
            i <= bytes.len(),
            acc == hash_bytes(bytes@.take(i as int)),
        decreases bytes.len() - i,
    {
        assert(bytes@.take(i + 1).drop_last() =~= bytes@.take(i as int));
        acc = acc.wrapping_mul(HASH_FACTOR) ^ (bytes[i] as u64);
        i += 1;
    }
    assert(bytes@.take(i as int) =~= bytes@);
    acc
}

/// The service under which every password of this program is filed.
pub open spec fn service_name() -> Seq<char> {
    crate::BIN_NAME@ + ".keepass.cli.tool"@
}

/// The account under which the password of the database at `path` is
/// filed: the hash of the path, written as a decimal numeral.
pub open spec fn account_name(path: Seq<char>) -> Seq<char> {
    decimal(hash_bytes(encode_utf8(path)) as nat)
}

/// Derives the identity of a keyring entry, service and account, from the
/// path of a database.
pub fn create_from(filename: &str) -> (identity: (String, String))
    ensures
        identity.0@ == service_name(),
        identity.1@ == account_name(filename@),
{
    let mut service = String::from_str(crate::BIN_NAME);
    service.append(".keepass.cli.tool");
    let username = to_decimal(hash(filename));
    (service, username)
}

/// The identity of an entry depends on the path alone: the same path
/// gives the same service and account, in every run of the program.
pub proof fn lemma_identity_is_stable(first: Seq<char>, second: Seq<char>)
    requires
        first == second,
    ensures
        account_name(first) == account_name(second),
{
}

/// One round of the hash loses nothing: different accumulators stay
/// different under the same byte, and different bytes make the same
/// accumulator different.
pub proof fn lemma_mix_is_injective(acc: u64, other_acc: u64, byte: u8, other_byte: u8)
    ensures
        mix(acc, byte) == mix(other_acc, byte) ==> acc == other_acc,
        mix(acc, byte) == mix(acc, other_byte) ==> byte == other_byte,
{
    let a = ((acc as nat * HASH_FACTOR as nat) % 0x1_0000_0000_0000_0000) as u64;
    let b = ((other_acc as nat * HASH_FACTOR as nat) % 0x1_0000_0000_0000_0000) as u64;
    assert(a == acc.wrapping_mul(33));
    assert(b == other_acc.wrapping_mul(33));
    let wide = byte as u64;
    let other_wide = other_byte as u64;
    assert(a ^ wide == b ^ wide ==> a == b) by (bit_vector);
    assert(a ^ wide == a ^ other_wide ==> wide == other_wide) by (bit_vector);
    assert(a == b ==> acc == other_acc) by {
        lemma_factor_is_invertible(acc, other_acc);
    }
}

/// Multiplication by the factor of the hash, reduced to 64 bits, can be
/// undone: the factor is odd.
proof fn lemma_factor_is_invertible(x: u64, y: u64)
    ensures
        x.wrapping_mul(33) == y.wrapping_mul(33) ==> x == y,
{
    assert((((x * 33) % 0x1_0000_0000_0000_0000) * 0x0f83_e0f8_3e0f_83e1)
        % 0x1_0000_0000_0000_0000 == x) by (bit_vector);
    assert((((y * 33) % 0x1_0000_0000_0000_0000) * 0x0f83_e0f8_3e0f_83e1)
        % 0x1_0000_0000_0000_0000 == y) by (bit_vector);
}

/// Byte strings of one length that differ in one byte, the one at `at`,
/// have different hashes.
pub proof fn lemma_one_byte_changes_hash(first: Seq<u8>, second: Seq<u8>, at: int)
    requires
        first.len() == second.len(),
        0 <= at < first.len(),
        first[at] != second[at],
        forall|i: int| 0 <= i < first.len() && i != at ==> first[i] == second[i],
    ensures
        hash_bytes(first) != hash_bytes(second),
    decreases first.len(),
{
    let init = first.drop_last();
    let other_init = second.drop_last();
    if at == first.len() - 1 {
        assert(init =~= other_init);
        lemma_mix_is_injective(hash_bytes(init), hash_bytes(init), first.last(), second.last());
    } else {
        lemma_one_byte_changes_hash(init, other_init, at);
        lemma_mix_is_injective(
            hash_bytes(init),
            hash_bytes(other_init),
            first.last(),
            first.last(),
        );
    }
}

/// Collisions are possible, but not between neighbours: two paths whose
/// bytes differ in one place only, `at`, are filed under different
/// accounts.
pub proof fn lemma_neighbours_never_collide(first: Seq<char>, second: Seq<char>, at: int)
    requires
        encode_utf8(first).len() == encode_utf8(second).len(),
        0 <= at < encode_utf8(first).len(),
        encode_utf8(first)[at] != encode_utf8(second)[at],
        forall|i: int|
            0 <= i < encode_utf8(first).len() && i != at ==> encode_utf8(first)[i] == encode_utf8(
                second,
            )[i],
    ensures
        account_name(first) != account_name(second),
{
    lemma_one_byte_changes_hash(encode_utf8(first), encode_utf8(second), at);
    crate::text::lemma_decimal_is_injective(
        hash_bytes(encode_utf8(first)) as nat,
        hash_bytes(encode_utf8(second)) as nat,
    );
}

/// The `keyctl` command that reads the payload of a key.
pub const KEYCTL_READ: i32 = 11;

/// The `keyctl` command that invalidates a key.
pub const KEYCTL_INVALIDATE: i32 = 21;

/// The keyring of the session, as a special key id.
pub const KEY_SPEC_SESSION_KEYRING: i32 = -3;

/// The type of the keys: defined by the user, opaque to the kernel.
pub const KEY_TYPE: &'static str = "user";

/// Why the keyring did not do what it was asked.
#[derive(Clone, Copy, Debug, PartialEq, Eq, Structural)]
pub enum StoreError {
    /// There is no password for this database in the keyring.
    NotFound,
    /// The platform refused, with this error code.
    Os(i32),
    /// What the keyring holds for this database is not text.
    Malformed,
}

impl StoreError {
    /// The error that a platform's error code stands for, `no_key` being
    /// the code by which this platform says that there is no such entry.
    pub open spec fn of_code(code: i32, no_key: i32) -> StoreError {
        if code == no_key {
            StoreError::NotFound
        } else {
            StoreError::Os(code)
        }
    }

    /// Tells a missing entry from every other failure of the platform.
    pub fn classify(code: i32, no_key: i32) -> (error: StoreError)
        ensures
            error == StoreError::of_code(code, no_key),
    {
        if code == no_key {
            StoreError::NotFound
        } else {
            StoreError::Os(code)
        }
    }
}

/// A call into the kernel's key management. The description of the key
/// is that of the [`Keyring`] that the exchange was begun on.
#[derive(Clone, Copy, Debug, PartialEq, Eq, Structural)]
pub enum Call {
    /// `request_key`, for the key of type [`KEY_TYPE`] with the keyring's
    /// description, without callout information and without a destination.
    RequestKey,
    /// `keyctl` with [`KEYCTL_READ`] and no buffer: asks how long the
    /// payload of `key` is.
    Measure { key: i64 },
    /// `keyctl` with [`KEYCTL_READ`] and a buffer of `len` bytes: reads
    /// the payload of `key`.
    Read { key: i64, len: i64 },
    /// `add_key`, with type [`KEY_TYPE`], the keyring's description and
    /// the password as payload, into [`KEY_SPEC_SESSION_KEYRING`].
    AddKey,
    /// `keyctl` with [`KEYCTL_INVALIDATE`]: does away with `key`.
    Invalidate { key: i64 },
}

/// What a key is looked up for.
#[derive(Clone, Copy, Debug, PartialEq, Eq, Structural)]
pub enum Purpose {
    Reading,
    Removal,
}

/// Where an exchange with the kernel stands.
#[derive(Clone, Copy, Debug, PartialEq, Eq)]
pub enum Stage {
    Locating { purpose: Purpose },
    Measuring { key: i64 },
    Reading { key: i64, len: i64 },
    Adding,
    Invalidating { key: i64 },
    /// The exchange is over. After a read that went well the buffer of the
    /// last call holds the password.
    Done(Result<(), StoreError>),
}

/// One operation on the keyring, as the sequence of kernel calls that
/// carries it out: each call is made once the one before it has
/// succeeded, and the first failure ends the exchange.
#[derive(Clone, Copy, Debug, PartialEq, Eq)]
pub struct Exchange {
    /// The error code that means that there is no such key.
    pub no_key: i32,
    pub stage: Stage,
}

impl Exchange {
    /// The exchange that reads the password, at its start.
    pub open spec fn reading(no_key: i32) -> Exchange {
        Exchange { no_key, stage: Stage::Locating { purpose: Purpose::Reading } }
    }

    /// The exchange that stores a password, at its start.
    pub open spec fn storing(no_key: i32) -> Exchange {
        Exchange { no_key, stage: Stage::Adding }
    }

    /// The exchange that removes the password, at its start.
    pub open spec fn removing(no_key: i32) -> Exchange {
        Exchange { no_key, stage: Stage::Locating { purpose: Purpose::Removal } }
    }

    /// The call to make now; none once the exchange is over.
    pub open spec fn pending(self) -> Option<Call> {
        match self.stage {
            Stage::Locating { purpose } => Some(Call::RequestKey),
            Stage::Measuring { key } => Some(Call::Measure { key }),
            Stage::Reading { key, len } => Some(Call::Read { key, len }),
            Stage::Adding => Some(Call::AddKey),
            Stage::Invalidating { key } => Some(Call::Invalidate { key }),
            Stage::Done(_) => None,
        }
    }

    /// The result of the exchange; none while a call is pending.
    pub open spec fn outcome(self) -> Option<Result<(), StoreError>> {
        match self.stage {
            Stage::Done(result) => Some(result),
            _ => None,
        }
    }

    /// The stage after the kernel has answered the pending call with the
    /// return value `ret` and, where that is negative, the error `errno`.
    pub open spec fn next_stage(self, ret: i64, errno: i32) -> Stage {
        match self.stage {
            Stage::Done(result) => Stage::Done(result),
            _ if ret < 0 => Stage::Done(Err(StoreError::of_code(errno, self.no_key))),
            Stage::Locating { purpose: Purpose::Reading } => Stage::Measuring { key: ret },
            Stage::Locating { purpose: Purpose::Removal } => Stage::Invalidating { key: ret },
            Stage::Measuring { key } => Stage::Reading { key, len: ret },
            Stage::Reading { key, len } => Stage::Done(Ok(())),
            Stage::Adding => Stage::Done(Ok(())),
            Stage::Invalidating { key } => Stage::Done(Ok(())),
        }
    }

    /// The exchange after that answer.
    pub open spec fn next(self, ret: i64, errno: i32) -> Exchange {
        Exchange { no_key: self.no_key, stage: self.next_stage(ret, errno) }
    }

    /// The call to make now; none once the exchange is over.
    pub fn call(&self) -> (call: Option<Call>)
        ensures
            call == self.pending(),
    {
        match self.stage {
            Stage::Locating { .. } => Some(Call::RequestKey),
            Stage::Measuring { key } => Some(Call::Measure { key }),
            Stage::Reading { key, len } => Some(Call::Read { key, len }),
            Stage::Adding => Some(Call::AddKey),
            Stage::Invalidating { key } => Some(Call::Invalidate { key }),
            Stage::Done(_) => None,
        }
    }

    /// The result of the exchange; none while a call is pending.
    pub fn result(&self) -> (result: Option<Result<(), StoreError>>)
        ensures
            result == self.outcome(),
    {
        match self.stage {
            Stage::Done(result) => Some(result),
            _ => None,
        }
    }

    /// Takes the kernel's answer to the pending call: its return value
    /// and, where that is negative, the error it left.
    pub fn advance(&mut self, ret: i64, errno: i32)
        ensures
            *final(self) == old(self).next(ret, errno),
    {
        let stage = match self.stage {
            Stage::Done(result) => Stage::Done(result),
            _ if ret < 0 => Stage::Done(Err(StoreError::classify(errno, self.no_key))),
            Stage::Locating { purpose: Purpose::Reading } => Stage::Measuring { key: ret },
            Stage::Locating { purpose: Purpose::Removal } => Stage::Invalidating { key: ret },
            Stage::Measuring { key } => Stage::Reading { key, len: ret },
            Stage::Reading { .. } => Stage::Done(Ok(())),
            Stage::Adding => Stage::Done(Ok(())),
            Stage::Invalidating { .. } => Stage::Done(Ok(())),
        };
        self.stage = stage;
    }
}

/// The place of one database's password in the keyring.
pub struct Keyring {
    /// The service that the password is filed under.
    pub keyname: String,
    /// The account that the password is filed under.
    pub account: String,
    /// The error code by which the platform says that there is no such
    /// entry.
    pub no_key: i32,
}

impl Keyring {
    /// The description of the kernel key: service and account, with a
    /// colon between them.
    pub open spec fn spec_description(&self) -> Seq<char> {
        self.keyname@ + ":"@ + self.account@
    }

    /// The keyring entry with this service and account.
    pub fn new(keyname: String, account: String, no_key: i32) -> (keyring: Keyring)
        ensures
            keyring.keyname@ == keyname@,
            keyring.account@ == account@,
            keyring.no_key == no_key,
    {
        Keyring { keyname, account, no_key }
    }

    /// The keyring entry for the database at `file`.
    pub fn from_db_path(file: &str, no_key: i32) -> (keyring: Keyring)
        ensures
            keyring.keyname@ == service_name(),
            keyring.account@ == account_name(file@),
            keyring.no_key == no_key,
    {
        let (service, username) = create_from(file);
        Keyring::new(service, username, no_key)
    }

    /// The description of the kernel key.
    pub fn description(&self) -> (desc: String)
        ensures
            desc@ == self.spec_description(),
    {
        let mut desc = self.keyname.clone();
        desc.append(":");
        desc.append(self.account.as_str());
        desc
    }

    /// Begins the reading of the password: look the key up, ask for the
    /// length of its payload, read that many bytes.
    pub fn get_password(&self) -> (exchange: Exchange)
        ensures
            exchange == Exchange::reading(self.no_key),
    {
        Exchange { no_key: self.no_key, stage: Stage::Locating { purpose: Purpose::Reading } }
    }

    /// Begins the storing of a password: one call, which adds the key or
    /// replaces its payload.
    pub fn set_password(&self) -> (exchange: Exchange)
        ensures
            exchange == Exchange::storing(self.no_key),
    {
        Exchange { no_key: self.no_key, stage: Stage::Adding }
    }

    /// Begins the removal of the password: look the key up, invalidate it.
    pub fn delete_password(&self) -> (exchange: Exchange)
        ensures
            exchange == Exchange::removing(self.no_key),
    {
        Exchange { no_key: self.no_key, stage: Stage::Locating { purpose: Purpose::Removal } }
    }
}

/// Makes a password of the payload that the kernel delivered.
pub fn secret_from(payload: Vec<u8>) -> (secret: Result<Pwd, StoreError>)
    ensures
        secret is Ok <==> valid_utf8(payload@),
        secret matches Ok(pwd) ==> pwd@ == payload@,
        secret matches Err(error) ==> error == StoreError::Malformed,
{
    match Pwd::from_utf8(payload) {
        Some(pwd) => Ok(pwd),
        None => Err(StoreError::Malformed),
    }
}

/// A password that was never stored is reported as not found, and as
/// nothing else: when the kernel answers the lookup with the error that
/// means "no such key", the reading ends at once with
/// [`StoreError::NotFound`].
pub proof fn lemma_missing_key_is_not_found(no_key: i32, ret: i64)
    requires
        ret < 0,
    ensures
        Exchange::reading(no_key).next(ret, no_key).outcome() == Some(
            Err::<(), StoreError>(StoreError::NotFound),
        ),
        Exchange::removing(no_key).next(ret, no_key).outcome() == Some(
            Err::<(), StoreError>(StoreError::NotFound),
        ),
{
}

/// Every other failure of the kernel is reported with its error code, at
/// whatever call it happens, and ends the exchange.
pub proof fn lemma_failure_ends_exchange(exchange: Exchange, ret: i64, errno: i32)
    requires
        exchange.pending() is Some,
        ret < 0,
    ensures
        exchange.next(ret, errno).outcome() == Some(
            Err::<(), StoreError>(StoreError::of_code(errno, exchange.no_key)),
        ),
        errno != exchange.no_key ==> exchange.next(ret, errno).outcome() == Some(
            Err::<(), StoreError>(StoreError::Os(errno)),
        ),
{
}

/// Reading takes three calls, in this order: the key is looked up, the
/// length of its payload is asked for, and that many bytes are read from
/// the key that was found.
pub proof fn lemma_reading_takes_three_calls(no_key: i32, key: i64, len: i64, read: i64)
    requires
        key >= 0,
        len >= 0,
        read >= 0,
    ensures
        ({
            let start = Exchange::reading(no_key);
            let found = start.next(key, 0);
            let measured = found.next(len, 0);
            let done = measured.next(read, 0);
            &&& start.pending() == Some(Call::RequestKey)
            &&& found.pending() == Some(Call::Measure { key })
            &&& measured.pending() == Some(Call::Read { key, len })
            &&& done.outcome() == Some(Ok::<(), StoreError>(()))
        }),
{
}

/// Storing takes one call, removal two: the key is looked up and the key
/// that was found is invalidated.
pub proof fn lemma_storing_and_removal(no_key: i32, key: i64, ret: i64)
    requires
        key >= 0,
        ret >= 0,
    ensures
        ({
            let store = Exchange::storing(no_key);
            let remove = Exchange::removing(no_key);
            &&& store.pending() == Some(Call::AddKey)
            &&& store.next(ret, 0).outcome() == Some(Ok::<(), StoreError>(()))
            &&& remove.pending() == Some(Call::RequestKey)
            &&& remove.next(key, 0).pending() == Some(Call::Invalidate { key })
            &&& remove.next(key, 0).next(ret, 0).outcome() == Some(Ok::<(), StoreError>(()))
        }),
{
}

/// An exchange that is over stays over: further answers change nothing.
pub proof fn lemma_done_is_final(exchange: Exchange, ret: i64, errno: i32)
    requires
        exchange.outcome() is Some,
    ensures
        exchange.next(ret, errno) == exchange,
{
}

/// A key as a session keyring keeps it.
pub struct Key {
    pub id: i64,
    pub payload: Seq<u8>,
}

/// What a session keyring does on `call`, as far as the one key goes
/// that has the description of this program's entry: `slot` is that key,
/// if there is one. The answer is the return value of the call, the bytes
/// it delivers and the key thereafter. A key that is not there is asked
/// for in vain, and the call returns -1; `payload` is what `add_key` is
/// given, and `fresh` the id that a new key gets.
pub open spec fn kernel_answer(slot: Option<Key>, call: Call, payload: Seq<u8>, fresh: i64) -> (
    i64,
    Seq<u8>,
    Option<Key>,
) {
    match (call, slot) {
        (Call::RequestKey, Some(key)) => (key.id, Seq::empty(), slot),
        (Call::Measure { key: id }, Some(key)) if key.id == id => (
            key.payload.len() as i64,
            Seq::empty(),
            slot,
        ),
        (Call::Read { key: id, len }, Some(key)) if key.id == id && key.payload.len() <= len => (
            key.payload.len() as i64,
            key.payload,
            slot,
        ),
        (Call::AddKey, Some(key)) => (key.id, Seq::empty(), Some(Key { id: key.id, payload })),
        (Call::AddKey, None) => (fresh, Seq::empty(), Some(Key { id: fresh, payload })),
        (Call::Invalidate { key: id }, Some(key)) if key.id == id => (0i64, Seq::empty(), None),
        _ => (-1i64, Seq::empty(), slot),
    }
}

/// An exchange carried out against such a keyring, for at most `calls`
/// calls: where it ends, the key thereafter, and the bytes that the last
/// read delivered into the buffer, which held `data` before.
pub open spec fn carried_out(
    exchange: Exchange,
    slot: Option<Key>,
    payload: Seq<u8>,
    fresh: i64,
    data: Seq<u8>,
    calls: nat,
) -> (Exchange, Option<Key>, Seq<u8>)
    decreases calls,
{
    match exchange.pending() {
        Some(call) if calls > 0 => {
            let (ret, delivered, kept) = kernel_answer(slot, call, payload, fresh);
            carried_out(
                exchange.next(ret, exchange.no_key),
                kept,
                payload,
                fresh,
                if call is Read {
                    delivered
                } else {
                    data
                },
                (calls - 1) as nat,
            )
        },
        _ => (exchange, slot, data),
    }
}

/// Whether `slot` is a key such as a kernel keeps: its id is not
/// negative, and its payload has a length that a call can return.
pub open spec fn well_kept(slot: Option<Key>) -> bool {
    slot matches Some(key) ==> key.id >= 0 && key.payload.len() <= i64::MAX
}

/// Asked for a password that was never stored, a session keyring has no
/// key, and the reading says exactly that: not found.
pub proof fn lemma_never_stored_is_not_found(no_key: i32, fresh: i64)
    ensures
        carried_out(Exchange::reading(no_key), None, Seq::empty(), fresh, Seq::empty(), 3).0.outcome()
            == Some(Err::<(), StoreError>(StoreError::NotFound)),
{
    reveal_with_fuel(carried_out, 4);
}

/// What was stored is what is read: after a password has been stored in
/// a session keyring, whatever the keyring held before, reading succeeds
/// and delivers the bytes of that password, which make the same text.
pub proof fn lemma_stored_is_read_back(
    no_key: i32,
    before: Option<Key>,
    fresh: i64,
    password: Seq<char>,
)
    requires
        well_kept(before),
        fresh >= 0,
        encode_utf8(password).len() <= i64::MAX,
    ensures
        ({
            let stored = carried_out(
                Exchange::storing(no_key),
                before,
                encode_utf8(password),
                fresh,
                Seq::empty(),
                3,
            );
            let read = carried_out(
                Exchange::reading(no_key),
                stored.1,
                Seq::empty(),
                fresh,
                Seq::empty(),
                3,
            );
            &&& stored.0.outcome() == Some(Ok::<(), StoreError>(()))
            &&& read.0.outcome() == Some(Ok::<(), StoreError>(()))
            &&& read.2 == encode_utf8(password)
            &&& valid_utf8(read.2)
            &&& decode_utf8(read.2) == password
        }),
{
    reveal_with_fuel(carried_out, 4);
    encode_utf8_valid_utf8(password);
    encode_utf8_decode_utf8(password);
}

/// What was removed is gone: after the removal of a password that was
/// there, reading finds nothing; and the removal of one that was not
/// there says so.
pub proof fn lemma_removed_is_not_found(no_key: i32, before: Option<Key>, fresh: i64)
    requires
        well_kept(before),
    ensures
        ({
            let removed = carried_out(
                Exchange::removing(no_key),
                before,
                Seq::empty(),
                fresh,
                Seq::empty(),
                3,
            );
            let read = carried_out(
                Exchange::reading(no_key),
                removed.1,
                Seq::empty(),
                fresh,
                Seq::empty(),
                3,
            );
            &&& before is Some ==> removed.0.outcome() == Some(Ok::<(), StoreError>(()))
            &&& before is None ==> removed.0.outcome() == Some(
                Err::<(), StoreError>(StoreError::NotFound),
            )
            &&& read.0.outcome() == Some(Err::<(), StoreError>(StoreError::NotFound))
        }),
{
    reveal_with_fuel(carried_out, 4);
}

} // verus!
