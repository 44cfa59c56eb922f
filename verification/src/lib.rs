//! Secret-lifecycle core of `kp`, a command-line reader for KeePass
//! databases.
//!
//! The crate decides; the program around it acts. Every function here is a
//! computation on plain values whose result is pinned down by its contract:
//! how the identity of a keyring entry is derived from a database path, which
//! kernel call follows which reply, how many prompts a user gets, and when a
//! secret that was placed in the clipboard has to be wiped again. Where the
//! program has to act in between, the crate hands out a plan, one step at a
//! time, and is told how each step went.
//!
//! - [`pwd`]: a secret that is overwritten with zeros when it is dropped.
//! - [`stdin`]: reading the password from a terminal, without echo, or from
//!   a pipe.
//! - [`keyring`]: the password cached in the keyring of the session.
//! - [`unlock`]: getting the master password, with three tries at most.
//! - [`clip`]: the password in the clipboard, and its countdown.
//! - [`cancel`]: what an interrupt sets off.
//! - [`command`], [`args`], [`pick`]: the commands, their arguments, and
//!   the choice of an entry.
//! - [`text`]: numerals and padding.

pub mod args;
pub mod cancel;
pub mod clip;
pub mod command;
mod fence;
pub mod keyring;
pub mod pick;
pub mod pwd;
pub mod stdin;
pub mod text;
pub mod unlock;

use vstd::prelude::*;

verus! {

/// The name of the program.
pub const BIN_NAME: &'static str = "kp";

/// The seconds that a password stays in the clipboard where the user did
/// not say.
pub const DEFAULT_TIMEOUT: u8 = 5;

/// How often in a second a running countdown looks for a request to stop.
pub const CANCEL_RQ_FREQ: u64 = 10;

} // verus!
