//! Exposure of a password through the clipboard: placed, held for a
//! bounded time, wiped.

use crate::text::{decimal, pad_right, padded, to_decimal};
use crate::CANCEL_RQ_FREQ;
use vstd::prelude::*;
use vstd::string::*;

verus! {

/// What the clipboard holds after a request to set it to `val`: the value
/// itself, and nothing where there is none.
pub open spec fn clipboard_contents(val: Option<Seq<char>>) -> Seq<char> {
    match val {
        Some(text) => text,
        None => Seq::empty(),
    }
}

/// The text to hand to the clipboard for `val`. The clipboard has no
/// state of being unset, so it is cleared by writing the empty text.
pub fn set_clipboard(val: Option<String>) -> (contents: String)
    ensures
        contents@ == clipboard_contents(
            match val {
                Some(text) => Some(text@),
                None => None,
            },
        ),
{
    match val {
        Some(text) => text,
        None => String::new(),
    }
}

/// The milliseconds between two looks for a request to stop: one tick.
pub const TICK_MILLIS: u64 = 1_000 / CANCEL_RQ_FREQ;

/// The clipboard could not be written.
#[derive(Clone, Copy, Debug, PartialEq, Eq, Structural)]
pub struct SinkError;

impl SinkError {
    /// What to tell the user: that the clipboard is out of reach, and
    /// that standard output can take the password in its place.
    pub fn message(&self) -> (text: String)
        ensures
            text@
                == "Could not copy to the clipboard. Try to use standard out, i.e. \"kp clip example.com | cat\"."@,
    {
        String::from_str(
            "Could not copy to the clipboard. Try to use standard out, i.e. \"kp clip example.com | cat\".",
        )
    }
}

/// The line that counts the seconds down. It ends in a carriage return,
/// so that the next line is written over it, and in a space before that,
/// which covers the last dot of a line that was one digit longer.
pub open spec fn countdown_line(seconds: nat) -> Seq<char> {
    "Copied to the clipboard! Clear in "@ + decimal(seconds) + " seconds... \r"@
}

/// The line that confirms that the clipboard was cleared, as wide as it
/// takes to cover the countdown.
pub open spec fn wiped_line() -> Seq<char> {
    padded("Wiped out"@, 50)
}

/// Writes the line that announces that `seconds` seconds remain.
pub fn countdown(seconds: u64) -> (line: String)
    ensures
        line@ == countdown_line(seconds as nat),
{
    let mut line = String::from_str("Copied to the clipboard! Clear in ");
    let number = to_decimal(seconds);
    line.append(number.as_str());
    line.append(" seconds... \r");
    line
}

/// Writes the line that confirms that the clipboard was cleared.
pub fn wiped_out() -> (line: String)
    ensures
        line@ == wiped_line(),
{
    pad_right("Wiped out", 50)
}

/// The life of a password in the clipboard. It is placed once, stays for
/// a number of ticks or for good, and is wiped once.
#[derive(Debug, PartialEq, Eq)]
pub enum Exposure {
    /// Nothing has been placed.
    Idle,
    /// The password is in the clipboard, for `ticks` more ticks; for good
    /// where there are none.
    Exposed { ticks: Option<u64> },
    /// The clipboard has been cleared.
    Wiped,
}

/// What to do at a tick.
#[derive(Clone, Copy, Debug, PartialEq, Eq)]
pub enum Directive {
    /// Leave the password where it is and sleep for one tick. Where
    /// `announce` is set, first tell the user that this many seconds
    /// remain.
    Hold { announce: Option<u64> },
    /// Clear the clipboard now. Where `confirm` is set, tell the user
    /// that it was done.
    Wipe { confirm: bool },
    /// Nothing is to be done, now or later.
    Rest,
}

/// The ticks that a password stays for under `timeout`, given in seconds;
/// none where there is no timeout.
pub open spec fn deadline(timeout: Option<u8>) -> Option<u64> {
    match timeout {
        Some(seconds) => Some((seconds as u64 * CANCEL_RQ_FREQ) as u64),
        None => None,
    }
}

impl Exposure {
    /// What a tick asks for, `cancelled` telling whether a stop has been
    /// requested. A stop wipes at once and in silence, for the process is
    /// about to end; so does the last tick, with a confirmation. While
    /// ticks remain the password is held, and each whole second that
    /// remains is announced.
    pub open spec fn directive(self, cancelled: bool) -> Directive {
        match self {
            Exposure::Exposed { ticks: Some(ticks) } => if cancelled {
                Directive::Wipe { confirm: false }
            } else if ticks == 0 {
                Directive::Wipe { confirm: true }
            } else {
                Directive::Hold {
                    announce: if ticks % CANCEL_RQ_FREQ == 0 {
                        Some(ticks / CANCEL_RQ_FREQ)
                    } else {
                        None
                    },
                }
            },
            _ => Directive::Rest,
        }
    }

    /// The state after a tick.
    pub open spec fn next(self, cancelled: bool) -> Exposure {
        match self {
            Exposure::Exposed { ticks: Some(ticks) } => if cancelled || ticks == 0 {
                Exposure::Wiped
            } else {
                Exposure::Exposed { ticks: Some((ticks - 1) as u64) }
            },
            other => other,
        }
    }

    /// The state after one tick for each of `polls`, which tell in turn
    /// whether a stop had been requested by then.
    pub open spec fn after(self, polls: Seq<bool>) -> Exposure
        decreases polls.len(),
    {
        if polls.len() == 0 {
            self
        } else {
            self.after(polls.drop_last()).next(polls.last())
        }
    }

    /// A window into which nothing has been placed.
    pub fn new() -> (window: Exposure)
        ensures
            window == Exposure::Idle,
    {
        Exposure::Idle
    }

    /// Takes note of an attempt to place the password in the clipboard,
    /// `placed` telling whether the clipboard took it. Success exposes the
    /// password, for the ticks that `timeout` allows. After a failure
    /// nothing is exposed: the window stays idle, and there will be
    /// nothing to wipe. A window is placed into once, while it is idle.
    pub fn place(&mut self, placed: bool, timeout: Option<u8>) -> (result: Result<(), SinkError>)
        requires
            *old(self) == Exposure::Idle,
        ensures
            placed ==> result is Ok && *final(self) == (Exposure::Exposed {
                ticks: deadline(timeout),
            }),
            !placed ==> result is Err && *final(self) == Exposure::Idle,
    {
        if !placed {
            return Err(SinkError);
        }
        let ticks = match timeout {
            Some(seconds) => Some(seconds as u64 * CANCEL_RQ_FREQ),
            None => None,
        };
        *self = Exposure::Exposed { ticks };
        Ok(())
    }

    /// One tick: says what to do and moves on.
    pub fn poll(&mut self, cancelled: bool) -> (directive: Directive)
        ensures
            directive == old(self).directive(cancelled),
            *final(self) == old(self).next(cancelled),
    {
        match self {
            Exposure::Exposed { ticks: Some(ticks) } => {
                let ticks: u64 = *ticks;
                if cancelled {
                    *self = Exposure::Wiped;
                    Directive::Wipe { confirm: false }
                } else if ticks == 0 {
                    *self = Exposure::Wiped;
                    Directive::Wipe { confirm: true }
                } else {
                    *self = Exposure::Exposed { ticks: Some(ticks - 1) };
                    if ticks % CANCEL_RQ_FREQ == 0 {
                        Directive::Hold { announce: Some(ticks / CANCEL_RQ_FREQ) }
                    } else {
                        Directive::Hold { announce: None }
                    }
                }
            },
            _ => Directive::Rest,
        }
    }
}

/// `len` ticks at none of which a stop had been requested.
pub open spec fn undisturbed(len: nat) -> Seq<bool> {
    Seq::new(len, |i: int| false)
}

/// The window in which a password has just been placed under `timeout`.
pub open spec fn exposed(timeout: Option<u8>) -> Exposure {
    Exposure::Exposed { ticks: deadline(timeout) }
}

/// Left alone, a password stays for all of its time: after `k` ticks
/// without a request to stop, of the [`CANCEL_RQ_FREQ`] a second that the
/// timeout allows, the window is still exposed, with the other ticks to go. Each
/// tick before the last holds the password and sleeps; so the clipboard
/// has held it for `seconds` whole seconds when the last tick wipes it.
pub proof fn lemma_held_until_deadline(seconds: u8, k: nat)
    requires
        k <= seconds * CANCEL_RQ_FREQ,
    ensures
        exposed(Some(seconds)).after(undisturbed(k)) == (Exposure::Exposed {
            ticks: Some((seconds * CANCEL_RQ_FREQ - k) as u64),
        }),
        k < seconds * CANCEL_RQ_FREQ ==> exposed(Some(seconds)).after(undisturbed(k)).directive(
            false,
        ) is Hold,
        k == seconds * CANCEL_RQ_FREQ ==> exposed(Some(seconds)).after(undisturbed(k)).directive(
            false,
        ) == (Directive::Wipe { confirm: true }),
        seconds * CANCEL_RQ_FREQ * TICK_MILLIS == seconds * 1_000,
    decreases k,
{
    if k > 0 {
        lemma_held_until_deadline(seconds, (k - 1) as nat);
        assert(undisturbed(k).drop_last() =~= undisturbed((k - 1) as nat));
    }
}

/// A request to stop is obeyed at the tick that sees it: whenever it
/// comes while the countdown runs, that tick wipes the clipboard, without
/// another sleep and without a confirmation. With one tick between two
/// looks, the clipboard is clear within a tick of the request.
pub proof fn lemma_stop_wipes_at_once(seconds: u8, k: nat)
    requires
        k <= seconds * CANCEL_RQ_FREQ,
    ensures
        exposed(Some(seconds)).after(undisturbed(k)).directive(true) == (Directive::Wipe {
            confirm: false,
        }),
        exposed(Some(seconds)).after(undisturbed(k)).next(true) == Exposure::Wiped,
{
    lemma_held_until_deadline(seconds, k);
}

/// Whatever the window, a tick wipes exactly when the password is under a
/// deadline and either a stop was requested or no tick is left; and a
/// tick that wipes leaves the window wiped.
pub proof fn lemma_wipe_conditions(window: Exposure, cancelled: bool)
    ensures
        window.directive(cancelled) is Wipe <==> (window matches Exposure::Exposed {
            ticks: Some(ticks),
        } && (cancelled || ticks == 0)),
        window.directive(cancelled) is Wipe ==> window.next(cancelled) == Exposure::Wiped,
        window.directive(cancelled) is Hold ==> window.next(cancelled) is Exposed,
        window.directive(cancelled) is Rest ==> window.next(cancelled) == window,
{
}

/// What holds of a window under a deadline after `k` ticks: it is wiped,
/// or it has no more ticks left than the deadline less `k`.
spec fn on_time(window: Exposure, seconds: u8, k: nat) -> bool {
    match window {
        Exposure::Wiped => true,
        Exposure::Exposed { ticks: Some(ticks) } => ticks + k <= seconds * CANCEL_RQ_FREQ,
        _ => false,
    }
}

proof fn lemma_on_time(seconds: u8, polls: Seq<bool>)
    ensures
        on_time(exposed(Some(seconds)).after(polls), seconds, polls.len()),
    decreases polls.len(),
{
    if polls.len() > 0 {
        lemma_on_time(seconds, polls.drop_last());
    }
}

/// No password outstays its deadline: whatever else happens, once more
/// ticks have passed than the timeout allows, the clipboard has been
/// cleared.
pub proof fn lemma_gone_after_deadline(seconds: u8, polls: Seq<bool>)
    requires
        polls.len() > seconds * CANCEL_RQ_FREQ,
    ensures
        exposed(Some(seconds)).after(polls) == Exposure::Wiped,
{
    lemma_on_time(seconds, polls.drop_last());
    lemma_on_time(seconds, polls);
}

/// No password outstays a request to stop: once a tick has seen one, the
/// clipboard has been cleared, and it stays so.
pub proof fn lemma_gone_after_stop(seconds: u8, polls: Seq<bool>, seen: int)
    requires
        0 <= seen < polls.len(),
        polls[seen],
    ensures
        exposed(Some(seconds)).after(polls) == Exposure::Wiped,
    decreases polls.len(),
{
    if seen == polls.len() - 1 {
        lemma_on_time(seconds, polls.drop_last());
    } else {
        lemma_gone_after_stop(seconds, polls.drop_last(), seen);
    }
}

/// Without a timeout the password is never wiped: whatever happens, the
/// window stays exposed and no tick asks for anything.
pub proof fn lemma_no_timeout_never_wipes(polls: Seq<bool>, cancelled: bool)
    ensures
        exposed(None).after(polls) == exposed(None),
        exposed(None).after(polls).directive(cancelled) == Directive::Rest,
    decreases polls.len(),
{
    if polls.len() > 0 {
        lemma_no_timeout_never_wipes(polls.drop_last(), polls.last());
    }
}

/// A window is used once: ticks never make it idle again, and a wiped
/// window stays wiped.
pub proof fn lemma_one_shot(window: Exposure, polls: Seq<bool>)
    ensures
        !(window is Idle) ==> !(window.after(polls) is Idle),
        window is Wiped ==> window.after(polls) is Wiped,
        window is Idle ==> window.after(polls) is Idle,
    decreases polls.len(),
{
    if polls.len() > 0 {
        lemma_one_shot(window, polls.drop_last());
    }
}

} // verus!
