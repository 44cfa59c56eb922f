//! Getting hold of the master password: from a pipe, from the keyring, or
//! from the user, who gets a bounded number of tries.
//!
//! Nothing here reads or opens anything. [`Acquisition`] is the plan: it
//! says what to do next, is told how that went, and says what to do then.

use crate::text::{decimal, to_decimal};
use vstd::prelude::*;
use vstd::string::*;

verus! {

/// How often the user is asked for the password before the program gives
/// up.
pub const ATTEMPTS: u8 = 3;

/// What the user is asked with.
pub const PROMPT: &'static str = "Password:";

/// The line that tells the user, after a password was refused, how many
/// attempts are left.
pub open spec fn attempts_line(left: nat) -> Seq<char> {
    decimal(left) + " attempt(s) left."@
}

/// Writes the line that tells the user how many attempts are left.
pub fn attempts_left(left: u8) -> (line: String)
    ensures
        line@ == attempts_line(left as nat),
{
    let mut line = to_decimal(left as u64);
    line.append(" attempt(s) left.");
    line
}

/// Where a password came from.
#[derive(Clone, Copy, Debug, PartialEq, Eq, Structural)]
pub enum Source {
    /// Read from standard input, which is not a terminal.
    Piped,
    /// Found in the keyring.
    Cached,
    /// Typed in at the prompt.
    Typed,
}

/// Why no password opened the database.
#[derive(Clone, Copy, Debug, PartialEq, Eq, Structural)]
pub enum Failure {
    /// The piped password was refused. A pipe is read once: there is no
    /// second try.
    Rejected,
    /// Every one of the [`ATTEMPTS`] typed passwords was refused.
    Exhausted,
    /// The key could not even be built, for want of a readable key file.
    /// Another password would not help.
    Unusable,
}

/// What to do next.
#[derive(Clone, Copy, Debug, PartialEq, Eq)]
pub enum Step {
    /// Read all of standard input as the password.
    ReadPipe,
    /// Ask the keyring for the password.
    Fetch,
    /// Try to open the database with the password from this source.
    Open(Source),
    /// Remove the password from the keyring: it no longer opens the
    /// database.
    Forget,
    /// Ask the user for the password. Where `left` is set, tell them first
    /// how many attempts are left, this one included.
    Prompt { left: Option<u8> },
    /// Put the typed password into the keyring.
    Remember,
    /// Stop: the database is open with the password from this source, or
    /// it stays closed.
    Done(Result<Source, Failure>),
}

/// How the last step went.
#[derive(Clone, Copy, Debug, PartialEq, Eq, Structural)]
pub enum Event {
    /// A password was read, from the pipe or at the prompt.
    SecretRead,
    /// The keyring had a password.
    Hit,
    /// The keyring had none, or could not be asked.
    Miss,
    /// The database opened.
    Opened,
    /// The database did not open with this password.
    Rejected,
    /// No key could be built from this password and the key file.
    Unusable,
    /// The keyring was told to store or to remove the password. Whether it
    /// did is of no consequence: the keyring is a convenience.
    StoreReplied,
}

/// Where the plan stands.
#[derive(Clone, Copy, Debug, PartialEq, Eq)]
pub enum Phase {
    /// The password is being read from the pipe.
    ReadingPipe,
    /// The piped password is being tried.
    OpeningPiped,
    /// The keyring is being asked.
    Fetching,
    /// The password from the keyring is being tried.
    OpeningCached,
    /// The stale password is being removed from the keyring.
    Forgetting,
    /// The user is being asked for the `attempt`-th time, counted from 1.
    Prompting { attempt: u8 },
    /// The `attempt`-th typed password is being tried.
    OpeningTyped { attempt: u8 },
    /// The password that opened the database is being stored.
    Remembering,
    /// It is over, with this outcome.
    Finished(Result<Source, Failure>),
}

/// The plan for getting the master password, and the place reached in it.
#[derive(Clone, Copy, Debug, PartialEq, Eq)]
pub struct Acquisition {
    /// Whether the keyring may be asked and told.
    pub keyring: bool,
    pub phase: Phase,
}

impl Acquisition {
    /// The plan at its start. Input that is not a terminal is read as the
    /// password, and the keyring is left alone even where it was asked
    /// for: what comes down a pipe is not for keeping.
    pub open spec fn initial(interactive: bool, keyring: bool) -> Acquisition {
        if !interactive {
            Acquisition { keyring: false, phase: Phase::ReadingPipe }
        } else if keyring {
            Acquisition { keyring: true, phase: Phase::Fetching }
        } else {
            Acquisition { keyring: false, phase: Phase::Prompting { attempt: 1 } }
        }
    }

    /// The step that the plan asks for where it stands.
    pub open spec fn pending(self) -> Step {
        match self.phase {
            Phase::ReadingPipe => Step::ReadPipe,
            Phase::OpeningPiped => Step::Open(Source::Piped),
            Phase::Fetching => Step::Fetch,
            Phase::OpeningCached => Step::Open(Source::Cached),
            Phase::Forgetting => Step::Forget,
            Phase::Prompting { attempt } => Step::Prompt {
                left: if 1 < attempt <= ATTEMPTS {
                    Some((ATTEMPTS - attempt + 1) as u8)
                } else {
                    None
                },
            },
            Phase::OpeningTyped { attempt } => Step::Open(Source::Typed),
            Phase::Remembering => Step::Remember,
            Phase::Finished(outcome) => Step::Done(outcome),
        }
    }

    /// The phase that follows `self.phase` on `event`. An event that does
    /// not answer the pending step changes nothing.
    pub open spec fn next_phase(self, event: Event) -> Phase {
        match (self.phase, event) {
            (Phase::ReadingPipe, Event::SecretRead) => Phase::OpeningPiped,
            (Phase::OpeningPiped, Event::Opened) => Phase::Finished(Ok(Source::Piped)),
            (Phase::OpeningPiped, Event::Rejected) => Phase::Finished(Err(Failure::Rejected)),
            (Phase::OpeningPiped, Event::Unusable) => Phase::Finished(Err(Failure::Unusable)),
            (Phase::Fetching, Event::Hit) => Phase::OpeningCached,
            (Phase::Fetching, Event::Miss) => Phase::Prompting { attempt: 1 },
            (Phase::OpeningCached, Event::Opened) => Phase::Finished(Ok(Source::Cached)),
            (Phase::OpeningCached, Event::Rejected) => Phase::Forgetting,
            (Phase::OpeningCached, Event::Unusable) => Phase::Finished(Err(Failure::Unusable)),
            (Phase::Forgetting, Event::StoreReplied) => Phase::Prompting { attempt: 1 },
            (Phase::Prompting { attempt }, Event::SecretRead) => Phase::OpeningTyped { attempt },
            (Phase::OpeningTyped { attempt }, Event::Opened) => if self.keyring {
                Phase::Remembering
            } else {
                Phase::Finished(Ok(Source::Typed))
            },
            (Phase::OpeningTyped { attempt }, Event::Rejected) => if attempt < ATTEMPTS {
                Phase::Prompting { attempt: (attempt + 1) as u8 }
            } else {
                Phase::Finished(Err(Failure::Exhausted))
            },
            (Phase::OpeningTyped { attempt }, Event::Unusable) => Phase::Finished(
                Err(Failure::Unusable),
            ),
            (Phase::Remembering, Event::StoreReplied) => Phase::Finished(Ok(Source::Typed)),
            (phase, _) => phase,
        }
    }

    /// The plan after `event`.
    pub open spec fn next(self, event: Event) -> Acquisition {
        Acquisition { keyring: self.keyring, phase: self.next_phase(event) }
    }

    /// The plan after each of `events` in turn.
    pub open spec fn after(self, events: Seq<Event>) -> Acquisition
        decreases events.len(),
    {
        if events.len() == 0 {
            self
        } else {
            self.after(events.drop_last()).next(events.last())
        }
    }

    /// The step that the plan asks for where it stands.
    pub fn request(&self) -> (step: Step)
        ensures
            step == self.pending(),
    {
        match self.phase {
            Phase::ReadingPipe => Step::ReadPipe,
            Phase::OpeningPiped => Step::Open(Source::Piped),
            Phase::Fetching => Step::Fetch,
            Phase::OpeningCached => Step::Open(Source::Cached),
            Phase::Forgetting => Step::Forget,
            Phase::Prompting { attempt } => {
                if 1 < attempt && attempt <= ATTEMPTS {
                    Step::Prompt { left: Some(ATTEMPTS - attempt + 1) }
                } else {
                    Step::Prompt { left: None }
                }
            },
            Phase::OpeningTyped { .. } => Step::Open(Source::Typed),
            Phase::Remembering => Step::Remember,
            Phase::Finished(outcome) => Step::Done(outcome),
        }
    }

    /// Takes note of how the pending step went and moves on.
    pub fn advance(&mut self, event: Event)
        ensures
            *final(self) == old(self).next(event),
    {
        let phase = match (self.phase, event) {
            (Phase::ReadingPipe, Event::SecretRead) => Phase::OpeningPiped,
            (Phase::OpeningPiped, Event::Opened) => Phase::Finished(Ok(Source::Piped)),
            (Phase::OpeningPiped, Event::Rejected) => Phase::Finished(Err(Failure::Rejected)),
            (Phase::OpeningPiped, Event::Unusable) => Phase::Finished(Err(Failure::Unusable)),
            (Phase::Fetching, Event::Hit) => Phase::OpeningCached,
            (Phase::Fetching, Event::Miss) => Phase::Prompting { attempt: 1 },
            (Phase::OpeningCached, Event::Opened) => Phase::Finished(Ok(Source::Cached)),
            (Phase::OpeningCached, Event::Rejected) => Phase::Forgetting,
            (Phase::OpeningCached, Event::Unusable) => Phase::Finished(Err(Failure::Unusable)),
            (Phase::Forgetting, Event::StoreReplied) => Phase::Prompting { attempt: 1 },
            (Phase::Prompting { attempt }, Event::SecretRead) => Phase::OpeningTyped { attempt },
            (Phase::OpeningTyped { .. }, Event::Opened) => {
                if self.keyring {
                    Phase::Remembering
                } else {
                    Phase::Finished(Ok(Source::Typed))
                }
            },
            (Phase::OpeningTyped { attempt }, Event::Rejected) => {
                if attempt < ATTEMPTS {
                    Phase::Prompting { attempt: attempt + 1 }
                } else {
                    Phase::Finished(Err(Failure::Exhausted))
                }
            },
            (Phase::OpeningTyped { .. }, Event::Unusable) => Phase::Finished(
                Err(Failure::Unusable),
            ),
            (Phase::Remembering, Event::StoreReplied) => Phase::Finished(Ok(Source::Typed)),
            (phase, _) => phase,
        };
        self.phase = phase;
    }
}

impl Acquisition {
    /// The number of passwords among `events` that were typed in at the
    /// prompt: the reads that came while the plan was asking the user.
    pub open spec fn typed(self, events: Seq<Event>) -> nat
        decreases events.len(),
    {
        if events.len() == 0 {
            0
        } else {
            let before = self.after(events.drop_last());
            let read: nat = if before.phase is Prompting && events.last() == Event::SecretRead {
                1
            } else {
                0
            };
            self.typed(events.drop_last()) + read
        }
    }

    /// Whether the pending step asks anything of the keyring.
    pub open spec fn touches_keyring(self) -> bool {
        self.pending() == Step::Fetch || self.pending() == Step::Forget || self.pending()
            == Step::Remember
    }
}

/// Running a plan over two runs of events, one after the other, is
/// running it over both.
pub proof fn lemma_after_concat(plan: Acquisition, first: Seq<Event>, second: Seq<Event>)
    ensures
        plan.after(first + second) == plan.after(first).after(second),
    decreases second.len(),
{
    if second.len() == 0 {
        assert(first + second =~= first);
    } else {
        assert((first + second).drop_last() =~= first + second.drop_last());
        lemma_after_concat(plan, first, second.drop_last());
    }
}

/// A password that comes down a pipe never reaches the keyring: whatever
/// happens, a plan that starts on input that is no terminal asks the
/// keyring nothing, stores nothing in it and removes nothing from it.
pub proof fn lemma_pipe_leaves_keyring_alone(use_keyring: bool, events: Seq<Event>)
    ensures
        !Acquisition::initial(false, use_keyring).after(events).touches_keyring(),
{
    let plan = Acquisition::initial(false, use_keyring);
    let end = plan.after(events);
    assert(end.phase is ReadingPipe || end.phase is OpeningPiped || end.phase is Finished) by {
        lemma_pipe_phases(use_keyring, events);
    }
}

proof fn lemma_pipe_phases(use_keyring: bool, events: Seq<Event>)
    ensures
        ({
            let end = Acquisition::initial(false, use_keyring).after(events);
            end.phase is ReadingPipe || end.phase is OpeningPiped || end.phase is Finished
        }),
    decreases events.len(),
{
    if events.len() > 0 {
        lemma_pipe_phases(use_keyring, events.drop_last());
    }
}

/// What holds of a plan and of the number of passwords typed so far,
/// wherever a run from the start has got to.
spec fn on_course(plan: Acquisition, typed: nat) -> bool {
    match plan.phase {
        Phase::Prompting { attempt } => 1 <= attempt <= ATTEMPTS && typed == attempt - 1,
        Phase::OpeningTyped { attempt } => 1 <= attempt <= ATTEMPTS && typed == attempt,
        Phase::Remembering => typed <= ATTEMPTS,
        Phase::Finished(_) => typed <= ATTEMPTS,
        _ => typed == 0,
    }
}

proof fn lemma_on_course(interactive: bool, use_keyring: bool, events: Seq<Event>)
    ensures
        ({
            let plan = Acquisition::initial(interactive, use_keyring);
            on_course(plan.after(events), plan.typed(events))
        }),
    decreases events.len(),
{
    if events.len() > 0 {
        lemma_on_course(interactive, use_keyring, events.drop_last());
    }
}

/// The user is asked at most [`ATTEMPTS`] times: no run of a plan reads
/// more typed passwords than that.
pub proof fn lemma_prompts_are_bounded(interactive: bool, use_keyring: bool, events: Seq<Event>)
    ensures
        Acquisition::initial(interactive, use_keyring).typed(events) <= ATTEMPTS,
{
    lemma_on_course(interactive, use_keyring, events);
}

/// The attempts that a prompt announces as left are those not yet used:
/// the prompt that follows `typed` refused passwords announces
/// `ATTEMPTS - typed`, and the first prompt announces nothing.
pub proof fn lemma_prompt_counts_down(interactive: bool, use_keyring: bool, events: Seq<Event>)
    ensures
        ({
            let plan = Acquisition::initial(interactive, use_keyring);
            let typed = plan.typed(events);
            plan.after(events).pending() matches Step::Prompt { left } ==> left == if typed == 0 {
                None
            } else {
                Some((ATTEMPTS - typed) as u8)
            }
        }),
{
    lemma_on_course(interactive, use_keyring, events);
}

proof fn lemma_remembering_stays(plan: Acquisition, events: Seq<Event>)
    requires
        plan.phase is Remembering || plan.phase == Phase::Finished(Ok(Source::Typed)),
    ensures
        ({
            let end = plan.after(events);
            end.phase is Remembering || end.phase == Phase::Finished(Ok(Source::Typed))
        }),
    decreases events.len(),
{
    if events.len() > 0 {
        lemma_remembering_stays(plan, events.drop_last());
    }
}

/// The keyring is written only on success: a run that ends without an
/// open database has at no point asked for the password to be stored.
pub proof fn lemma_failure_stores_nothing(
    interactive: bool,
    use_keyring: bool,
    events: Seq<Event>,
    upto: int,
)
    requires
        0 <= upto <= events.len(),
        Acquisition::initial(interactive, use_keyring).after(events).pending() matches Step::Done(
            Err(_),
        ),
    ensures
        Acquisition::initial(interactive, use_keyring).after(events.take(upto)).pending()
            != Step::Remember,
{
    let plan = Acquisition::initial(interactive, use_keyring);
    let mid = plan.after(events.take(upto));
    if mid.pending() == Step::Remember {
        let rest = events.skip(upto);
        assert(events.take(upto) + rest =~= events);
        lemma_after_concat(plan, events.take(upto), rest);
        lemma_remembering_stays(mid, rest);
    }
}

/// The password is stored only once it has opened the database: the
/// plan comes to ask for that from nowhere but the trial of a typed
/// password, on the news that the database opened, with the keyring in
/// use.
pub proof fn lemma_remember_follows_success(plan: Acquisition, event: Event)
    requires
        plan.next(event).pending() == Step::Remember,
        plan.pending() != Step::Remember,
    ensures
        plan.pending() == Step::Open(Source::Typed),
        event == Event::Opened,
        plan.keyring,
{
}

/// A password is removed from the keyring only when it is stale: the
/// plan comes to ask for that from nowhere but the trial of the cached
/// password, on the news that the database refused it.
pub proof fn lemma_forget_follows_refusal(plan: Acquisition, event: Event)
    requires
        plan.next(event).pending() == Step::Forget,
        plan.pending() != Step::Forget,
    ensures
        plan.pending() == Step::Open(Source::Cached),
        event == Event::Rejected,
{
}

/// How many steps a plan may still take, at most.
spec fn steps_left(plan: Acquisition) -> nat {
    match plan.phase {
        Phase::Fetching => 10,
        Phase::OpeningCached => 9,
        Phase::Forgetting => 8,
        Phase::Prompting { attempt } => if 1 <= attempt <= ATTEMPTS {
            (9 - 2 * attempt) as nat
        } else {
            0
        },
        Phase::OpeningTyped { attempt } => if 1 <= attempt <= ATTEMPTS {
            (8 - 2 * attempt) as nat
        } else {
            0
        },
        Phase::ReadingPipe => 2,
        Phase::OpeningPiped => 1,
        Phase::Remembering => 1,
        Phase::Finished(_) => 0,
    }
}

/// Whether each of `events` moved the plan on: none of them came to a
/// plan that it did not answer.
pub open spec fn all_answered(plan: Acquisition, events: Seq<Event>) -> bool {
    forall|i: int|
        0 <= i < events.len() ==> #[trigger] plan.after(events.take(i)).next(events[i])
            != plan.after(events.take(i))
}

proof fn lemma_steps_left(interactive: bool, use_keyring: bool, events: Seq<Event>)
    requires
        all_answered(Acquisition::initial(interactive, use_keyring), events),
    ensures
        steps_left(Acquisition::initial(interactive, use_keyring).after(events)) + events.len()
            <= 10,
    decreases events.len(),
{
    let plan = Acquisition::initial(interactive, use_keyring);
    if events.len() > 0 {
        let init = events.drop_last();
        assert forall|i: int| 0 <= i < init.len() implies #[trigger] plan.after(init.take(i)).next(
            init[i],
        ) != plan.after(init.take(i)) by {
            assert(init.take(i) =~= events.take(i));
            assert(plan.after(events.take(i)).next(events[i]) != plan.after(events.take(i)));
        }
        lemma_steps_left(interactive, use_keyring, init);
        lemma_on_course(interactive, use_keyring, init);
        assert(events.take(events.len() - 1) =~= init);
        assert(plan.after(events.take(events.len() - 1)).next(events[events.len() - 1])
            != plan.after(events.take(events.len() - 1)));
    }
}

/// Every plan comes to an end: it takes ten steps at most, the longest
/// way being through a stale password in the keyring and three attempts
/// at the prompt, the last of which is stored.
pub proof fn lemma_plan_ends(interactive: bool, use_keyring: bool, events: Seq<Event>)
    requires
        all_answered(Acquisition::initial(interactive, use_keyring), events),
    ensures
        events.len() <= 10,
        events.len() == 10 ==> Acquisition::initial(interactive, use_keyring).after(events).phase
            is Finished,
{
    lemma_steps_left(interactive, use_keyring, events);
    lemma_on_course(interactive, use_keyring, events);
}

/// A finished plan stays finished, with the same outcome.
pub proof fn lemma_finished_is_final(plan: Acquisition, events: Seq<Event>)
    requires
        plan.phase is Finished,
    ensures
        plan.after(events) == plan,
    decreases events.len(),
{
    if events.len() > 0 {
        lemma_finished_is_final(plan, events.drop_last());
    }
}

/// Begins the opening of a database: the plan for getting its master
/// password. `interactive` says whether standard input is a terminal,
/// `use_keyring` whether the user asked for the keyring and it is there.
pub fn open_database(interactive: bool, use_keyring: bool) -> (plan: Acquisition)
    ensures
        plan == Acquisition::initial(interactive, use_keyring),
{
    if !interactive {
        Acquisition { keyring: false, phase: Phase::ReadingPipe }
    } else if use_keyring {
        Acquisition { keyring: true, phase: Phase::Fetching }
    } else {
        Acquisition { keyring: false, phase: Phase::Prompting { attempt: 1 } }
    }
}

} // verus!
