//! What the program does when the user interrupts it.

use crate::CANCEL_RQ_FREQ;
use vstd::prelude::*;

verus! {

/// The milliseconds between the request to stop and the end of the
/// process: two ticks of the countdown, enough for it to notice.
pub const GRACE_MILLIS: u64 = 2 * 1_000 / CANCEL_RQ_FREQ;

/// The status that an interrupted process exits with.
pub const INTERRUPTED: i32 = 1;

/// One thing that the interrupt handler does.
#[derive(Clone, Copy, Debug, PartialEq, Eq, Structural)]
pub enum Interruption {
    /// Set the flag that asks every loop to stop. It is never cleared.
    Cancel,
    /// Give the terminal its modes back: a read may be going on with
    /// echo switched off.
    ResetTty,
    /// Clear the clipboard.
    ClearClipboard,
    /// Wait.
    Sleep { millis: u64 },
    /// End the process.
    Exit { code: i32 },
}

/// What the interrupt handler does, in this order. It asks for the stop
/// first, restores the terminal and clears the clipboard itself rather
/// than count on a loop to do so, and only then grants the grace period
/// and ends the process.
pub open spec fn interruption() -> Seq<Interruption> {
    seq![
        Interruption::Cancel,
        Interruption::ResetTty,
        Interruption::ClearClipboard,
        Interruption::Sleep { millis: GRACE_MILLIS },
        Interruption::Exit { code: INTERRUPTED },
    ]
}

/// The things for the interrupt handler to do, in order.
pub fn interrupt() -> (plan: Vec<Interruption>)
    ensures
        plan@ == interruption(),
{
    let plan = vec![
        Interruption::Cancel,
        Interruption::ResetTty,
        Interruption::ClearClipboard,
        Interruption::Sleep { millis: GRACE_MILLIS },
        Interruption::Exit { code: INTERRUPTED },
    ];
    assert(plan@ =~= interruption());
    plan
}

/// The clipboard is clear before the process is given up: the handler
/// clears it before it waits, and exits last of all.
pub proof fn lemma_clear_comes_before_exit()
    ensures
        interruption().first() == Interruption::Cancel,
        interruption().last() is Exit,
        interruption().index_of(Interruption::ClearClipboard) < interruption().index_of(
            Interruption::Sleep { millis: GRACE_MILLIS },
        ),
        interruption().contains(Interruption::ClearClipboard),
        interruption().contains(Interruption::ResetTty),
{
    let plan = interruption();
    assert(plan[1] == Interruption::ResetTty);
    assert(plan[2] == Interruption::ClearClipboard);
    assert(plan[3] == Interruption::Sleep { millis: GRACE_MILLIS });
    let clear = plan.index_of(Interruption::ClearClipboard);
    let sleep = plan.index_of(Interruption::Sleep { millis: GRACE_MILLIS });
    assert(0 <= clear < plan.len() && plan[clear] == Interruption::ClearClipboard);
    assert(0 <= sleep < plan.len() && plan[sleep] == Interruption::Sleep {
        millis: GRACE_MILLIS,
    });
}

} // verus!
