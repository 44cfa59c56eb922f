//! Barriers that keep the erasure of a secret where it was written.

use std::sync::atomic::Ordering;
use vstd::prelude::*;

verus! {

/// The standard library's `std::sync::atomic::fence`, sequentially
/// consistent: no memory operation of this thread is moved across it, by
/// the compiler or by the processor. It returns nothing, opens no
/// invariant and does not unwind.
#[verifier::external_body]
pub(crate) fn memory_fence()
    opens_invariants none
    no_unwind
{
    std::sync::atomic::fence(Ordering::SeqCst);
}

/// The standard library's `std::sync::atomic::compiler_fence`,
/// sequentially consistent: the compiler moves no memory operation across
/// it. It returns nothing, opens no invariant and does not unwind.
#[verifier::external_body]
pub(crate) fn compiler_fence()
    opens_invariants none
    no_unwind
{
    std::sync::atomic::compiler_fence(Ordering::SeqCst);
}

} // verus!
