//! Limits on how much runs at once.

use vstd::prelude::*;

use tokio::sync::Semaphore;

verus! {

/// The semaphore of the tokio library. Its permits come and go behind shared references, so
/// a value of it stands for which semaphore it is, and not for what is left of its permits.
#[verifier::external_type_specification]
#[verifier::external_body]
pub struct ExSemaphore(Semaphore);

/// How many permits a semaphore was made with.
pub uninterp spec fn permits_made(semaphore: Semaphore) -> nat;

/// `Semaphore::new`: a new semaphore with `permits` permits. It is another one than any that
/// is there already; `beside` is one to be told apart from. The outside function panics on more
/// permits than `usize::MAX >> 3`.
#[verifier::external_body]
pub(crate) fn new_semaphore(permits: usize, beside: Option<&Semaphore>) -> (r: Semaphore)
    requires
        permits <= usize::MAX / 8,
    ensures
        permits_made(r) == permits,
        beside matches Some(other) ==> r != *other,
{
    let _ = beside;
    Semaphore::new(permits)
}

} // verus!
