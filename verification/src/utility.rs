//! Trying an operation again after it failed, a bounded number of times.

use vstd::prelude::*;

verus! {

/// What to do after an attempt.
#[derive(Debug, Clone, Copy, PartialEq, Eq, Structural)]
pub enum Retry {
    /// Hand the attempt's outcome on: it succeeded, or no retry is left.
    Finish,
    /// Wait for the delay, then try once more.
    Again,
}

/// The step after the attempt with number `attempts_made` (the first attempt
/// has number 1) of an operation that may be retried `retries` times.
pub open spec fn next_step(retries: usize, attempts_made: usize, failed: bool) -> Retry {
    if failed && attempts_made <= retries {
        Retry::Again
    } else {
        Retry::Finish
    }
}

/// Decides after each attempt of an operation whether it is tried again. An
/// operation is tried once, and after each failure once more, until it
/// succeeds or `retries` further attempts were made.
pub fn retry(retries: usize, attempts_made: usize, failed: bool) -> (r: Retry)
    ensures
        r == next_step(retries, attempts_made, failed),
{
    if failed && attempts_made <= retries {
        Retry::Again
    } else {
        Retry::Finish
    }
}

/// How many attempts are made of an operation of which the first `failures`
/// attempts fail, and every later one succeeds.
pub open spec fn attempts(retries: usize, failures: nat) -> nat {
    if failures <= retries {
        failures + 1
    } else {
        (retries + 1) as nat
    }
}

/// The step after attempt `made` of such an operation.
pub open spec fn step_after(retries: usize, failures: nat, made: usize) -> Retry {
    next_step(retries, made, made <= failures)
}

/// Whether such an operation succeeds in the end.
pub open spec fn succeeds(retries: usize, failures: nat) -> bool {
    failures <= retries
}

/// The retries stop exactly at the attempt that `attempts` names: every
/// attempt before it failed and is followed by another, and that attempt
/// finishes, with success exactly where fewer attempts failed than are
/// allowed. No operation is tried more than `retries + 1` times.
pub proof fn lemma_retry_budget(retries: usize, failures: nat)
    ensures
        forall|made: usize|
            1 <= made < attempts(retries, failures) ==> #[trigger] step_after(
                retries,
                failures,
                made,
            ) == Retry::Again,
        attempts(retries, failures) <= usize::MAX ==> step_after(
            retries,
            failures,
            attempts(retries, failures) as usize,
        ) == Retry::Finish,
        attempts(retries, failures) <= retries + 1,
        succeeds(retries, failures) <==> attempts(retries, failures) > failures,
{
}

} // verus!
