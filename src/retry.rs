//! Which failed calls are retried, and when retrying stops.
//!
//! The waiting itself, and the randomized exponential backoff that says how
//! long, belong to the caller; the decisions are made here.
use vstd::prelude::*;
use crate::api::ErrorKind;

verus! {

/// Whether a failure is worth another attempt.
#[derive(Copy, Clone, Debug, PartialEq, Eq, Structural)]
pub enum ErrorClass {
    /// A defect in how the request was built: retrying cannot help.
    Permanent,
    /// A failure of the environment: the call may succeed later.
    Transient,
}

/// Request-construction failures are permanent; all others are transient.
pub open spec fn is_permanent(kind: ErrorKind) -> bool {
    kind is BuildRequest || kind is BuildUrl
}

pub fn backoff_error(kind: ErrorKind) -> (r: ErrorClass)
    ensures
        r is Permanent <==> is_permanent(kind),
{
    match kind {
        ErrorKind::BuildUrl | ErrorKind::BuildRequest => ErrorClass::Permanent,
        _ => ErrorClass::Transient,
    }
}

/// What to do after an attempt failed.
#[derive(Copy, Clone, Debug, PartialEq, Eq, Structural)]
pub enum RetryDecision {
    /// Stop and return the failure.
    GiveUp,
    /// Sleep this many milliseconds, then try again.
    RetryAfter(u64),
}

pub open spec fn spec_decide(kind: ErrorKind, next_backoff_ms: Option<u64>) -> RetryDecision {
    if is_permanent(kind) {
        RetryDecision::GiveUp
    } else {
        match next_backoff_ms {
            Some(d) => RetryDecision::RetryAfter(d),
            None => RetryDecision::GiveUp,
        }
    }
}

/// Decides after a failure of kind `kind`. `next_backoff_ms` is the next
/// delay of this call's backoff sequence, or `None` once its elapsed-time
/// budget is spent. A permanent failure stops at once; a transient one
/// sleeps the given delay, or stops when the budget is spent.
pub fn decide(kind: ErrorKind, next_backoff_ms: Option<u64>) -> (r: RetryDecision)
    ensures
        r == spec_decide(kind, next_backoff_ms),
{
    match backoff_error(kind) {
        ErrorClass::Permanent => RetryDecision::GiveUp,
        ErrorClass::Transient => match next_backoff_ms {
            Some(d) => RetryDecision::RetryAfter(d),
            None => RetryDecision::GiveUp,
        },
    }
}

/// The attempts a retried call makes when its successive attempts end in
/// `outcomes` and its backoff sequence offers `delays`: the number of
/// attempts, and what the call returns (`None` if the outcomes run out first).
pub open spec fn retry_run(outcomes: Seq<Result<(), ErrorKind>>, delays: Seq<Option<u64>>) -> (
    nat,
    Option<Result<(), ErrorKind>>,
)
    decreases outcomes.len(),
{
    if outcomes.len() == 0 {
        (0, None)
    } else {
        match outcomes[0] {
            Ok(()) => (1, Some(Ok(()))),
            Err(k) => match spec_decide(k, delays[0]) {
                RetryDecision::GiveUp => (1, Some(Err(k))),
                RetryDecision::RetryAfter(_) => {
                    let rest = retry_run(outcomes.drop_first(), delays.drop_first());
                    (rest.0 + 1, rest.1)
                },
            },
        }
    }
}

/// A permanent failure on the first attempt ends the call after exactly one
/// attempt with that failure, whatever the backoff would have offered.
pub proof fn law_permanent_fails_once(
    outcomes: Seq<Result<(), ErrorKind>>,
    delays: Seq<Option<u64>>,
    k: ErrorKind,
)
    requires
        outcomes.len() > 0,
        outcomes[0] == Err::<(), ErrorKind>(k),
        is_permanent(k),
    ensures
        retry_run(outcomes, delays) == (1nat, Some(Err::<(), ErrorKind>(k))),
{
}

/// A call whose first `n` attempts fail transiently and whose next attempt
/// succeeds returns success after exactly `n + 1` attempts, as long as the
/// backoff keeps offering delays.
pub proof fn law_transient_then_success(
    outcomes: Seq<Result<(), ErrorKind>>,
    delays: Seq<Option<u64>>,
    n: nat,
)
    requires
        outcomes.len() > n,
        delays.len() >= n,
        forall|i: int| 0 <= i < n ==> (#[trigger] outcomes[i] matches Err(k) && !is_permanent(k)),
        forall|i: int| 0 <= i < n ==> #[trigger] delays[i] is Some,
        outcomes[n as int] is Ok,
    ensures
        retry_run(outcomes, delays) == (n + 1, Some(Ok::<(), ErrorKind>(()))),
    decreases n,
{
    if n > 0 {
        let o = outcomes.drop_first();
        let d = delays.drop_first();
        assert forall|i: int| 0 <= i < n - 1 implies (#[trigger] o[i] matches Err(k)
            && !is_permanent(k)) by {
            assert(o[i] == outcomes[i + 1]);
        }
        assert forall|i: int| 0 <= i < n - 1 implies #[trigger] d[i] is Some by {
            assert(d[i] == delays[i + 1]);
        }
        assert(o[n - 1] == outcomes[n as int]);
        law_transient_then_success(o, d, (n - 1) as nat);
        assert(outcomes[0] matches Err(k) && !is_permanent(k));
        assert(delays[0] is Some);
    } else {
        assert(outcomes[0] is Ok);
    }
}

} // verus!
