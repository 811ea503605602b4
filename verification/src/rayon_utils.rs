use vstd::prelude::*;

use crate::engine::YieldOutcome;

verus! {

/// Returns true when the current thread is part of any rayon pool.
///
/// Relies on `rayon::current_thread_index` (from rayon-core): it returns
/// `Some` exactly when the calling thread is a worker thread of a rayon pool,
/// and `None` for every other thread.
#[inline]
#[verifier::external_body]
pub fn is_inside_rayon() -> bool {
    rayon::current_thread_index().is_some()
}

/// Tries to steal and run one unit of other ready pool work.
///
/// Relies on `rayon::yield_now` (from rayon-core): it returns
/// `Some(Yield::Executed)` when it found and ran a unit of pool work,
/// `Some(Yield::Idle)` when no ready work was found, and `None` when the
/// calling thread is not a pool worker. The body only renames the variants,
/// one arm each.
#[verifier::external_body]
pub(crate) fn try_cooperative_yield() -> Option<YieldOutcome> {
    match rayon::yield_now() {
        Some(rayon::Yield::Executed) => Some(YieldOutcome::DidWork),
        Some(rayon::Yield::Idle) => Some(YieldOutcome::Idle),
        None => None,
    }
}

} // verus!
