use vstd::prelude::*;

use crate::engine;
use crate::engine::AcqContext;
use crate::engine::AcquireEngine;
use crate::engine::YieldOutcome;
use crate::sys::FastLockImpl;

verus! {

/// Lock for quick grab and release workloads.
///
/// One acquisition is driven by one `AcquireEngine`: make one with
/// `AcquireEngine::for_current_thread`, then call `lock` with it until it
/// returns true; each call does at most one bounded spin phase and one wait,
/// so an unverified caller supplies the retry loop. Pairing is the caller's
/// contract: release only what was acquired, exactly once, and do not acquire
/// twice from one holder.
///
/// What the protocol guarantees across threads — mutual exclusion, no lost
/// updates, visibility of the holder's writes, and that no release leaves the
/// lock unacquirable — is proved of every interleaving in the `model` module,
/// over the two transitions the trusted atomics provide.
pub struct FastLock {
    inner: FastLockImpl,
}

impl FastLock {
    /// A fresh lock, unlocked and uncontended.
    pub fn new() -> (s: FastLock) {
        FastLock { inner: FastLockImpl::new() }
    }

    /// One bounded round of acquisition, on the path the engine's context
    /// picked: the cooperative pool-worker path for a pool worker, the plain
    /// blocking path for any other thread. True means the caller now holds
    /// the lock; on false the engine has advanced exactly one protocol round
    /// and the call is to be repeated.
    pub fn lock(&self, eng: &mut AcquireEngine) -> (acquired: bool)
        ensures
            final(eng).ctx == old(eng).ctx,
            acquired ==> *final(eng) == engine::started_engine(*old(eng)),
            !acquired ==> (*final(eng) == engine::started_engine(*old(eng))
                || exists|o: Option<YieldOutcome>|
                    *final(eng) == engine::pool_round_spec(engine::started_engine(*old(eng)), o)),
            old(eng).ctx is External ==> *final(eng) == engine::started_engine(*old(eng)),
    {
        match eng.ctx {
            AcqContext::PoolWorker => self.inner.lock_rayon(eng),
            AcqContext::External => self.inner.lock_non_rayon(eng),
        }
    }

    /// Releases the lock: clears the state with release ordering and wakes
    /// every waiter.
    pub fn unlock(&self) {
        self.inner.unlock()
    }
}

impl Default for FastLock {
    /// A fresh lock, unlocked and uncontended.
    fn default() -> FastLock {
        FastLock::new()
    }
}

} // verus!
