use vstd::prelude::*;

use core::sync::atomic::AtomicBool;
use core::sync::atomic::Ordering;
use std::sync::Condvar;
use std::sync::Mutex;
use std::sync::MutexGuard;

use crate::engine;
use crate::engine::AcquireEngine;
use crate::engine::WaitKind;
use crate::engine::YieldOutcome;

verus! {

/// Max spinning allowed before just waiting
pub const MAX_SPIN_COUNT: u64 = 10_000;

/// Time out for sleeping rayon thread
pub const RAYON_IDLE_SLEEP_TIMEOUT_MS: u32 = 10;

/// How many CPU pause hints stand in for one brief yield of the OS thread.
pub const BRIEF_PAUSE_SPINS: u64 = 64;

#[verifier::external_type_specification]
#[verifier::external_body]
#[verifier::reject_recursive_types(T)]
pub struct ExMutex<T: ?Sized>(Mutex<T>);

#[verifier::external_type_specification]
#[verifier::external_body]
#[verifier::reject_recursive_types(T)]
pub struct ExMutexGuard<'a, T: ?Sized + 'a>(MutexGuard<'a, T>);

#[verifier::external_type_specification]
#[verifier::external_body]
pub struct ExCondvar(Condvar);

/// Relies on `std::sync::Mutex::new`.
#[verifier::external_body]
fn new_door() -> Mutex<()> {
    Mutex::new(())
}

/// Relies on `std::sync::Condvar::new`.
#[verifier::external_body]
fn new_signal() -> Condvar {
    Condvar::new()
}

/// Relies on `std::sync::Mutex::lock`: blocks until the door mutex is free, then
/// holds it until the guard is dropped. A poisoned door mutex (a panic elsewhere
/// while it was held) hands back the same guard, unchanged.
#[verifier::external_body]
fn door_lock<'a>(m: &'a Mutex<()>) -> MutexGuard<'a, ()> {
    match m.lock() {
        Ok(g) => g,
        Err(e) => e.into_inner(),
    }
}

/// Relies on `std::sync::Condvar::wait_timeout`: atomically releases the
/// guard's mutex and blocks until woken or until `ms` milliseconds elapse,
/// then reacquires the mutex and returns the guard. The guard must come from
/// the one mutex this condition variable is always paired with; the lock
/// below pairs them in its fields.
#[verifier::external_body]
fn signal_wait_timeout_ms<'a>(cv: &Condvar, g: MutexGuard<'a, ()>, ms: u32) -> MutexGuard<'a, ()> {
    match cv.wait_timeout(g, core::time::Duration::from_millis(ms as u64)) {
        Ok(p) => p.0,
        Err(e) => e.into_inner().0,
    }
}

/// Relies on `std::sync::Condvar::wait`: atomically releases the guard's
/// mutex and blocks until woken, then reacquires the mutex and returns the
/// guard. It may also wake spuriously; every caller re-checks the lock state.
/// Same pairing rule as the timed wait.
#[verifier::external_body]
fn signal_wait<'a>(cv: &Condvar, g: MutexGuard<'a, ()>) -> MutexGuard<'a, ()> {
    match cv.wait(g) {
        Ok(g2) => g2,
        Err(e) => e.into_inner(),
    }
}

/// Relies on `std::sync::Condvar::notify_all`: wakes every thread currently
/// blocked on this condition variable.
#[verifier::external_body]
fn signal_all(cv: &Condvar) {
    cv.notify_all();
}

/// Relies on `core::hint::spin_loop`: a CPU pause hint for spin waits.
#[verifier::external_body]
fn cpu_relax() {
    core::hint::spin_loop();
}

/// Lock for quick grab and release workloads.
///
/// The persistent state is the one atomic boolean: true is locked. The door mutex
/// and signal beside it are the portable wait/wake-on-address backend: a
/// waiter re-checks the boolean under the door mutex before sleeping on the signal,
/// and `unlock` clears the boolean, passes through the door mutex and wakes every
/// sleeper, so no wakeup can be missed.
pub struct FastLockImpl {
    locked: AtomicBool,
    door: Mutex<()>,
    signal: Condvar,
}

impl FastLockImpl {
    /// A fresh lock, unlocked and uncontended.
    pub fn new() -> (s: FastLockImpl) {
        FastLockImpl {
            locked: AtomicBool::new(false),
            door: new_door(),
            signal: new_signal(),
        }
    }

    /// One attempt to flip the state from unlocked to locked, with acquire
    /// ordering on success; true means this caller now holds the lock.
    fn try_acquire(&self) -> bool {
        self.locked.compare_exchange_weak(false, true, Ordering::Acquire, Ordering::Acquire).is_ok()
    }

    /// A cheap, unordered look at the state, for spinning without the
    /// cache-coherence traffic of a failed exchange.
    fn observe_locked(&self) -> bool {
        self.locked.load(Ordering::Relaxed)
    }

    /// The bounded spin phase both acquisition paths open with: up to
    /// `MAX_SPIN_COUNT` steps of exchange attempts, each followed by relaxed
    /// polling while the lock stays visibly held.
    fn acquire_spin(&self) -> (acquired: bool) {
        let mut fail_count: u64 = 0;
        while fail_count < MAX_SPIN_COUNT
            invariant
                fail_count <= MAX_SPIN_COUNT,
            decreases MAX_SPIN_COUNT - fail_count,
        {
            if self.try_acquire() {
                return true;
            }
            fail_count = fail_count + 1;
            let ghost entered: u64 = fail_count;
            while fail_count < MAX_SPIN_COUNT && self.observe_locked()
                invariant
                    entered <= fail_count <= MAX_SPIN_COUNT,
                decreases MAX_SPIN_COUNT - fail_count,
            {
                cpu_relax();
                fail_count = fail_count + 1;
            }
        }
        false
    }

    /// A short burst of CPU pause hints: the stand-in for yielding the OS
    /// thread for one moment, which this library does not call directly.
    fn brief_pause(&self) {
        let mut i: u64 = 0;
        while i < BRIEF_PAUSE_SPINS
            invariant
                i <= BRIEF_PAUSE_SPINS,
            decreases BRIEF_PAUSE_SPINS - i,
        {
            cpu_relax();
            i = i + 1;
        }
    }

    /// Sleeps until the lock is released, woken, or `ms` milliseconds pass;
    /// returns at once when the lock is already visibly free.
    fn wait_for_unlock_timed(&self, ms: u32) {
        let g = door_lock(&self.door);
        if self.observe_locked() {
            let _g = signal_wait_timeout_ms(&self.signal, g, ms);
        }
    }

    /// Sleeps until the lock is released and this thread is woken; returns at
    /// once when the lock is already visibly free.
    fn wait_for_unlock(&self) {
        let g = door_lock(&self.door);
        if self.observe_locked() {
            let _g = signal_wait(&self.signal, g);
        }
    }

    /// One bounded round of the pool-worker acquisition path, to be called
    /// until it returns true. The first round opens with the bounded spin
    /// phase. A failed round tries the exchange, then yields cooperatively to
    /// the pool: finding work resets the idle counter and the caller re-checks
    /// at once; idling bumps the counter and pauses briefly below
    /// `MAX_IDLE_COUNT`, and above it sleeps with the bounded timeout — never
    /// without one — so the pool scheduler gets this OS thread back at least
    /// every `RAYON_IDLE_SLEEP_TIMEOUT_MS` milliseconds.
    pub fn lock_rayon(&self, eng: &mut AcquireEngine) -> (acquired: bool)
        requires
            old(eng).ctx is PoolWorker,
        ensures
            final(eng).ctx == old(eng).ctx,
            acquired ==> *final(eng) == engine::started_engine(*old(eng)),
            !acquired ==> (*final(eng) == engine::started_engine(*old(eng))
                || exists|o: Option<YieldOutcome>|
                    *final(eng) == engine::pool_round_spec(engine::started_engine(*old(eng)), o)),
    {
        if !eng.started {
            eng.started = true;
            if self.acquire_spin() {
                return true;
            }
        }
        if self.try_acquire() {
            return true;
        }
        if !self.observe_locked() {
            // Saw the lock free: skip the wait so the caller retries at once.
            return false;
        }
        let outcome = crate::rayon_utils::try_cooperative_yield();
        match outcome {
            Some(YieldOutcome::DidWork) => {
                // Progress happened somewhere: re-check the lock right away.
                eng.idle_count = 0;
            }
            _ => {
                let k = engine::next_wait(eng.ctx, eng.idle_count);
                match k {
                    WaitKind::BriefYield => self.brief_pause(),
                    WaitKind::TimedWait => self.wait_for_unlock_timed(RAYON_IDLE_SLEEP_TIMEOUT_MS),
                    WaitKind::InfiniteWait => self.wait_for_unlock(),
                }
                if eng.idle_count <= engine::MAX_IDLE_COUNT {
                    eng.idle_count = eng.idle_count + 1;
                }
            }
        }
        proof {
            assert(*eng == engine::pool_round_spec(engine::started_engine(*old(eng)), outcome));
        }
        false
    }

    /// One bounded round of the plain acquisition path, to be called until it
    /// returns true. The first round opens with the bounded spin phase; after
    /// that each failed round tries the exchange and then blocks with no
    /// timeout — an external thread sleeping costs the pool nothing — until
    /// an unlock wakes it.
    pub fn lock_non_rayon(&self, eng: &mut AcquireEngine) -> (acquired: bool)
        requires
            old(eng).ctx is External,
        ensures
            *final(eng) == engine::started_engine(*old(eng)),
    {
        if !eng.started {
            eng.started = true;
            if self.acquire_spin() {
                return true;
            }
        }
        if self.try_acquire() {
            return true;
        }
        let k = engine::next_wait(eng.ctx, eng.idle_count);
        match k {
            WaitKind::BriefYield => self.brief_pause(),
            WaitKind::TimedWait => self.wait_for_unlock_timed(RAYON_IDLE_SLEEP_TIMEOUT_MS),
            WaitKind::InfiniteWait => self.wait_for_unlock(),
        }
        false
    }

    /// Releases the lock: clears the state with release ordering — so every
    /// write made while holding it is visible to the next acquirer — then
    /// passes through the door mutex and wakes all sleepers (broadcast, not
    /// single-wake); each re-checks the state independently.
    pub fn unlock(&self) {
        self.locked.store(false, Ordering::Release);
        let _held = door_lock(&self.door);
        signal_all(&self.signal);
    }
}

impl Default for FastLockImpl {
    /// A fresh lock, unlocked and uncontended.
    fn default() -> FastLockImpl {
        FastLockImpl::new()
    }
}

} // verus!
