use std::sync::atomic::AtomicBool;
use std::sync::atomic::AtomicU64;
use std::sync::atomic::AtomicUsize;
use std::sync::atomic::Ordering;
use std::sync::Arc;
use std::time::Duration;
use std::time::Instant;

use fastlock::engine::AcqContext;
use fastlock::engine::AcquireEngine;
use fastlock::FastLock;

/// Acquires the lock, driving the verified round function until it succeeds.
fn acquire(l: &FastLock) {
    let mut eng = AcquireEngine::for_current_thread();
    while !l.lock(&mut eng) {}
}

/// Burns CPU for roughly `ms` milliseconds without giving up the thread.
fn busy_wait_ms(ms: u64) {
    let start = Instant::now();
    while start.elapsed() < Duration::from_millis(ms) {
        std::hint::spin_loop();
    }
}

/// Polls `cond` until it holds or `deadline_ms` elapses; true when it held.
fn poll_until(cond: impl Fn() -> bool, deadline_ms: u64) -> bool {
    let start = Instant::now();
    while !cond() {
        if start.elapsed() > Duration::from_millis(deadline_ms) {
            return false;
        }
        std::hint::spin_loop();
    }
    true
}

#[test]
fn fresh_lock_first_acquire_is_immediate() {
    let l = FastLock::new();
    let mut eng = AcquireEngine::for_current_thread();
    assert_eq!(eng.ctx, AcqContext::External);
    assert!(l.lock(&mut eng));
    assert!(eng.started);
    assert_eq!(eng.idle_count, 0);
    l.unlock();

    let l2 = FastLock::default();
    let mut eng2 = AcquireEngine::for_current_thread();
    assert!(l2.lock(&mut eng2));
    l2.unlock();
}

#[test]
fn context_detection() {
    assert!(!fastlock::rayon_utils::is_inside_rayon());
    let mut eng = AcquireEngine::for_current_thread();
    assert_eq!(eng.ctx, AcqContext::External);
    let l = FastLock::new();
    assert!(l.lock(&mut eng));
    l.unlock();

    let (inside, _) = rayon::join(
        || {
            let e = AcquireEngine::for_current_thread();
            fastlock::rayon_utils::is_inside_rayon() && e.ctx == AcqContext::PoolWorker
        },
        || (),
    );
    assert!(inside);
    assert!(!fastlock::rayon_utils::is_inside_rayon());
}

#[test]
fn mutual_exclusion_counter() {
    const TASKS: usize = 4;
    const ROUNDS: usize = 1_000;
    let l = FastLock::new();
    let counter = AtomicU64::new(0);
    rayon::scope(|s| {
        for _ in 0..TASKS {
            s.spawn(|_| {
                for _ in 0..ROUNDS {
                    acquire(&l);
                    // A two-step read-modify-write: racy unless the lock
                    // really excludes every other task.
                    let seen = counter.load(Ordering::Relaxed);
                    counter.store(seen + 1, Ordering::Relaxed);
                    l.unlock();
                }
            });
        }
    });
    assert_eq!(counter.load(Ordering::Relaxed), (TASKS * ROUNDS) as u64);
}

#[test]
fn writes_before_unlock_visible_after_lock() {
    let l = Arc::new(FastLock::new());
    let cell = Arc::new(AtomicU64::new(0));
    let seen = Arc::new(AtomicU64::new(0));
    let done = Arc::new(AtomicBool::new(false));

    // The external main thread takes the lock first, so the reader can only
    // get in after the write below and the unlock that publishes it.
    acquire(&l);
    {
        let l = Arc::clone(&l);
        let cell = Arc::clone(&cell);
        let seen = Arc::clone(&seen);
        let done = Arc::clone(&done);
        rayon::spawn(move || {
            acquire(&l);
            seen.store(cell.load(Ordering::Relaxed), Ordering::Relaxed);
            l.unlock();
            done.store(true, Ordering::Release);
        });
    }
    busy_wait_ms(5);
    cell.store(42, Ordering::Relaxed);
    l.unlock();
    assert!(poll_until(|| done.load(Ordering::Acquire), 10_000));
    assert_eq!(seen.load(Ordering::Relaxed), 42);
}

#[test]
fn blocked_external_thread_is_woken() {
    let l = Arc::new(FastLock::new());
    let holder_has_it = Arc::new(AtomicBool::new(false));
    let holder_wrote = Arc::new(AtomicBool::new(false));

    acquire(&l);
    {
        let l = Arc::clone(&l);
        let holder_has_it = Arc::clone(&holder_has_it);
        let holder_wrote = Arc::clone(&holder_wrote);
        rayon::spawn(move || {
            acquire(&l);
            holder_has_it.store(true, Ordering::Release);
            busy_wait_ms(20);
            holder_wrote.store(true, Ordering::Relaxed);
            l.unlock();
        });
    }
    l.unlock();
    assert!(poll_until(|| holder_has_it.load(Ordering::Acquire), 10_000));
    // The pool task holds the lock: this acquisition outlives the spin phase
    // and sleeps on the backend until the task's unlock wakes it.
    acquire(&l);
    assert!(holder_wrote.load(Ordering::Relaxed));
    l.unlock();
}

#[test]
fn pool_workers_acquire_after_external_hold() {
    const WORKERS: usize = 8;
    let l = Arc::new(FastLock::new());
    let counter = Arc::new(AtomicU64::new(0));
    let done = Arc::new(AtomicUsize::new(0));

    // The external main thread holds the lock while all workers contend; the
    // hold outlasts the spin phase and the idle threshold, so contending
    // workers reach the bounded timed wait and must still all come back.
    acquire(&l);
    for _ in 0..WORKERS {
        let l = Arc::clone(&l);
        let counter = Arc::clone(&counter);
        let done = Arc::clone(&done);
        rayon::spawn(move || {
            acquire(&l);
            let seen = counter.load(Ordering::Relaxed);
            counter.store(seen + 1, Ordering::Relaxed);
            l.unlock();
            done.fetch_add(1, Ordering::Release);
        });
    }
    busy_wait_ms(50);
    l.unlock();
    assert!(poll_until(|| done.load(Ordering::Acquire) == WORKERS, 15_000));
    assert_eq!(counter.load(Ordering::Relaxed), WORKERS as u64);
}

#[test]
fn contended_rounds_return_and_cap_the_idle_count() {
    let l = FastLock::new();
    acquire(&l);
    // Drive the pool-worker path from outside the pool while the lock stays
    // held: every cooperative yield reports no pool work, so every round
    // fails, bumps the idle counter up to its cap, and — once past the
    // threshold — returns from its bounded timed wait instead of blocking
    // for good.
    let mut eng = AcquireEngine::new(AcqContext::PoolWorker);
    for _ in 0..1002 {
        assert!(!l.lock(&mut eng));
    }
    assert!(eng.started);
    assert_eq!(eng.idle_count, fastlock::engine::MAX_IDLE_COUNT + 1);
    l.unlock();
    let mut got = false;
    for _ in 0..1_000 {
        if l.lock(&mut eng) {
            got = true;
            break;
        }
    }
    assert!(got);
    l.unlock();
}

#[test]
fn idle_count_grows_by_one_per_idle_round() {
    let l = FastLock::new();
    acquire(&l);
    let mut eng = AcquireEngine::new(AcqContext::PoolWorker);
    for expected in 1..4u64 {
        assert!(!l.lock(&mut eng));
        assert_eq!(eng.idle_count, expected);
    }
    l.unlock();
}
