use vstd::prelude::*;

verus! {

/// Max idle allowed before sleeping
pub const MAX_IDLE_COUNT: u64 = 1_000;

/// Which kind of thread is trying to acquire the lock. Chosen once per
/// acquisition, when the engine is created.
#[derive(Clone, Copy, Debug, PartialEq, Eq, Structural)]
pub enum AcqContext {
    /// A worker thread of the rayon pool.
    PoolWorker,
    /// Any other thread (the main thread, or one spawned outside the pool).
    External,
}

/// What a cooperative yield to the pool accomplished.
#[derive(Clone, Copy, Debug, PartialEq, Eq, Structural)]
pub enum YieldOutcome {
    /// The pool handed this thread another unit of work and it ran to completion.
    DidWork,
    /// No other ready work was found.
    Idle,
}

/// How a failed acquisition round waits before the next retry.
#[derive(Clone, Copy, Debug, PartialEq, Eq, Structural)]
pub enum WaitKind {
    /// Pause briefly without giving the OS thread up for long.
    BriefYield,
    /// Block on the lock's address with a bounded timeout.
    TimedWait,
    /// Block on the lock's address with no timeout.
    InfiniteWait,
}

/// Per-acquisition state of the spin/yield/wait protocol. One engine drives
/// one acquisition: create it, then call a lock method with it until that
/// method returns true.
#[derive(Clone, Copy, Debug)]
pub struct AcquireEngine {
    /// The calling thread's context, fixed for the whole acquisition.
    pub ctx: AcqContext,
    /// How many consecutive cooperative yields found no other work.
    pub idle_count: u64,
    /// Whether the initial bounded spin phase has already run.
    pub started: bool,
}

/// The wait the protocol prescribes for a failed round: a pool worker pauses
/// briefly until `MAX_IDLE_COUNT` consecutive idle yields, then waits with a
/// bounded timeout, and never waits unbounded; an external thread always
/// waits with no timeout.
pub open spec fn wait_kind_spec(ctx: AcqContext, idle_count: u64) -> WaitKind {
    match ctx {
        AcqContext::PoolWorker => if idle_count < MAX_IDLE_COUNT {
            WaitKind::BriefYield
        } else {
            WaitKind::TimedWait
        },
        AcqContext::External => WaitKind::InfiniteWait,
    }
}

/// The idle counter after one more idle round: it grows until just past the
/// threshold and then stays put, so it can never overflow.
pub open spec fn bumped_idle(idle_count: u64) -> u64 {
    if idle_count <= MAX_IDLE_COUNT {
        (idle_count + 1) as u64
    } else {
        idle_count
    }
}

/// The engine once its spin phase has run.
pub open spec fn started_engine(e: AcquireEngine) -> AcquireEngine {
    AcquireEngine { started: true, ..e }
}

/// The engine after one failed pool-worker round whose cooperative yield
/// reported `outcome` (`None` when the pool reported the thread as no worker
/// of its own): finding work resets the idle counter, idling bumps it.
pub open spec fn pool_round_spec(e: AcquireEngine, outcome: Option<YieldOutcome>) -> AcquireEngine {
    match outcome {
        Some(YieldOutcome::DidWork) => AcquireEngine { idle_count: 0, ..e },
        _ => AcquireEngine { idle_count: bumped_idle(e.idle_count), ..e },
    }
}

impl AcquireEngine {
    /// A fresh engine for one acquisition in the given context.
    pub fn new(ctx: AcqContext) -> (e: AcquireEngine)
        ensures
            e.ctx == ctx,
            e.idle_count == 0,
            !e.started,
    {
        AcquireEngine { ctx, idle_count: 0, started: false }
    }

    /// A fresh engine whose context is read off the calling thread.
    pub fn for_current_thread() -> (e: AcquireEngine)
        ensures
            e.idle_count == 0,
            !e.started,
    {
        if crate::rayon_utils::is_inside_rayon() {
            AcquireEngine::new(AcqContext::PoolWorker)
        } else {
            AcquireEngine::new(AcqContext::External)
        }
    }
}

/// Picks the wait for a failed round, exactly as `wait_kind_spec` says.
pub fn next_wait(ctx: AcqContext, idle_count: u64) -> (k: WaitKind)
    ensures
        k == wait_kind_spec(ctx, idle_count),
{
    match ctx {
        AcqContext::PoolWorker => if idle_count < MAX_IDLE_COUNT {
            WaitKind::BriefYield
        } else {
            WaitKind::TimedWait
        },
        AcqContext::External => WaitKind::InfiniteWait,
    }
}

/// A pool worker never surrenders its OS thread for good: whatever the idle
/// count, the wait it is prescribed is never the unbounded one.
pub proof fn lemma_pool_wait_bounded(idle_count: u64)
    ensures
        wait_kind_spec(AcqContext::PoolWorker, idle_count) != WaitKind::InfiniteWait,
{
}

/// Once `MAX_IDLE_COUNT` consecutive yields have come back idle, a pool
/// worker stops brief-yielding and waits with the bounded timeout.
pub proof fn lemma_pool_waits_timed_past_threshold(idle_count: u64)
    requires
        idle_count >= MAX_IDLE_COUNT,
    ensures
        wait_kind_spec(AcqContext::PoolWorker, idle_count) == WaitKind::TimedWait,
{
}

/// The idle counter of a fresh engine stays at most one past the threshold
/// through any number of rounds, whatever each round's yield reported: it
/// can never run away, let alone overflow.
pub proof fn lemma_idle_count_stays_bounded(e: AcquireEngine, o: Option<YieldOutcome>)
    requires
        e.idle_count <= MAX_IDLE_COUNT + 1,
    ensures
        pool_round_spec(e, o).idle_count <= MAX_IDLE_COUNT + 1,
{
}

} // verus!
