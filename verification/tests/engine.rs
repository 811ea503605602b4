use fastlock::engine::AcqContext;
use fastlock::engine::AcquireEngine;
use fastlock::engine::WaitKind;
use fastlock::engine::MAX_IDLE_COUNT;

#[test]
fn fresh_engine_fields() {
    let e = AcquireEngine::new(AcqContext::PoolWorker);
    assert_eq!(e.ctx, AcqContext::PoolWorker);
    assert_eq!(e.idle_count, 0);
    assert!(!e.started);
    let e2 = AcquireEngine::new(AcqContext::External);
    assert_eq!(e2.ctx, AcqContext::External);
}

#[test]
fn pool_worker_pauses_briefly_below_threshold() {
    assert_eq!(fastlock::engine::next_wait(AcqContext::PoolWorker, 0), WaitKind::BriefYield);
    assert_eq!(
        fastlock::engine::next_wait(AcqContext::PoolWorker, MAX_IDLE_COUNT - 1),
        WaitKind::BriefYield
    );
}

#[test]
fn pool_worker_waits_with_timeout_past_threshold() {
    assert_eq!(
        fastlock::engine::next_wait(AcqContext::PoolWorker, MAX_IDLE_COUNT),
        WaitKind::TimedWait
    );
    assert_eq!(
        fastlock::engine::next_wait(AcqContext::PoolWorker, MAX_IDLE_COUNT + 1),
        WaitKind::TimedWait
    );
    assert_eq!(fastlock::engine::next_wait(AcqContext::PoolWorker, u64::MAX), WaitKind::TimedWait);
}

#[test]
fn external_thread_waits_unbounded() {
    assert_eq!(fastlock::engine::next_wait(AcqContext::External, 0), WaitKind::InfiniteWait);
    assert_eq!(
        fastlock::engine::next_wait(AcqContext::External, MAX_IDLE_COUNT + 5),
        WaitKind::InfiniteWait
    );
}

#[test]
fn add_two_numbers() {
    assert_eq!(fastlock::add(2, 2), 4);
    assert_eq!(fastlock::add(0, 7), 7);
}
