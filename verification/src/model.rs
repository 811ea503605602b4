use vstd::prelude::*;

verus! {

// A sequentially consistent interleaving model of the lock protocol. The
// trusted atomics grant exactly two facts the verifier cannot see: a
// successful acquire-ordered exchange is the single transition from unlocked
// to locked, and the release-ordered store in `unlock` makes the holder's
// prior writes visible to the next acquirer. This module takes those two
// transitions as the model's steps and proves what the library promises of
// every interleaving of any number of threads: mutual exclusion, no lost
// updates to a guarded counter, visibility of the holder's last write, and
// that an unlocked lock is acquirable by every idle thread, so no release is
// ever missed by construction of the protocol.

/// Where one thread stands in its critical section.
pub enum Phase {
    /// Not holding the lock.
    Idle,
    /// Holding the lock.
    Own,
    /// Holding the lock, having read the guarded counter's value.
    Loaded(int),
}

/// One shared lock with the memory it guards: a counter that threads
/// read-modify-write in two steps (the race a lock must tame), and a plain
/// cell for the visibility law.
pub struct LockModel {
    /// The one atomic boolean: true is locked.
    pub locked: bool,
    /// Which thread last acquired; meaningful only while `locked`.
    pub owner: nat,
    /// The guarded counter.
    pub counter: int,
    /// A plain shared variable, written only while holding the lock.
    pub cell: int,
    /// Every thread's phase.
    pub phase: Map<nat, Phase>,
}

/// One atomic step by one thread.
pub enum ModelStep {
    /// The successful unlocked-to-locked exchange in `lock`.
    Acquire(nat),
    /// The holder reads the guarded counter.
    Load(nat),
    /// The holder writes back its read value plus one.
    Store(nat),
    /// The holder writes the plain cell.
    SetCell(nat, int),
    /// The release-ordered store in `unlock`.
    Release(nat),
}

/// The state every fresh lock starts from: unlocked, every thread idle.
pub open spec fn init_state(counter: int, cell: int) -> LockModel {
    LockModel {
        locked: false,
        owner: 0,
        counter: counter,
        cell: cell,
        phase: Map::total(|t: nat| Phase::Idle),
    }
}

/// Whether thread `t` currently holds the lock.
pub open spec fn holds_lock(s: LockModel, t: nat) -> bool {
    !(s.phase[t] is Idle)
}

/// When a step may fire: an exchange succeeds only on an unlocked lock, and
/// only the holder may touch the guarded memory or release.
pub open spec fn enabled(s: LockModel, st: ModelStep) -> bool {
    match st {
        ModelStep::Acquire(t) => !s.locked && s.phase[t] is Idle,
        ModelStep::Load(t) => s.locked && s.owner == t && s.phase[t] is Own,
        ModelStep::Store(t) => s.locked && s.owner == t && s.phase[t] is Loaded,
        ModelStep::SetCell(t, v) => s.locked && s.owner == t,
        ModelStep::Release(t) => s.locked && s.owner == t && s.phase[t] is Own,
    }
}

/// What a step does.
pub open spec fn apply(s: LockModel, st: ModelStep) -> LockModel {
    match st {
        ModelStep::Acquire(t) => (LockModel {
            locked: true,
            owner: t,
            phase: s.phase.insert(t, Phase::Own),
            ..s
        }),
        ModelStep::Load(t) => (LockModel { phase: s.phase.insert(t, Phase::Loaded(s.counter)), ..s }),
        ModelStep::Store(t) => (LockModel {
            counter: s.phase[t]->Loaded_0 + 1,
            phase: s.phase.insert(t, Phase::Own),
            ..s
        }),
        ModelStep::SetCell(t, v) => (LockModel { cell: v, ..s }),
        ModelStep::Release(t) => (LockModel {
            locked: false,
            phase: s.phase.insert(t, Phase::Idle),
            ..s
        }),
    }
}

/// An interleaving is valid from `s` when each step in turn is enabled.
pub open spec fn valid_from(s: LockModel, tr: Seq<ModelStep>) -> bool
    decreases tr.len(),
{
    tr.len() == 0 || (enabled(s, tr[0]) && valid_from(apply(s, tr[0]), tr.subrange(1, tr.len() as int)))
}

/// The state an interleaving ends in.
pub open spec fn state_after(s: LockModel, tr: Seq<ModelStep>) -> LockModel
    decreases tr.len(),
{
    if tr.len() == 0 {
        s
    } else {
        state_after(apply(s, tr[0]), tr.subrange(1, tr.len() as int))
    }
}

/// The states the protocol keeps itself in: the lock is held by its owner and
/// nobody else, and a value read from the counter stays current until its
/// holder writes it back.
pub open spec fn inv(s: LockModel) -> bool {
    &&& (forall|t: nat| holds_lock(s, t) ==> s.locked && s.owner == t)
    &&& (s.locked ==> holds_lock(s, s.owner))
    &&& (forall|t: nat| s.phase[t] is Loaded ==> s.phase[t]->Loaded_0 == s.counter)
}

/// How many completed write-backs an interleaving contains.
pub open spec fn store_count(tr: Seq<ModelStep>) -> int
    decreases tr.len(),
{
    if tr.len() == 0 {
        0
    } else {
        (if tr[0] is Store {
            1int
        } else {
            0int
        }) + store_count(tr.subrange(1, tr.len() as int))
    }
}

/// The thread a step belongs to.
pub open spec fn step_thread(st: ModelStep) -> nat {
    match st {
        ModelStep::Acquire(t) => t,
        ModelStep::Load(t) => t,
        ModelStep::Store(t) => t,
        ModelStep::SetCell(t, v) => t,
        ModelStep::Release(t) => t,
    }
}

/// How many of the interleaving's write-backs thread `t` completed.
pub open spec fn stores_by(tr: Seq<ModelStep>, t: nat) -> int
    decreases tr.len(),
{
    if tr.len() == 0 {
        0
    } else {
        (if tr[0] == ModelStep::Store(t) {
            1int
        } else {
            0int
        }) + stores_by(tr.subrange(1, tr.len() as int), t)
    }
}

/// The write-backs of threads 0 through n - 1, summed.
pub open spec fn stores_below(tr: Seq<ModelStep>, n: nat) -> int
    decreases n,
{
    if n == 0 {
        0
    } else {
        stores_below(tr, (n - 1) as nat) + stores_by(tr, (n - 1) as nat)
    }
}

proof fn lemma_stores_below_empty(tr: Seq<ModelStep>, n: nat)
    requires
        tr.len() == 0,
    ensures
        stores_below(tr, n) == 0,
    decreases n,
{
    if n > 0 {
        lemma_stores_below_empty(tr, (n - 1) as nat);
    }
}

proof fn lemma_stores_below_head(tr: Seq<ModelStep>, n: nat)
    requires
        tr.len() > 0,
    ensures
        stores_below(tr, n) == (if tr[0] is Store && step_thread(tr[0]) < n {
            1int
        } else {
            0int
        }) + stores_below(tr.subrange(1, tr.len() as int), n),
    decreases n,
{
    if n > 0 {
        lemma_stores_below_head(tr, (n - 1) as nat);
    }
}

proof fn lemma_store_count_split(tr: Seq<ModelStep>, n: nat)
    requires
        forall|i: int| 0 <= i < tr.len() ==> step_thread(tr[i]) < n,
    ensures
        store_count(tr) == stores_below(tr, n),
    decreases tr.len(),
{
    if tr.len() == 0 {
        lemma_stores_below_empty(tr, n);
    } else {
        lemma_stores_below_head(tr, n);
        let rest = tr.subrange(1, tr.len() as int);
        assert(forall|i: int| 0 <= i < rest.len() ==> step_thread(rest[i]) < n);
        lemma_store_count_split(rest, n);
    }
}

proof fn lemma_stores_below_all_equal(tr: Seq<ModelStep>, n: nat, k: int)
    requires
        forall|t: nat| t < n ==> stores_by(tr, t) == k,
    ensures
        stores_below(tr, n) == n * k,
    decreases n,
{
    if n > 0 {
        lemma_stores_below_all_equal(tr, (n - 1) as nat, k);
        assert(stores_by(tr, (n - 1) as nat) == k);
        assert(stores_below(tr, n) == stores_below(tr, (n - 1) as nat) + stores_by(
            tr,
            (n - 1) as nat,
        ));
        assert(n * k == (n - 1) * k + k) by (nonlinear_arith);
    } else {
        assert(n * k == 0) by (nonlinear_arith)
            requires
                n == 0,
        ;
    }
}

/// The property a lock exists for, in the exact shape a counting experiment
/// takes: when `n` threads run any valid interleaving in which each completes
/// exactly `k` two-step read-modify-writes of the guarded counter, the
/// counter ends exactly `n * k` higher — not one update is lost.
pub proof fn lemma_counter_grows_n_times_k(s: LockModel, tr: Seq<ModelStep>, n: nat, k: int)
    requires
        inv(s),
        valid_from(s, tr),
        forall|i: int| 0 <= i < tr.len() ==> step_thread(tr[i]) < n,
        forall|t: nat| t < n ==> stores_by(tr, t) == k,
    ensures
        state_after(s, tr).counter == s.counter + n * k,
{
    lemma_no_lost_updates(s, tr);
    lemma_store_count_split(tr, n);
    lemma_stores_below_all_equal(tr, n, k);
}

/// A fresh lock is in the invariant.
pub proof fn lemma_init_satisfies_inv(counter: int, cell: int)
    ensures
        inv(init_state(counter, cell)),
{
}

/// Mutual exclusion: in any reachable state, two holders are the same thread.
pub proof fn lemma_mutual_exclusion(s: LockModel, t1: nat, t2: nat)
    requires
        inv(s),
        holds_lock(s, t1),
        holds_lock(s, t2),
    ensures
        t1 == t2,
{
}

/// Every enabled step keeps the protocol in its invariant.
pub proof fn lemma_step_preserves_inv(s: LockModel, st: ModelStep)
    requires
        inv(s),
        enabled(s, st),
    ensures
        inv(apply(s, st)),
{
    let s2 = apply(s, st);
    match st {
        ModelStep::Acquire(t) => {
            assert forall|u: nat| holds_lock(s2, u) implies s2.locked && s2.owner == u by {
                if u != t {
                    assert(holds_lock(s, u));
                }
            }
            assert forall|u: nat| s2.phase[u] is Loaded implies s2.phase[u]->Loaded_0
                == s2.counter by {
                if u != t {
                    assert(holds_lock(s, u));
                }
            }
        },
        ModelStep::Load(t) => {
            assert forall|u: nat| holds_lock(s2, u) implies s2.locked && s2.owner == u by {
                if u != t {
                    assert(holds_lock(s, u));
                }
            }
            assert forall|u: nat| s2.phase[u] is Loaded implies s2.phase[u]->Loaded_0
                == s2.counter by {
                if u != t {
                    assert(holds_lock(s, u));
                }
            }
        },
        ModelStep::Store(t) => {
            assert forall|u: nat| holds_lock(s2, u) implies s2.locked && s2.owner == u by {
                if u != t {
                    assert(holds_lock(s, u));
                }
            }
            assert forall|u: nat| s2.phase[u] is Loaded implies s2.phase[u]->Loaded_0
                == s2.counter by {
                if u != t {
                    assert(holds_lock(s, u));
                }
            }
        },
        ModelStep::SetCell(t, v) => {
            assert forall|u: nat| holds_lock(s2, u) implies s2.locked && s2.owner == u by {
                assert(holds_lock(s, u));
            }
        },
        ModelStep::Release(t) => {
            assert forall|u: nat| holds_lock(s2, u) implies s2.locked && s2.owner == u by {
                if u != t {
                    assert(holds_lock(s, u));
                }
            }
            assert forall|u: nat| s2.phase[u] is Loaded implies s2.phase[u]->Loaded_0
                == s2.counter by {
                if u != t {
                    assert(holds_lock(s, u));
                }
            }
        },
    }
}

/// No lost updates: across any valid interleaving of any number of threads,
/// the guarded counter grows by exactly the number of completed two-step
/// read-modify-writes. With N threads each completing K of them, it grows by
/// exactly N times K.
pub proof fn lemma_no_lost_updates(s: LockModel, tr: Seq<ModelStep>)
    requires
        inv(s),
        valid_from(s, tr),
    ensures
        inv(state_after(s, tr)),
        state_after(s, tr).counter == s.counter + store_count(tr),
    decreases tr.len(),
{
    if tr.len() > 0 {
        lemma_step_preserves_inv(s, tr[0]);
        lemma_no_lost_updates(apply(s, tr[0]), tr.subrange(1, tr.len() as int));
    }
}

/// The plain cell keeps its value across steps that do not set it.
pub proof fn lemma_cell_stable(s: LockModel, tr: Seq<ModelStep>)
    requires
        forall|j: int| 0 <= j < tr.len() ==> !(tr[j] is SetCell),
    ensures
        state_after(s, tr).cell == s.cell,
    decreases tr.len(),
{
    if tr.len() > 0 {
        lemma_cell_stable(apply(s, tr[0]), tr.subrange(1, tr.len() as int));
    }
}

/// Visibility: a value written to the plain cell while holding the lock — in
/// particular, written before the holder's release — is what every later
/// reader finds, as long as no later write intervenes. The acquirer that
/// follows the writer therefore observes the writer's latest value; the
/// release-ordered store and acquire-ordered exchange of the trusted atomics
/// are what entitle the model to a single shared cell.
pub proof fn lemma_visibility(s: LockModel, tr: Seq<ModelStep>, i: int, v: int)
    requires
        valid_from(s, tr),
        0 <= i < tr.len(),
        tr[i] is SetCell,
        tr[i]->SetCell_1 == v,
        forall|j: int| i < j < tr.len() ==> !(tr[j] is SetCell),
    ensures
        state_after(s, tr).cell == v,
    decreases tr.len(),
{
    let s1 = apply(s, tr[0]);
    let rest = tr.subrange(1, tr.len() as int);
    if i == 0 {
        assert(s1.cell == v);
        assert(forall|j: int| 0 <= j < rest.len() ==> !(rest[j] is SetCell));
        lemma_cell_stable(s1, rest);
    } else {
        assert(forall|j: int| i - 1 < j < rest.len() ==> !(rest[j] is SetCell));
        lemma_visibility(s1, rest, i - 1, v);
    }
}

/// No missed release: whenever the lock is unlocked in a reachable state —
/// for instance right after any release — an acquisition by any thread is
/// enabled, so a waiter that re-checks after being woken can take it.
pub proof fn lemma_unlocked_is_acquirable(s: LockModel, t: nat)
    requires
        inv(s),
        !s.locked,
    ensures
        enabled(s, ModelStep::Acquire(t)),
{
    assert(!holds_lock(s, t));
}

/// Releasing leaves the lock open to every thread: after an enabled release,
/// the lock is unlocked and any thread's acquisition is enabled.
pub proof fn lemma_release_enables_all(s: LockModel, t: nat, u: nat)
    requires
        inv(s),
        enabled(s, ModelStep::Release(t)),
    ensures
        !apply(s, ModelStep::Release(t)).locked,
        enabled(apply(s, ModelStep::Release(t)), ModelStep::Acquire(u)),
{
    lemma_step_preserves_inv(s, ModelStep::Release(t));
    lemma_unlocked_is_acquirable(apply(s, ModelStep::Release(t)), u);
}

/// A fresh lock is unlocked and its first acquisition, by any thread, is
/// enabled at once.
pub proof fn lemma_fresh_lock_acquirable(counter: int, cell: int, t: nat)
    ensures
        !init_state(counter, cell).locked,
        enabled(init_state(counter, cell), ModelStep::Acquire(t)),
{
}

} // verus!

