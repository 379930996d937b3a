//! The single-flight law of credential refresh.
//!
//! The refresh protocol: a caller that hits an unauthorized response
//! probes the credential lock without blocking. The one that acquires it
//! invokes the refresh callback, publishes the new authorization value
//! into the settings, and releases the lock; every caller that finds the
//! lock held blocks until it is released — treating that as "the
//! in-flight refresh completed" — and resends with the published
//! credential, without invoking the callback itself.
//!
//! This module is the operational model of that protocol for N concurrent
//! callers whose unauthorized responses arrive together: every lock probe
//! happens before the one refresh completes. Within that window the
//! callback runs exactly once, one credential is published, and every
//! caller resends carrying that single credential. (A caller that only
//! probes after a completed refresh starts a fresh refresh of its own;
//! that is a new flight, outside this law.)

use vstd::prelude::*;

verus! {

/// One caller's place in the refresh protocol.
pub enum SfCaller {
    /// Has an unauthorized response and has not probed the lock yet.
    Hit,
    /// Holds the lock; its refresh callback is running.
    Refreshing,
    /// Found the lock held and blocks until it is released.
    Waiting,
    /// Has resent its request, carrying this credential — the one it
    /// read back from the settings.
    Resent(Seq<char>),
}

/// The shared state: who holds the credential lock, the credential the
/// completed refresh published into the settings, how often the callback
/// was invoked, and where each caller stands.
pub struct SfState {
    pub lock_holder: Option<int>,
    /// The authorization value the refresh published; `None` until the
    /// one refresh of this flight completes.
    pub published: Option<Seq<char>>,
    pub invocations: int,
    pub callers: Seq<SfCaller>,
}

/// One scheduling step: which caller moves, and how.
pub enum SfStep {
    /// The caller's non-blocking probe acquires the free lock; it invokes
    /// the refresh callback.
    Acquire(int),
    /// The caller's non-blocking probe finds the lock held; it blocks.
    Busy(int),
    /// The holder's refresh completes with this credential: it is
    /// published into the settings, the lock is released, the holder
    /// resends with it.
    Release(int, Seq<char>),
    /// A blocked caller returns from its wait on the freed lock,
    /// re-reads the settings and resends with the published credential.
    WaitDone(int),
}

/// N callers that all hold an unauthorized response; nobody refreshes,
/// nothing is published yet.
pub open spec fn sf_init(n: nat) -> SfState {
    SfState {
        lock_holder: None,
        published: None,
        invocations: 0,
        callers: Seq::new(n, |i: int| SfCaller::Hit),
    }
}

/// Whether a step can fire in a state. An acquire fires only while no
/// refresh has completed: the callers of one flight all probe before the
/// refresh result is published.
pub open spec fn sf_enabled(s: SfState, step: SfStep) -> bool {
    match step {
        SfStep::Acquire(i) => {
            &&& 0 <= i < s.callers.len()
            &&& s.callers[i] is Hit
            &&& s.lock_holder is None
            &&& s.published is None
        },
        SfStep::Busy(i) => {
            &&& 0 <= i < s.callers.len()
            &&& s.callers[i] is Hit
            &&& s.lock_holder is Some
        },
        SfStep::Release(i, v) => {
            &&& 0 <= i < s.callers.len()
            &&& s.lock_holder == Some(i)
        },
        SfStep::WaitDone(i) => {
            &&& 0 <= i < s.callers.len()
            &&& s.callers[i] is Waiting
            &&& s.lock_holder is None
        },
    }
}

/// The state after a step. A waiter that finds nothing published resends
/// with an empty credential; the invariant below shows that this never
/// happens on a valid run.
pub open spec fn sf_apply(s: SfState, step: SfStep) -> SfState {
    match step {
        SfStep::Acquire(i) => SfState {
            lock_holder: Some(i),
            invocations: s.invocations + 1,
            callers: s.callers.update(i, SfCaller::Refreshing),
            ..s
        },
        SfStep::Busy(i) => SfState { callers: s.callers.update(i, SfCaller::Waiting), ..s },
        SfStep::Release(i, v) => SfState {
            lock_holder: None,
            published: Some(v),
            callers: s.callers.update(i, SfCaller::Resent(v)),
            ..s
        },
        SfStep::WaitDone(i) => SfState {
            callers: s.callers.update(
                i,
                match s.published {
                    Some(p) => SfCaller::Resent(p),
                    None => SfCaller::Resent(Seq::empty()),
                },
            ),
            ..s
        },
    }
}

/// Whether every step of the trace fires from the state the previous
/// steps produced.
pub open spec fn sf_valid(s: SfState, trace: Seq<SfStep>) -> bool
    decreases trace.len(),
{
    trace.len() == 0 || (sf_enabled(s, trace[0]) && sf_valid(
        sf_apply(s, trace[0]),
        trace.drop_first(),
    ))
}

/// The state a trace ends in.
pub open spec fn sf_run(s: SfState, trace: Seq<SfStep>) -> SfState
    decreases trace.len(),
{
    if trace.len() == 0 {
        s
    } else {
        sf_run(sf_apply(s, trace[0]), trace.drop_first())
    }
}

/// Whether every caller has resent its request.
pub open spec fn sf_all_resent(s: SfState) -> bool {
    forall|i: int| 0 <= i < s.callers.len() ==> s.callers[i] is Resent
}

/// The inductive invariant of the protocol: the lock holder is the one
/// refreshing caller and vice versa; the callback was invoked once per
/// completed or in-flight refresh; once a credential is published the
/// lock is free; a caller waits or resends only once a refresh is in
/// flight or done; and whoever resent carries exactly the published
/// credential.
pub open spec fn sf_inv(s: SfState) -> bool {
    &&& match s.lock_holder {
        Some(i) => 0 <= i < s.callers.len() && s.callers[i] is Refreshing,
        None => true,
    }
    &&& forall|i: int|
        0 <= i < s.callers.len() && s.callers[i] is Refreshing ==> s.lock_holder == Some(i)
    &&& s.invocations == (if s.published is Some {
        1int
    } else {
        0int
    }) + (if s.lock_holder is Some {
        1int
    } else {
        0int
    })
    &&& (s.published is Some ==> s.lock_holder is None)
    &&& forall|i: int|
        0 <= i < s.callers.len() && ((s.callers[i] is Waiting) || (s.callers[i] is Resent))
            ==> (s.lock_holder is Some || s.published is Some)
    &&& forall|i: int|
        0 <= i < s.callers.len() && (#[trigger] s.callers[i]) is Resent ==> s.published == Some(
            s.callers[i]->Resent_0,
        )
}

/// One enabled step preserves the invariant and the number of callers.
proof fn lemma_sf_step(s: SfState, step: SfStep)
    requires
        sf_inv(s),
        sf_enabled(s, step),
    ensures
        sf_inv(sf_apply(s, step)),
        sf_apply(s, step).callers.len() == s.callers.len(),
{
    let post = sf_apply(s, step);
    match step {
        SfStep::Acquire(i) => {
            assert(forall|j: int|
                0 <= j < post.callers.len() && j != i ==> post.callers[j] == s.callers[j]);
        },
        SfStep::Busy(i) => {
            assert(forall|j: int|
                0 <= j < post.callers.len() && j != i ==> post.callers[j] == s.callers[j]);
        },
        SfStep::Release(i, v) => {
            assert(s.callers[i] is Refreshing);
            assert(s.published is None);
            assert(forall|j: int|
                0 <= j < post.callers.len() && j != i ==> post.callers[j] == s.callers[j]);
            assert forall|j: int|
                0 <= j < post.callers.len() && post.callers[j] is Refreshing implies post.lock_holder
                == Some(j) by {
                if j != i {
                    assert(s.callers[j] is Refreshing);
                    assert(s.lock_holder == Some(j));
                }
            }
            assert forall|j: int|
                0 <= j < post.callers.len() && (#[trigger] post.callers[j]) is Resent implies post.published
                == Some(post.callers[j]->Resent_0) by {
                if j != i {
                    assert(s.callers[j] is Resent);
                    assert(s.published == Some(s.callers[j]->Resent_0));
                }
            }
        },
        SfStep::WaitDone(i) => {
            assert(s.lock_holder is None);
            assert(s.published is Some);
            assert(forall|j: int|
                0 <= j < post.callers.len() && j != i ==> post.callers[j] == s.callers[j]);
        },
    }
}

/// A valid trace preserves the invariant and the number of callers.
proof fn lemma_sf_run(s: SfState, trace: Seq<SfStep>)
    requires
        sf_inv(s),
        sf_valid(s, trace),
    ensures
        sf_inv(sf_run(s, trace)),
        sf_run(s, trace).callers.len() == s.callers.len(),
    decreases trace.len(),
{
    if trace.len() > 0 {
        lemma_sf_step(s, trace[0]);
        lemma_sf_run(sf_apply(s, trace[0]), trace.drop_first());
    }
}

/// Single-flight: when N concurrent callers all hit an unauthorized
/// response together — every lock probe preceding the one refresh
/// completion, as the model's steps prescribe — and every caller has
/// resent, then the refresh callback was invoked exactly once, exactly
/// one credential was published, and every one of the N callers resent
/// carrying that single refreshed credential.
pub proof fn lemma_single_flight(n: nat, trace: Seq<SfStep>)
    requires
        n >= 1,
        sf_valid(sf_init(n), trace),
        sf_all_resent(sf_run(sf_init(n), trace)),
    ensures
        sf_run(sf_init(n), trace).invocations == 1,
        sf_run(sf_init(n), trace).published is Some,
        forall|i: int|
            0 <= i < sf_run(sf_init(n), trace).callers.len() ==> sf_run(
                sf_init(n),
                trace,
            ).callers[i] == SfCaller::Resent(sf_run(sf_init(n), trace).published->0),
{
    let s0 = sf_init(n);
    assert(sf_inv(s0));
    lemma_sf_run(s0, trace);
    let s = sf_run(s0, trace);
    assert(s.callers.len() == n);
    assert(s.callers[0] is Resent);
    assert(s.lock_holder is Some || s.published is Some);
    if s.lock_holder is Some {
        let h = s.lock_holder->0;
        assert(s.callers[h] is Refreshing);
        assert(false);
    }
    assert(s.published is Some);
    assert(s.lock_holder is None);
    assert forall|i: int| 0 <= i < s.callers.len() implies s.callers[i] == SfCaller::Resent(
        s.published->0,
    ) by {
        assert(s.callers[i] is Resent);
        assert(s.published == Some(s.callers[i]->Resent_0));
    }
}

} // verus!
