use core::time::Duration;
use vstd::prelude::*;

use crate::blocking_retry_with_context::{hook_step, hooks_follow, is_run, retried_at, stops_at, Run};
use crate::policy::{RetryCondition, RetryNotifier};
use crate::sleep::BlockingSleeper;

verus! {

/// Every attempt of `f` fails.
pub open spec fn always_fails<Ctx, T, E, F: FnMut(Ctx) -> (Ctx, Result<T, E>)>(f: F) -> bool {
    forall|c: Ctx, c2: Ctx, o: Result<T, E>| #[trigger] call_ensures(f, (c,), (c2, o)) ==> o is Err
}

/// `rc` never accepts an error for retry.
pub open spec fn rejects_all<E, RC: RetryCondition<E>>(rc: RC) -> bool {
    forall|e: E, b: bool| #[trigger] rc.answers(e, b) ==> !b
}

/// `rc` accepts for retry every error that `f` returns.
pub open spec fn accepts_errors_of<Ctx, T, E, F: FnMut(Ctx) -> (Ctx, Result<T, E>), RC: RetryCondition<E>>(
    f: F,
    rc: RC,
) -> bool {
    forall|c: Ctx, c2: Ctx, e: E, b: bool|
        #![trigger call_ensures(f, (c,), (c2, Err::<T, E>(e))), rc.answers(e, b)]
        call_ensures(f, (c,), (c2, Err::<T, E>(e))) && rc.answers(e, b) ==> b
}

/// Each attempt of `f` adds one to the counter `count` of the context it is given.
pub open spec fn counts_attempts<Ctx, T, E, F: FnMut(Ctx) -> (Ctx, Result<T, E>)>(
    f: F,
    count: spec_fn(Ctx) -> int,
) -> bool {
    forall|c: Ctx, c2: Ctx, o: Result<T, E>| #[trigger]
        call_ensures(f, (c,), (c2, o)) ==> count(c2) == count(c) + 1
}

/// With the context counting attempts from 0, `f` fails before attempt `k`
/// and succeeds at attempt `k`.
pub open spec fn succeeds_at<Ctx, T, E, F: FnMut(Ctx) -> (Ctx, Result<T, E>)>(
    f: F,
    count: spec_fn(Ctx) -> int,
    k: int,
) -> bool {
    forall|c: Ctx, c2: Ctx, o: Result<T, E>| #[trigger]
        call_ensures(f, (c,), (c2, o)) ==> (count(c) + 1 < k ==> o is Err) && (count(c) + 1 == k
            ==> o is Ok)
}

/// Context fidelity: when each attempt adds one to a counter in the context,
/// whatever its outcome, the context returned by the loop holds exactly one
/// increment per invocation of the operation.
pub proof fn lemma_context_counts_every_attempt<
    Ctx,
    T,
    E,
    F: FnMut(Ctx) -> (Ctx, Result<T, E>),
    RC: RetryCondition<E>,
>(
    run: Run<Ctx, T, E>,
    f: F,
    ctx: Ctx,
    pending: Seq<Duration>,
    rc: RC,
    count: spec_fn(Ctx) -> int,
)
    requires
        is_run(run, f, ctx, pending, rc),
        counts_attempts(f, count),
    ensures
        count(run.final_ctx()) == count(ctx) + run.attempts(),
{
    assert forall|j: int| 0 <= j <= run.attempts() implies #[trigger] count(run.ctxs[j]) == count(
        ctx,
    ) + j by {
        lemma_prefix_counts(run, f, ctx, pending, rc, count, j);
    }
    assert(count(run.ctxs[run.attempts() as int]) == count(ctx) + run.attempts());
}

proof fn lemma_prefix_counts<
    Ctx,
    T,
    E,
    F: FnMut(Ctx) -> (Ctx, Result<T, E>),
    RC: RetryCondition<E>,
>(
    run: Run<Ctx, T, E>,
    f: F,
    ctx: Ctx,
    pending: Seq<Duration>,
    rc: RC,
    count: spec_fn(Ctx) -> int,
    j: int,
)
    requires
        is_run(run, f, ctx, pending, rc),
        counts_attempts(f, count),
        0 <= j <= run.attempts(),
    ensures
        count(run.ctxs[j]) == count(ctx) + j,
    decreases j,
{
    if j > 0 {
        lemma_prefix_counts(run, f, ctx, pending, rc, count, j - 1);
        let i = j - 1;
        assert(call_ensures(f, (run.ctxs[i],), (run.ctxs[i + 1], run.outcomes[i])));
    }
}

/// When the condition rejects every error and the operation always fails,
/// the operation is invoked exactly once, its error is returned as it is, and
/// the notifier and the sleeper are never called.
pub proof fn lemma_rejected_error_stops_at_once<
    Ctx,
    T,
    E,
    F: FnMut(Ctx) -> (Ctx, Result<T, E>),
    RC: RetryCondition<E>,
    NF: RetryNotifier<E>,
    SF: BlockingSleeper,
>(
    run: Run<Ctx, T, E>,
    f: F,
    ctx: Ctx,
    pending: Seq<Duration>,
    rc: RC,
    notifiers: Seq<NF>,
    sleepers: Seq<SF>,
)
    requires
        is_run(run, f, ctx, pending, rc),
        hooks_follow(run, notifiers, sleepers),
        always_fails(f),
        rejects_all(rc),
    ensures
        run.attempts() == 1,
        run.retries() == 0,
        notifiers.len() == 1,
        sleepers.len() == 1,
        run.final_outcome() == run.outcomes[0],
        run.final_outcome() is Err,
        call_ensures(f, (ctx,), (run.final_ctx(), run.final_outcome())),
{
    if run.retries() > 0 {
        assert(retried_at(run, pending, rc, 0));
        assert(rc.answers(run.outcomes[0]->Err_0, true));
    }
    assert(call_ensures(f, (run.ctxs[0],), (run.ctxs[1], run.outcomes[0])));
}

/// With a backoff that has `N` durations and an operation that always fails
/// with an error the condition accepts, the operation is invoked exactly
/// `N + 1` times, the notifier is told and the sleeper pauses `N` times, with
/// the backoff's durations in order, and the error of the last attempt is
/// returned.
pub proof fn lemma_exhausted_backoff_returns_last_error<
    Ctx,
    T,
    E,
    F: FnMut(Ctx) -> (Ctx, Result<T, E>),
    RC: RetryCondition<E>,
    NF: RetryNotifier<E>,
    SF: BlockingSleeper,
>(
    run: Run<Ctx, T, E>,
    f: F,
    ctx: Ctx,
    pending: Seq<Duration>,
    rc: RC,
    notifiers: Seq<NF>,
    sleepers: Seq<SF>,
)
    requires
        is_run(run, f, ctx, pending, rc),
        hooks_follow(run, notifiers, sleepers),
        always_fails(f),
        accepts_errors_of(f, rc),
    ensures
        run.attempts() == pending.len() + 1,
        run.retries() == pending.len(),
        run.delays == pending,
        notifiers.len() == pending.len() + 1,
        sleepers.len() == pending.len() + 1,
        forall|i: int|
            0 <= i < pending.len() ==> {
                &&& #[trigger] notifiers[i].told(run.outcomes[i]->Err_0, pending[i], notifiers[i + 1])
                &&& sleepers[i].slept(pending[i], sleepers[i + 1])
            },
        run.final_outcome() == run.outcomes[pending.len() as int],
        run.final_outcome() is Err,
{
    let last = run.attempts() - 1;
    assert(call_ensures(f, (run.ctxs[last],), (run.ctxs[last + 1], run.outcomes[last])));
    assert(stops_at(run, pending, rc, last));
    if run.retries() > 0 {
        assert(retried_at(run, pending, rc, run.retries() - 1));
    }
    assert forall|i: int| 0 <= i < run.retries() implies #[trigger] run.delays[i] == pending[i] by {
        assert(retried_at(run, pending, rc, i));
    }
    assert(run.delays =~= pending);
    assert forall|i: int| 0 <= i < pending.len() implies {
        &&& #[trigger] notifiers[i].told(run.outcomes[i]->Err_0, pending[i], notifiers[i + 1])
        &&& sleepers[i].slept(pending[i], sleepers[i + 1])
    } by {
        assert(hook_step(run, notifiers, sleepers, i));
    }
}

/// An operation that fails with accepted errors before attempt `k` and
/// succeeds at attempt `k`, under a backoff with at least `k - 1` durations,
/// is invoked exactly `k` times; the notifier is told and the sleeper pauses
/// `k - 1` times, and the success of attempt `k` is returned as it is.
pub proof fn lemma_success_at_attempt_k<
    Ctx,
    T,
    E,
    F: FnMut(Ctx) -> (Ctx, Result<T, E>),
    RC: RetryCondition<E>,
    NF: RetryNotifier<E>,
    SF: BlockingSleeper,
>(
    run: Run<Ctx, T, E>,
    f: F,
    ctx: Ctx,
    pending: Seq<Duration>,
    rc: RC,
    notifiers: Seq<NF>,
    sleepers: Seq<SF>,
    count: spec_fn(Ctx) -> int,
    k: int,
)
    requires
        is_run(run, f, ctx, pending, rc),
        hooks_follow(run, notifiers, sleepers),
        k >= 1,
        count(ctx) == 0,
        counts_attempts(f, count),
        succeeds_at(f, count, k),
        accepts_errors_of(f, rc),
        pending.len() >= k - 1,
    ensures
        run.attempts() == k,
        run.retries() == k - 1,
        notifiers.len() == k,
        sleepers.len() == k,
        run.final_outcome() == run.outcomes[k - 1],
        run.final_outcome() is Ok,
{
    let n = run.attempts() as int;
    assert forall|i: int| 0 <= i < n implies #[trigger] count(run.ctxs[i]) == i by {
        lemma_prefix_counts(run, f, ctx, pending, rc, count, i);
    }
    assert forall|i: int| 0 <= i < n && i < k - 1 implies #[trigger] run.outcomes[i] is Err by {
        assert(call_ensures(f, (run.ctxs[i],), (run.ctxs[i + 1], run.outcomes[i])));
    }
    if n > k {
        assert(retried_at(run, pending, rc, k - 1));
        let i = k - 1;
        assert(call_ensures(f, (run.ctxs[i],), (run.ctxs[i + 1], run.outcomes[i])));
    }
    let last = n - 1;
    assert(call_ensures(f, (run.ctxs[last],), (run.ctxs[last + 1], run.outcomes[last])));
    assert(stops_at(run, pending, rc, n - 1));
    if n < k {
        assert(run.outcomes[n - 1] is Err);
    }
}

} // verus!
