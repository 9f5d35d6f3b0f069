use core::time::Duration;
use vstd::prelude::*;

use crate::backoff::{Backoff, BackoffBuilder};
use crate::blocking_retry_with_context::{hook_step, hooks_follow, retried_at, stops_at, Run};
use crate::policy::{AlwaysRetryable, NoNotify, RetryCondition, RetryNotifier};
use crate::sleep::{BlockingSleeper, SleeperUnset};

verus! {

/// `run` is a possible run of the retry loop of the context-free operation
/// `f`, with a backoff whose durations are `pending` and condition `rc`; its
/// contexts are all `()`.
pub open spec fn is_plain_run<T, E, F: FnMut() -> Result<T, E>, RC: RetryCondition<E>>(
    run: Run<(), T, E>,
    f: F,
    pending: Seq<Duration>,
    rc: RC,
) -> bool {
    &&& run.shaped()
    &&& forall|i: int| 0 <= i < run.attempts() ==> #[trigger] call_ensures(f, (), run.outcomes[i])
    &&& forall|i: int| 0 <= i < run.retries() ==> #[trigger] retried_at(run, pending, rc, i)
    &&& stops_at(run, pending, rc, run.attempts() - 1)
}

/// A retry executor for an operation that takes no context.
#[verifier::reject_recursive_types(T)]
#[verifier::reject_recursive_types(E)]
pub struct BlockingRetry<B: Backoff, T, E, F: FnMut() -> Result<T, E>, SF, RC, NF> {
    backoff: B,
    retryable: RC,
    notify: NF,
    f: F,
    sleep_fn: SF,
    outcome: core::marker::PhantomData<(T, E)>,
}

impl<B: Backoff, T, E, F: FnMut() -> Result<T, E>> BlockingRetry<
    B,
    T,
    E,
    F,
    SleeperUnset,
    AlwaysRetryable,
    NoNotify,
> {
    /// An executor of `f` with a fresh backoff from `builder`, every error
    /// retryable, no notify hook and no sleeper yet.
    pub fn new<BB: BackoffBuilder<Backoff = B>>(f: F, builder: BB) -> (r: Self)
        ensures
            r.operation() == f,
            r.backoff() == builder.built(),
    {
        BlockingRetry {
            backoff: builder.build(),
            retryable: AlwaysRetryable,
            notify: NoNotify,
            f,
            sleep_fn: SleeperUnset,
            outcome: core::marker::PhantomData,
        }
    }
}

impl<B: Backoff, T, E, F: FnMut() -> Result<T, E>, SF, RC, NF> BlockingRetry<
    B,
    T,
    E,
    F,
    SF,
    RC,
    NF,
> {
    /// The backoff session that the loop will consult.
    pub closed spec fn backoff(&self) -> B {
        self.backoff
    }

    /// The condition that decides which errors are retried.
    pub closed spec fn condition(&self) -> RC {
        self.retryable
    }

    /// The hook told of each retry.
    pub closed spec fn notifier(&self) -> NF {
        self.notify
    }

    /// The operation being retried.
    pub closed spec fn operation(&self) -> F {
        self.f
    }

    /// The sleeper that performs the pauses.
    pub closed spec fn sleeper(&self) -> SF {
        self.sleep_fn
    }

    /// Sets the sleeper that performs the pauses between attempts.
    pub fn sleep<SN: BlockingSleeper>(self, sleep_fn: SN) -> (r: BlockingRetry<
        B,
        T,
        E,
        F,
        SN,
        RC,
        NF,
    >)
        ensures
            r.sleeper() == sleep_fn,
            r.backoff() == self.backoff(),
            r.condition() == self.condition(),
            r.notifier() == self.notifier(),
            r.operation() == self.operation(),
    {
        BlockingRetry {
            backoff: self.backoff,
            retryable: self.retryable,
            notify: self.notify,
            f: self.f,
            sleep_fn,
            outcome: self.outcome,
        }
    }

    /// Sets the condition that decides which errors are retried.
    pub fn when<RN: RetryCondition<E>>(self, retryable: RN) -> (r: BlockingRetry<
        B,
        T,
        E,
        F,
        SF,
        RN,
        NF,
    >)
        ensures
            r.condition() == retryable,
            r.backoff() == self.backoff(),
            r.notifier() == self.notifier(),
            r.operation() == self.operation(),
            r.sleeper() == self.sleeper(),
    {
        BlockingRetry {
            backoff: self.backoff,
            retryable,
            notify: self.notify,
            f: self.f,
            sleep_fn: self.sleep_fn,
            outcome: self.outcome,
        }
    }

    /// Sets the hook that is told of each retry before its pause.
    pub fn notify<NN: RetryNotifier<E>>(self, notify: NN) -> (r: BlockingRetry<
        B,
        T,
        E,
        F,
        SF,
        RC,
        NN,
    >)
        ensures
            r.notifier() == notify,
            r.backoff() == self.backoff(),
            r.condition() == self.condition(),
            r.operation() == self.operation(),
            r.sleeper() == self.sleeper(),
    {
        BlockingRetry {
            backoff: self.backoff,
            retryable: self.retryable,
            notify,
            f: self.f,
            sleep_fn: self.sleep_fn,
            outcome: self.outcome,
        }
    }
}

impl<
    B: Backoff,
    T,
    E,
    F: FnMut() -> Result<T, E>,
    SF: BlockingSleeper,
    RC: RetryCondition<E>,
    NF: RetryNotifier<E>,
> BlockingRetry<B, T, E, F, SF, RC, NF> {
    /// Whether `run` is a possible run of this executor's loop.
    pub open spec fn runs_as(&self, run: Run<(), T, E>) -> bool {
        is_plain_run(run, self.operation(), self.backoff().pending(), self.condition())
    }

    /// Whether `run` is a possible run of this executor's loop in which its
    /// notifier went through `notifiers` and its sleeper through `sleepers`.
    pub open spec fn performs(&self, run: Run<(), T, E>, notifiers: Seq<NF>, sleepers: Seq<SF>) -> bool {
        &&& self.runs_as(run)
        &&& hooks_follow(run, notifiers, sleepers)
        &&& notifiers[0] == self.notifier()
        &&& sleepers[0] == self.sleeper()
    }

    /// Runs the operation until it succeeds, its error is not retryable, or
    /// the backoff is exhausted; before each retry it tells the notifier of the
    /// error and the pause, then sleeps for the pause. Returns the last outcome.
    pub fn call(self) -> (r: Result<T, E>)
        requires
            call_requires(self.operation(), ()),
            forall|e: E| self.condition().admits(e),
            forall|e: E, d: Duration| self.notifier().admits(e, d),
            forall|d: Duration| self.sleeper().admits(d),
        ensures
            exists|run: Run<(), T, E>, notifiers: Seq<NF>, sleepers: Seq<SF>|
                self.performs(run, notifiers, sleepers) && r == run.final_outcome(),
    {
        let ghost start = self;
        let ghost pending = self.backoff().pending();
        let BlockingRetry { mut backoff, mut retryable, mut notify, mut f, mut sleep_fn, outcome: _ } =
            self;
        assert forall|e: E| retryable.admits(e) by {
            assert(start.condition().admits(e));
        }
        assert forall|e: E, d: Duration| notify.admits(e, d) by {
            assert(start.notifier().admits(e, d));
        }
        assert forall|d: Duration| sleep_fn.admits(d) by {
            assert(start.sleeper().admits(d));
        }
        let ghost mut notifiers: Seq<NF> = seq![notify];
        let ghost mut sleepers: Seq<SF> = seq![sleep_fn];
        let ghost mut ctxs: Seq<()> = seq![()];
        let ghost mut outcomes: Seq<Result<T, E>> = Seq::empty();
        let ghost mut delays: Seq<Duration> = Seq::empty();
        loop
            invariant
                start == self,
                pending == start.backoff().pending(),
                f == start.operation(),
                retryable == start.condition(),
                notifiers.len() == delays.len() + 1,
                sleepers.len() == delays.len() + 1,
                notifiers[0] == start.notifier(),
                sleepers[0] == start.sleeper(),
                notifiers.last() == notify,
                sleepers.last() == sleep_fn,
                forall|d: Duration| sleep_fn.admits(d),
                forall|i: int|
                    0 <= i < delays.len() ==> #[trigger] hook_step(
                        Run { ctxs, outcomes, delays },
                        notifiers,
                        sleepers,
                        i,
                    ),
                call_requires(f, ()),
                forall|e: E| retryable.admits(e),
                forall|e: E, d: Duration| notify.admits(e, d),
                ctxs.len() == outcomes.len() + 1,
                delays.len() == outcomes.len(),
                outcomes.len() <= pending.len(),
                backoff.pending() == pending.skip(outcomes.len() as int),
                forall|i: int| 0 <= i < outcomes.len() ==> #[trigger] call_ensures(f, (), outcomes[i]),
                forall|i: int|
                    0 <= i < delays.len() ==> #[trigger] retried_at(
                        Run { ctxs, outcomes, delays },
                        pending,
                        retryable,
                        i,
                    ),
            decreases pending.len() - outcomes.len(),
        {
            let result = f();
            let ghost prev = outcomes;
            let ghost prev_ctxs = ctxs;
            proof {
                ctxs = ctxs.push(());
                outcomes = outcomes.push(result);
            }
            let ghost run = Run { ctxs, outcomes, delays: delays };
            assert forall|i: int| 0 <= i < run.retries() implies #[trigger] retried_at(
                run,
                pending,
                retryable,
                i,
            ) by {
                assert(retried_at(Run { ctxs: prev_ctxs, outcomes: prev, delays }, pending, retryable, i));
            }
            assert forall|i: int| 0 <= i < run.retries() implies #[trigger] hook_step(
                run,
                notifiers,
                sleepers,
                i,
            ) by {
                assert(hook_step(Run { ctxs: prev_ctxs, outcomes: prev, delays }, notifiers, sleepers, i));
            }
            let err = match result {
                Ok(v) => {
                    assert(start.performs(run, notifiers, sleepers));
                    assert(run.final_outcome() == Ok::<T, E>(v));
                    return Ok(v);
                },
                Err(err) => err,
            };
            if !retryable.check(&err) {
                assert(start.performs(run, notifiers, sleepers));
                return Err(err);
            }
            let dur = match backoff.next() {
                None => {
                    assert(start.performs(run, notifiers, sleepers));
                    return Err(err);
                },
                Some(dur) => dur,
            };
            notify.notify(&err, dur);
            sleep_fn.sleep(dur);
            let ghost n = delays.len() as int;
            let ghost prev_notifiers = notifiers;
            let ghost prev_sleepers = sleepers;
            proof {
                delays = delays.push(dur);
                notifiers = notifiers.push(notify);
                sleepers = sleepers.push(sleep_fn);
            }
            assert forall|i: int| 0 <= i < delays.len() implies #[trigger] retried_at(
                Run { ctxs, outcomes, delays },
                pending,
                retryable,
                i,
            ) by {
                if i < n {
                    assert(retried_at(run, pending, retryable, i));
                }
            }
            assert forall|i: int| 0 <= i < delays.len() implies #[trigger] hook_step(
                Run { ctxs, outcomes, delays },
                notifiers,
                sleepers,
                i,
            ) by {
                if i < n {
                    assert(hook_step(run, prev_notifiers, prev_sleepers, i));
                }
            }
        }
    }
}

} // verus!
