use core::time::Duration;
use vstd::prelude::*;

use crate::backoff::{Backoff, BackoffBuilder};
use crate::policy::{AlwaysRetryable, NoNotify, RetryCondition, RetryNotifier};
use crate::sleep::{BlockingSleeper, SleeperUnset};

verus! {

/// The record of one run of the retry loop.
///
/// Attempt `i` takes `ctxs[i]` and hands back `ctxs[i + 1]` with
/// `outcomes[i]`. After each attempt but the last, the backoff gave
/// `delays[i]`; what the notify hook and the sleeper did with it is stated by
/// `hooks_follow`.
pub struct Run<Ctx, T, E> {
    pub ctxs: Seq<Ctx>,
    pub outcomes: Seq<Result<T, E>>,
    pub delays: Seq<Duration>,
}

impl<Ctx, T, E> Run<Ctx, T, E> {
    /// Number of times the operation was invoked.
    pub open spec fn attempts(&self) -> nat {
        self.outcomes.len()
    }

    /// Number of retries: attempts that were followed by another one.
    pub open spec fn retries(&self) -> nat {
        self.delays.len()
    }

    /// The context handed back to the caller.
    pub open spec fn final_ctx(&self) -> Ctx {
        self.ctxs.last()
    }

    /// The outcome handed back to the caller: that of the last attempt.
    pub open spec fn final_outcome(&self) -> Result<T, E> {
        self.outcomes.last()
    }

    /// At least one attempt, one context more than attempts, one retry fewer.
    pub open spec fn shaped(&self) -> bool {
        &&& self.outcomes.len() >= 1
        &&& self.ctxs.len() == self.outcomes.len() + 1
        &&& self.delays.len() + 1 == self.outcomes.len()
    }
}

/// Attempt `i` of `run` failed with an error that `rc` judged retryable, and
/// the backoff, whose durations are `pending`, had `delays[i]` for it.
pub open spec fn retried_at<Ctx, T, E, RC: RetryCondition<E>>(
    run: Run<Ctx, T, E>,
    pending: Seq<Duration>,
    rc: RC,
    i: int,
) -> bool {
    &&& run.outcomes[i] is Err
    &&& rc.answers(run.outcomes[i]->Err_0, true)
    &&& i < pending.len()
    &&& run.delays[i] == pending[i]
}

/// Outcome `i` ends the loop: a success, an error that `rc` rejects, or a
/// retryable error when the backoff has no duration left.
pub open spec fn stops_at<Ctx, T, E, RC: RetryCondition<E>>(
    run: Run<Ctx, T, E>,
    pending: Seq<Duration>,
    rc: RC,
    i: int,
) -> bool {
    match run.outcomes[i] {
        Ok(_) => true,
        Err(e) => rc.answers(e, false) || (rc.answers(e, true) && i >= pending.len()),
    }
}

/// `run` is a possible run of the retry loop: operation `f` starting from
/// context `ctx`, a backoff whose durations are `pending`, and condition `rc`.
pub open spec fn is_run<Ctx, T, E, F: FnMut(Ctx) -> (Ctx, Result<T, E>), RC: RetryCondition<E>>(
    run: Run<Ctx, T, E>,
    f: F,
    ctx: Ctx,
    pending: Seq<Duration>,
    rc: RC,
) -> bool {
    &&& run.shaped()
    &&& run.ctxs[0] == ctx
    &&& forall|i: int|
        0 <= i < run.attempts() ==> #[trigger] call_ensures(
            f,
            (run.ctxs[i],),
            (run.ctxs[i + 1], run.outcomes[i]),
        )
    &&& forall|i: int| 0 <= i < run.retries() ==> #[trigger] retried_at(run, pending, rc, i)
    &&& stops_at(run, pending, rc, run.attempts() - 1)
}

/// Retry `i` of `run` told notifier state `notifiers[i]` of the failed
/// attempt's error and of `delays[i]`, leaving it in `notifiers[i + 1]`, then
/// paused sleeper state `sleepers[i]` for `delays[i]`, leaving it in
/// `sleepers[i + 1]`.
pub open spec fn hook_step<Ctx, T, E, NF: RetryNotifier<E>, SF: BlockingSleeper>(
    run: Run<Ctx, T, E>,
    notifiers: Seq<NF>,
    sleepers: Seq<SF>,
    i: int,
) -> bool {
    &&& notifiers[i].told(run.outcomes[i]->Err_0, run.delays[i], notifiers[i + 1])
    &&& sleepers[i].slept(run.delays[i], sleepers[i + 1])
}

/// The notifier went through `notifiers` and the sleeper through `sleepers`:
/// one notification and then one pause per retry of `run`, and no other.
pub open spec fn hooks_follow<Ctx, T, E, NF: RetryNotifier<E>, SF: BlockingSleeper>(
    run: Run<Ctx, T, E>,
    notifiers: Seq<NF>,
    sleepers: Seq<SF>,
) -> bool {
    &&& notifiers.len() == run.retries() + 1
    &&& sleepers.len() == run.retries() + 1
    &&& forall|i: int| 0 <= i < run.retries() ==> #[trigger] hook_step(run, notifiers, sleepers, i)
}

/// Makes a context-carrying operation retryable.
pub trait BlockingRetryableWithContext<B: BackoffBuilder, T, E, Ctx, F: FnMut(Ctx) -> (
    Ctx,
    Result<T, E>,
)>: Sized {
    /// The operation that `retry` hands to the executor.
    spec fn operation(&self) -> F;

    /// An executor of this operation with a fresh backoff from `builder`,
    /// every error retryable, no notify hook, no context and no sleeper yet.
    fn retry(self, builder: B) -> (r: BlockingRetryWithContext<
        B::Backoff,
        T,
        E,
        Ctx,
        F,
        SleeperUnset,
        AlwaysRetryable,
        NoNotify,
    >)
        ensures
            r.operation() == self.operation(),
            r.backoff() == builder.built(),
            r.initial_context() is None,
    ;
}

impl<B: BackoffBuilder, T, E, Ctx, F: FnMut(Ctx) -> (Ctx, Result<T, E>)> BlockingRetryableWithContext<
    B,
    T,
    E,
    Ctx,
    F,
> for F {
    open spec fn operation(&self) -> F {
        *self
    }

    fn retry(self, builder: B) -> (r: BlockingRetryWithContext<
        B::Backoff,
        T,
        E,
        Ctx,
        F,
        SleeperUnset,
        AlwaysRetryable,
        NoNotify,
    >) {
        BlockingRetryWithContext::new(self, builder.build())
    }
}

/// A retry executor for an operation that threads a context through its
/// attempts: the operation takes the context and hands it back with its
/// outcome, whatever that outcome is.
#[verifier::reject_recursive_types(T)]
#[verifier::reject_recursive_types(E)]
#[verifier::reject_recursive_types(Ctx)]
pub struct BlockingRetryWithContext<
    B: Backoff,
    T,
    E,
    Ctx,
    F: FnMut(Ctx) -> (Ctx, Result<T, E>),
    SF,
    RC,
    NF,
> {
    backoff: B,
    retryable: RC,
    notify: NF,
    f: F,
    sleep_fn: SF,
    ctx: Option<Ctx>,
    outcome: core::marker::PhantomData<(T, E)>,
}

impl<B: Backoff, T, E, Ctx, F: FnMut(Ctx) -> (Ctx, Result<T, E>)> BlockingRetryWithContext<
    B,
    T,
    E,
    Ctx,
    F,
    SleeperUnset,
    AlwaysRetryable,
    NoNotify,
> {
    /// An executor of `f` with `backoff`, every error retryable, no notify
    /// hook, no context and no sleeper yet.
    pub fn new(f: F, backoff: B) -> (r: Self)
        ensures
            r.operation() == f,
            r.backoff() == backoff,
            r.initial_context() is None,
    {
        BlockingRetryWithContext {
            backoff,
            retryable: AlwaysRetryable,
            notify: NoNotify,
            f,
            sleep_fn: SleeperUnset,
            ctx: None,
            outcome: core::marker::PhantomData,
        }
    }
}

impl<B: Backoff, T, E, Ctx, F: FnMut(Ctx) -> (Ctx, Result<T, E>), SF, RC, NF> BlockingRetryWithContext<
    B,
    T,
    E,
    Ctx,
    F,
    SF,
    RC,
    NF,
> {
    /// The backoff session that the loop will consult.
    pub closed spec fn backoff(&self) -> B {
        self.backoff
    }

    /// The condition that decides which errors are retried.
    pub closed spec fn condition(&self) -> RC {
        self.retryable
    }

    /// The hook told of each retry.
    pub closed spec fn notifier(&self) -> NF {
        self.notify
    }

    /// The operation being retried.
    pub closed spec fn operation(&self) -> F {
        self.f
    }

    /// The sleeper that performs the pauses.
    pub closed spec fn sleeper(&self) -> SF {
        self.sleep_fn
    }

    /// The context that the first attempt will receive, once set.
    pub closed spec fn initial_context(&self) -> Option<Ctx> {
        self.ctx
    }

    /// This executor with its initial context set to `c`.
    pub closed spec fn with_context(self, c: Ctx) -> Self {
        BlockingRetryWithContext { ctx: Some(c), ..self }
    }

    /// This executor with its sleeper replaced by `sn`.
    pub closed spec fn with_sleeper<SN>(self, sn: SN) -> BlockingRetryWithContext<
        B,
        T,
        E,
        Ctx,
        F,
        SN,
        RC,
        NF,
    > {
        BlockingRetryWithContext {
            backoff: self.backoff,
            retryable: self.retryable,
            notify: self.notify,
            f: self.f,
            sleep_fn: sn,
            ctx: self.ctx,
            outcome: self.outcome,
        }
    }

    /// This executor with its retry condition replaced by `rn`.
    pub closed spec fn with_condition<RN>(self, rn: RN) -> BlockingRetryWithContext<
        B,
        T,
        E,
        Ctx,
        F,
        SF,
        RN,
        NF,
    > {
        BlockingRetryWithContext {
            backoff: self.backoff,
            retryable: rn,
            notify: self.notify,
            f: self.f,
            sleep_fn: self.sleep_fn,
            ctx: self.ctx,
            outcome: self.outcome,
        }
    }

    /// This executor with its notifier replaced by `nn`.
    pub closed spec fn with_notifier<NN>(self, nn: NN) -> BlockingRetryWithContext<
        B,
        T,
        E,
        Ctx,
        F,
        SF,
        RC,
        NN,
    > {
        BlockingRetryWithContext {
            backoff: self.backoff,
            retryable: self.retryable,
            notify: nn,
            f: self.f,
            sleep_fn: self.sleep_fn,
            ctx: self.ctx,
            outcome: self.outcome,
        }
    }

    /// Sets the context that the first attempt receives.
    pub fn context(self, context: Ctx) -> (r: BlockingRetryWithContext<B, T, E, Ctx, F, SF, RC, NF>)
        ensures
            r == self.with_context(context),
            r.initial_context() == Some(context),
            r.backoff() == self.backoff(),
            r.condition() == self.condition(),
            r.notifier() == self.notifier(),
            r.operation() == self.operation(),
            r.sleeper() == self.sleeper(),
    {
        BlockingRetryWithContext {
            backoff: self.backoff,
            retryable: self.retryable,
            notify: self.notify,
            f: self.f,
            sleep_fn: self.sleep_fn,
            ctx: Some(context),
            outcome: self.outcome,
        }
    }

    /// Sets the sleeper that performs the pauses between attempts.
    pub fn sleep<SN: BlockingSleeper>(self, sleep_fn: SN) -> (r: BlockingRetryWithContext<
        B,
        T,
        E,
        Ctx,
        F,
        SN,
        RC,
        NF,
    >)
        ensures
            r == self.with_sleeper(sleep_fn),
            r.sleeper() == sleep_fn,
            r.initial_context() == self.initial_context(),
            r.backoff() == self.backoff(),
            r.condition() == self.condition(),
            r.notifier() == self.notifier(),
            r.operation() == self.operation(),
    {
        BlockingRetryWithContext {
            backoff: self.backoff,
            retryable: self.retryable,
            notify: self.notify,
            f: self.f,
            sleep_fn,
            ctx: self.ctx,
            outcome: self.outcome,
        }
    }

    /// Sets the condition that decides which errors are retried.
    pub fn when<RN: RetryCondition<E>>(self, retryable: RN) -> (r: BlockingRetryWithContext<
        B,
        T,
        E,
        Ctx,
        F,
        SF,
        RN,
        NF,
    >)
        ensures
            r == self.with_condition(retryable),
            r.condition() == retryable,
            r.initial_context() == self.initial_context(),
            r.backoff() == self.backoff(),
            r.notifier() == self.notifier(),
            r.operation() == self.operation(),
            r.sleeper() == self.sleeper(),
    {
        BlockingRetryWithContext {
            backoff: self.backoff,
            retryable,
            notify: self.notify,
            f: self.f,
            sleep_fn: self.sleep_fn,
            ctx: self.ctx,
            outcome: self.outcome,
        }
    }

    /// Sets the hook that is told of each retry before its pause.
    pub fn notify<NN: RetryNotifier<E>>(self, notify: NN) -> (r: BlockingRetryWithContext<
        B,
        T,
        E,
        Ctx,
        F,
        SF,
        RC,
        NN,
    >)
        ensures
            r == self.with_notifier(notify),
            r.notifier() == notify,
            r.initial_context() == self.initial_context(),
            r.backoff() == self.backoff(),
            r.condition() == self.condition(),
            r.operation() == self.operation(),
            r.sleeper() == self.sleeper(),
    {
        BlockingRetryWithContext {
            backoff: self.backoff,
            retryable: self.retryable,
            notify,
            f: self.f,
            sleep_fn: self.sleep_fn,
            ctx: self.ctx,
            outcome: self.outcome,
        }
    }
}

/// The configuration methods commute: setting the retry condition, the
/// notifier and the sleeper in any order gives the same executor, so calling it
/// behaves the same.
pub proof fn lemma_configuration_order_irrelevant<
    B: Backoff,
    T,
    E,
    Ctx,
    F: FnMut(Ctx) -> (Ctx, Result<T, E>),
    SF,
    RC,
    NF,
    SN,
    RN,
    NN,
>(x: BlockingRetryWithContext<B, T, E, Ctx, F, SF, RC, NF>, sn: SN, rn: RN, nn: NN)
    ensures
        x.with_condition(rn).with_notifier(nn) == x.with_notifier(nn).with_condition(rn),
        x.with_condition(rn).with_sleeper(sn) == x.with_sleeper(sn).with_condition(rn),
        x.with_notifier(nn).with_sleeper(sn) == x.with_sleeper(sn).with_notifier(nn),
        x.with_condition(rn).with_notifier(nn).with_sleeper(sn) == x.with_sleeper(sn).with_notifier(
            nn,
        ).with_condition(rn),
{
}

impl<
    B: Backoff,
    T,
    E,
    Ctx,
    F: FnMut(Ctx) -> (Ctx, Result<T, E>),
    SF: BlockingSleeper,
    RC: RetryCondition<E>,
    NF: RetryNotifier<E>,
> BlockingRetryWithContext<B, T, E, Ctx, F, SF, RC, NF> {
    /// Whether `run` is a possible run of this executor's loop.
    pub open spec fn runs_as(&self, run: Run<Ctx, T, E>) -> bool {
        &&& self.initial_context() is Some
        &&& is_run(
            run,
            self.operation(),
            self.initial_context()->Some_0,
            self.backoff().pending(),
            self.condition(),
        )
    }

    /// Whether `run` is a possible run of this executor's loop in which its
    /// notifier went through `notifiers` and its sleeper through `sleepers`.
    pub open spec fn performs(&self, run: Run<Ctx, T, E>, notifiers: Seq<NF>, sleepers: Seq<SF>) -> bool {
        &&& self.runs_as(run)
        &&& hooks_follow(run, notifiers, sleepers)
        &&& notifiers[0] == self.notifier()
        &&& sleepers[0] == self.sleeper()
    }

    /// Runs the operation until it succeeds, its error is not retryable, or
    /// the backoff is exhausted; before each retry it tells the notifier of the
    /// error and the pause, then sleeps for the pause. Returns the last context
    /// with the last outcome.
    pub fn call(self) -> (r: (Ctx, Result<T, E>))
        requires
            self.initial_context() is Some,
            forall|c: Ctx| call_requires(self.operation(), (c,)),
            forall|e: E| self.condition().admits(e),
            forall|e: E, d: Duration| self.notifier().admits(e, d),
            forall|d: Duration| self.sleeper().admits(d),
        ensures
            exists|run: Run<Ctx, T, E>, notifiers: Seq<NF>, sleepers: Seq<SF>|
                self.performs(run, notifiers, sleepers) && r == (run.final_ctx(), run.final_outcome()),
    {
        let ghost start = self;
        let ghost pending = self.backoff().pending();
        let BlockingRetryWithContext {
            mut backoff,
            mut retryable,
            mut notify,
            mut f,
            mut sleep_fn,
            ctx,
            outcome: _,
        } = self;
        let mut ctx = ctx.unwrap();
        assert forall|c: Ctx| call_requires(f, (c,)) by {
            assert(call_requires(start.operation(), (c,)));
        }
        assert forall|e: E| retryable.admits(e) by {
            assert(start.condition().admits(e));
        }
        assert forall|e: E, d: Duration| notify.admits(e, d) by {
            assert(start.notifier().admits(e, d));
        }
        assert forall|d: Duration| sleep_fn.admits(d) by {
            assert(start.sleeper().admits(d));
        }
        let ghost mut notifiers: Seq<NF> = seq![notify];
        let ghost mut sleepers: Seq<SF> = seq![sleep_fn];
        let ghost mut ctxs: Seq<Ctx> = seq![ctx];
        let ghost mut outcomes: Seq<Result<T, E>> = Seq::empty();
        let ghost mut delays: Seq<Duration> = Seq::empty();
        loop
            invariant
                start == self,
                pending == start.backoff().pending(),
                start.initial_context() is Some,
                f == start.operation(),
                retryable == start.condition(),
                notifiers.len() == delays.len() + 1,
                sleepers.len() == delays.len() + 1,
                notifiers[0] == start.notifier(),
                sleepers[0] == start.sleeper(),
                notifiers.last() == notify,
                sleepers.last() == sleep_fn,
                forall|d: Duration| sleep_fn.admits(d),
                forall|i: int|
                    0 <= i < delays.len() ==> #[trigger] hook_step(
                        Run { ctxs, outcomes, delays },
                        notifiers,
                        sleepers,
                        i,
                    ),
                forall|c: Ctx| call_requires(f, (c,)),
                forall|e: E| retryable.admits(e),
                forall|e: E, d: Duration| notify.admits(e, d),
                ctxs.len() == outcomes.len() + 1,
                delays.len() == outcomes.len(),
                outcomes.len() <= pending.len(),
                ctxs[0] == start.initial_context()->Some_0,
                ctxs.last() == ctx,
                backoff.pending() == pending.skip(outcomes.len() as int),
                forall|i: int|
                    0 <= i < outcomes.len() ==> #[trigger] call_ensures(
                        f,
                        (ctxs[i],),
                        (ctxs[i + 1], outcomes[i]),
                    ),
                forall|i: int|
                    0 <= i < delays.len() ==> #[trigger] retried_at(
                        Run { ctxs, outcomes, delays },
                        pending,
                        retryable,
                        i,
                    ),
            decreases pending.len() - outcomes.len(),
        {
            let (xctx, result) = f(ctx);
            let ghost prev = outcomes;
            let ghost prev_ctxs = ctxs;
            proof {
                ctxs = ctxs.push(xctx);
                outcomes = outcomes.push(result);
            }
            ctx = xctx;
            let ghost run = Run { ctxs, outcomes, delays: delays };
            assert forall|i: int| 0 <= i < run.retries() implies #[trigger] retried_at(
                run,
                pending,
                retryable,
                i,
            ) by {
                assert(retried_at(Run { ctxs: prev_ctxs, outcomes: prev, delays }, pending, retryable, i));
            }
            assert forall|i: int| 0 <= i < run.retries() implies #[trigger] hook_step(
                run,
                notifiers,
                sleepers,
                i,
            ) by {
                assert(hook_step(Run { ctxs: prev_ctxs, outcomes: prev, delays }, notifiers, sleepers, i));
            }
            let err = match result {
                Ok(v) => {
                    assert(start.performs(run, notifiers, sleepers));
                    return (ctx, Ok(v));
                },
                Err(err) => err,
            };
            if !retryable.check(&err) {
                assert(start.performs(run, notifiers, sleepers));
                return (ctx, Err(err));
            }
            let dur = match backoff.next() {
                None => {
                    assert(start.performs(run, notifiers, sleepers));
                    return (ctx, Err(err));
                },
                Some(dur) => dur,
            };
            notify.notify(&err, dur);
            sleep_fn.sleep(dur);
            let ghost n = delays.len() as int;
            let ghost prev_notifiers = notifiers;
            let ghost prev_sleepers = sleepers;
            proof {
                delays = delays.push(dur);
                notifiers = notifiers.push(notify);
                sleepers = sleepers.push(sleep_fn);
            }
            assert forall|i: int| 0 <= i < delays.len() implies #[trigger] retried_at(
                Run { ctxs, outcomes, delays },
                pending,
                retryable,
                i,
            ) by {
                if i < n {
                    assert(retried_at(run, pending, retryable, i));
                }
            }
            assert forall|i: int| 0 <= i < delays.len() implies #[trigger] hook_step(
                Run { ctxs, outcomes, delays },
                notifiers,
                sleepers,
                i,
            ) by {
                if i < n {
                    assert(hook_step(run, prev_notifiers, prev_sleepers, i));
                }
            }
        }
    }
}

} // verus!
