use core::time::Duration;
use vstd::prelude::*;

verus! {

/// Decides whether an error is worth another attempt.
pub trait RetryCondition<E>: Sized {
    /// `b` is an answer that `check` may give for `e`.
    spec fn answers(&self, e: E, b: bool) -> bool;

    /// `check` may be called on `e`.
    spec fn admits(&self, e: E) -> bool;

    fn check(&mut self, e: &E) -> (r: bool)
        requires
            old(self).admits(*e),
        ensures
            old(self).answers(*e, r),
            *final(self) == *old(self),
    ;
}

/// Is told of each retry: the error that caused it and the pause about to start.
pub trait RetryNotifier<E>: Sized {
    /// `notify` may be called on `e` and `dur`.
    spec fn admits(&self, e: E, dur: Duration) -> bool;

    /// Being told of `e` and `dur` may take this notifier to state `after`.
    spec fn told(&self, e: E, dur: Duration, after: Self) -> bool;

    fn notify(&mut self, e: &E, dur: Duration)
        requires
            old(self).admits(*e, dur),
        ensures
            old(self).told(*e, dur, *final(self)),
            forall|e2: E, d2: Duration| #[trigger]
                final(self).admits(e2, d2) == old(self).admits(e2, d2),
    ;
}

/// The default condition: every error is retryable.
pub struct AlwaysRetryable;

/// The default notifier: it does nothing.
pub struct NoNotify;

impl<E> RetryCondition<E> for AlwaysRetryable {
    open spec fn answers(&self, e: E, b: bool) -> bool {
        b
    }

    open spec fn admits(&self, e: E) -> bool {
        true
    }

    fn check(&mut self, e: &E) -> (r: bool) {
        true
    }
}

impl<E> RetryNotifier<E> for NoNotify {
    open spec fn admits(&self, e: E, dur: Duration) -> bool {
        true
    }

    open spec fn told(&self, e: E, dur: Duration, after: Self) -> bool {
        after == *self
    }

    fn notify(&mut self, e: &E, dur: Duration) {
    }
}

impl<E, P: FnMut(&E) -> bool> RetryCondition<E> for P {
    open spec fn answers(&self, e: E, b: bool) -> bool {
        call_ensures(*self, (&e,), b)
    }

    open spec fn admits(&self, e: E) -> bool {
        call_requires(*self, (&e,))
    }

    fn check(&mut self, e: &E) -> (r: bool) {
        (self)(e)
    }
}

impl<E, N: FnMut(&E, Duration)> RetryNotifier<E> for N {
    open spec fn admits(&self, e: E, dur: Duration) -> bool {
        call_requires(*self, (&e, dur))
    }

    open spec fn told(&self, e: E, dur: Duration, after: Self) -> bool {
        call_ensures(*self, (&e, dur), ()) && after == *self
    }

    fn notify(&mut self, e: &E, dur: Duration) {
        (self)(e, dur)
    }
}

/// A closure used as a retry condition answers what the closure returns, and
/// may be checked wherever the closure may be called.
pub proof fn lemma_closure_condition<E, P: FnMut(&E) -> bool>(p: P)
    ensures
        forall|e: E, b: bool| #[trigger] p.answers(e, b) == call_ensures(p, (&e,), b),
        forall|e: E| #[trigger] p.admits(e) == call_requires(p, (&e,)),
{
}

/// A closure used as a notifier may be told of a retry wherever the closure
/// may be called, and being told is one call of the closure.
pub proof fn lemma_closure_notifier<E, N: FnMut(&E, Duration)>(n: N)
    ensures
        forall|e: E, d: Duration| #[trigger] n.admits(e, d) == call_requires(n, (&e, d)),
        forall|e: E, d: Duration, after: N| #[trigger]
            n.told(e, d, after) == (call_ensures(n, (&e, d), ()) && after == n),
{
}

} // verus!
