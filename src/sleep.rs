use core::time::Duration;
use vstd::prelude::*;

verus! {

/// A pause mechanism that blocks the calling thread.
pub trait BlockingSleeper: Sized {
    /// `sleep` may be called for `dur`.
    spec fn admits(&self, dur: Duration) -> bool;

    /// Pausing for `dur` may take this sleeper to state `after`.
    spec fn slept(&self, dur: Duration, after: Self) -> bool;

    /// Returns once `dur` has elapsed.
    fn sleep(&mut self, dur: Duration)
        requires
            old(self).admits(dur),
        ensures
            old(self).slept(dur, *final(self)),
            forall|d2: Duration| #[trigger] final(self).admits(d2) == old(self).admits(d2),
    ;
}

/// A closure is a sleeper: each pause is one call of it with the duration.
impl<S: FnMut(Duration)> BlockingSleeper for S {
    open spec fn admits(&self, dur: Duration) -> bool {
        call_requires(*self, (dur,))
    }

    open spec fn slept(&self, dur: Duration, after: Self) -> bool {
        call_ensures(*self, (dur,), ()) && after == *self
    }

    fn sleep(&mut self, dur: Duration) {
        (self)(dur)
    }
}

/// A closure used as a sleeper may pause wherever the closure may be called,
/// and each pause is one call of the closure.
pub proof fn lemma_closure_sleeper<S: FnMut(Duration)>(s: S)
    ensures
        forall|d: Duration| #[trigger] s.admits(d) == call_requires(s, (d,)),
        forall|d: Duration, after: S| #[trigger]
            s.slept(d, after) == (call_ensures(s, (d,), ()) && after == s),
{
}

/// The sleeper slot of an executor on which no sleeper was set yet.
///
/// It implements no pause, so an executor must be given one by its `sleep`
/// method before `call` can run.
pub struct SleeperUnset;

} // verus!
