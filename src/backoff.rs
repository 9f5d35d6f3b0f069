use core::time::Duration;
use vstd::prelude::*;

verus! {

/// A stateful source of pause durations, one per retry, ending with `None`.
///
/// The model of a backoff is the finite sequence of durations that `next`
/// will still hand out, in order; once it is empty, `next` answers `None`.
pub trait Backoff: Sized {
    spec fn pending(&self) -> Seq<Duration>;

    /// Hands out the next pause, or `None` once the backoff is exhausted.
    fn next(&mut self) -> (r: Option<Duration>)
        ensures
            old(self).pending().len() == 0 ==> r is None && final(self).pending() == old(
                self,
            ).pending(),
            old(self).pending().len() > 0 ==> r == Some(old(self).pending()[0])
                && final(self).pending() == old(self).pending().drop_first(),
    ;
}

/// Makes a fresh backoff for one retry session.
pub trait BackoffBuilder: Sized {
    type Backoff: Backoff;

    /// The backoff that `build` makes.
    spec fn built(&self) -> Self::Backoff;

    fn build(self) -> (r: Self::Backoff)
        ensures
            r == self.built(),
    ;
}

/// A backoff that hands out a fixed list of durations, in order, then stops.
pub struct ListBackoff {
    delays: Vec<Duration>,
    pos: usize,
}

impl ListBackoff {
    /// The durations still to be handed out.
    pub closed spec fn remaining(&self) -> Seq<Duration> {
        self.delays@.skip(self.pos as int)
    }

    /// The position never passes the end of the list.
    pub closed spec fn wf(&self) -> bool {
        self.pos <= self.delays.len()
    }

    /// A backoff that hands out `delays`, in order.
    pub fn new(delays: Vec<Duration>) -> (r: ListBackoff)
        ensures
            r.wf(),
            r.remaining() == delays@,
    {
        let r = ListBackoff { delays, pos: 0 };
        assert(r.delays@.skip(0) =~= r.delays@);
        r
    }
}

impl Backoff for ListBackoff {
    open spec fn pending(&self) -> Seq<Duration> {
        if self.wf() {
            self.remaining()
        } else {
            Seq::empty()
        }
    }

    fn next(&mut self) -> (r: Option<Duration>) {
        if self.pos < self.delays.len() {
            let d = self.delays[self.pos];
            self.pos = self.pos + 1;
            assert(self.remaining() =~= old(self).remaining().drop_first());
            Some(d)
        } else {
            None
        }
    }
}

impl BackoffBuilder for ListBackoff {
    type Backoff = ListBackoff;

    open spec fn built(&self) -> ListBackoff {
        *self
    }

    fn build(self) -> (r: ListBackoff) {
        self
    }
}

} // verus!
