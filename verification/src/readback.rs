//! A bounded wait for a buffer to become readable.
//!
//! A frame buffer that the graphics device still writes cannot be read yet.
//! The consumer asks, and asks again, but only so often: then the frame is
//! given up rather than a processor kept spinning.

use vstd::prelude::*;

verus! {

/// What to do after asking whether the buffer can be read.
#[derive(Clone, Copy, Debug, PartialEq, Eq, Structural)]
pub enum WaitStep {
    /// The buffer can be read: go on with the frame.
    Read,
    /// Not yet: ask once more.
    Retry,
    /// Not yet, and the attempts are used up: skip the frame.
    GiveUp,
}

/// Counts the attempts to read one buffer against a limit.
#[derive(Clone, Copy, Debug, PartialEq, Eq, Structural)]
pub struct ReadbackWait {
    limit: u32,
    failed: u32,
}

impl ReadbackWait {
    pub closed spec fn spec_limit(&self) -> u32 {
        self.limit
    }

    pub closed spec fn spec_failed(&self) -> u32 {
        self.failed
    }

    /// No more attempts have failed than the limit allows.
    pub open spec fn wf(&self) -> bool {
        self.spec_failed() <= self.spec_limit()
    }

    /// How many more attempts may fail before the frame is given up.
    pub open spec fn patience(&self) -> int {
        self.spec_limit() - self.spec_failed()
    }

    /// The answer to an attempt that found the buffer readable or not.
    pub open spec fn answer(&self, readable: bool) -> WaitStep {
        if readable {
            WaitStep::Read
        } else if self.spec_failed() + 1 < self.spec_limit() {
            WaitStep::Retry
        } else {
            WaitStep::GiveUp
        }
    }

    /// A wait that gives up at the `limit`-th failed attempt. With a limit of
    /// zero or one the first failure is the last.
    pub fn new(limit: u32) -> (w: ReadbackWait)
        ensures
            w.wf(),
            w.spec_limit() == limit,
            w.spec_failed() == 0,
    {
        ReadbackWait { limit, failed: 0 }
    }

    /// The most attempts that may fail.
    #[verifier::when_used_as_spec(spec_limit)]
    pub fn limit(&self) -> (n: u32)
        ensures
            n == self.spec_limit(),
    {
        self.limit
    }

    /// The attempts that have failed so far.
    #[verifier::when_used_as_spec(spec_failed)]
    pub fn failed(&self) -> (n: u32)
        ensures
            n == self.spec_failed(),
    {
        self.failed
    }

    /// Takes note of one attempt and says what to do next. A failed attempt
    /// is counted as long as the limit is not reached.
    pub fn observe(&mut self, readable: bool) -> (step: WaitStep)
        requires
            old(self).wf(),
        ensures
            final(self).wf(),
            step == old(self).answer(readable),
            final(self).spec_limit() == old(self).spec_limit(),
            final(self).spec_failed() == (if readable || old(self).spec_failed() == old(
                self,
            ).spec_limit() {
                old(self).spec_failed()
            } else {
                (old(self).spec_failed() + 1) as u32
            }),
    {
        if readable {
            return WaitStep::Read;
        }
        if self.failed < self.limit {
            self.failed = self.failed + 1;
        }
        if self.failed < self.limit {
            WaitStep::Retry
        } else {
            WaitStep::GiveUp
        }
    }
}

/// Every answer to ask once more uses up patience, of which there is no more
/// than the limit: a wait asks again fewer times than its limit says.
pub proof fn law_wait_is_bounded(w: ReadbackWait, readable: bool)
    requires
        w.wf(),
    ensures
        w.answer(readable) == WaitStep::Retry ==> !readable && w.patience() >= 2,
        w.patience() <= w.spec_limit(),
        w.patience() <= 1 ==> w.answer(readable) != WaitStep::Retry,
{
}

} // verus!
