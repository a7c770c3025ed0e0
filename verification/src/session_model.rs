//! The mathematical model of a session: its state, its pool and the count of
//! frames delivered, with one function for each thing that can be asked of it.

use crate::frame::FrameView;
use crate::lifecycle::State;
use crate::pool_model::lemma_count_positive;
use crate::pool_model::lemma_count_total;
use crate::pool_model::Place;
use crate::pool_model::PoolView;
use vstd::prelude::*;

verus! {

/// The session as contracts see it.
#[verifier::ext_equal]
pub struct SessionView {
    pub state: State,
    pub pool: PoolView,
    /// Frames per second of the stream.
    pub frame_rate: nat,
    /// How many frames have been handed downstream.
    pub delivered: nat,
}

/// How a pull begins.
#[verifier::ext_equal]
pub enum Start {
    /// There is a frame to read.
    Frame(FrameView),
    /// Nothing is queued yet and the recording goes on.
    Wait,
    /// Nothing is queued and nothing more will come.
    EndOfStream,
}

/// How a pull ends.
#[derive(Clone, Copy, Debug, PartialEq, Eq, Structural)]
pub enum Finish {
    /// The frame was copied out and stamped.
    Delivered,
    /// The session no longer delivers; the buffer went back unread.
    Dropped,
    /// The destination has another length than a frame; the session failed.
    LayoutMismatch,
    /// The frame index cannot grow any further; the session failed.
    ClockExhausted,
    /// The buffer is not one that the consumer was given; nothing changed.
    Rejected,
}

/// The largest frame index.
pub open spec fn last_index() -> nat {
    u64::MAX as nat
}

/// What can be asked of a session, with the arguments as contracts see them.
#[verifier::ext_equal]
pub enum Op {
    Play,
    Stop,
    Fail,
    NextBuffer,
    ReturnBuffer(FrameView),
    BeginPull,
    /// The buffer, and the length of the destination.
    FinishPull(FrameView, nat),
    SkipFrame(FrameView),
}

impl SessionView {
    pub open spec fn wf(self) -> bool {
        &&& self.pool.wf()
        &&& self.frame_rate >= 1
        &&& self.pool.closed == self.state.is_terminal()
        &&& (self.state == State::Closed ==> self.pool.filled_queue.len() == 0)
        &&& (self.state == State::Idle ==> self.pool.returned() == self.pool.depth())
    }

    /// A new session: idle, with every buffer seeded in the recycle queue.
    pub open spec fn fresh(depth: nat, frame_len: nat, frame_rate: nat) -> SessionView {
        SessionView {
            state: State::Idle,
            pool: PoolView::fresh(depth, frame_len),
            frame_rate,
            delivered: 0,
        }
    }

    pub open spec fn play(self) -> SessionView {
        SessionView { state: self.state.after_play(), ..self }
    }

    pub open spec fn stop(self) -> SessionView {
        SessionView { state: self.state.after_stop(), ..self }
    }

    pub open spec fn fail(self) -> SessionView {
        SessionView { state: self.state.after_error(), pool: self.pool.close(), ..self }
    }

    pub open spec fn next_buffer(self) -> (SessionView, Option<FrameView>) {
        if self.state.is_recording() {
            (SessionView { pool: self.pool.acquire().0, ..self }, self.pool.acquire().1)
        } else {
            (self, None)
        }
    }

    pub open spec fn return_buffer(self, b: FrameView) -> SessionView {
        SessionView { pool: self.pool.submit(b), ..self }
    }

    pub open spec fn begin_pull(self) -> (SessionView, Start) {
        if self.state == State::Failed {
            (self, Start::EndOfStream)
        } else if self.pool.filled_queue.len() > 0 {
            (
                SessionView { pool: self.pool.take().0, ..self },
                Start::Frame(self.pool.filled_queue[0]),
            )
        } else if self.state.is_stopped() {
            (
                SessionView {
                    state: self.state.after_end_of_stream(),
                    pool: self.pool.close(),
                    ..self
                },
                Start::EndOfStream,
            )
        } else {
            (self, Start::Wait)
        }
    }

    /// Whether frames are still handed downstream.
    pub open spec fn delivers(self) -> bool {
        self.state == State::Recording || self.state == State::Stopping
    }

    pub open spec fn finish_outcome(self, b: FrameView, dest_len: nat) -> Finish {
        if !self.pool.admits(b, Place::Consumer) {
            Finish::Rejected
        } else if !self.delivers() {
            Finish::Dropped
        } else if dest_len != self.pool.frame_len {
            Finish::LayoutMismatch
        } else if self.delivered >= last_index() {
            Finish::ClockExhausted
        } else {
            Finish::Delivered
        }
    }

    pub open spec fn finish_pull(self, b: FrameView, dest_len: nat) -> SessionView {
        match self.finish_outcome(b, dest_len) {
            Finish::Rejected => self,
            Finish::Dropped => SessionView { pool: self.pool.recycle(b), ..self },
            Finish::Delivered => SessionView {
                pool: self.pool.recycle(b),
                delivered: self.delivered + 1,
                ..self
            },
            _ => SessionView {
                state: self.state.after_error(),
                pool: self.pool.recycle(b).close(),
                ..self
            },
        }
    }

    pub open spec fn skip_frame(self, b: FrameView) -> SessionView {
        SessionView { pool: self.pool.recycle(b), ..self }
    }

    /// One whole pull: its beginning and, where that gave a frame, its end.
    pub open spec fn pull(self, dest_len: nat) -> SessionView {
        match self.begin_pull().1 {
            Start::Frame(b) => self.begin_pull().0.finish_pull(b, dest_len),
            _ => self.begin_pull().0,
        }
    }

    /// The session after `n` whole pulls into a destination of the right
    /// length, with nothing else happening in between.
    pub open spec fn after_pulls(self, n: nat) -> SessionView
        decreases n,
    {
        if n == 0 {
            self
        } else {
            self.pull(self.pool.frame_len).after_pulls((n - 1) as nat)
        }
    }

    /// The session after `n` requests for a buffer, with nothing else
    /// happening in between.
    pub open spec fn after_requests(self, n: nat) -> SessionView
        decreases n,
    {
        if n == 0 {
            self
        } else {
            self.next_buffer().0.after_requests((n - 1) as nat)
        }
    }

    /// The session after the producer has handed over all of `batch`, in
    /// order.
    pub open spec fn after_returns(self, batch: Seq<FrameView>) -> SessionView
        decreases batch.len(),
    {
        if batch.len() == 0 {
            self
        } else {
            self.return_buffer(batch[0]).after_returns(batch.drop_first())
        }
    }

    /// The session as `close` leaves it: stopped, with the frames that were
    /// still queued sent back unread, and ended.
    pub open spec fn close(self) -> SessionView {
        SessionView {
            state: self.state.after_stop().after_end_of_stream(),
            pool: self.pool.close().discard(),
            ..self
        }
    }

    /// The session after `op`.
    pub open spec fn step(self, op: Op) -> SessionView {
        match op {
            Op::Play => self.play(),
            Op::Stop => self.stop(),
            Op::Fail => self.fail(),
            Op::NextBuffer => self.next_buffer().0,
            Op::ReturnBuffer(b) => self.return_buffer(b),
            Op::BeginPull => self.begin_pull().0,
            Op::FinishPull(b, dest_len) => self.finish_pull(b, dest_len),
            Op::SkipFrame(b) => self.skip_frame(b),
        }
    }

    /// The session after all of `ops`, in order.
    pub open spec fn run(self, ops: Seq<Op>) -> SessionView
        decreases ops.len(),
    {
        if ops.len() == 0 {
            self
        } else {
            self.step(ops[0]).run(ops.drop_first())
        }
    }

    /// A new session is well formed.
    pub proof fn lemma_fresh_wf(depth: nat, frame_len: nat, frame_rate: nat)
        requires
            1 <= depth <= usize::MAX,
            frame_rate >= 1,
        ensures
            Self::fresh(depth, frame_len, frame_rate).wf(),
    {
        PoolView::lemma_fresh_wf(depth, frame_len);
        crate::pool_model::lemma_count_uniform(
            PoolView::fresh(depth, frame_len).places,
            Place::Returned,
            Place::Returned,
        );
    }

    /// While a session is idle neither side holds a buffer, and nothing is
    /// queued for the consumer.
    pub proof fn lemma_idle_holds_nothing(self, b: FrameView)
        requires
            self.wf(),
            self.state == State::Idle,
        ensures
            !self.pool.admits(b, Place::Producer),
            !self.pool.admits(b, Place::Consumer),
            self.pool.filled_queue.len() == 0,
            self.pool.free() == 0,
            self.pool.in_flight() == 0,
    {
        lemma_count_total(self.pool.places);
        if self.pool.admits(b, Place::Producer) {
            lemma_count_positive(self.pool.places, b.slot as int, Place::Producer);
        }
        if self.pool.admits(b, Place::Consumer) {
            lemma_count_positive(self.pool.places, b.slot as int, Place::Consumer);
        }
    }

    /// Every operation keeps the session well formed, and leaves the depth,
    /// the frame length and the frame rate as they were.
    pub proof fn lemma_step_wf(self, op: Op)
        requires
            self.wf(),
        ensures
            self.step(op).wf(),
            self.step(op).pool.depth() == self.pool.depth(),
            self.step(op).pool.frame_len == self.pool.frame_len,
            self.step(op).frame_rate == self.frame_rate,
    {
        let next = self.step(op);
        match op {
            Op::Play => {},
            Op::Stop => {},
            Op::Fail => {},
            Op::NextBuffer => {
                self.pool.lemma_acquire_wf();
            },
            Op::ReturnBuffer(b) => {
                self.pool.lemma_submit_wf(b);
            },
            Op::BeginPull => {
                self.pool.lemma_take_wf();
            },
            Op::FinishPull(b, dest_len) => {
                self.pool.lemma_recycle_wf(b);
                if self.state == State::Idle {
                    self.lemma_idle_holds_nothing(b);
                }
            },
            Op::SkipFrame(b) => {
                self.pool.lemma_recycle_wf(b);
                if self.state == State::Idle {
                    self.lemma_idle_holds_nothing(b);
                }
            },
        }
    }

    /// A frame that a pull begins with can be delivered: the consumer holds
    /// its buffer, and the session is recording or draining.
    pub proof fn lemma_frame_is_deliverable(self)
        requires
            self.wf(),
        ensures
            match self.begin_pull().1 {
                Start::Frame(b) => {
                    &&& self.begin_pull().0.pool.admits(b, Place::Consumer)
                    &&& self.begin_pull().0.delivers()
                    &&& self.delivers()
                    &&& self.pool.filled_queue.len() > 0
                    &&& b == self.pool.filled_queue[0]
                },
                _ => true,
            },
    {
        if self.state == State::Idle {
            self.lemma_idle_holds_nothing(FrameView { slot: 0, pixels: Seq::empty() });
        }
    }

    /// `close` leaves a well-formed session that has ended, with nothing
    /// queued for the consumer.
    pub proof fn lemma_close_wf(self)
        requires
            self.wf(),
        ensures
            self.close().wf(),
            self.close().state.is_terminal(),
    {
        self.pool.close().lemma_discard();
    }
}

} // verus!
