//! A recording session: the producer's side, the consumer's side and the
//! life cycle, over one buffer pool.
//!
//! Nothing here waits. Where the consumer would have to wait for a frame it
//! is told so, and whoever drives it decides how to wait.

use crate::clock::Timestamp;
use crate::config::setup_fault;
use crate::config::Config;
use crate::config::ConfigError;
use crate::config::SinkFormat;
use crate::frame::repack;
use crate::frame::FrameBuffer;
use crate::lifecycle::State;
use crate::pool::BufferPool;
use crate::pool::Submitted;
use crate::pool_model::Place;
use crate::session_model::last_index;
use crate::session_model::Finish;
use crate::session_model::Op;
use crate::session_model::SessionView;
use crate::session_model::Start;
use vstd::prelude::*;

verus! {

/// How a pull begins.
#[derive(Debug)]
pub enum PullStart {
    /// A frame to read; it is to be handed back with `finish_pull` or
    /// `skip_frame`.
    Frame(FrameBuffer),
    /// Nothing is queued yet and the recording goes on: ask again later.
    Wait,
    /// Nothing is queued and nothing more will come.
    EndOfStream,
}

impl View for PullStart {
    type V = Start;

    open spec fn view(&self) -> Start {
        match self {
            PullStart::Frame(b) => Start::Frame(b@),
            PullStart::Wait => Start::Wait,
            PullStart::EndOfStream => Start::EndOfStream,
        }
    }
}

/// Why a pull that had a frame delivered none.
#[derive(Debug)]
pub enum PullError {
    /// The buffer is not one that the consumer was given; here it is again.
    Rejected(FrameBuffer),
    /// The session no longer delivers; the buffer went back unread.
    Dropped,
    /// The destination has another length than a frame; the session failed.
    LayoutMismatch,
    /// The frame index cannot grow any further; the session failed.
    ClockExhausted,
}

/// Why a frame that was due could not be delivered.
enum Fault {
    LayoutMismatch,
    ClockExhausted,
}

/// What one whole pull gave.
#[derive(Clone, Copy, Debug, PartialEq, Eq, Structural)]
pub enum Pull {
    /// The destination holds the next frame, to be shown at this time.
    Frame(Timestamp),
    /// Nothing is queued yet and the recording goes on.
    Wait,
    /// Nothing is queued and nothing more will come.
    EndOfStream,
    /// The destination has another length than a frame; the session failed.
    LayoutMismatch,
    /// The frame index cannot grow any further; the session failed.
    ClockExhausted,
}

/// The account that `close` gives of a session.
#[derive(Clone, Copy, Debug, PartialEq, Eq, Structural)]
pub struct Summary {
    /// Frames handed downstream.
    pub delivered: u64,
    /// Frames that were still queued and went back unread.
    pub discarded: usize,
    /// Buffers that the producer or the consumer still held.
    pub outstanding: usize,
}

/// What `close` reports of a session that did not end well.
#[derive(Clone, Copy, Debug, PartialEq, Eq, Structural)]
pub enum SessionError {
    /// The encoding pipeline failed while the session ran.
    PipelineFailed(Summary),
}

/// One recording: a state, a pool and the count of frames delivered.
pub struct Session {
    state: State,
    pool: BufferPool,
    frame_rate: u64,
    delivered: u64,
}

impl View for Session {
    type V = SessionView;

    closed spec fn view(&self) -> SessionView {
        SessionView {
            state: self.state,
            pool: self.pool@,
            frame_rate: self.frame_rate as nat,
            delivered: self.delivered as nat,
        }
    }
}

impl Session {
    /// The session's invariant.
    pub closed spec fn wf(&self) -> bool {
        &&& self.pool.wf()
        &&& self@.wf()
    }

    /// A well-formed session has a well-formed view, whose frame count and
    /// frame rate fit in 64 bits.
    pub proof fn lemma_view_wf(&self)
        requires
            self.wf(),
        ensures
            self@.wf(),
            self@.delivered <= u64::MAX,
            self@.frame_rate <= u64::MAX,
    {
    }

    /// Builds the pool that `config` asks for and seeds it; the session is
    /// idle.
    pub fn new(config: Config) -> (s: Session)
        requires
            config.wf(),
        ensures
            s.wf(),
            s@ == SessionView::fresh(
                config.spec_depth() as nat,
                config.spec_frame_len() as nat,
                config.spec_frame_rate() as nat,
            ),
    {
        let frame_len: usize = config.frame_len();
        let pool = BufferPool::seeded(config.depth(), frame_len);
        let s = Session { state: State::Idle, pool, frame_rate: config.frame_rate(), delivered: 0 };
        proof {
            SessionView::lemma_fresh_wf(
                config.spec_depth() as nat,
                config.spec_frame_len() as nat,
                config.spec_frame_rate() as nat,
            );
            assert(s@ =~= SessionView::fresh(
                config.spec_depth() as nat,
                config.spec_frame_len() as nat,
                config.spec_frame_rate() as nat,
            ));
        }
        s
    }

    /// Begins the recording. Does nothing unless the session is idle.
    pub fn play(&mut self)
        requires
            old(self).wf(),
        ensures
            final(self).wf(),
            final(self)@ == old(self)@.play(),
    {
        self.state = self.state.play();
    }

    /// Sends the shutdown signal: no buffer is lent from now on, and the
    /// consumer finishes once it has drained what is queued. No buffer is
    /// moved, and one that the producer still holds can be handed back as
    /// before. Does nothing when the signal was sent before.
    pub fn stop(&mut self)
        requires
            old(self).wf(),
        ensures
            final(self).wf(),
            final(self)@ == old(self)@.stop(),
    {
        self.state = self.state.stop();
    }

    /// The encoding pipeline reported an error: the session has failed,
    /// unless it was closed before.
    pub fn fail(&mut self)
        requires
            old(self).wf(),
        ensures
            final(self).wf(),
            final(self)@ == old(self)@.fail(),
    {
        self.state = self.state.error();
        self.pool.close();
    }

    /// A buffer for the render loop to copy the current frame into, while
    /// the session records and a buffer is ready; nothing otherwise.
    pub fn next_buffer(&mut self) -> (r: Option<FrameBuffer>)
        requires
            old(self).wf(),
        ensures
            final(self).wf(),
            final(self)@ == old(self)@.next_buffer().0,
            match r {
                Some(b) => old(self)@.next_buffer().1 == Some(b@),
                None => old(self)@.next_buffer().1 is None,
            },
    {
        proof {
            old(self)@.lemma_step_wf(Op::NextBuffer);
        }
        if self.state.recording() {
            self.pool.acquire_free()
        } else {
            None
        }
    }

    /// The render loop hands a buffer back: the frame joins the end of the
    /// filled queue, also after a stop, as long as the consumer has not
    /// reached the end of the stream. Once the stream has ended, by its
    /// close or by a failure, nothing would take the frame out again: it is
    /// dropped and the buffer goes to the recycle queue, so that no buffer
    /// is lost. A buffer that was not lent to the producer comes straight
    /// back.
    pub fn return_buffer(&mut self, buffer: FrameBuffer) -> (r: Result<Submitted, FrameBuffer>)
        requires
            old(self).wf(),
        ensures
            final(self).wf(),
            final(self)@ == old(self)@.return_buffer(buffer@),
            r == (if !old(self)@.pool.admits(buffer@, Place::Producer) {
                Err::<Submitted, FrameBuffer>(buffer)
            } else if old(self)@.state.is_terminal() {
                Ok::<Submitted, FrameBuffer>(Submitted::Recycled)
            } else {
                Ok::<Submitted, FrameBuffer>(Submitted::Queued)
            }),
            r == Ok::<Submitted, FrameBuffer>(Submitted::Queued) ==> {
                &&& final(self)@.pool.filled_queue == old(self)@.pool.filled_queue.push(buffer@)
                &&& final(self)@.pool.recycle_queue == old(self)@.pool.recycle_queue
            },
            r == Ok::<Submitted, FrameBuffer>(Submitted::Recycled) ==> {
                &&& final(self)@.pool.filled_queue == old(self)@.pool.filled_queue
                &&& final(self)@.pool.recycle_queue == old(self)@.pool.recycle_queue.push(buffer@)
            },
            r is Err ==> final(self)@ == old(self)@,
    {
        proof {
            old(self)@.lemma_step_wf(Op::ReturnBuffer(buffer@));
        }
        self.pool.submit_filled(buffer)
    }

    /// The first half of a pull: the next frame if one is queued, the end of
    /// the stream if the shutdown signal is sent and nothing is queued, and
    /// otherwise the word to wait. A failed session gives no more frames.
    pub fn begin_pull(&mut self) -> (r: PullStart)
        requires
            old(self).wf(),
        ensures
            final(self).wf(),
            final(self)@ == old(self)@.begin_pull().0,
            r@ == old(self)@.begin_pull().1,
    {
        proof {
            old(self)@.lemma_step_wf(Op::BeginPull);
        }
        if let State::Failed = self.state {
            return PullStart::EndOfStream;
        }
        match self.pool.take_filled() {
            Ok(b) => PullStart::Frame(b),
            Err(_) => {
                if self.state.stopped() {
                    self.state = self.state.end_of_stream();
                    self.pool.close();
                    PullStart::EndOfStream
                } else {
                    PullStart::Wait
                }
            },
        }
    }

    /// Recycles the buffer of a frame that the consumer has read out into a
    /// destination of `dest_len` bytes, and stamps the frame, in a session
    /// that still delivers.
    fn settle(&mut self, buffer: FrameBuffer, dest_len: usize) -> (r: Result<Timestamp, Fault>)
        requires
            old(self).wf(),
            old(self)@.pool.admits(buffer@, Place::Consumer),
            old(self)@.delivers(),
        ensures
            final(self).wf(),
            final(self)@ == old(self)@.finish_pull(buffer@, dest_len as nat),
            match r {
                Ok(t) => {
                    &&& old(self)@.finish_outcome(buffer@, dest_len as nat) == Finish::Delivered
                    &&& t.wf()
                    &&& t.spec_index() == old(self)@.delivered + 1
                    &&& t.spec_rate() == old(self)@.frame_rate
                },
                Err(fault) => old(self)@.finish_outcome(buffer@, dest_len as nat) == match fault {
                    Fault::LayoutMismatch => Finish::LayoutMismatch,
                    Fault::ClockExhausted => Finish::ClockExhausted,
                },
            },
    {
        proof {
            old(self)@.lemma_step_wf(Op::FinishPull(buffer@, dest_len as nat));
        }
        let fits: bool = dest_len == self.pool.frame_len();
        let _ = self.pool.recycle(buffer);
        if fits && self.delivered < u64::MAX {
            self.delivered = self.delivered + 1;
            Ok(Timestamp::at(self.delivered, self.frame_rate))
        } else {
            self.state = self.state.error();
            self.pool.close();
            if fits {
                Err(Fault::ClockExhausted)
            } else {
                Err(Fault::LayoutMismatch)
            }
        }
    }

    /// Copies a frame that the consumer holds into `dest`, recycles its
    /// buffer and stamps the frame, in a session that still delivers.
    fn deliver(&mut self, buffer: FrameBuffer, dest: &mut Vec<u8>) -> (r: Result<Timestamp, Fault>)
        requires
            old(self).wf(),
            old(self)@.pool.admits(buffer@, Place::Consumer),
            old(self)@.delivers(),
        ensures
            final(self).wf(),
            final(self)@ == old(self)@.finish_pull(buffer@, old(dest)@.len()),
            match r {
                Ok(t) => {
                    &&& old(self)@.finish_outcome(buffer@, old(dest)@.len()) == Finish::Delivered
                    &&& final(dest)@ == buffer@.pixels
                    &&& t.wf()
                    &&& t.spec_index() == old(self)@.delivered + 1
                    &&& t.spec_rate() == old(self)@.frame_rate
                },
                Err(fault) => {
                    &&& final(dest)@ == old(dest)@
                    &&& old(self)@.finish_outcome(buffer@, old(dest)@.len()) == match fault {
                        Fault::LayoutMismatch => Finish::LayoutMismatch,
                        Fault::ClockExhausted => Finish::ClockExhausted,
                    }
                },
            },
    {
        if dest.len() == self.pool.frame_len() && self.delivered < u64::MAX {
            let _ = repack(buffer.pixels(), dest);
        }
        self.settle(buffer, dest.len())
    }

    /// The second half of a pull for a consumer that has copied the frame
    /// out itself, with `repack`, into a destination of `dest_len` bytes:
    /// the buffer is recycled and the frame gets the next index and its
    /// timestamp, as in `finish_pull`. The session need not be at hand while
    /// the frame is copied.
    pub fn settle_pull(&mut self, buffer: FrameBuffer, dest_len: usize) -> (r: Result<
        Timestamp,
        PullError,
    >)
        requires
            old(self).wf(),
        ensures
            final(self).wf(),
            final(self)@ == old(self)@.finish_pull(buffer@, dest_len as nat),
            match r {
                Ok(t) => {
                    &&& old(self)@.finish_outcome(buffer@, dest_len as nat) == Finish::Delivered
                    &&& t.wf()
                    &&& t.spec_index() == old(self)@.delivered + 1
                    &&& t.spec_rate() == old(self)@.frame_rate
                },
                Err(e) => {
                    &&& old(self)@.finish_outcome(buffer@, dest_len as nat) == match e {
                        PullError::Rejected(_) => Finish::Rejected,
                        PullError::Dropped => Finish::Dropped,
                        PullError::LayoutMismatch => Finish::LayoutMismatch,
                        PullError::ClockExhausted => Finish::ClockExhausted,
                    }
                    &&& e matches PullError::Rejected(b) ==> b == buffer
                },
            },
    {
        if !self.pool.admits(&buffer, Place::Consumer) {
            return Err(PullError::Rejected(buffer));
        }
        if !self.delivering() {
            proof {
                old(self)@.lemma_step_wf(Op::FinishPull(buffer@, dest_len as nat));
            }
            let _ = self.pool.recycle(buffer);
            return Err(PullError::Dropped);
        }
        match self.settle(buffer, dest_len) {
            Ok(t) => Ok(t),
            Err(Fault::LayoutMismatch) => Err(PullError::LayoutMismatch),
            Err(Fault::ClockExhausted) => Err(PullError::ClockExhausted),
        }
    }

    /// Whether frames are still handed downstream: while the session records
    /// and while it drains.
    fn delivering(&self) -> (b: bool)
        ensures
            b == self@.delivers(),
    {
        match self.state {
            State::Recording => true,
            State::Stopping => true,
            _ => false,
        }
    }

    /// The second half of a pull: the frame is copied into `dest`, byte for
    /// byte, the buffer is recycled, and the frame gets the next index and
    /// its timestamp. A destination of another length than a frame is a
    /// fatal fault of the configuration: the session fails, and so it does
    /// when the index cannot grow. `dest` is written only on success.
    pub fn finish_pull(&mut self, buffer: FrameBuffer, dest: &mut Vec<u8>) -> (r: Result<
        Timestamp,
        PullError,
    >)
        requires
            old(self).wf(),
        ensures
            final(self).wf(),
            final(self)@ == old(self)@.finish_pull(buffer@, old(dest)@.len()),
            match r {
                Ok(t) => {
                    &&& old(self)@.finish_outcome(buffer@, old(dest)@.len()) == Finish::Delivered
                    &&& final(dest)@ == buffer@.pixels
                    &&& t.wf()
                    &&& t.spec_index() == old(self)@.delivered + 1
                    &&& t.spec_rate() == old(self)@.frame_rate
                },
                Err(e) => {
                    &&& final(dest)@ == old(dest)@
                    &&& old(self)@.finish_outcome(buffer@, old(dest)@.len()) == match e {
                        PullError::Rejected(_) => Finish::Rejected,
                        PullError::Dropped => Finish::Dropped,
                        PullError::LayoutMismatch => Finish::LayoutMismatch,
                        PullError::ClockExhausted => Finish::ClockExhausted,
                    }
                    &&& e matches PullError::Rejected(b) ==> b == buffer
                },
            },
    {
        if !self.pool.admits(&buffer, Place::Consumer) {
            return Err(PullError::Rejected(buffer));
        }
        if !self.delivering() {
            proof {
                old(self)@.lemma_step_wf(Op::FinishPull(buffer@, old(dest)@.len()));
            }
            let _ = self.pool.recycle(buffer);
            return Err(PullError::Dropped);
        }
        match self.deliver(buffer, dest) {
            Ok(t) => Ok(t),
            Err(Fault::LayoutMismatch) => Err(PullError::LayoutMismatch),
            Err(Fault::ClockExhausted) => Err(PullError::ClockExhausted),
        }
    }

    /// The consumer gives up on a frame that it could not read in time: the
    /// buffer is recycled and the frame is lost. A buffer that the consumer
    /// was not given comes straight back.
    pub fn skip_frame(&mut self, buffer: FrameBuffer) -> (r: Result<(), FrameBuffer>)
        requires
            old(self).wf(),
        ensures
            final(self).wf(),
            final(self)@ == old(self)@.skip_frame(buffer@),
            r == (if old(self)@.pool.admits(buffer@, Place::Consumer) {
                Ok::<(), FrameBuffer>(())
            } else {
                Err::<(), FrameBuffer>(buffer)
            }),
    {
        proof {
            old(self)@.lemma_step_wf(Op::SkipFrame(buffer@));
        }
        self.pool.recycle(buffer)
    }

    /// One whole pull, for a consumer that reads without delay: both halves
    /// in one call.
    pub fn pull(&mut self, dest: &mut Vec<u8>) -> (r: Pull)
        requires
            old(self).wf(),
        ensures
            final(self).wf(),
            final(self)@ == old(self)@.pull(old(dest)@.len()),
            match old(self)@.begin_pull().1 {
                Start::Wait => r == Pull::Wait && final(dest)@ == old(dest)@,
                Start::EndOfStream => r == Pull::EndOfStream && final(dest)@ == old(dest)@,
                Start::Frame(b) => match r {
                    Pull::Frame(t) => {
                        &&& old(dest)@.len() == old(self)@.pool.frame_len
                        &&& old(self)@.delivered < last_index()
                        &&& final(dest)@ == b.pixels
                        &&& t.wf()
                        &&& t.spec_index() == old(self)@.delivered + 1
                        &&& t.spec_rate() == old(self)@.frame_rate
                    },
                    Pull::LayoutMismatch => {
                        &&& old(dest)@.len() != old(self)@.pool.frame_len
                        &&& final(dest)@ == old(dest)@
                    },
                    Pull::ClockExhausted => {
                        &&& old(dest)@.len() == old(self)@.pool.frame_len
                        &&& old(self)@.delivered >= last_index()
                        &&& final(dest)@ == old(dest)@
                    },
                    _ => false,
                },
            },
    {
        match self.begin_pull() {
            PullStart::Wait => Pull::Wait,
            PullStart::EndOfStream => Pull::EndOfStream,
            PullStart::Frame(b) => {
                proof {
                    old(self)@.lemma_frame_is_deliverable();
                }
                match self.deliver(b, dest) {
                    Ok(t) => Pull::Frame(t),
                    Err(Fault::LayoutMismatch) => Pull::LayoutMismatch,
                    Err(Fault::ClockExhausted) => Pull::ClockExhausted,
                }
            },
        }
    }

    /// Ends the session: the shutdown signal is sent if it was not, the
    /// frames still queued go back unread, and the account is given. A
    /// session whose pipeline failed is reported as such, with its account.
    pub fn close(self) -> (r: Result<Summary, SessionError>)
        requires
            self.wf(),
        ensures
            r is Err <==> self@.state == State::Failed,
            summary_of(r).delivered == self@.delivered,
            summary_of(r).discarded == self@.pool.filled_queue.len(),
            summary_of(r).outstanding == self@.pool.held(),
    {
        let mut this = self;
        proof {
            self@.lemma_close_wf();
            self@.close().pool.lemma_conservation();
            self@.pool.close().lemma_discard();
        }
        let failed: bool = match this.state {
            State::Failed => true,
            _ => false,
        };
        this.pool.close();
        let discarded: usize = this.pool.discard_filled();
        let outstanding: usize = this.pool.depth() - this.pool.returned_count();
        let summary = Summary { delivered: this.delivered, discarded, outstanding };
        if failed {
            Err(SessionError::PipelineFailed(summary))
        } else {
            Ok(summary)
        }
    }

    /// The state of the session.
    pub fn state(&self) -> (s: State)
        ensures
            s == self@.state,
    {
        self.state
    }

    /// Frames per second of the stream.
    pub fn frame_rate(&self) -> (r: u64)
        ensures
            r == self@.frame_rate,
    {
        self.frame_rate
    }

    /// How many frames have been handed downstream.
    pub fn delivered(&self) -> (n: u64)
        ensures
            n == self@.delivered,
    {
        self.delivered
    }

    /// The number of buffers in the pool.
    pub fn depth(&self) -> (n: usize)
        requires
            self.wf(),
        ensures
            n == self@.pool.depth(),
    {
        self.pool.depth()
    }

    /// The length in bytes of one frame.
    pub fn frame_len(&self) -> (n: usize)
        ensures
            n == self@.pool.frame_len,
    {
        self.pool.frame_len()
    }

    /// How many buffers the producer holds.
    pub fn free_count(&self) -> (n: usize)
        requires
            self.wf(),
        ensures
            n == self@.pool.free(),
    {
        self.pool.free_count()
    }

    /// How many buffers the producer has handed over that the consumer has
    /// not given back.
    pub fn in_flight_count(&self) -> (n: usize)
        requires
            self.wf(),
        ensures
            n == self@.pool.in_flight(),
    {
        self.pool.in_flight_count()
    }

    /// How many buffers wait in the recycle queue.
    pub fn returned_count(&self) -> (n: usize)
        requires
            self.wf(),
        ensures
            n == self@.pool.returned(),
    {
        self.pool.returned_count()
    }
}

/// Checks the settings of a recording against each other, against the
/// surface that the frames are read from and against the sink that they go
/// to, in that order, and builds the session. The first fault is reported
/// and no session is made.
pub fn setup(
    width: usize,
    height: usize,
    channels: usize,
    frame_rate: u64,
    depth: usize,
    surface_width: usize,
    surface_height: usize,
    sink: SinkFormat,
) -> (r: Result<Session, ConfigError>)
    ensures
        match setup_fault(
            width as int,
            height as int,
            channels as int,
            frame_rate as int,
            depth as int,
            surface_width as int,
            surface_height as int,
            sink,
        ) {
            Some(e) => r is Err && r->Err_0 == e,
            None => r is Ok && r->Ok_0.wf() && r->Ok_0@ == SessionView::fresh(
                depth as nat,
                (width * height * channels) as nat,
                frame_rate as nat,
            ),
        },
{
    let config = match Config::new(width, height, channels, frame_rate, depth) {
        Ok(config) => config,
        Err(e) => {
            return Err(e);
        },
    };
    match config.check_surface(surface_width, surface_height) {
        Ok(()) => {},
        Err(e) => {
            return Err(e);
        },
    }
    match config.check_sink(sink) {
        Ok(()) => {},
        Err(e) => {
            return Err(e);
        },
    }
    Ok(Session::new(config))
}

/// The account inside what `close` returns.
pub open spec fn summary_of(r: Result<Summary, SessionError>) -> Summary {
    match r {
        Ok(s) => s,
        Err(SessionError::PipelineFailed(s)) => s,
    }
}

} // verus!
