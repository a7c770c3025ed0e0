//! The buffer pool and its two bounded queues.
//!
//! The recycle queue carries buffers to the producer and the filled queue
//! carries frames to the consumer. Both are filled only with the pool's own
//! buffers, so neither can ever hold more than the pool's depth.

use crate::config::ConfigError;
use crate::frame::frames;
use crate::frame::FrameBuffer;
use crate::frame::FrameView;
use crate::pool_model::count;
use crate::pool_model::lemma_count_bound;
use crate::pool_model::lemma_count_total;
use crate::pool_model::lemma_count_uniform;
use crate::pool_model::lemma_count_update;
use crate::pool_model::Place;
use crate::pool_model::PoolView;
use crate::pool_model::TakeError;
use std::collections::VecDeque;
use vstd::prelude::*;

verus! {

/// What became of a buffer that the producer handed over.
#[derive(Clone, Copy, Debug, PartialEq, Eq, Structural)]
pub enum Submitted {
    /// The frame waits in the filled queue.
    Queued,
    /// The stream has ended: the frame was dropped and the buffer is back in
    /// the recycle queue.
    Recycled,
}

/// A fixed set of buffers and the two queues between producer and consumer.
pub struct BufferPool {
    frame_len: usize,
    places: Vec<Place>,
    recycle: VecDeque<FrameBuffer>,
    filled: VecDeque<FrameBuffer>,
    lent: usize,
    reading: usize,
    closed: bool,
}

impl View for BufferPool {
    type V = PoolView;

    closed spec fn view(&self) -> PoolView {
        PoolView {
            frame_len: self.frame_len as nat,
            places: self.places@,
            recycle_queue: frames(self.recycle@),
            filled_queue: frames(self.filled@),
            closed: self.closed,
        }
    }
}

impl BufferPool {
    /// The pool's invariant: its view is well formed and its counters agree
    /// with the places.
    pub closed spec fn wf(&self) -> bool {
        &&& self@.wf()
        &&& self.lent == count(self.places@, Place::Producer)
        &&& self.reading == count(self.places@, Place::Consumer)
    }

    /// A well-formed pool has a well-formed view.
    pub proof fn lemma_view_wf(&self)
        requires
            self.wf(),
        ensures
            self@.wf(),
    {
    }

    /// Allocates `depth` zeroed buffers of `frame_len` bytes and puts them
    /// all in the recycle queue, by slot; both queues get room for all of
    /// them, so that nothing is allocated later. A pool without buffers is
    /// refused.
    pub fn new(depth: usize, frame_len: usize) -> (r: Result<BufferPool, ConfigError>)
        ensures
            depth == 0 ==> r == Err::<BufferPool, ConfigError>(ConfigError::ZeroDepth),
            depth > 0 ==> r is Ok && r->Ok_0.wf() && r->Ok_0@ == PoolView::fresh(
                depth as nat,
                frame_len as nat,
            ),
    {
        if depth == 0 {
            Err(ConfigError::ZeroDepth)
        } else {
            Ok(BufferPool::seeded(depth, frame_len))
        }
    }

    /// As `new`, for a depth known to be positive.
    pub(crate) fn seeded(depth: usize, frame_len: usize) -> (pool: BufferPool)
        requires
            depth >= 1,
        ensures
            pool.wf(),
            pool@ == PoolView::fresh(depth as nat, frame_len as nat),
    {
        let mut places: Vec<Place> = Vec::with_capacity(depth);
        let mut recycle: VecDeque<FrameBuffer> = VecDeque::with_capacity(depth);
        let ghost fresh = PoolView::fresh(depth as nat, frame_len as nat);
        let mut slot: usize = 0;
        while slot < depth
            invariant
                slot <= depth,
                fresh == PoolView::fresh(depth as nat, frame_len as nat),
                places@ == fresh.places.subrange(0, slot as int),
                frames(recycle@) == fresh.recycle_queue.subrange(0, slot as int),
            decreases depth - slot,
        {
            let ghost before = recycle@;
            recycle.push_back(FrameBuffer::zeroed(slot, frame_len));
            places.push(Place::Returned);
            assert(frames(recycle@) =~= frames(before).push(recycle@[slot as int]@));
            slot += 1;
        }
        let pool = BufferPool {
            frame_len,
            places,
            recycle,
            filled: VecDeque::with_capacity(depth),
            lent: 0,
            reading: 0,
            closed: false,
        };
        proof {
            assert(pool@ =~= fresh);
            PoolView::lemma_fresh_wf(depth as nat, frame_len as nat);
            lemma_count_uniform(fresh.places, Place::Returned, Place::Producer);
            lemma_count_uniform(fresh.places, Place::Returned, Place::Consumer);
        }
        pool
    }

    /// The producer's non-waiting request for a buffer to write into: the
    /// oldest of the recycle queue, or nothing when that queue is empty.
    pub fn acquire_free(&mut self) -> (r: Option<FrameBuffer>)
        requires
            old(self).wf(),
        ensures
            final(self).wf(),
            final(self)@ == old(self)@.acquire().0,
            match r {
                Some(b) => old(self)@.acquire().1 == Some(b@),
                None => old(self)@.acquire().1 is None,
            },
    {
        match self.recycle.pop_front() {
            Some(b) => {
                proof {
                    old(self)@.lemma_acquire_wf();
                    lemma_count_update(
                        self.places@,
                        b@.slot as int,
                        Place::Producer,
                        Place::Producer,
                    );
                    lemma_count_update(
                        self.places@,
                        b@.slot as int,
                        Place::Producer,
                        Place::Consumer,
                    );
                    lemma_count_bound(
                        self.places@.update(b@.slot as int, Place::Producer),
                        Place::Producer,
                    );
                }
                self.places.set(b.slot(), Place::Producer);
                assert(self.places@.len() == self.places.len());
                self.lent = self.lent + 1;
                assert(self@ =~= old(self)@.acquire().0);
                Some(b)
            },
            None => None,
        }
    }

    /// Whether `b` is a buffer of this pool that the side `from` holds.
    pub fn admits(&self, b: &FrameBuffer, from: Place) -> (ok: bool)
        requires
            self.wf(),
        ensures
            ok == self@.admits(b@, from),
    {
        b.slot() < self.places.len() && self.places[b.slot()] == from && b.len() == self.frame_len
    }

    /// The producer hands a written buffer over: the frame joins the end of
    /// the filled queue. This never waits, and the queue cannot overflow.
    /// Once the stream has ended no one would take the frame out again, so
    /// the buffer goes to the recycle queue instead of being lost. A buffer
    /// that this pool did not lend to the producer comes straight back.
    pub fn submit_filled(&mut self, buffer: FrameBuffer) -> (r: Result<Submitted, FrameBuffer>)
        requires
            old(self).wf(),
        ensures
            final(self).wf(),
            final(self)@ == old(self)@.submit(buffer@),
            r == (if !old(self)@.admits(buffer@, Place::Producer) {
                Err::<Submitted, FrameBuffer>(buffer)
            } else if old(self)@.closed {
                Ok::<Submitted, FrameBuffer>(Submitted::Recycled)
            } else {
                Ok::<Submitted, FrameBuffer>(Submitted::Queued)
            }),
    {
        if !self.admits(&buffer, Place::Producer) {
            return Err(buffer);
        }
        let slot: usize = buffer.slot();
        proof {
            old(self)@.lemma_submit_wf(buffer@);
        }
        if self.closed {
            proof {
                lemma_count_update(self.places@, slot as int, Place::Returned, Place::Producer);
                lemma_count_update(self.places@, slot as int, Place::Returned, Place::Consumer);
            }
            self.places.set(slot, Place::Returned);
            self.recycle.push_back(buffer);
            self.lent = self.lent - 1;
            assert(self@ =~= old(self)@.submit(buffer@));
            Ok(Submitted::Recycled)
        } else {
            proof {
                lemma_count_update(self.places@, slot as int, Place::InFlight, Place::Producer);
                lemma_count_update(self.places@, slot as int, Place::InFlight, Place::Consumer);
            }
            self.places.set(slot, Place::InFlight);
            self.filled.push_back(buffer);
            self.lent = self.lent - 1;
            assert(self@ =~= old(self)@.submit(buffer@));
            Ok(Submitted::Queued)
        }
    }

    /// The consumer's request for the next frame: the oldest of the filled
    /// queue. An empty queue answers at once, with `Closed` when no frame
    /// will follow and with `Empty` when the consumer should wait.
    pub fn take_filled(&mut self) -> (r: Result<FrameBuffer, TakeError>)
        requires
            old(self).wf(),
        ensures
            final(self).wf(),
            final(self)@ == old(self)@.take().0,
            match r {
                Ok(b) => old(self)@.take().1 == Ok::<FrameView, TakeError>(b@),
                Err(e) => old(self)@.take().1 == Err::<FrameView, TakeError>(e),
            },
    {
        match self.filled.pop_front() {
            Some(b) => {
                proof {
                    old(self)@.lemma_take_wf();
                    lemma_count_update(
                        self.places@,
                        b@.slot as int,
                        Place::Consumer,
                        Place::Producer,
                    );
                    lemma_count_update(
                        self.places@,
                        b@.slot as int,
                        Place::Consumer,
                        Place::Consumer,
                    );
                    lemma_count_bound(
                        self.places@.update(b@.slot as int, Place::Consumer),
                        Place::Consumer,
                    );
                }
                self.places.set(b.slot(), Place::Consumer);
                assert(self.places@.len() == self.places.len());
                self.reading = self.reading + 1;
                assert(self@ =~= old(self)@.take().0);
                Ok(b)
            },
            None => {
                if self.closed {
                    Err(TakeError::Closed)
                } else {
                    Err(TakeError::Empty)
                }
            },
        }
    }

    /// The consumer gives a buffer back; this never waits. A buffer that this
    /// pool did not lend to the consumer comes straight back.
    pub fn recycle(&mut self, buffer: FrameBuffer) -> (r: Result<(), FrameBuffer>)
        requires
            old(self).wf(),
        ensures
            final(self).wf(),
            final(self)@ == old(self)@.recycle(buffer@),
            r == (if old(self)@.admits(buffer@, Place::Consumer) {
                Ok::<(), FrameBuffer>(())
            } else {
                Err::<(), FrameBuffer>(buffer)
            }),
    {
        if !self.admits(&buffer, Place::Consumer) {
            return Err(buffer);
        }
        let slot: usize = buffer.slot();
        proof {
            old(self)@.lemma_recycle_wf(buffer@);
            lemma_count_update(self.places@, slot as int, Place::Returned, Place::Producer);
            lemma_count_update(self.places@, slot as int, Place::Returned, Place::Consumer);
        }
        self.places.set(slot, Place::Returned);
        self.recycle.push_back(buffer);
        self.reading = self.reading - 1;
        assert(self@ =~= old(self)@.recycle(buffer@));
        Ok(())
    }

    /// Marks the end of the stream: the filled queue is closed to new
    /// frames. What is queued can still be taken.
    pub fn close(&mut self)
        requires
            old(self).wf(),
        ensures
            final(self).wf(),
            final(self)@ == old(self)@.close(),
    {
        self.closed = true;
    }

    /// Sends every frame still queued back to the recycle queue, unread and in
    /// order, and says how many there were.
    pub fn discard_filled(&mut self) -> (n: usize)
        requires
            old(self).wf(),
        ensures
            final(self).wf(),
            final(self)@ == old(self)@.discard(),
            n == old(self)@.filled_queue.len(),
    {
        let mut n: usize = 0;
        assert(self.filled@.len() == self.filled.len());
        loop
            invariant
                self.wf(),
                old(self)@.filled_queue.len() <= usize::MAX,
                self@.discard() == old(self)@.discard(),
                n + self@.filled_queue.len() == old(self)@.filled_queue.len(),
            ensures
                self@.filled_queue.len() == 0,
            decreases self@.filled_queue.len(),
        {
            match self.take_filled() {
                Ok(b) => {
                    let _ = self.recycle(b);
                    n += 1;
                },
                Err(_) => break,
            }
        }
        proof {
            self@.lemma_discard_nothing();
        }
        n
    }

    /// The number of buffers in the pool, fixed at construction.
    pub fn depth(&self) -> (n: usize)
        requires
            self.wf(),
        ensures
            n == self@.depth(),
            n >= 1,
    {
        self.places.len()
    }

    /// The length in bytes of every buffer of the pool.
    pub fn frame_len(&self) -> (n: usize)
        ensures
            n == self@.frame_len,
    {
        self.frame_len
    }

    /// How many buffers the producer holds.
    pub fn free_count(&self) -> (n: usize)
        requires
            self.wf(),
        ensures
            n == self@.free(),
    {
        self.lent
    }

    /// How many buffers the producer has handed over that the consumer has
    /// not given back: those queued and those being read.
    pub fn in_flight_count(&self) -> (n: usize)
        requires
            self.wf(),
        ensures
            n == self@.in_flight(),
    {
        proof {
            lemma_count_total(self.places@);
            assert(self.places@.len() == self.places.len());
        }
        self.filled.len() + self.reading
    }

    /// How many buffers wait in the recycle queue.
    pub fn returned_count(&self) -> (n: usize)
        requires
            self.wf(),
        ensures
            n == self@.returned(),
    {
        self.recycle.len()
    }

    /// How many frames wait in the filled queue.
    pub fn queued_count(&self) -> (n: usize)
        requires
            self.wf(),
        ensures
            n == self@.filled_queue.len(),
    {
        self.filled.len()
    }

    /// Whether the stream has ended.
    pub fn is_closed(&self) -> (c: bool)
        ensures
            c == self@.closed,
    {
        self.closed
    }
}

} // verus!
