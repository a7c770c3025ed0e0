//! The mathematical model of the buffer pool: where each slot's buffer is,
//! and what waits in the two queues.

use crate::frame::FrameView;
use vstd::prelude::*;

verus! {

/// Where the buffer of a slot is at a given moment.
#[derive(Clone, Copy, Debug, PartialEq, Eq, Structural)]
pub enum Place {
    /// In the recycle queue, ready for the producer to take.
    Returned,
    /// Held by the producer, which is writing a frame into it.
    Producer,
    /// In the filled queue, waiting for the consumer.
    InFlight,
    /// Held by the consumer, which is reading the frame out of it.
    Consumer,
}

/// How many slots are at place `p`.
pub open spec fn count(places: Seq<Place>, p: Place) -> nat
    decreases places.len(),
{
    if places.len() == 0 {
        0
    } else {
        count(places.drop_last(), p) + if places.last() == p {
            1nat
        } else {
            0nat
        }
    }
}

/// Every entry of `queue` is a buffer of `frame_len` bytes whose slot `places`
/// puts at `p`, no slot occurs twice, and the queue holds every slot at `p`.
pub open spec fn queue_wf(
    places: Seq<Place>,
    frame_len: nat,
    queue: Seq<FrameView>,
    p: Place,
) -> bool {
    &&& forall|i: int|
        0 <= i < queue.len() ==> {
            &&& (#[trigger] queue[i]).slot < places.len()
            &&& places[queue[i].slot as int] == p
            &&& queue[i].pixels.len() == frame_len
        }
    &&& forall|i: int, j: int|
        0 <= i < j < queue.len() ==> (#[trigger] queue[i]).slot != (#[trigger] queue[j]).slot
    &&& queue.len() == count(places, p)
}

/// The pool as contracts see it.
#[verifier::ext_equal]
pub struct PoolView {
    /// The length in bytes of every buffer.
    pub frame_len: nat,
    /// The place of each slot's buffer; its length is the pool's depth.
    pub places: Seq<Place>,
    /// The recycle queue, oldest first.
    pub recycle_queue: Seq<FrameView>,
    /// The filled queue, oldest first.
    pub filled_queue: Seq<FrameView>,
    /// Whether the stream has ended: the consumer takes no more frames, so
    /// the filled queue is closed to new ones.
    pub closed: bool,
}

/// What a failed `take` reports.
#[derive(Clone, Copy, Debug, PartialEq, Eq, Structural)]
pub enum TakeError {
    /// Nothing is queued yet; more may come.
    Empty,
    /// Nothing is queued and nothing more will come.
    Closed,
}

impl PoolView {
    pub open spec fn depth(self) -> nat {
        self.places.len()
    }

    /// Buffers that the producer holds.
    pub open spec fn free(self) -> nat {
        count(self.places, Place::Producer)
    }

    /// Buffers handed over by the producer and not yet given back by the
    /// consumer: queued, or being read.
    pub open spec fn in_flight(self) -> nat {
        count(self.places, Place::InFlight) + count(self.places, Place::Consumer)
    }

    /// Buffers waiting in the recycle queue.
    pub open spec fn returned(self) -> nat {
        count(self.places, Place::Returned)
    }

    /// Buffers that the producer or the consumer holds.
    pub open spec fn held(self) -> nat {
        count(self.places, Place::Producer) + count(self.places, Place::Consumer)
    }

    pub open spec fn wf(self) -> bool {
        &&& self.places.len() >= 1
        &&& queue_wf(self.places, self.frame_len, self.recycle_queue, Place::Returned)
        &&& queue_wf(self.places, self.frame_len, self.filled_queue, Place::InFlight)
    }

    /// A buffer handed in by the side that `from` names is one that the pool
    /// lent to that side.
    pub open spec fn admits(self, b: FrameView, from: Place) -> bool {
        &&& b.slot < self.places.len()
        &&& self.places[b.slot as int] == from
        &&& b.pixels.len() == self.frame_len
    }

    /// A pool of `depth` zeroed buffers, all in the recycle queue by slot.
    pub open spec fn fresh(depth: nat, frame_len: nat) -> PoolView {
        PoolView {
            frame_len,
            places: Seq::new(depth, |i: int| Place::Returned),
            recycle_queue: Seq::new(
                depth,
                |i: int| FrameView { slot: i as usize, pixels: Seq::new(frame_len, |k: int| 0u8) },
            ),
            filled_queue: Seq::empty(),
            closed: false,
        }
    }

    /// The producer asks for a buffer: the oldest of the recycle queue.
    pub open spec fn acquire(self) -> (PoolView, Option<FrameView>) {
        if self.recycle_queue.len() > 0 {
            let b = self.recycle_queue[0];
            (
                PoolView {
                    places: self.places.update(b.slot as int, Place::Producer),
                    recycle_queue: self.recycle_queue.drop_first(),
                    ..self
                },
                Some(b),
            )
        } else {
            (self, None)
        }
    }

    /// The producer hands `b` over: the frame joins the end of the filled
    /// queue. Only once the stream has ended, when no one would take the
    /// frame out again, does the buffer go to the recycle queue instead, so
    /// that it is not lost.
    pub open spec fn submit(self, b: FrameView) -> PoolView {
        if !self.admits(b, Place::Producer) {
            self
        } else if self.closed {
            PoolView {
                places: self.places.update(b.slot as int, Place::Returned),
                recycle_queue: self.recycle_queue.push(b),
                ..self
            }
        } else {
            PoolView {
                places: self.places.update(b.slot as int, Place::InFlight),
                filled_queue: self.filled_queue.push(b),
                ..self
            }
        }
    }

    /// The consumer asks for a frame: the oldest of the filled queue.
    pub open spec fn take(self) -> (PoolView, Result<FrameView, TakeError>) {
        if self.filled_queue.len() > 0 {
            let b = self.filled_queue[0];
            (
                PoolView {
                    places: self.places.update(b.slot as int, Place::Consumer),
                    filled_queue: self.filled_queue.drop_first(),
                    ..self
                },
                Ok(b),
            )
        } else if self.closed {
            (self, Err(TakeError::Closed))
        } else {
            (self, Err(TakeError::Empty))
        }
    }

    /// The consumer gives `b` back.
    pub open spec fn recycle(self, b: FrameView) -> PoolView {
        if !self.admits(b, Place::Consumer) {
            self
        } else {
            PoolView {
                places: self.places.update(b.slot as int, Place::Returned),
                recycle_queue: self.recycle_queue.push(b),
                ..self
            }
        }
    }

    /// The stream has ended: the filled queue is closed to new frames. What
    /// is queued stays.
    pub open spec fn close(self) -> PoolView {
        PoolView { closed: true, ..self }
    }

    /// The frames still queued go back to the recycle queue unread, in order,
    /// behind what waits there already.
    pub open spec fn discard(self) -> PoolView {
        PoolView {
            places: Seq::new(
                self.places.len(),
                |slot: int|
                    if self.places[slot] == Place::InFlight {
                        Place::Returned
                    } else {
                        self.places[slot]
                    },
            ),
            recycle_queue: self.recycle_queue + self.filled_queue,
            filled_queue: Seq::empty(),
            ..self
        }
    }
}

/// Moving one slot changes the count of its old place and of its new one.
pub proof fn lemma_count_update(places: Seq<Place>, i: int, to: Place, p: Place)
    requires
        0 <= i < places.len(),
    ensures
        count(places.update(i, to), p) == count(places, p) - (if places[i] == p {
            1int
        } else {
            0int
        }) + (if to == p {
            1int
        } else {
            0int
        }),
    decreases places.len(),
{
    let moved = places.update(i, to);
    if i == places.len() - 1 {
        assert(moved.drop_last() =~= places.drop_last());
    } else {
        lemma_count_update(places.drop_last(), i, to, p);
        assert(moved.drop_last() =~= places.drop_last().update(i, to));
    }
}

/// No place holds more slots than there are.
pub proof fn lemma_count_bound(places: Seq<Place>, p: Place)
    ensures
        count(places, p) <= places.len(),
    decreases places.len(),
{
    if places.len() > 0 {
        lemma_count_bound(places.drop_last(), p);
    }
}

/// A place that some slot is at holds at least one slot.
pub proof fn lemma_count_positive(places: Seq<Place>, i: int, p: Place)
    requires
        0 <= i < places.len(),
        places[i] == p,
    ensures
        count(places, p) >= 1,
    decreases places.len(),
{
    if i < places.len() - 1 {
        lemma_count_positive(places.drop_last(), i, p);
    }
}

/// Every slot is at exactly one of the four places.
pub proof fn lemma_count_total(places: Seq<Place>)
    ensures
        count(places, Place::Returned) + count(places, Place::Producer) + count(
            places,
            Place::InFlight,
        ) + count(places, Place::Consumer) == places.len(),
    decreases places.len(),
{
    if places.len() > 0 {
        lemma_count_total(places.drop_last());
    }
}

/// Where every slot is at `at`, that place holds them all and the others none.
pub proof fn lemma_count_uniform(places: Seq<Place>, at: Place, p: Place)
    requires
        forall|i: int| 0 <= i < places.len() ==> places[i] == at,
    ensures
        count(places, p) == (if p == at {
            places.len()
        } else {
            0
        }),
    decreases places.len(),
{
    if places.len() > 0 {
        lemma_count_uniform(places.drop_last(), at, p);
    }
}

/// A queue is untouched when a slot that is not at its place moves to
/// another place that is not its own either.
pub proof fn lemma_queue_aside(
    places: Seq<Place>,
    frame_len: nat,
    queue: Seq<FrameView>,
    p: Place,
    slot: int,
    to: Place,
)
    requires
        queue_wf(places, frame_len, queue, p),
        0 <= slot < places.len(),
        places[slot] != p,
        to != p,
    ensures
        queue_wf(places.update(slot, to), frame_len, queue, p),
{
    lemma_count_update(places, slot, to, p);
}

/// Taking the oldest entry of a queue and moving its slot elsewhere leaves
/// the rest of the queue in order.
pub proof fn lemma_queue_pop(
    places: Seq<Place>,
    frame_len: nat,
    queue: Seq<FrameView>,
    p: Place,
    to: Place,
)
    requires
        queue_wf(places, frame_len, queue, p),
        queue.len() > 0,
        to != p,
    ensures
        queue_wf(places.update(queue[0].slot as int, to), frame_len, queue.drop_first(), p),
{
    lemma_count_update(places, queue[0].slot as int, to, p);
}

/// A buffer whose slot is elsewhere joins the end of a queue as its slot
/// moves to the queue's place.
pub proof fn lemma_queue_push(
    places: Seq<Place>,
    frame_len: nat,
    queue: Seq<FrameView>,
    p: Place,
    b: FrameView,
)
    requires
        queue_wf(places, frame_len, queue, p),
        b.slot < places.len(),
        places[b.slot as int] != p,
        b.pixels.len() == frame_len,
    ensures
        queue_wf(places.update(b.slot as int, p), frame_len, queue.push(b), p),
{
    lemma_count_update(places, b.slot as int, p, p);
}

impl PoolView {
    /// A fresh pool is well formed.
    pub proof fn lemma_fresh_wf(depth: nat, frame_len: nat)
        requires
            depth >= 1,
            depth <= usize::MAX,
        ensures
            Self::fresh(depth, frame_len).wf(),
    {
        let v = Self::fresh(depth, frame_len);
        lemma_count_uniform(v.places, Place::Returned, Place::Returned);
        lemma_count_uniform(v.places, Place::Returned, Place::InFlight);
    }

    /// `acquire` keeps the pool well formed.
    pub proof fn lemma_acquire_wf(self)
        requires
            self.wf(),
        ensures
            self.acquire().0.wf(),
    {
        if self.recycle_queue.len() > 0 {
            let slot = self.recycle_queue[0].slot as int;
            lemma_queue_pop(
                self.places,
                self.frame_len,
                self.recycle_queue,
                Place::Returned,
                Place::Producer,
            );
            lemma_queue_aside(
                self.places,
                self.frame_len,
                self.filled_queue,
                Place::InFlight,
                slot,
                Place::Producer,
            );
        }
    }

    /// `submit` keeps the pool well formed.
    pub proof fn lemma_submit_wf(self, b: FrameView)
        requires
            self.wf(),
        ensures
            self.submit(b).wf(),
    {
        if self.admits(b, Place::Producer) {
            let slot = b.slot as int;
            if self.closed {
                lemma_queue_push(
                    self.places,
                    self.frame_len,
                    self.recycle_queue,
                    Place::Returned,
                    b,
                );
                lemma_queue_aside(
                    self.places,
                    self.frame_len,
                    self.filled_queue,
                    Place::InFlight,
                    slot,
                    Place::Returned,
                );
            } else {
                lemma_queue_push(
                    self.places,
                    self.frame_len,
                    self.filled_queue,
                    Place::InFlight,
                    b,
                );
                lemma_queue_aside(
                    self.places,
                    self.frame_len,
                    self.recycle_queue,
                    Place::Returned,
                    slot,
                    Place::InFlight,
                );
            }
        }
    }

    /// `take` keeps the pool well formed.
    pub proof fn lemma_take_wf(self)
        requires
            self.wf(),
        ensures
            self.take().0.wf(),
    {
        if self.filled_queue.len() > 0 {
            let slot = self.filled_queue[0].slot as int;
            lemma_queue_pop(
                self.places,
                self.frame_len,
                self.filled_queue,
                Place::InFlight,
                Place::Consumer,
            );
            lemma_queue_aside(
                self.places,
                self.frame_len,
                self.recycle_queue,
                Place::Returned,
                slot,
                Place::Consumer,
            );
        }
    }

    /// `recycle` keeps the pool well formed.
    pub proof fn lemma_recycle_wf(self, b: FrameView)
        requires
            self.wf(),
        ensures
            self.recycle(b).wf(),
    {
        if self.admits(b, Place::Consumer) {
            lemma_queue_push(self.places, self.frame_len, self.recycle_queue, Place::Returned, b);
            lemma_queue_aside(
                self.places,
                self.frame_len,
                self.filled_queue,
                Place::InFlight,
                b.slot as int,
                Place::Returned,
            );
        }
    }

    /// To discard is to take and recycle the oldest queued frame, and then to
    /// discard the rest.
    pub proof fn lemma_discard_one(self)
        requires
            self.wf(),
            self.filled_queue.len() > 0,
        ensures
            self.take().0.recycle(self.filled_queue[0]).discard() == self.discard(),
    {
    }

    /// `discard` empties the filled queue, keeps the pool well formed and
    /// moves no buffer that either side holds.
    pub proof fn lemma_discard(self)
        requires
            self.wf(),
        ensures
            self.discard().wf(),
            self.discard().free() == self.free(),
            self.discard().held() == self.held(),
            self.discard().in_flight() == count(self.places, Place::Consumer),
            self.discard().returned() == self.returned() + self.filled_queue.len(),
        decreases self.filled_queue.len(),
    {
        if self.filled_queue.len() > 0 {
            let b = self.filled_queue[0];
            let taken = self.take().0;
            let next = taken.recycle(b);
            self.lemma_take_wf();
            taken.lemma_recycle_wf(b);
            self.lemma_discard_one();
            lemma_count_update(self.places, b.slot as int, Place::Consumer, Place::Producer);
            lemma_count_update(self.places, b.slot as int, Place::Consumer, Place::Consumer);
            lemma_count_update(taken.places, b.slot as int, Place::Returned, Place::Producer);
            lemma_count_update(taken.places, b.slot as int, Place::Returned, Place::Consumer);
            next.lemma_discard();
        } else {
            self.lemma_discard_nothing();
        }
    }

    /// With nothing queued there is nothing to discard.
    pub proof fn lemma_discard_nothing(self)
        requires
            self.wf(),
            self.filled_queue.len() == 0,
        ensures
            self.discard() == self,
    {
        assert forall|slot: int| 0 <= slot < self.places.len() implies self.places[slot]
            != Place::InFlight by {
            if self.places[slot] == Place::InFlight {
                lemma_count_positive(self.places, slot, Place::InFlight);
            }
        }
    }

    /// The buffers held by the producer, those handed over and not yet given
    /// back, and those waiting in the recycle queue add up to the depth; and
    /// each queue holds as many buffers as slots are at its place.
    pub proof fn lemma_conservation(self)
        requires
            self.wf(),
        ensures
            self.free() + self.in_flight() + self.returned() == self.depth(),
            self.returned() == self.recycle_queue.len(),
            self.in_flight() == self.filled_queue.len() + count(self.places, Place::Consumer),
    {
        lemma_count_total(self.places);
    }
}

} // verus!
