//! What holds of a session whatever is asked of it, and in whatever order.

use crate::frame::FrameView;
use crate::lifecycle::State;
use crate::pool_model::lemma_count_update;
use crate::pool_model::Place;
use crate::pool_model::PoolView;
use crate::session_model::last_index;
use crate::session_model::Op;
use crate::session_model::SessionView;
use crate::session_model::Start;
use vstd::prelude::*;

verus! {

/// Whatever is asked of a session, every buffer is in exactly one place: the
/// buffers held by the producer, those handed over and not yet given back,
/// and those waiting in the recycle queue always add up to the depth of the
/// pool, which never changes. No buffer is lost and none appears twice.
pub proof fn law_buffers_conserved(v: SessionView, ops: Seq<Op>)
    requires
        v.wf(),
    ensures
        v.run(ops).wf(),
        v.run(ops).pool.depth() == v.pool.depth(),
        v.run(ops).pool.free() + v.run(ops).pool.in_flight() + v.run(ops).pool.returned()
            == v.pool.depth(),
        v.run(ops).pool.returned() == v.run(ops).pool.recycle_queue.len(),
    decreases ops.len(),
{
    if ops.len() == 0 {
        v.pool.lemma_conservation();
    } else {
        v.lemma_step_wf(ops[0]);
        law_buffers_conserved(v.step(ops[0]), ops.drop_first());
    }
}

/// One operation on a session whose shutdown signal is sent: the signal
/// stays sent, the producer gains no buffer, and the frames that the
/// consumer may yet be given, those queued and those still in the producer's
/// hands, do not grow in number.
pub proof fn lemma_stopped_step(v: SessionView, op: Op)
    requires
        v.wf(),
        v.state.is_stopped(),
    ensures
        v.step(op).state.is_stopped(),
        v.step(op).pool.free() <= v.pool.free(),
        v.step(op).pool.free() + v.step(op).pool.filled_queue.len() <= v.pool.free()
            + v.pool.filled_queue.len(),
{
    match op {
        Op::ReturnBuffer(b) => {
            if v.pool.admits(b, Place::Producer) {
                lemma_count_update(v.pool.places, b.slot as int, Place::Returned, Place::Producer);
                lemma_count_update(v.pool.places, b.slot as int, Place::InFlight, Place::Producer);
            }
        },
        Op::BeginPull => {
            if v.pool.filled_queue.len() > 0 {
                let slot = v.pool.filled_queue[0].slot as int;
                lemma_count_update(v.pool.places, slot, Place::Consumer, Place::Producer);
            }
        },
        Op::FinishPull(b, dest_len) => {
            if v.pool.admits(b, Place::Consumer) {
                lemma_count_update(v.pool.places, b.slot as int, Place::Returned, Place::Producer);
            }
        },
        Op::SkipFrame(b) => {
            if v.pool.admits(b, Place::Consumer) {
                lemma_count_update(v.pool.places, b.slot as int, Place::Returned, Place::Producer);
            }
        },
        _ => {},
    }
}

/// After a stop, whatever else is asked of the session and however often,
/// a request for a buffer gives none and changes nothing, the producer's
/// holdings only shrink, and the consumer is given no more frames than were
/// queued or in the producer's hands at the stop.
pub proof fn law_no_buffer_after_stop(v: SessionView, ops: Seq<Op>)
    requires
        v.wf(),
    ensures
        v.stop().run(ops).state.is_stopped(),
        v.stop().run(ops).next_buffer() == (v.stop().run(ops), None::<FrameView>),
        v.stop().run(ops).pool.free() <= v.pool.free(),
        v.stop().run(ops).pool.free() + v.stop().run(ops).pool.filled_queue.len()
            <= v.pool.free() + v.pool.filled_queue.len(),
{
    v.lemma_step_wf(Op::Stop);
    lemma_stopped_run(v.stop(), ops);
}

/// As `lemma_stopped_step`, for any number of operations.
pub proof fn lemma_stopped_run(v: SessionView, ops: Seq<Op>)
    requires
        v.wf(),
        v.state.is_stopped(),
    ensures
        v.run(ops).state.is_stopped(),
        v.run(ops).pool.free() <= v.pool.free(),
        v.run(ops).pool.free() + v.run(ops).pool.filled_queue.len() <= v.pool.free()
            + v.pool.filled_queue.len(),
    decreases ops.len(),
{
    if ops.len() > 0 {
        v.lemma_step_wf(ops[0]);
        lemma_stopped_step(v, ops[0]);
        lemma_stopped_run(v.step(ops[0]), ops.drop_first());
    }
}

/// A request for a buffer gives none and changes nothing unless the session
/// records: before `play`, after a stop, and after the end, whatever the
/// queues hold and whatever the consumer does.
pub proof fn law_no_buffer_unless_recording(v: SessionView)
    requires
        !v.state.is_recording(),
    ensures
        v.next_buffer() == (v, None::<FrameView>),
{
}

/// While a session records, a request for a buffer gives one exactly when
/// the recycle queue is not empty. Once every buffer is handed out or in
/// flight, a request gives none and changes nothing: it does not wait for
/// the consumer, however slow that is.
pub proof fn law_pool_exhaustion(v: SessionView)
    requires
        v.wf(),
        v.state == State::Recording,
    ensures
        v.next_buffer().1 is Some <==> v.pool.returned() > 0,
        v.next_buffer().1 is Some <==> v.pool.free() + v.pool.in_flight() < v.pool.depth(),
        v.pool.recycle_queue.len() == 0 ==> v.next_buffer() == (v, None::<FrameView>),
{
    v.pool.lemma_conservation();
}

/// A request that gives a buffer gives the oldest of the recycle queue: the
/// rest of that queue keeps its order, the buffer is then the producer's,
/// the filled queue is untouched, and the counts still add up to the depth.
pub proof fn law_next_buffer_takes_the_oldest(v: SessionView)
    requires
        v.wf(),
        v.state == State::Recording,
        v.pool.recycle_queue.len() > 0,
    ensures
        v.next_buffer().1 == Some(v.pool.recycle_queue[0]),
        v.next_buffer().0.pool.recycle_queue == v.pool.recycle_queue.skip(1),
        v.next_buffer().0.pool.filled_queue == v.pool.filled_queue,
        v.next_buffer().0.pool.admits(v.pool.recycle_queue[0], Place::Producer),
        v.next_buffer().0.pool.free() == v.pool.free() + 1,
        v.next_buffer().0.pool.free() + v.next_buffer().0.pool.in_flight()
            + v.next_buffer().0.pool.returned() == v.pool.depth(),
{
    let slot = v.pool.recycle_queue[0].slot as int;
    v.lemma_step_wf(Op::NextBuffer);
    v.next_buffer().0.pool.lemma_conservation();
    lemma_count_update(v.pool.places, slot, Place::Producer, Place::Producer);
}

/// Requests that follow each other give the buffers of the recycle queue in
/// its order, each one once; when all are handed out the next request gives
/// none.
pub proof fn law_requests_follow_the_queue(v: SessionView, k: nat)
    requires
        v.wf(),
        v.state == State::Recording,
        k <= v.pool.recycle_queue.len(),
    ensures
        v.after_requests(k).wf(),
        v.after_requests(k).state == State::Recording,
        v.after_requests(k).pool.recycle_queue == v.pool.recycle_queue.skip(k as int),
        k < v.pool.recycle_queue.len() ==> v.after_requests(k).next_buffer().1 == Some(
            v.pool.recycle_queue[k as int],
        ),
        k == v.pool.recycle_queue.len() ==> v.after_requests(k).next_buffer().1 is None,
    decreases k,
{
    if k > 0 {
        v.lemma_step_wf(Op::NextBuffer);
        law_requests_follow_the_queue(v.next_buffer().0, (k - 1) as nat);
    }
}

/// In a new session that has been asked to play, the first requests give
/// the buffers of the slots 0, 1, 2 and so on, as many as the pool is deep,
/// and the request after them gives none.
pub proof fn law_new_pool_gives_each_slot_once(
    depth: nat,
    frame_len: nat,
    frame_rate: nat,
    k: nat,
)
    requires
        1 <= depth <= usize::MAX,
        frame_rate >= 1,
        k <= depth,
    ensures
        k < depth ==> SessionView::fresh(depth, frame_len, frame_rate).play().after_requests(
            k,
        ).next_buffer().1 == Some(
            FrameView { slot: k as usize, pixels: Seq::new(frame_len, |i: int| 0u8) },
        ),
        k == depth ==> SessionView::fresh(depth, frame_len, frame_rate).play().after_requests(
            k,
        ).next_buffer().1 is None,
{
    let v = SessionView::fresh(depth, frame_len, frame_rate);
    SessionView::lemma_fresh_wf(depth, frame_len, frame_rate);
    v.lemma_step_wf(Op::Play);
    law_requests_follow_the_queue(v.play(), k);
}

/// When the pool is exhausted and the consumer gives one buffer back, the
/// next request gives that buffer, and the request after it gives none.
pub proof fn law_recycled_buffer_is_next(v: SessionView, b: FrameView)
    requires
        v.wf(),
        v.state == State::Recording,
        v.pool.recycle_queue.len() == 0,
        v.pool.admits(b, Place::Consumer),
    ensures
        v.skip_frame(b).next_buffer().1 == Some(b),
        v.skip_frame(b).next_buffer().0.next_buffer().1 is None,
        v.delivered < last_index() ==> {
            &&& v.finish_pull(b, v.pool.frame_len).next_buffer().1 == Some(b)
            &&& v.finish_pull(b, v.pool.frame_len).next_buffer().0.next_buffer().1 is None
        },
{
    v.lemma_step_wf(Op::SkipFrame(b));
    let back = v.skip_frame(b);
    assert(back.pool.recycle_queue =~= seq![b]);
    law_requests_follow_the_queue(back, 1);
    if v.delivered < last_index() {
        v.lemma_step_wf(Op::FinishPull(b, v.pool.frame_len));
        let done = v.finish_pull(b, v.pool.frame_len);
        assert(done.pool.recycle_queue =~= seq![b]);
        law_requests_follow_the_queue(done, 1);
    }
}

/// A stop moves no buffer: the places and both queues are as before. The
/// session no longer records, and the shutdown signal is sent.
pub proof fn law_stop_moves_no_buffer(v: SessionView)
    ensures
        v.stop().pool == v.pool,
        v.stop().delivered == v.delivered,
        !v.stop().state.is_recording(),
        v.stop().state.is_stopped(),
{
}

/// A buffer that the producer holds and hands back joins the end of the
/// filled queue, before a stop and after it, as long as the stream has not
/// ended: the recycle queue stays as it was, the producer no longer holds
/// the buffer, and the counts still add up to the depth. Once the stream has
/// ended the buffer joins the end of the recycle queue instead.
pub proof fn law_returned_frame_is_queued(v: SessionView, b: FrameView)
    requires
        v.wf(),
        v.pool.admits(b, Place::Producer),
    ensures
        v.return_buffer(b).wf(),
        !v.return_buffer(b).pool.admits(b, Place::Producer),
        v.return_buffer(b).pool.free() == v.pool.free() - 1,
        v.return_buffer(b).pool.free() + v.return_buffer(b).pool.in_flight() + v.return_buffer(
            b,
        ).pool.returned() == v.pool.depth(),
        !v.state.is_terminal() ==> {
            &&& v.return_buffer(b).pool.filled_queue == v.pool.filled_queue.push(b)
            &&& v.return_buffer(b).pool.recycle_queue == v.pool.recycle_queue
        },
        v.state.is_terminal() ==> {
            &&& v.return_buffer(b).pool.filled_queue == v.pool.filled_queue
            &&& v.return_buffer(b).pool.recycle_queue == v.pool.recycle_queue.push(b)
        },
{
    v.lemma_step_wf(Op::ReturnBuffer(b));
    v.return_buffer(b).pool.lemma_conservation();
    lemma_count_update(v.pool.places, b.slot as int, Place::InFlight, Place::Producer);
    lemma_count_update(v.pool.places, b.slot as int, Place::Returned, Place::Producer);
}

/// The producer's frames join the filled queue in the order in which they
/// are handed over, before a stop and after it, until the stream has ended.
pub proof fn law_returns_queue_in_order(v: SessionView, batch: Seq<FrameView>)
    requires
        v.wf(),
        !v.state.is_terminal(),
        forall|i: int| 0 <= i < batch.len() ==> v.pool.admits(#[trigger] batch[i], Place::Producer),
        forall|i: int, j: int|
            0 <= i < j < batch.len() ==> (#[trigger] batch[i]).slot != (#[trigger] batch[j]).slot,
    ensures
        v.after_returns(batch).wf(),
        v.after_returns(batch).pool.filled_queue == v.pool.filled_queue + batch,
        v.after_returns(batch).state == v.state,
    decreases batch.len(),
{
    if batch.len() > 0 {
        v.lemma_step_wf(Op::ReturnBuffer(batch[0]));
        law_returns_queue_in_order(v.return_buffer(batch[0]), batch.drop_first());
    }
}

/// A consumer that pulls without anything else happening gets the queued
/// frames in the order of the queue, each one index after the one before,
/// and gives one buffer back per pull, in the order in which it took them;
/// when the queue is drained it is told to wait while the session records,
/// and that the stream has ended once the shutdown signal is sent.
pub proof fn law_pulls_in_order(v: SessionView, k: nat)
    requires
        v.wf(),
        v.delivers(),
        k <= v.pool.filled_queue.len(),
        v.delivered + k <= last_index(),
    ensures
        v.after_pulls(k).wf(),
        v.after_pulls(k).state == v.state,
        v.after_pulls(k).delivered == v.delivered + k,
        v.after_pulls(k).pool.filled_queue == v.pool.filled_queue.skip(k as int),
        v.after_pulls(k).pool.recycle_queue == v.pool.recycle_queue + v.pool.filled_queue.take(
            k as int,
        ),
        k < v.pool.filled_queue.len() ==> v.after_pulls(k).begin_pull().1 == Start::Frame(
            v.pool.filled_queue[k as int],
        ),
        k == v.pool.filled_queue.len() ==> v.after_pulls(k).begin_pull().1 == (if v.state
            == State::Stopping {
            Start::EndOfStream
        } else {
            Start::Wait
        }),
    decreases k,
{
    if k > 0 {
        let b = v.pool.filled_queue[0];
        v.lemma_step_wf(Op::BeginPull);
        v.begin_pull().0.lemma_step_wf(Op::FinishPull(b, v.pool.frame_len));
        law_pulls_in_order(v.pull(v.pool.frame_len), (k - 1) as nat);
    }
}

/// First in, first out: the frames that the producer hands over are the
/// frames that the consumer gets, behind those queued before, in the order
/// in which they were handed over; none is dropped and none comes twice.
pub proof fn law_first_in_first_out(v: SessionView, batch: Seq<FrameView>, k: nat)
    requires
        v.wf(),
        v.delivers(),
        forall|i: int| 0 <= i < batch.len() ==> v.pool.admits(#[trigger] batch[i], Place::Producer),
        forall|i: int, j: int|
            0 <= i < j < batch.len() ==> (#[trigger] batch[i]).slot != (#[trigger] batch[j]).slot,
        k < v.pool.filled_queue.len() + batch.len(),
        v.delivered + k <= last_index(),
    ensures
        v.after_returns(batch).after_pulls(k).begin_pull().1 == Start::Frame(
            (v.pool.filled_queue + batch)[k as int],
        ),
        v.after_returns(batch).after_pulls(k).delivered == v.delivered + k,
{
    law_returns_queue_in_order(v, batch);
    law_returns_keep_the_count(v, batch);
    law_pulls_in_order(v.after_returns(batch), k);
}

/// Handing frames over delivers none.
pub proof fn law_returns_keep_the_count(v: SessionView, batch: Seq<FrameView>)
    ensures
        v.after_returns(batch).delivered == v.delivered,
        v.after_returns(batch).state == v.state,
    decreases batch.len(),
{
    if batch.len() > 0 {
        law_returns_keep_the_count(v.return_buffer(batch[0]), batch.drop_first());
    }
}

/// The count of frames delivered never falls, and one operation adds at most
/// one to it.
pub proof fn law_delivered_counts_up(v: SessionView, op: Op)
    ensures
        v.delivered <= v.step(op).delivered <= v.delivered + 1,
{
}

/// `close` ends the session with every buffer accounted for: nothing is left
/// in the filled queue, and what the two sides still hold and what waits in
/// the recycle queue add up to the depth.
pub proof fn law_close_accounts_for_all(v: SessionView)
    requires
        v.wf(),
    ensures
        v.close().wf(),
        v.close().state.is_terminal(),
        v.close().pool.filled_queue.len() == 0,
        v.close().pool.free() + v.close().pool.in_flight() + v.close().pool.returned()
            == v.pool.depth(),
        v.close().pool.returned() == v.pool.returned() + v.pool.filled_queue.len(),
{
    v.lemma_close_wf();
    v.pool.lemma_conservation();
    v.pool.close().lemma_discard();
}

/// Neither queue can overflow: each holds at most as many buffers as the
/// pool has, whatever is asked of the session.
pub proof fn law_queues_stay_bounded(v: SessionView, ops: Seq<Op>)
    requires
        v.wf(),
    ensures
        v.run(ops).pool.recycle_queue.len() <= v.pool.depth(),
        v.run(ops).pool.filled_queue.len() <= v.pool.depth(),
{
    law_buffers_conserved(v, ops);
}

/// No buffer is in two places: the slots in the two queues are all different,
/// and a buffer that the producer or the consumer holds is in neither queue.
pub proof fn law_one_holder(v: PoolView, b: FrameView)
    requires
        v.wf(),
    ensures
        forall|i: int, j: int|
            0 <= i < j < v.recycle_queue.len() ==> (#[trigger] v.recycle_queue[i]).slot != (
            #[trigger] v.recycle_queue[j]).slot,
        forall|i: int, j: int|
            0 <= i < j < v.filled_queue.len() ==> (#[trigger] v.filled_queue[i]).slot != (
            #[trigger] v.filled_queue[j]).slot,
        forall|i: int, j: int|
            0 <= i < v.recycle_queue.len() && 0 <= j < v.filled_queue.len() ==> (
            #[trigger] v.recycle_queue[i]).slot != (#[trigger] v.filled_queue[j]).slot,
        v.admits(b, Place::Producer) || v.admits(b, Place::Consumer) ==> {
            &&& forall|i: int|
                0 <= i < v.recycle_queue.len() ==> (#[trigger] v.recycle_queue[i]).slot != b.slot
            &&& forall|i: int|
                0 <= i < v.filled_queue.len() ==> (#[trigger] v.filled_queue[i]).slot != b.slot
        },
{
}

/// Once the shutdown signal is sent the consumer is never told to wait, and
/// a session that is stopping with `n` frames queued is closed by the pull
/// that follows the `n` pulls which deliver them: the consumer's loop ends.
pub proof fn law_consumer_finishes(v: SessionView)
    requires
        v.wf(),
        v.state.is_stopped(),
    ensures
        v.begin_pull().1 != Start::Wait,
        v.state == State::Stopping && v.delivered + v.pool.filled_queue.len() <= last_index()
            ==> v.after_pulls(v.pool.filled_queue.len()).pull(v.pool.frame_len).state
            == State::Closed,
{
    if v.state == State::Stopping && v.delivered + v.pool.filled_queue.len() <= last_index() {
        law_pulls_in_order(v, v.pool.filled_queue.len());
    }
}

} // verus!
