use frame_handoff::config::ConfigError;
use frame_handoff::pool::BufferPool;
use frame_handoff::pool::Submitted;
use frame_handoff::pool_model::Place;
use frame_handoff::pool_model::TakeError;

fn counts(pool: &BufferPool) -> (usize, usize, usize) {
    (pool.free_count(), pool.in_flight_count(), pool.returned_count())
}

#[test]
fn a_pool_needs_a_buffer() {
    assert!(matches!(BufferPool::new(0, 16), Err(ConfigError::ZeroDepth)));
}

#[test]
fn a_new_pool_is_seeded() {
    let pool = BufferPool::new(5, 16).unwrap();
    assert_eq!(pool.depth(), 5);
    assert_eq!(pool.frame_len(), 16);
    assert_eq!(counts(&pool), (0, 0, 5));
    assert_eq!(pool.queued_count(), 0);
    assert!(!pool.is_closed());
}

#[test]
fn buffers_come_out_by_slot() {
    let mut pool = BufferPool::new(3, 2).unwrap();
    assert_eq!(pool.acquire_free().unwrap().slot(), 0);
    assert_eq!(pool.acquire_free().unwrap().slot(), 1);
    assert_eq!(pool.acquire_free().unwrap().slot(), 2);
    assert!(pool.acquire_free().is_none());
    assert_eq!(counts(&pool), (3, 0, 0));
}

#[test]
fn a_buffer_goes_round() {
    let mut pool = BufferPool::new(2, 3).unwrap();
    let mut b = pool.acquire_free().unwrap();
    assert_eq!(counts(&pool), (1, 0, 1));
    assert!(b.write(&[1, 2, 3]));
    assert!(matches!(pool.submit_filled(b), Ok(Submitted::Queued)));
    assert_eq!(counts(&pool), (0, 1, 1));
    assert_eq!(pool.queued_count(), 1);
    let taken = pool.take_filled().unwrap();
    assert_eq!(taken.slot(), 0);
    assert_eq!(taken.pixels(), &[1u8, 2, 3][..]);
    assert_eq!(counts(&pool), (0, 1, 1));
    assert_eq!(pool.queued_count(), 0);
    assert!(pool.recycle(taken).is_ok());
    assert_eq!(counts(&pool), (0, 0, 2));
    assert_eq!(pool.acquire_free().unwrap().slot(), 1);
    assert_eq!(pool.acquire_free().unwrap().slot(), 0);
}

#[test]
fn filled_queue_is_first_in_first_out() {
    let mut pool = BufferPool::new(3, 1).unwrap();
    let mut a = pool.acquire_free().unwrap();
    let mut b = pool.acquire_free().unwrap();
    let mut c = pool.acquire_free().unwrap();
    a.fill(1);
    b.fill(2);
    c.fill(3);
    assert!(pool.submit_filled(c).is_ok());
    assert!(pool.submit_filled(a).is_ok());
    assert!(pool.submit_filled(b).is_ok());
    assert_eq!(pool.take_filled().unwrap().pixels(), &[3u8][..]);
    assert_eq!(pool.take_filled().unwrap().pixels(), &[1u8][..]);
    assert_eq!(pool.take_filled().unwrap().pixels(), &[2u8][..]);
}

#[test]
fn an_empty_open_queue_says_empty() {
    let mut pool = BufferPool::new(1, 1).unwrap();
    assert!(matches!(pool.take_filled(), Err(TakeError::Empty)));
}

#[test]
fn a_closed_queue_is_drained_then_says_closed() {
    let mut pool = BufferPool::new(2, 1).unwrap();
    let b = pool.acquire_free().unwrap();
    assert!(pool.submit_filled(b).is_ok());
    pool.close();
    assert!(pool.is_closed());
    assert!(pool.take_filled().is_ok());
    assert!(matches!(pool.take_filled(), Err(TakeError::Closed)));
    assert!(matches!(pool.take_filled(), Err(TakeError::Closed)));
}

#[test]
fn a_closed_queue_recycles_what_is_submitted() {
    let mut pool = BufferPool::new(2, 1).unwrap();
    let b = pool.acquire_free().unwrap();
    pool.close();
    assert!(matches!(pool.submit_filled(b), Ok(Submitted::Recycled)));
    assert_eq!(counts(&pool), (0, 0, 2));
    assert_eq!(pool.queued_count(), 0);
    assert!(matches!(pool.take_filled(), Err(TakeError::Closed)));
}

#[test]
fn a_foreign_buffer_comes_back() {
    let mut ours = BufferPool::new(2, 4).unwrap();
    let mut theirs = BufferPool::new(2, 4).unwrap();
    let stranger = theirs.acquire_free().unwrap();
    // Slot 0 of `ours` is in the recycle queue, not with the producer.
    let back = ours.submit_filled(stranger).unwrap_err();
    assert_eq!(back.slot(), 0);
    assert_eq!(counts(&ours), (0, 0, 2));
    // Nor is it with the consumer.
    let back = ours.recycle(back).unwrap_err();
    assert_eq!(counts(&ours), (0, 0, 2));
    assert!(theirs.submit_filled(back).is_ok());
}

#[test]
fn a_buffer_of_another_length_comes_back() {
    let mut ours = BufferPool::new(1, 4).unwrap();
    let mut theirs = BufferPool::new(1, 5).unwrap();
    let held = ours.acquire_free().unwrap();
    let stranger = theirs.acquire_free().unwrap();
    assert!(ours.submit_filled(stranger).is_err());
    assert_eq!(counts(&ours), (1, 0, 0));
    assert!(ours.submit_filled(held).is_ok());
}

#[test]
fn a_slot_out_of_range_comes_back() {
    let mut small = BufferPool::new(1, 4).unwrap();
    let mut large = BufferPool::new(2, 4).unwrap();
    let _held = small.acquire_free().unwrap();
    let _first = large.acquire_free().unwrap();
    let second = large.acquire_free().unwrap();
    assert_eq!(second.slot(), 1);
    assert!(small.submit_filled(second).is_err());
    assert_eq!(counts(&small), (1, 0, 0));
}

#[test]
fn admits_tells_who_holds_a_buffer() {
    let mut pool = BufferPool::new(1, 2).unwrap();
    let b = pool.acquire_free().unwrap();
    assert!(pool.admits(&b, Place::Producer));
    assert!(!pool.admits(&b, Place::Consumer));
    assert!(!pool.admits(&b, Place::Returned));
    assert!(!pool.admits(&b, Place::InFlight));
    assert!(pool.submit_filled(b).is_ok());
    let b = pool.take_filled().unwrap();
    assert!(pool.admits(&b, Place::Consumer));
    assert!(!pool.admits(&b, Place::Producer));
}

#[test]
fn discard_sends_queued_frames_back_in_order() {
    let mut pool = BufferPool::new(3, 1).unwrap();
    let a = pool.acquire_free().unwrap();
    let b = pool.acquire_free().unwrap();
    let c = pool.acquire_free().unwrap();
    assert!(pool.submit_filled(b).is_ok());
    assert!(pool.submit_filled(a).is_ok());
    assert_eq!(pool.discard_filled(), 2);
    assert_eq!(counts(&pool), (1, 0, 2));
    assert_eq!(pool.discard_filled(), 0);
    assert_eq!(pool.acquire_free().unwrap().slot(), 1);
    assert_eq!(pool.acquire_free().unwrap().slot(), 0);
    assert_eq!(c.slot(), 2);
}

#[test]
fn counts_add_up_over_many_cycles() {
    for depth in 1..=8usize {
        let mut pool = BufferPool::new(depth, 4).unwrap();
        let mut held = Vec::new();
        let mut reading = Vec::new();
        let mut seed: u32 = 12345 + depth as u32;
        for _ in 0..4000 {
            seed = seed.wrapping_mul(1664525).wrapping_add(1013904223);
            match (seed >> 16) % 4 {
                0 => {
                    if let Some(b) = pool.acquire_free() {
                        held.push(b);
                    }
                }
                1 => {
                    if let Some(b) = held.pop() {
                        assert!(pool.submit_filled(b).is_ok());
                    }
                }
                2 => {
                    if let Ok(b) = pool.take_filled() {
                        reading.push(b);
                    }
                }
                _ => {
                    if let Some(b) = reading.pop() {
                        assert!(pool.recycle(b).is_ok());
                    }
                }
            }
            let (free, in_flight, returned) = counts(&pool);
            assert_eq!(free + in_flight + returned, depth);
            assert_eq!(free, held.len());
            assert_eq!(in_flight, pool.queued_count() + reading.len());
        }
    }
}
