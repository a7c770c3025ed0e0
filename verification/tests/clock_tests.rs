use frame_handoff::clock::Timestamp;
use frame_handoff::clock::NANOS_PER_SECOND;

#[test]
fn no_timestamp_at_rate_zero() {
    assert!(Timestamp::new(1, 0).is_none());
    assert!(Timestamp::new(0, 0).is_none());
}

#[test]
fn a_timestamp_keeps_index_and_rate() {
    let t = Timestamp::new(7, 25).unwrap();
    assert_eq!(t.index(), 7);
    assert_eq!(t.rate(), 25);
}

#[test]
fn nanos_is_index_over_rate() {
    assert_eq!(NANOS_PER_SECOND, 1_000_000_000);
    assert_eq!(Timestamp::new(0, 30).unwrap().nanos(), 0);
    assert_eq!(Timestamp::new(1, 30).unwrap().nanos(), 33_333_333);
    assert_eq!(Timestamp::new(2, 30).unwrap().nanos(), 66_666_666);
    assert_eq!(Timestamp::new(3, 30).unwrap().nanos(), 100_000_000);
    assert_eq!(Timestamp::new(30, 30).unwrap().nanos(), 1_000_000_000);
    assert_eq!(Timestamp::new(1, 60).unwrap().nanos(), 16_666_666);
    assert_eq!(Timestamp::new(1, 1).unwrap().nanos(), 1_000_000_000);
    assert_eq!(Timestamp::new(1, 2).unwrap().nanos(), 500_000_000);
}

#[test]
fn nanos_of_the_largest_index_does_not_overflow() {
    let t = Timestamp::new(u64::MAX, 1).unwrap();
    assert_eq!(t.nanos(), (u64::MAX as u128) * 1_000_000_000);
    let u = Timestamp::new(u64::MAX, u64::MAX).unwrap();
    assert_eq!(u.nanos(), 1_000_000_000);
}

#[test]
fn consecutive_frames_are_one_period_apart() {
    for rate in [1u64, 2, 24, 25, 30, 60, 144, 1000, 999_999_999, 1_000_000_000] {
        let period = 1_000_000_000u128 / rate as u128;
        for index in 0..200u64 {
            let a = Timestamp::new(index, rate).unwrap();
            let b = Timestamp::new(index + 1, rate).unwrap();
            let step = b.nanos() - a.nanos();
            assert!(step == period || step == period + 1);
            assert!(a.nanos() < b.nanos());
            assert!(a.earlier_than(&b));
            assert!(!b.earlier_than(&a));
            assert!(!a.earlier_than(&a));
        }
    }
}

#[test]
fn earlier_than_compares_across_rates() {
    let half = Timestamp::new(1, 2).unwrap();
    let third = Timestamp::new(1, 3).unwrap();
    let two_quarters = Timestamp::new(2, 4).unwrap();
    assert!(third.earlier_than(&half));
    assert!(!half.earlier_than(&third));
    assert!(!half.earlier_than(&two_quarters));
    assert!(!two_quarters.earlier_than(&half));
    let far = Timestamp::new(u64::MAX, 1).unwrap();
    let near = Timestamp::new(u64::MAX - 1, 1).unwrap();
    assert!(near.earlier_than(&far));
}
