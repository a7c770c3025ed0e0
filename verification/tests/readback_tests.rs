use frame_handoff::readback::ReadbackWait;
use frame_handoff::readback::WaitStep;

#[test]
fn a_readable_buffer_is_read_at_once() {
    let mut wait = ReadbackWait::new(3);
    assert_eq!(wait.observe(true), WaitStep::Read);
    assert_eq!(wait.failed(), 0);
    assert_eq!(wait.limit(), 3);
}

#[test]
fn the_wait_gives_up_at_the_limit() {
    let mut wait = ReadbackWait::new(3);
    assert_eq!(wait.observe(false), WaitStep::Retry);
    assert_eq!(wait.observe(false), WaitStep::Retry);
    assert_eq!(wait.observe(false), WaitStep::GiveUp);
    assert_eq!(wait.failed(), 3);
    assert_eq!(wait.observe(false), WaitStep::GiveUp);
    assert_eq!(wait.failed(), 3);
}

#[test]
fn a_late_success_is_still_a_success() {
    let mut wait = ReadbackWait::new(3);
    assert_eq!(wait.observe(false), WaitStep::Retry);
    assert_eq!(wait.observe(false), WaitStep::Retry);
    assert_eq!(wait.observe(true), WaitStep::Read);
    assert_eq!(wait.failed(), 2);
}

#[test]
fn small_limits_give_up_on_the_first_failure() {
    let mut none = ReadbackWait::new(0);
    assert_eq!(none.observe(false), WaitStep::GiveUp);
    assert_eq!(none.failed(), 0);
    assert_eq!(none.observe(true), WaitStep::Read);
    let mut one = ReadbackWait::new(1);
    assert_eq!(one.observe(false), WaitStep::GiveUp);
    assert_eq!(one.failed(), 1);
}

#[test]
fn retries_are_fewer_than_the_limit() {
    for limit in 0..50u32 {
        let mut wait = ReadbackWait::new(limit);
        let mut retries: u32 = 0;
        loop {
            match wait.observe(false) {
                WaitStep::Retry => retries += 1,
                WaitStep::GiveUp => break,
                WaitStep::Read => panic!("nothing was readable"),
            }
            assert!(retries <= limit);
        }
        assert_eq!(retries, limit.saturating_sub(1));
    }
}
