use frame_handoff::lifecycle::Event;
use frame_handoff::lifecycle::State;

const STATES: [State; 5] =
    [State::Idle, State::Recording, State::Stopping, State::Closed, State::Failed];

const EVENTS: [Event; 4] = [Event::Play, Event::Stop, Event::EndOfStream, Event::PipelineError];

fn rank(s: State) -> u8 {
    match s {
        State::Idle => 0,
        State::Recording => 1,
        State::Stopping => 2,
        State::Closed => 3,
        State::Failed => 3,
    }
}

#[test]
fn the_way_through_a_recording() {
    let s = State::Idle;
    let s = s.play();
    assert_eq!(s, State::Recording);
    let s = s.stop();
    assert_eq!(s, State::Stopping);
    let s = s.end_of_stream();
    assert_eq!(s, State::Closed);
}

#[test]
fn play_moves_only_an_idle_session() {
    assert_eq!(State::Idle.play(), State::Recording);
    assert_eq!(State::Recording.play(), State::Recording);
    assert_eq!(State::Stopping.play(), State::Stopping);
    assert_eq!(State::Closed.play(), State::Closed);
    assert_eq!(State::Failed.play(), State::Failed);
}

#[test]
fn stop_moves_idle_and_recording() {
    assert_eq!(State::Idle.stop(), State::Stopping);
    assert_eq!(State::Recording.stop(), State::Stopping);
    assert_eq!(State::Stopping.stop(), State::Stopping);
    assert_eq!(State::Closed.stop(), State::Closed);
    assert_eq!(State::Failed.stop(), State::Failed);
}

#[test]
fn end_of_stream_closes_only_a_stopping_session() {
    assert_eq!(State::Idle.end_of_stream(), State::Idle);
    assert_eq!(State::Recording.end_of_stream(), State::Recording);
    assert_eq!(State::Stopping.end_of_stream(), State::Closed);
    assert_eq!(State::Closed.end_of_stream(), State::Closed);
    assert_eq!(State::Failed.end_of_stream(), State::Failed);
}

#[test]
fn an_error_fails_all_but_a_closed_session() {
    assert_eq!(State::Idle.error(), State::Failed);
    assert_eq!(State::Recording.error(), State::Failed);
    assert_eq!(State::Stopping.error(), State::Failed);
    assert_eq!(State::Closed.error(), State::Closed);
    assert_eq!(State::Failed.error(), State::Failed);
}

#[test]
fn on_dispatches_by_event() {
    for s in STATES {
        assert_eq!(s.on(Event::Play), s.play());
        assert_eq!(s.on(Event::Stop), s.stop());
        assert_eq!(s.on(Event::EndOfStream), s.end_of_stream());
        assert_eq!(s.on(Event::PipelineError), s.error());
    }
}

#[test]
fn no_event_leads_back() {
    for s in STATES {
        for e in EVENTS {
            let next = s.on(e);
            assert!(rank(s) <= rank(next));
            if s.terminal() {
                assert_eq!(next, s);
            }
            if s.stopped() {
                assert!(next.stopped());
                assert!(!next.recording());
            }
        }
    }
}

#[test]
fn play_and_stop_are_idempotent() {
    for s in STATES {
        assert_eq!(s.play().play(), s.play());
        assert_eq!(s.stop().stop(), s.stop());
    }
}

#[test]
fn the_three_questions() {
    assert!(!State::Idle.recording() && !State::Idle.stopped() && !State::Idle.terminal());
    assert!(State::Recording.recording() && !State::Recording.stopped());
    assert!(!State::Recording.terminal());
    assert!(!State::Stopping.recording() && State::Stopping.stopped());
    assert!(!State::Stopping.terminal());
    assert!(State::Closed.stopped() && State::Closed.terminal() && !State::Closed.recording());
    assert!(State::Failed.stopped() && State::Failed.terminal() && !State::Failed.recording());
}
