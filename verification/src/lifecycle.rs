//! The life of a recording: idle, recording, stopping, and one of two ends.

use vstd::prelude::*;

verus! {

/// The state of a session.
#[derive(Clone, Copy, Debug, PartialEq, Eq, Structural)]
pub enum State {
    /// Built and seeded; no frame is accepted yet.
    Idle,
    /// The producer supplies frames and the consumer encodes them.
    Recording,
    /// The shutdown signal is sent; the consumer drains what is queued and
    /// what the producer still hands back.
    Stopping,
    /// The consumer has seen the end of the stream.
    Closed,
    /// The encoding pipeline failed; the output may be invalid.
    Failed,
}

/// What can happen to a session.
#[derive(Clone, Copy, Debug, PartialEq, Eq, Structural)]
pub enum Event {
    /// The caller asks for the recording to begin.
    Play,
    /// The caller asks for the recording to end.
    Stop,
    /// The consumer found the stream shut down and drained.
    EndOfStream,
    /// The encoding pipeline reported an error.
    PipelineError,
}

impl State {
    /// Only a recording session lends buffers to the producer.
    pub open spec fn is_recording(self) -> bool {
        self == State::Recording
    }

    /// Whether the shutdown signal has been sent, by a stop or by a failure.
    pub open spec fn is_stopped(self) -> bool {
        self == State::Stopping || self == State::Closed || self == State::Failed
    }

    /// Whether the session has reached one of its two ends.
    pub open spec fn is_terminal(self) -> bool {
        self == State::Closed || self == State::Failed
    }

    /// How far the session has come; no event takes it back.
    pub open spec fn rank(self) -> nat {
        match self {
            State::Idle => 0,
            State::Recording => 1,
            State::Stopping => 2,
            State::Closed => 3,
            State::Failed => 3,
        }
    }

    pub open spec fn after_play(self) -> State {
        if self == State::Idle {
            State::Recording
        } else {
            self
        }
    }

    pub open spec fn after_stop(self) -> State {
        if self == State::Idle || self == State::Recording {
            State::Stopping
        } else {
            self
        }
    }

    pub open spec fn after_end_of_stream(self) -> State {
        if self == State::Stopping {
            State::Closed
        } else {
            self
        }
    }

    pub open spec fn after_error(self) -> State {
        if self == State::Closed {
            State::Closed
        } else {
            State::Failed
        }
    }

    /// The state that follows `self` on `event`.
    pub open spec fn after(self, event: Event) -> State {
        match event {
            Event::Play => self.after_play(),
            Event::Stop => self.after_stop(),
            Event::EndOfStream => self.after_end_of_stream(),
            Event::PipelineError => self.after_error(),
        }
    }

    /// The state after all of `events`, in order.
    pub open spec fn after_all(self, events: Seq<Event>) -> State
        decreases events.len(),
    {
        if events.len() == 0 {
            self
        } else {
            self.after(events[0]).after_all(events.drop_first())
        }
    }

    /// Begins the recording if the session is idle; changes nothing otherwise.
    pub fn play(self) -> (next: State)
        ensures
            next == self.after_play(),
    {
        match self {
            State::Idle => State::Recording,
            other => other,
        }
    }

    /// Sends the shutdown signal unless it was sent before.
    pub fn stop(self) -> (next: State)
        ensures
            next == self.after_stop(),
    {
        match self {
            State::Idle => State::Stopping,
            State::Recording => State::Stopping,
            other => other,
        }
    }

    /// The consumer has seen the end of the stream: a stopping session is
    /// closed by that.
    pub fn end_of_stream(self) -> (next: State)
        ensures
            next == self.after_end_of_stream(),
    {
        match self {
            State::Stopping => State::Closed,
            other => other,
        }
    }

    /// The pipeline reported an error: unless the session is closed already,
    /// it has failed.
    pub fn error(self) -> (next: State)
        ensures
            next == self.after_error(),
    {
        match self {
            State::Closed => State::Closed,
            _ => State::Failed,
        }
    }

    /// The state that follows on `event`.
    pub fn on(self, event: Event) -> (next: State)
        ensures
            next == self.after(event),
    {
        match event {
            Event::Play => self.play(),
            Event::Stop => self.stop(),
            Event::EndOfStream => self.end_of_stream(),
            Event::PipelineError => self.error(),
        }
    }

    /// Whether the producer is lent buffers in this state.
    pub fn recording(self) -> (b: bool)
        ensures
            b == self.is_recording(),
    {
        match self {
            State::Recording => true,
            _ => false,
        }
    }

    /// Whether the shutdown signal has been sent.
    pub fn stopped(self) -> (b: bool)
        ensures
            b == self.is_stopped(),
    {
        match self {
            State::Stopping => true,
            State::Closed => true,
            State::Failed => true,
            _ => false,
        }
    }

    /// Whether the session has ended.
    pub fn terminal(self) -> (b: bool)
        ensures
            b == self.is_terminal(),
    {
        match self {
            State::Closed => true,
            State::Failed => true,
            _ => false,
        }
    }
}

/// Asking twice for the recording to begin, or twice for it to end, does no
/// more than asking once; and after a stop the shutdown signal is sent,
/// whatever the state was.
pub proof fn law_play_and_stop_are_idempotent(s: State)
    ensures
        s.after_play().after_play() == s.after_play(),
        s.after_stop().after_stop() == s.after_stop(),
        s.after_stop().is_stopped(),
{
}

/// No event takes a session back: the rank never falls, and a session that
/// has ended stays as it is.
pub proof fn law_no_way_back(s: State, event: Event)
    ensures
        s.rank() <= s.after(event).rank(),
        s.is_terminal() ==> s.after(event) == s,
        s.is_stopped() ==> s.after(event).is_stopped(),
{
}

/// A session records only if it was recording before, or was idle and asked
/// to play.
pub proof fn law_recording_needs_play(s: State, event: Event)
    ensures
        s.after(event).is_recording() <==> (s.is_recording() && event != Event::Stop && event
            != Event::PipelineError) || (s == State::Idle && event == Event::Play),
{
}

/// Once the shutdown signal is sent, no sequence of events brings the
/// session back to recording.
pub proof fn law_stopped_for_good(s: State, events: Seq<Event>)
    requires
        s.is_stopped(),
    ensures
        s.after_all(events).is_stopped(),
        !s.after_all(events).is_recording(),
    decreases events.len(),
{
    if events.len() > 0 {
        law_stopped_for_good(s.after(events[0]), events.drop_first());
    }
}

} // verus!
