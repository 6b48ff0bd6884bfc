//! The decisions of the capture loop: when to read, what to do with a frame,
//! and when to stop.
//!
//! Reading the camera, converting, publishing and archiving are done by
//! whoever runs the loop; what comes of each is handed in as an event.

use vstd::prelude::*;

verus! {

/// Where the capture loop stands.
#[derive(Clone, Copy, Debug, PartialEq, Eq, Structural)]
pub enum CaptureState {
    /// Frames are being read.
    Running,
    /// A stop request was seen; the loop has ended in good order.
    Stopped,
    /// The camera failed; the loop has ended with an error.
    Failed,
}

/// What can happen to the capture loop.
#[derive(Clone, Copy, Debug, PartialEq, Eq, Structural)]
pub enum CaptureEvent {
    /// An iteration begins; the stop signal was polled.
    Poll { stop_requested: bool },
    /// The camera delivered a frame, possibly one without pixels.
    FrameRead { empty: bool },
    /// The camera could not be read.
    ReadFailed,
    /// The video sink refused a frame.
    SinkFailed,
}

/// What the loop is to do next.
#[derive(Clone, Copy, Debug, PartialEq, Eq, Structural)]
pub enum CaptureAction {
    /// Read the next frame from the camera.
    ReadFrame,
    /// Convert the frame and publish it to the channel; hand the unconverted
    /// frame to the video sink as well if `archive` is set.
    Publish { archive: bool },
    /// Note that the sink failed, and go on: archiving is best effort.
    Continue,
    /// Leave the loop and release the camera and the sink.
    Release,
    /// Leave the loop and report the camera's error.
    Abort,
    /// The loop has ended; there is nothing to do.
    Halt,
}

impl CaptureState {
    /// Whether the loop has ended.
    pub open spec fn ended(self) -> bool {
        self is Stopped || self is Failed
    }

    /// The state after one event. A stop request ends the loop before
    /// anything else is read; a failed read ends it with an error; a failed
    /// sink does not end it. Once ended, the loop stays ended.
    pub open spec fn after(self, event: CaptureEvent) -> CaptureState {
        match (self, event) {
            (CaptureState::Running, CaptureEvent::Poll { stop_requested: true }) => CaptureState::Stopped,
            (CaptureState::Running, CaptureEvent::ReadFailed) => CaptureState::Failed,
            _ => self,
        }
    }

    /// What is to be done after one event. Only a frame with pixels goes to
    /// the video sink.
    pub open spec fn action(self, event: CaptureEvent) -> CaptureAction {
        match (self, event) {
            (CaptureState::Running, CaptureEvent::Poll { stop_requested }) => if stop_requested {
                CaptureAction::Release
            } else {
                CaptureAction::ReadFrame
            },
            (CaptureState::Running, CaptureEvent::FrameRead { empty }) => CaptureAction::Publish {
                archive: !empty,
            },
            (CaptureState::Running, CaptureEvent::ReadFailed) => CaptureAction::Abort,
            (CaptureState::Running, CaptureEvent::SinkFailed) => CaptureAction::Continue,
            _ => CaptureAction::Halt,
        }
    }

    /// The state after a run of events, the first one first.
    pub open spec fn run(self, events: Seq<CaptureEvent>) -> CaptureState
        decreases events.len(),
    {
        if events.len() == 0 {
            self
        } else {
            self.run(events.drop_last()).after(events.last())
        }
    }

    /// The state in which a capture loop begins.
    pub fn start() -> (state: CaptureState)
        ensures
            state == CaptureState::Running,
    {
        CaptureState::Running
    }

    /// Takes the loop through one event: the state it is in afterwards, and
    /// what to do next.
    pub fn step(self, event: CaptureEvent) -> (next: (CaptureState, CaptureAction))
        ensures
            next.0 == self.after(event),
            next.1 == self.action(event),
    {
        match self {
            CaptureState::Running => match event {
                CaptureEvent::Poll { stop_requested } => if stop_requested {
                    (CaptureState::Stopped, CaptureAction::Release)
                } else {
                    (CaptureState::Running, CaptureAction::ReadFrame)
                },
                CaptureEvent::FrameRead { empty } => (
                    CaptureState::Running,
                    CaptureAction::Publish { archive: !empty },
                ),
                CaptureEvent::ReadFailed => (CaptureState::Failed, CaptureAction::Abort),
                CaptureEvent::SinkFailed => (CaptureState::Running, CaptureAction::Continue),
            },
            _ => (self, CaptureAction::Halt),
        }
    }

    /// Whether the loop has ended.
    pub fn has_ended(self) -> (ended: bool)
        ensures
            ended == self.ended(),
    {
        match self {
            CaptureState::Running => false,
            _ => true,
        }
    }
}

/// A loop that has ended stays ended, in the same state, whatever happens.
pub proof fn lemma_ended_stays(state: CaptureState, events: Seq<CaptureEvent>)
    requires
        state.ended(),
    ensures
        state.run(events) == state,
    decreases events.len(),
{
    if events.len() > 0 {
        lemma_ended_stays(state, events.drop_last());
    }
}

/// Running the events up to position `i` and then the rest is running them
/// all.
proof fn lemma_run_split(state: CaptureState, events: Seq<CaptureEvent>, i: int)
    requires
        0 <= i <= events.len(),
    ensures
        state.run(events) == state.run(events.take(i)).run(events.skip(i)),
    decreases events.len() - i,
{
    if i == events.len() {
        assert(events.take(i) =~= events);
        assert(events.skip(i).len() == 0);
    } else {
        lemma_run_split(state, events.drop_last(), i);
        assert(events.drop_last().take(i) =~= events.take(i));
        assert(events.drop_last().skip(i) =~= events.skip(i).drop_last());
        assert(events.skip(i).last() == events.last());
    }
}

/// A stop request ends the capture within the iteration that sees it: the
/// loop is told to release the camera instead of reading it, and whatever
/// happens afterwards, it is never again told to read, publish or archive.
pub proof fn law_stop_ends_capture(events: Seq<CaptureEvent>, i: int, j: int)
    requires
        0 <= i < j < events.len(),
        events[i] == (CaptureEvent::Poll { stop_requested: true }),
    ensures
        CaptureState::Running.run(events.take(i)) is Running ==> CaptureState::Running.run(
            events.take(i),
        ).action(events[i]) == CaptureAction::Release,
        CaptureState::Running.run(events.take(i + 1)).ended(),
        CaptureState::Running.run(events.take(j)).action(events[j]) == CaptureAction::Halt,
        CaptureState::Running.run(events).ended(),
{
    let start = CaptureState::Running;
    let upto = events.take(i + 1);
    assert(upto.drop_last() =~= events.take(i));
    assert(upto.last() == events[i]);
    let seen = start.run(upto);
    assert(seen == start.run(events.take(i)).after(events[i]));
    assert(seen.ended());
    lemma_run_split(start, events.take(j), i + 1);
    assert(events.take(j).take(i + 1) =~= upto);
    lemma_ended_stays(seen, events.take(j).skip(i + 1));
    lemma_run_split(start, events, i + 1);
    assert(events.take(i + 1) =~= upto);
    lemma_ended_stays(seen, events.skip(i + 1));
}

/// A sink that fails does not stop the capture, and neither does a frame
/// that arrives: only a stop request or a failed read ends the loop.
pub proof fn law_only_stop_or_read_failure_ends(state: CaptureState, event: CaptureEvent)
    requires
        state is Running,
    ensures
        state.after(event).ended() <==> event == (CaptureEvent::Poll { stop_requested: true })
            || event is ReadFailed,
        state.after(event) is Failed <==> event is ReadFailed,
{
}

} // verus!
