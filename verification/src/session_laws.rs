//! What holds of every calibration session, proved from its transition
//! rules.

use vstd::prelude::*;
use crate::samples::{Detection, ImagePoint};
use crate::session::{SessionAction, SessionEvent, SessionModel, SessionState};
use crate::solver::{CalibrationResult, SolverOutcome};
use crate::target::{CalibrationType, TargetModel};

verus! {

/// Whether every event of the run is a frame in which the pattern was found.
pub open spec fn all_found(events: Seq<SessionEvent>) -> bool {
    forall|i: int| 0 <= i < events.len() ==> #[trigger] events[i] is Frame && events[i]->Frame_0 is Found
}

/// Whether every event of the run is a frame in which the pattern was not
/// found.
pub open spec fn all_not_found(events: Seq<SessionEvent>) -> bool {
    forall|i: int|
        0 <= i < events.len() ==> #[trigger] events[i] == SessionEvent::Frame(Detection::NotFound)
}

/// The image points that a frame event carries.
pub open spec fn found_points(event: SessionEvent) -> Seq<ImagePoint> {
    event->Frame_0->Found_0@
}

/// No event takes a session out of what holds of every session. In
/// particular the sample set never holds more than the required number of
/// samples.
pub proof fn law_step_keeps_valid(session: SessionModel, event: SessionEvent)
    requires
        session.valid(),
    ensures
        session.step(event).valid(),
        session.step(event).captured() <= session.step(event).required(),
{
    let next = session.step(event);
    match (session.state, event) {
        (SessionState::Capturing, SessionEvent::Frame(Detection::Found(points))) => {
            assert forall|i: int| 0 <= i < next.samples.samples.len() implies (
            #[trigger] next.samples.samples[i]).object_points == next.target.points by {
                if i < session.samples.samples.len() {
                    assert(next.samples.samples[i] == session.samples.samples[i]);
                }
            }
        },
        (SessionState::Idle, SessionEvent::Start { kind, rows, cols, required }) => {
            assert(next.target.valid());
        },
        _ => {},
    }
}

/// No run of events takes a session out of what holds of every session.
pub proof fn law_run_keeps_valid(session: SessionModel, events: Seq<SessionEvent>)
    requires
        session.valid(),
    ensures
        session.run(events).valid(),
        session.run(events).captured() <= session.run(events).required(),
    decreases events.len(),
{
    if events.len() > 0 {
        law_run_keeps_valid(session, events.drop_last());
        law_step_keeps_valid(session.run(events.drop_last()), events.last());
    }
}

/// A session that is not capturing takes no sample: once the required
/// number is in, a further frame changes nothing, whatever the detector
/// found in it.
pub proof fn law_full_set_takes_no_more(session: SessionModel, detection: Detection)
    requires
        session.valid(),
        !(session.state is Capturing),
    ensures
        session.step(SessionEvent::Frame(detection)) == session,
        session.action(SessionEvent::Frame(detection)) == SessionAction::Ignored,
{
}

/// Frames in which the pattern is found are accepted one by one, in the
/// order of arrival, as long as samples are missing. After `events.len()`
/// such frames that many more samples are in, each with the target's
/// reference points and the frame's image points, and the session is solving
/// exactly if the set is now full.
pub proof fn law_found_frames_are_accepted(session: SessionModel, events: Seq<SessionEvent>)
    requires
        session.valid(),
        session.state is Capturing,
        all_found(events),
        session.captured() + events.len() <= session.required(),
    ensures
        session.run(events).captured() == session.captured() + events.len(),
        session.run(events).required() == session.required(),
        session.run(events).target == session.target,
        session.run(events).state == if session.captured() + events.len() == session.required() {
            SessionState::Solving
        } else {
            SessionState::Capturing
        },
        forall|i: int|
            0 <= i < session.captured() ==> #[trigger] session.run(events).samples.samples[i]
                == session.samples.samples[i],
        forall|i: int|
            0 <= i < events.len() ==> (#[trigger] session.run(events).samples.samples[session.captured()
                + i]).image_points == found_points(events[i]),
        forall|i: int|
            0 <= i < events.len() ==> (#[trigger] session.run(events).samples.samples[session.captured()
                + i]).object_points == session.target.points,
    decreases events.len(),
{
    if events.len() > 0 {
        let prev = events.drop_last();
        law_found_frames_are_accepted(session, prev);
        let before = session.run(prev);
        let after = session.run(events);
        assert(events.last() is Frame && events.last()->Frame_0 is Found);
        assert(after == before.step(events.last()));
        assert(before.state is Capturing);
        assert forall|i: int| 0 <= i < events.len() implies (#[trigger] after.samples.samples[session.captured()
            + i]).image_points == found_points(events[i]) by {
            if i < prev.len() {
                assert(after.samples.samples[session.captured() + i]
                    == before.samples.samples[session.captured() + i]);
                assert(prev[i] == events[i]);
            }
        }
        assert forall|i: int| 0 <= i < events.len() implies (#[trigger] after.samples.samples[session.captured()
            + i]).object_points == session.target.points by {
            if i < prev.len() {
                assert(after.samples.samples[session.captured() + i]
                    == before.samples.samples[session.captured() + i]);
            }
        }
        assert forall|i: int| 0 <= i < session.captured() implies #[trigger] after.samples.samples[i]
            == session.samples.samples[i] by {
            assert(after.samples.samples[i] == before.samples.samples[i]);
        }
    }
}

/// While frames with the pattern arrive and samples are missing, the driver
/// is told the new count after each, and with the last one to solve: the
/// solver is asked for exactly when the set has become full, not before.
pub proof fn law_solver_waits_for_full_set(session: SessionModel, events: Seq<SessionEvent>, i: int)
    requires
        session.valid(),
        session.state is Capturing,
        all_found(events),
        session.captured() + events.len() <= session.required(),
        0 <= i < events.len(),
    ensures
        session.actions(events)[i] == if session.captured() + i + 1 == session.required() {
            SessionAction::Solve { captured: (session.captured() + i + 1) as usize }
        } else {
            SessionAction::ReportProgress { captured: (session.captured() + i + 1) as usize }
        },
{
    let upto = events.take(i);
    assert(all_found(upto)) by {
        assert forall|k: int| 0 <= k < upto.len() implies #[trigger] upto[k] is Frame
            && upto[k]->Frame_0 is Found by {
            assert(upto[k] == events[k]);
        }
    }
    law_found_frames_are_accepted(session, upto);
    assert(events[i] is Frame && events[i]->Frame_0 is Found);
}

/// A session started for `required` samples that receives exactly that many
/// frames, the pattern found in each, goes from capturing to solving with
/// exactly `required` samples, and on the solver's success to completed,
/// carrying the solver's result. A frame that arrives after that is not
/// taken.
pub proof fn law_required_frames_complete(
    kind: CalibrationType,
    rows: i32,
    cols: i32,
    required: usize,
    frames: Seq<SessionEvent>,
    solved: CalibrationResult,
    late: Detection,
)
    requires
        required > 0,
        frames.len() == required,
        all_found(frames),
    ensures
        ({
            let started = SessionModel::idle().step(SessionEvent::Start { kind, rows, cols, required });
            let full = started.run(frames);
            let done = full.step(SessionEvent::Solver(SolverOutcome::Solved(solved)));
            &&& started.state is Capturing
            &&& started.captured() == 0
            &&& started.target == TargetModel::of_grid(rows as int, cols as int)
            &&& forall|i: int|
                0 <= i < frames.len() ==> (#[trigger] started.run(frames.take(i))).state is Capturing
            &&& full.state is Solving
            &&& full.captured() == required
            &&& forall|i: int|
                0 <= i < frames.len() ==> (#[trigger] full.samples.samples[i]).image_points
                    == found_points(frames[i])
            &&& done.state is Completed
            &&& done.result == Some(solved@)
            &&& done.captured() == required
            &&& done.step(SessionEvent::Frame(late)) == done
            &&& full.step(SessionEvent::Frame(late)) == full
        }),
{
    let start = SessionEvent::Start { kind, rows, cols, required };
    let started = SessionModel::idle().step(start);
    law_step_keeps_valid(SessionModel::idle(), start);
    law_found_frames_are_accepted(started, frames);
    let full = started.run(frames);
    assert forall|i: int| 0 <= i < frames.len() implies (#[trigger] full.samples.samples[i]).image_points
        == found_points(frames[i]) by {
        assert(full.samples.samples[started.captured() + i].image_points == found_points(
            frames[i],
        ));
    }
    assert forall|i: int| 0 <= i < frames.len() implies (#[trigger] started.run(frames.take(i))).state is Capturing by {
        let upto = frames.take(i);
        assert forall|k: int| 0 <= k < upto.len() implies #[trigger] upto[k] is Frame
            && upto[k]->Frame_0 is Found by {
            assert(upto[k] == frames[k]);
        }
        law_found_frames_are_accepted(started, upto);
    }
}

/// A session that is fed frames in which the pattern is never found stays
/// as it is: it goes on capturing, takes no sample, and the driver is told
/// to wait for the next frame every time, never to solve.
pub proof fn law_rejected_frames_change_nothing(session: SessionModel, events: Seq<SessionEvent>)
    requires
        session.state is Capturing,
        all_not_found(events),
    ensures
        session.run(events) == session,
        forall|i: int|
            0 <= i < events.len() ==> #[trigger] session.actions(events)[i] == SessionAction::AwaitFrame,
    decreases events.len(),
{
    if events.len() > 0 {
        let prev = events.drop_last();
        law_rejected_frames_change_nothing(session, prev);
        assert(events.last() == SessionEvent::Frame(Detection::NotFound));
        assert forall|i: int| 0 <= i < events.len() implies #[trigger] session.actions(events)[i]
            == SessionAction::AwaitFrame by {
            let upto = events.take(i);
            assert forall|k: int| 0 <= k < upto.len() implies #[trigger] upto[k]
                == SessionEvent::Frame(Detection::NotFound) by {
                assert(upto[k] == events[k]);
            }
            if i < prev.len() {
                assert(prev.take(i) =~= upto);
                assert(session.actions(prev)[i] == SessionAction::AwaitFrame);
            } else {
                assert(upto =~= prev);
            }
            assert(events[i] == SessionEvent::Frame(Detection::NotFound));
        }
    }
}

/// Cancelling a session that captures ends it as cancelled and throws its
/// samples away, however many it had. A session that is then started anew
/// begins with no samples, whatever the other one had collected.
pub proof fn law_cancel_discards_samples(
    session: SessionModel,
    kind: CalibrationType,
    rows: i32,
    cols: i32,
    required: usize,
)
    requires
        session.state is Capturing,
    ensures
        session.step(SessionEvent::Cancel).state is Cancelled,
        session.step(SessionEvent::Cancel).captured() == 0,
        session.action(SessionEvent::Cancel) == SessionAction::Finish,
        SessionModel::idle().step(SessionEvent::Start { kind, rows, cols, required }).captured() == 0,
{
}

/// A session that is completed, failed or cancelled stays so: no run of
/// events changes it, and the driver is given nothing to do.
pub proof fn law_ended_session_stays(session: SessionModel, events: Seq<SessionEvent>)
    requires
        session.state.terminal(),
    ensures
        session.run(events) == session,
        forall|i: int|
            0 <= i < events.len() ==> #[trigger] session.actions(events)[i] == SessionAction::Ignored,
    decreases events.len(),
{
    if events.len() > 0 {
        let prev = events.drop_last();
        law_ended_session_stays(session, prev);
        assert forall|i: int| 0 <= i < events.len() implies #[trigger] session.actions(events)[i]
            == SessionAction::Ignored by {
            let upto = events.take(i);
            if i < prev.len() {
                assert(prev.take(i) =~= upto);
                assert(session.actions(prev)[i] == SessionAction::Ignored);
            } else {
                assert(upto =~= prev);
            }
        }
    }
}

/// The driver is told to solve exactly on the event that takes the session
/// into solving, and a session gets there only with a full sample set.
pub proof fn law_solve_only_when_full(session: SessionModel, event: SessionEvent)
    requires
        session.valid(),
    ensures
        session.action(event) is Solve <==> !(session.state is Solving) && session.step(
            event,
        ).state is Solving,
        session.step(event).state is Solving ==> session.step(event).captured() == session.step(
            event,
        ).required(),
{
}

} // verus!
