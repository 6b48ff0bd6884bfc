use camera_calibration::samples::{Detection, ImagePoint};
use camera_calibration::session::{
    CalibrationSession, SessionAction, SessionEvent, SessionState, SessionStatus,
};
use camera_calibration::solver::{CalibrationResult, SolverOutcome};
use camera_calibration::target::{CalibrationTarget, CalibrationType};

fn start(rows: i32, cols: i32, required: usize) -> SessionEvent {
    SessionEvent::Start { kind: CalibrationType::ChessBoard, rows, cols, required }
}

/// A frame in which every intersection of the grid is seen, shifted by
/// `shift` pixels.
fn seen_grid(rows: i32, cols: i32, shift: f32) -> Vec<ImagePoint> {
    let mut points = Vec::new();
    for row in 0..rows {
        for col in 0..cols {
            points.push(ImagePoint {
                x_bits: (40.0 * col as f32 + shift).to_bits(),
                y_bits: (40.0 * row as f32 + shift).to_bits(),
            });
        }
    }
    points
}

fn found(rows: i32, cols: i32, shift: f32) -> SessionEvent {
    SessionEvent::Frame(Detection::Found(seen_grid(rows, cols, shift)))
}

fn not_found() -> SessionEvent {
    SessionEvent::Frame(Detection::NotFound)
}

fn solved(coefficients: usize) -> CalibrationResult {
    let matrix: [f64; 9] = [800.0, 0.0, 320.0, 0.0, 800.0, 240.0, 0.0, 0.0, 1.0];
    CalibrationResult {
        intrinsics: matrix.map(f64::to_bits),
        distortion: (0..coefficients).map(|i| (0.01 * i as f64).to_bits()).collect(),
    }
}

#[test]
fn new_session_is_idle_and_empty() {
    let session = CalibrationSession::new();
    assert_eq!(session.state(), SessionState::Idle);
    assert_eq!(session.sample_count(), 0);
    assert_eq!(session.required(), 0);
    assert!(session.samples().object_points().is_empty());
    assert!(session.target().points().is_empty());
    assert!(session.result().is_none());
    assert!(session.failure().is_none());
    assert_eq!(session.status(), SessionStatus::Idle);
}

#[test]
fn start_builds_the_target_and_begins_to_capture() {
    let mut session = CalibrationSession::new();
    let action = session.step(SessionEvent::Start {
        kind: CalibrationType::CircleGrid,
        rows: 4,
        cols: 11,
        required: 3,
    });
    assert_eq!(action, SessionAction::AwaitFrame);
    assert_eq!(session.state(), SessionState::Capturing);
    assert_eq!(session.kind(), CalibrationType::CircleGrid);
    assert_eq!(session.required(), 3);
    assert_eq!(session.sample_count(), 0);
    assert_eq!(session.target().rows(), 4);
    assert_eq!(session.target().cols(), 11);
    assert_eq!(session.target().points(), CalibrationTarget::new(4, 11).points());
    assert_eq!(session.status(), SessionStatus::Capturing { captured: 0 });
}

#[test]
fn ten_good_frames_complete_a_six_by_nine_session() {
    let mut session = CalibrationSession::new();
    assert_eq!(session.step(start(6, 9, 10)), SessionAction::AwaitFrame);
    let mut solver_runs = 0;
    for frame in 1..=10usize {
        let points = seen_grid(6, 9, frame as f32);
        assert_eq!(points.len(), 54);
        let action = session.step(SessionEvent::Frame(Detection::Found(points)));
        if frame < 10 {
            assert_eq!(action, SessionAction::ReportProgress { captured: frame });
            assert_eq!(session.state(), SessionState::Capturing);
            assert_eq!(session.status(), SessionStatus::Capturing { captured: frame });
        } else {
            assert_eq!(action, SessionAction::Solve { captured: 10 });
            solver_runs += 1;
        }
        assert_eq!(session.sample_count(), frame);
    }
    // at solve time
    assert_eq!(session.state(), SessionState::Solving);
    assert_eq!(session.status(), SessionStatus::Solving);
    assert_eq!(solver_runs, 1);
    assert_eq!(session.samples().len(), 10);
    assert_eq!(session.samples().object_points().len(), 10);
    assert_eq!(session.samples().image_points().len(), 10);
    for (index, image_points) in session.samples().image_points().iter().enumerate() {
        assert_eq!(image_points, &seen_grid(6, 9, (index + 1) as f32));
    }
    for object_points in session.samples().object_points() {
        assert_eq!(object_points, CalibrationTarget::new(6, 9).points());
    }

    let action = session.step(SessionEvent::Solver(SolverOutcome::Solved(solved(5))));
    assert_eq!(action, SessionAction::Finish);
    assert_eq!(session.state(), SessionState::Completed);
    let result = session.result().expect("a completed session has a result");
    assert_eq!(result.intrinsics.len(), 9);
    assert_eq!(result.distortion.len(), 5);
    assert_eq!(result.intrinsic(0, 0), Some(800.0f64.to_bits()));
    assert_eq!(result.intrinsic(0, 2), Some(320.0f64.to_bits()));
    assert_eq!(result.intrinsic(1, 2), Some(240.0f64.to_bits()));
    assert_eq!(result.intrinsic(2, 2), Some(1.0f64.to_bits()));
    assert!(session.failure().is_none());
    assert_eq!(session.status(), SessionStatus::Completed { result: solved(5) });
}

#[test]
fn eight_coefficients_are_a_result_too() {
    let mut session = CalibrationSession::new();
    session.step(start(6, 9, 1));
    assert_eq!(session.step(found(6, 9, 0.0)), SessionAction::Solve { captured: 1 });
    session.step(SessionEvent::Solver(SolverOutcome::Solved(solved(8))));
    assert_eq!(session.result().map(|r| r.distortion.len()), Some(8));
    assert_eq!(session.result(), Some(&solved(8)));
}

#[test]
fn nine_good_frames_and_a_cancel_end_in_cancelled() {
    let mut session = CalibrationSession::new();
    session.step(start(6, 9, 10));
    let mut actions = Vec::new();
    for frame in 1..=9usize {
        actions.push(session.step(found(6, 9, frame as f32)));
    }
    assert_eq!(session.sample_count(), 9);
    assert_eq!(session.state(), SessionState::Capturing);
    actions.push(session.step(SessionEvent::Cancel));
    assert_eq!(actions.last(), Some(&SessionAction::Finish));
    assert!(actions.iter().all(|action| !matches!(action, SessionAction::Solve { .. })));
    assert_eq!(session.state(), SessionState::Cancelled);
    assert_eq!(session.status(), SessionStatus::Cancelled);
    assert_eq!(session.sample_count(), 0);
    assert!(session.samples().object_points().is_empty());
    assert!(session.samples().image_points().is_empty());
    assert!(session.result().is_none());
    // the solver's answer, should one come, is not taken
    assert_eq!(
        session.step(SessionEvent::Solver(SolverOutcome::Solved(solved(5)))),
        SessionAction::Ignored
    );
    assert_eq!(session.state(), SessionState::Cancelled);
    assert!(session.result().is_none());
}

#[test]
fn an_eleventh_frame_is_not_taken() {
    let mut session = CalibrationSession::new();
    session.step(start(6, 9, 10));
    for frame in 1..=10usize {
        session.step(found(6, 9, frame as f32));
    }
    assert_eq!(session.step(found(6, 9, 11.0)), SessionAction::Ignored);
    assert_eq!(session.state(), SessionState::Solving);
    assert_eq!(session.sample_count(), 10);
    session.step(SessionEvent::Solver(SolverOutcome::Solved(solved(5))));
    assert_eq!(session.step(found(6, 9, 12.0)), SessionAction::Ignored);
    assert_eq!(session.state(), SessionState::Completed);
    assert_eq!(session.sample_count(), 10);
    assert_eq!(session.samples().image_points()[9], seen_grid(6, 9, 10.0));
}

#[test]
fn frames_without_the_pattern_never_leave_capturing() {
    let mut session = CalibrationSession::new();
    session.step(start(6, 9, 10));
    for _ in 0..1000 {
        assert_eq!(session.step(not_found()), SessionAction::AwaitFrame);
        assert_eq!(session.state(), SessionState::Capturing);
        assert_eq!(session.sample_count(), 0);
    }
    assert_eq!(session.status(), SessionStatus::Capturing { captured: 0 });
}

#[test]
fn frames_without_the_pattern_cost_no_progress() {
    let mut session = CalibrationSession::new();
    session.step(start(2, 2, 3));
    assert_eq!(session.step(found(2, 2, 1.0)), SessionAction::ReportProgress { captured: 1 });
    assert_eq!(session.step(not_found()), SessionAction::AwaitFrame);
    assert_eq!(session.step(not_found()), SessionAction::AwaitFrame);
    assert_eq!(session.step(found(2, 2, 2.0)), SessionAction::ReportProgress { captured: 2 });
    assert_eq!(session.step(not_found()), SessionAction::AwaitFrame);
    assert_eq!(session.sample_count(), 2);
    assert_eq!(session.step(found(2, 2, 3.0)), SessionAction::Solve { captured: 3 });
    assert_eq!(
        session.samples().image_points(),
        &vec![seen_grid(2, 2, 1.0), seen_grid(2, 2, 2.0), seen_grid(2, 2, 3.0)]
    );
}

#[test]
fn a_new_session_after_a_cancel_starts_empty() {
    let mut first = CalibrationSession::new();
    first.step(start(6, 9, 10));
    for frame in 1..=4usize {
        first.step(found(6, 9, frame as f32));
    }
    first.step(SessionEvent::Cancel);
    assert_eq!(first.sample_count(), 0);

    let mut second = CalibrationSession::new();
    assert_eq!(second.step(start(6, 9, 10)), SessionAction::AwaitFrame);
    assert_eq!(second.sample_count(), 0);
    assert!(second.samples().image_points().is_empty());
    assert_eq!(second.step(found(6, 9, 7.0)), SessionAction::ReportProgress { captured: 1 });
    assert_eq!(second.samples().image_points()[0], seen_grid(6, 9, 7.0));
}

#[test]
fn a_failed_solve_ends_in_failed_with_the_reason() {
    let mut session = CalibrationSession::new();
    session.step(start(3, 3, 2));
    session.step(found(3, 3, 0.0));
    session.step(found(3, 3, 0.0));
    let reason = String::from("all views are the same");
    let action = session.step(SessionEvent::Solver(SolverOutcome::Failed(reason.clone())));
    assert_eq!(action, SessionAction::Finish);
    assert_eq!(session.state(), SessionState::Failed);
    assert_eq!(session.failure(), Some(&reason));
    assert!(session.result().is_none());
    assert_eq!(session.status(), SessionStatus::Failed { reason });
    // no second try on the same session
    assert_eq!(
        session.step(SessionEvent::Solver(SolverOutcome::Solved(solved(5)))),
        SessionAction::Ignored
    );
    assert_eq!(session.step(start(3, 3, 2)), SessionAction::Ignored);
    assert_eq!(session.state(), SessionState::Failed);
}

#[test]
fn ended_sessions_take_no_event() {
    let mut cancelled = CalibrationSession::new();
    cancelled.step(start(2, 2, 2));
    cancelled.step(SessionEvent::Cancel);
    let mut completed = CalibrationSession::new();
    completed.step(start(2, 2, 1));
    completed.step(found(2, 2, 0.0));
    completed.step(SessionEvent::Solver(SolverOutcome::Solved(solved(5))));
    for (mut session, state) in
        [(cancelled, SessionState::Cancelled), (completed, SessionState::Completed)]
    {
        assert!(state.is_terminal());
        let count = session.sample_count();
        assert_eq!(session.step(start(6, 9, 10)), SessionAction::Ignored);
        assert_eq!(session.step(found(2, 2, 1.0)), SessionAction::Ignored);
        assert_eq!(session.step(not_found()), SessionAction::Ignored);
        assert_eq!(session.step(SessionEvent::Cancel), SessionAction::Ignored);
        assert_eq!(
            session.step(SessionEvent::Solver(SolverOutcome::Failed(String::from("late")))),
            SessionAction::Ignored
        );
        assert_eq!(session.state(), state);
        assert_eq!(session.sample_count(), count);
        assert_eq!(session.target().rows(), 2);
    }
}

#[test]
fn events_out_of_turn_change_nothing() {
    let mut session = CalibrationSession::new();
    // idle: only a start applies
    assert_eq!(session.step(found(2, 2, 0.0)), SessionAction::Ignored);
    assert_eq!(session.step(SessionEvent::Cancel), SessionAction::Ignored);
    assert_eq!(
        session.step(SessionEvent::Solver(SolverOutcome::Solved(solved(5)))),
        SessionAction::Ignored
    );
    assert_eq!(session.state(), SessionState::Idle);
    session.step(start(2, 2, 1));
    // capturing: a second start and a solver outcome do not apply
    assert_eq!(session.step(start(6, 9, 10)), SessionAction::Ignored);
    assert_eq!(
        session.step(SessionEvent::Solver(SolverOutcome::Solved(solved(5)))),
        SessionAction::Ignored
    );
    assert_eq!(session.state(), SessionState::Capturing);
    assert_eq!(session.required(), 1);
    assert_eq!(session.target().cols(), 2);
    session.step(found(2, 2, 0.0));
    // solving: a cancel and a start do not apply
    assert_eq!(session.step(SessionEvent::Cancel), SessionAction::Ignored);
    assert_eq!(session.step(start(6, 9, 10)), SessionAction::Ignored);
    assert_eq!(session.state(), SessionState::Solving);
    assert_eq!(session.sample_count(), 1);
}

#[test]
fn a_session_that_needs_no_sample_solves_at_once() {
    let mut session = CalibrationSession::new();
    assert_eq!(session.step(start(6, 9, 0)), SessionAction::Solve { captured: 0 });
    assert_eq!(session.state(), SessionState::Solving);
    assert_eq!(session.step(found(6, 9, 0.0)), SessionAction::Ignored);
    assert_eq!(session.sample_count(), 0);
}

#[test]
fn a_sample_keeps_whatever_points_the_detector_gave() {
    let mut session = CalibrationSession::new();
    session.step(start(2, 2, 2));
    let odd = vec![ImagePoint { x_bits: f32::NAN.to_bits(), y_bits: (-0.0f32).to_bits() }];
    session.step(SessionEvent::Frame(Detection::Found(odd.clone())));
    session.step(SessionEvent::Frame(Detection::Found(Vec::new())));
    assert_eq!(session.samples().image_points(), &vec![odd, Vec::new()]);
    assert_eq!(session.samples().object_points()[0].len(), 4);
    assert_eq!(session.samples().object_points()[1].len(), 4);
}

#[test]
fn only_three_states_are_terminal() {
    assert!(!SessionState::Idle.is_terminal());
    assert!(!SessionState::Capturing.is_terminal());
    assert!(!SessionState::Solving.is_terminal());
    assert!(SessionState::Completed.is_terminal());
    assert!(SessionState::Failed.is_terminal());
    assert!(SessionState::Cancelled.is_terminal());
}

#[test]
fn status_names_its_state() {
    assert_eq!(SessionStatus::Idle.state(), SessionState::Idle);
    assert_eq!(SessionStatus::Capturing { captured: 3 }.state(), SessionState::Capturing);
    assert_eq!(SessionStatus::Solving.state(), SessionState::Solving);
    assert_eq!(SessionStatus::Completed { result: solved(5) }.state(), SessionState::Completed);
    assert_eq!(
        SessionStatus::Failed { reason: String::new() }.state(),
        SessionState::Failed
    );
    assert_eq!(SessionStatus::Cancelled.state(), SessionState::Cancelled);
}

#[test]
fn intrinsic_entries_are_read_row_by_row() {
    let result = CalibrationResult {
        intrinsics: [10, 11, 12, 20, 21, 22, 30, 31, 32],
        distortion: vec![1, 2, 3, 4, 5],
    };
    assert_eq!(result.intrinsic(0, 1), Some(11));
    assert_eq!(result.intrinsic(1, 0), Some(20));
    assert_eq!(result.intrinsic(2, 1), Some(31));
    assert_eq!(result.intrinsic(3, 0), None);
    assert_eq!(result.intrinsic(0, 3), None);
    assert_eq!(result.intrinsic(usize::MAX, usize::MAX), None);
    assert_eq!(result.duplicate(), result);
}
