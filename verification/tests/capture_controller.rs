use camera_calibration::capture::{CaptureAction, CaptureEvent, CaptureState};
use camera_calibration::controller::{
    ControllerAction, SessionController, StartRequest, DEFAULT_REQUIRED_SAMPLES,
};
use camera_calibration::session::{SessionEvent, SessionStatus};
use camera_calibration::solver::CalibrationResult;
use camera_calibration::target::CalibrationType;

fn request() -> StartRequest {
    StartRequest { kind: CalibrationType::ChessBoard, rows: 6, cols: 9, required: 10 }
}

#[test]
fn capture_reads_until_told_to_stop() {
    let mut state = CaptureState::start();
    assert_eq!(state, CaptureState::Running);
    let mut reads = 0;
    for _ in 0..5 {
        let (next, action) = state.step(CaptureEvent::Poll { stop_requested: false });
        assert_eq!((next, action), (CaptureState::Running, CaptureAction::ReadFrame));
        reads += 1;
        let (next, action) = next.step(CaptureEvent::FrameRead { empty: false });
        assert_eq!((next, action), (CaptureState::Running, CaptureAction::Publish { archive: true }));
        state = next;
    }
    assert_eq!(reads, 5);
    assert!(!state.has_ended());
    let (state, action) = state.step(CaptureEvent::Poll { stop_requested: true });
    assert_eq!((state, action), (CaptureState::Stopped, CaptureAction::Release));
    assert!(state.has_ended());
}

#[test]
fn capture_does_nothing_after_a_stop() {
    let (stopped, _) = CaptureState::start().step(CaptureEvent::Poll { stop_requested: true });
    let events = [
        CaptureEvent::Poll { stop_requested: false },
        CaptureEvent::Poll { stop_requested: true },
        CaptureEvent::FrameRead { empty: false },
        CaptureEvent::FrameRead { empty: true },
        CaptureEvent::ReadFailed,
        CaptureEvent::SinkFailed,
    ];
    for event in events {
        assert_eq!(stopped.step(event), (CaptureState::Stopped, CaptureAction::Halt));
    }
}

#[test]
fn capture_fails_on_a_failed_read_and_stays_failed() {
    let (failed, action) = CaptureState::start().step(CaptureEvent::ReadFailed);
    assert_eq!((failed, action), (CaptureState::Failed, CaptureAction::Abort));
    assert!(failed.has_ended());
    assert_eq!(
        failed.step(CaptureEvent::Poll { stop_requested: false }),
        (CaptureState::Failed, CaptureAction::Halt)
    );
    assert_eq!(
        failed.step(CaptureEvent::Poll { stop_requested: true }),
        (CaptureState::Failed, CaptureAction::Halt)
    );
}

#[test]
fn capture_survives_a_failed_sink() {
    let running = CaptureState::start();
    assert_eq!(
        running.step(CaptureEvent::SinkFailed),
        (CaptureState::Running, CaptureAction::Continue)
    );
}

#[test]
fn capture_does_not_archive_a_frame_without_pixels() {
    let running = CaptureState::start();
    assert_eq!(
        running.step(CaptureEvent::FrameRead { empty: true }),
        (CaptureState::Running, CaptureAction::Publish { archive: false })
    );
}

#[test]
fn selection_names_the_kind() {
    assert_eq!(CalibrationType::from_index(0), Some(CalibrationType::ChessBoard));
    assert_eq!(CalibrationType::from_index(1), Some(CalibrationType::CircleGrid));
    assert_eq!(CalibrationType::from_index(2), Some(CalibrationType::RabbitPAruco));
    assert_eq!(CalibrationType::from_index(3), None);
    assert_eq!(CalibrationType::from_index(-1), None);
    assert_eq!(CalibrationType::from_index(i32::MAX), None);
    assert_eq!(CalibrationType::from_index(i32::MIN), None);
}

#[test]
fn request_from_selection_asks_for_ten_samples() {
    assert_eq!(DEFAULT_REQUIRED_SAMPLES, 10);
    assert_eq!(StartRequest::from_selection(0, 6, 9), Some(request()));
    assert_eq!(
        StartRequest::from_selection(1, 4, 11),
        Some(StartRequest { kind: CalibrationType::CircleGrid, rows: 4, cols: 11, required: 10 })
    );
    assert_eq!(
        StartRequest::from_selection(2, -3, 0),
        Some(StartRequest { kind: CalibrationType::RabbitPAruco, rows: -3, cols: 0, required: 10 })
    );
    assert_eq!(StartRequest::from_selection(7, 6, 9), None);
}

#[test]
fn request_becomes_the_start_event() {
    assert_eq!(
        request().event(),
        SessionEvent::Start { kind: CalibrationType::ChessBoard, rows: 6, cols: 9, required: 10 }
    );
}

#[test]
fn controller_starts_one_session() {
    let mut controller = SessionController::new();
    assert!(!controller.is_active());
    assert_eq!(controller.request_start(request()), ControllerAction::Spawn(request()));
    assert!(controller.is_active());
}

#[test]
fn controller_is_busy_while_a_session_runs() {
    let mut controller = SessionController::new();
    controller.request_start(request());
    let other = StartRequest { kind: CalibrationType::CircleGrid, rows: 4, cols: 11, required: 3 };
    let mut spawned = 1;
    for _ in 0..4 {
        match controller.request_start(other) {
            ControllerAction::Busy => {}
            ControllerAction::Spawn(_) => spawned += 1,
            action => panic!("neither busy nor spawn: {:?}", action),
        }
        assert!(controller.is_active());
    }
    assert_eq!(spawned, 1);
    // reports that do not end the session do not free the controller
    assert_eq!(controller.relay(&SessionStatus::Capturing { captured: 4 }), ControllerAction::Show);
    assert_eq!(controller.relay(&SessionStatus::Solving), ControllerAction::Show);
    assert_eq!(controller.request_start(other), ControllerAction::Busy);
}

#[test]
fn controller_is_free_again_after_the_session_ended() {
    let ends = [
        SessionStatus::Cancelled,
        SessionStatus::Failed { reason: String::from("no convergence") },
        SessionStatus::Completed {
            result: CalibrationResult { intrinsics: [0; 9], distortion: vec![0; 5] },
        },
    ];
    for end in ends {
        let mut controller = SessionController::new();
        controller.request_start(request());
        assert_eq!(controller.relay(&SessionStatus::Idle), ControllerAction::Show);
        assert_eq!(controller.relay(&end), ControllerAction::ShowAndJoin);
        assert!(!controller.is_active());
        assert_eq!(controller.relay(&end), ControllerAction::Ignore);
        assert_eq!(controller.request_start(request()), ControllerAction::Spawn(request()));
    }
}

#[test]
fn controller_passes_a_cancel_to_the_running_session_only() {
    let mut controller = SessionController::new();
    assert_eq!(controller.request_cancel(), ControllerAction::Ignore);
    assert!(!controller.is_active());
    controller.request_start(request());
    assert_eq!(controller.request_cancel(), ControllerAction::SignalCancel);
    // the session is alive until it reports that it has ended
    assert!(controller.is_active());
    assert_eq!(controller.relay(&SessionStatus::Cancelled), ControllerAction::ShowAndJoin);
    assert_eq!(controller.request_cancel(), ControllerAction::Ignore);
}

#[test]
fn controller_spawns_one_more_than_it_joins_while_active() {
    let mut controller = SessionController::new();
    let mut spawned = 0;
    let mut joined = 0;
    for round in 0..12 {
        let action = match round % 4 {
            0 | 1 => controller.request_start(request()),
            2 => controller.relay(&SessionStatus::Capturing { captured: round }),
            _ => controller.relay(&SessionStatus::Cancelled),
        };
        match action {
            ControllerAction::Spawn(_) => spawned += 1,
            ControllerAction::ShowAndJoin => joined += 1,
            _ => {}
        }
        assert_eq!(spawned, joined + usize::from(controller.is_active()));
    }
    assert_eq!(spawned, 3);
    assert_eq!(joined, 3);
}
