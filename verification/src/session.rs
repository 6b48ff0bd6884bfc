//! The calibration session: collect the required number of good samples,
//! then solve once.
//!
//! The session decides; it does no work of its own. Whoever drives it runs
//! the detector on each frame and the solver on the full sample set, and
//! hands the outcomes in as events.

use vstd::prelude::*;
use crate::samples::{Detection, SampleSet, SampleSetModel};
use crate::solver::{CalibrationResult, ResultModel, SolverOutcome};
use crate::target::{copy_points, CalibrationTarget, CalibrationType, TargetModel};

verus! {

/// Where a session stands.
#[derive(Clone, Copy, Debug, PartialEq, Eq, Structural)]
pub enum SessionState {
    Idle,
    Capturing,
    Solving,
    Completed,
    Failed,
    Cancelled,
}

impl SessionState {
    /// A session that is completed, failed or cancelled goes nowhere else.
    pub open spec fn terminal(self) -> bool {
        self is Completed || self is Failed || self is Cancelled
    }

    /// Whether the state is one of the three that end a session.
    pub fn is_terminal(self) -> (terminal: bool)
        ensures
            terminal == self.terminal(),
    {
        match self {
            SessionState::Completed | SessionState::Failed | SessionState::Cancelled => true,
            _ => false,
        }
    }
}

/// What can happen to a session.
#[derive(Debug, PartialEq, Eq)]
pub enum SessionEvent {
    /// A request to start capturing for a grid of the given size, until
    /// `required` samples are in.
    Start { kind: CalibrationType, rows: i32, cols: i32, required: usize },
    /// The detector has looked at one frame.
    Frame(Detection),
    /// The session is to be given up.
    Cancel,
    /// The solver has returned.
    Solver(SolverOutcome),
}

/// What the driver of a session is to do after an event.
#[derive(Clone, Copy, Debug, PartialEq, Eq, Structural)]
pub enum SessionAction {
    /// The event does not apply in this state; nothing has changed.
    Ignored,
    /// Wait for the next frame and run the detector on it.
    AwaitFrame,
    /// A sample was accepted: report the new count, then wait for the next
    /// frame.
    ReportProgress { captured: usize },
    /// The sample set is full: report the count, then run the solver on it.
    Solve { captured: usize },
    /// The session has ended: report how.
    Finish,
}

/// What a session is: its state and everything it holds.
pub ghost struct SessionModel {
    pub state: SessionState,
    pub kind: CalibrationType,
    pub target: TargetModel,
    pub samples: SampleSetModel,
    pub result: Option<ResultModel>,
    pub failure: Option<Seq<char>>,
}

impl SessionModel {
    /// A session that was never started.
    pub open spec fn idle() -> SessionModel {
        SessionModel {
            state: SessionState::Idle,
            kind: CalibrationType::ChessBoard,
            target: TargetModel::of_grid(0, 0),
            samples: SampleSetModel::empty(0),
            result: None,
            failure: None,
        }
    }

    /// Number of samples that the session needs before it solves.
    pub open spec fn required(self) -> nat {
        self.samples.capacity
    }

    /// Number of samples accepted so far.
    pub open spec fn captured(self) -> nat {
        self.samples.samples.len()
    }

    /// What holds of every session, whatever has happened to it: the sample
    /// set never outgrows the required count, every sample carries the
    /// target's reference points, capturing goes on exactly while samples
    /// are missing, and a result or a reason is there exactly in the state
    /// that carries it.
    pub open spec fn valid(self) -> bool {
        &&& self.target.valid()
        &&& self.samples.valid()
        &&& self.samples.capacity <= usize::MAX
        &&& forall|i: int|
            0 <= i < self.samples.samples.len() ==> (#[trigger] self.samples.samples[i]).object_points
                == self.target.points
        &&& match self.state {
            SessionState::Idle => self == SessionModel::idle(),
            SessionState::Capturing => self.captured() < self.required(),
            SessionState::Cancelled => self.captured() == 0,
            _ => self.captured() == self.required(),
        }
        &&& self.result is Some <==> self.state is Completed
        &&& self.failure is Some <==> self.state is Failed
    }

    /// The session after one event.
    ///
    /// - Idle, on a start request: the target is built and capturing begins;
    ///   where no sample is required, solving begins at once.
    /// - Capturing, on a frame in which the pattern was found: the sample is
    ///   appended; with the last one missing, solving begins.
    /// - Capturing, on a cancellation: the samples are thrown away.
    /// - Solving, on the solver's outcome: completed with the result, or
    ///   failed with the reason.
    /// - Everything else changes nothing.
    pub open spec fn step(self, event: SessionEvent) -> SessionModel {
        match (self.state, event) {
            (SessionState::Idle, SessionEvent::Start { kind, rows, cols, required }) => SessionModel {
                state: if required == 0 {
                    SessionState::Solving
                } else {
                    SessionState::Capturing
                },
                kind,
                target: TargetModel::of_grid(rows as int, cols as int),
                samples: SampleSetModel::empty(required as nat),
                result: None,
                failure: None,
            },
            (SessionState::Capturing, SessionEvent::Frame(Detection::Found(points))) => SessionModel {
                state: if self.captured() + 1 == self.required() {
                    SessionState::Solving
                } else {
                    SessionState::Capturing
                },
                samples: self.samples.with_sample(self.target.points, points@),
                ..self
            },
            (SessionState::Capturing, SessionEvent::Cancel) => SessionModel {
                state: SessionState::Cancelled,
                samples: SampleSetModel::empty(self.samples.capacity),
                ..self
            },
            (SessionState::Solving, SessionEvent::Solver(SolverOutcome::Solved(result))) => SessionModel {
                state: SessionState::Completed,
                result: Some(result@),
                ..self
            },
            (SessionState::Solving, SessionEvent::Solver(SolverOutcome::Failed(reason))) => SessionModel {
                state: SessionState::Failed,
                failure: Some(reason@),
                ..self
            },
            _ => self,
        }
    }

    /// What the driver is told after one event.
    pub open spec fn action(self, event: SessionEvent) -> SessionAction {
        match (self.state, event) {
            (SessionState::Idle, SessionEvent::Start { required, .. }) => if required == 0 {
                SessionAction::Solve { captured: 0 }
            } else {
                SessionAction::AwaitFrame
            },
            (SessionState::Capturing, SessionEvent::Frame(Detection::NotFound)) => SessionAction::AwaitFrame,
            (SessionState::Capturing, SessionEvent::Frame(Detection::Found(_))) => if self.captured() + 1
                == self.required() {
                SessionAction::Solve { captured: (self.captured() + 1) as usize }
            } else {
                SessionAction::ReportProgress { captured: (self.captured() + 1) as usize }
            },
            (SessionState::Capturing, SessionEvent::Cancel) => SessionAction::Finish,
            (SessionState::Solving, SessionEvent::Solver(_)) => SessionAction::Finish,
            _ => SessionAction::Ignored,
        }
    }

    /// The session after a run of events, the first one first.
    pub open spec fn run(self, events: Seq<SessionEvent>) -> SessionModel
        decreases events.len(),
    {
        if events.len() == 0 {
            self
        } else {
            self.run(events.drop_last()).step(events.last())
        }
    }

    /// What the driver is told during a run of events, one action per event.
    pub open spec fn actions(self, events: Seq<SessionEvent>) -> Seq<SessionAction> {
        Seq::new(events.len(), |i: int| self.run(events.take(i)).action(events[i]))
    }

    /// What is shown of the session.
    pub open spec fn status(self) -> StatusModel {
        match self.state {
            SessionState::Idle => StatusModel::Idle,
            SessionState::Capturing => StatusModel::Capturing { captured: self.captured() },
            SessionState::Solving => StatusModel::Solving,
            SessionState::Completed => StatusModel::Completed { result: self.result->0 },
            SessionState::Failed => StatusModel::Failed { reason: self.failure->0 },
            SessionState::Cancelled => StatusModel::Cancelled,
        }
    }
}

/// What a status report says.
pub ghost enum StatusModel {
    Idle,
    Capturing { captured: nat },
    Solving,
    Completed { result: ResultModel },
    Failed { reason: Seq<char> },
    Cancelled,
}

impl StatusModel {
    /// The state that the report speaks of.
    pub open spec fn state(self) -> SessionState {
        match self {
            StatusModel::Idle => SessionState::Idle,
            StatusModel::Capturing { .. } => SessionState::Capturing,
            StatusModel::Solving => SessionState::Solving,
            StatusModel::Completed { .. } => SessionState::Completed,
            StatusModel::Failed { .. } => SessionState::Failed,
            StatusModel::Cancelled => SessionState::Cancelled,
        }
    }
}

/// A report of where a session stands, as it is shown to the user.
#[derive(Debug, PartialEq, Eq)]
pub enum SessionStatus {
    Idle,
    Capturing { captured: usize },
    Solving,
    Completed { result: CalibrationResult },
    Failed { reason: String },
    Cancelled,
}

impl View for SessionStatus {
    type V = StatusModel;

    open spec fn view(&self) -> StatusModel {
        match self {
            SessionStatus::Idle => StatusModel::Idle,
            SessionStatus::Capturing { captured } => StatusModel::Capturing { captured: *captured as nat },
            SessionStatus::Solving => StatusModel::Solving,
            SessionStatus::Completed { result } => StatusModel::Completed { result: result@ },
            SessionStatus::Failed { reason } => StatusModel::Failed { reason: reason@ },
            SessionStatus::Cancelled => StatusModel::Cancelled,
        }
    }
}

impl SessionStatus {
    /// The state that the report speaks of.
    pub fn state(&self) -> (state: SessionState)
        ensures
            state == self@.state(),
    {
        match self {
            SessionStatus::Idle => SessionState::Idle,
            SessionStatus::Capturing { .. } => SessionState::Capturing,
            SessionStatus::Solving => SessionState::Solving,
            SessionStatus::Completed { .. } => SessionState::Completed,
            SessionStatus::Failed { .. } => SessionState::Failed,
            SessionStatus::Cancelled => SessionState::Cancelled,
        }
    }
}

/// One calibration session. It starts idle, captures samples until the
/// required number is in, has them solved once, and ends completed, failed or
/// cancelled.
#[derive(Debug)]
pub struct CalibrationSession {
    state: SessionState,
    kind: CalibrationType,
    target: CalibrationTarget,
    samples: SampleSet,
    result: Option<CalibrationResult>,
    failure: Option<String>,
}

impl View for CalibrationSession {
    type V = SessionModel;

    closed spec fn view(&self) -> SessionModel {
        SessionModel {
            state: self.state,
            kind: self.kind,
            target: self.target@,
            samples: self.samples@,
            result: match self.result {
                Some(result) => Some(result@),
                None => None,
            },
            failure: match self.failure {
                Some(reason) => Some(reason@),
                None => None,
            },
        }
    }
}

impl CalibrationSession {
    #[verifier::type_invariant]
    spec fn well_formed(self) -> bool {
        self@.valid()
    }

    /// A session that waits to be started.
    pub fn new() -> (session: CalibrationSession)
        ensures
            session@ == SessionModel::idle(),
            session@.valid(),
    {
        let target = CalibrationTarget::new(0, 0);
        let samples = SampleSet::new(0);
        proof {
            assert(target@.valid());
        }
        CalibrationSession {
            state: SessionState::Idle,
            kind: CalibrationType::ChessBoard,
            target,
            samples,
            result: None,
            failure: None,
        }
    }

    /// Takes the session through one event and says what to do next.
    pub fn step(&mut self, event: SessionEvent) -> (action: SessionAction)
        ensures
            final(self)@ == old(self)@.step(event),
            action == old(self)@.action(event),
            old(self)@.valid(),
            final(self)@.valid(),
    {
        let mut current = CalibrationSession::new();
        core::mem::swap(self, &mut current);
        let (next, action) = current.advance(event);
        *self = next;
        action
    }

    /// The session after one event, and what to do next.
    fn advance(self, event: SessionEvent) -> (next: (CalibrationSession, SessionAction))
        ensures
            next.0@ == self@.step(event),
            next.1 == self@.action(event),
            self@.valid(),
            next.0@.valid(),
    {
        proof {
            use_type_invariant(&self);
        }
        let ghost before = self@;
        let CalibrationSession { state, kind, target, samples, result, failure } = self;
        match (state, event) {
            (SessionState::Idle, SessionEvent::Start { kind, rows, cols, required }) => {
                let target = CalibrationTarget::new(rows, cols);
                let samples = SampleSet::new(required);
                let (state, action) = if required == 0 {
                    (SessionState::Solving, SessionAction::Solve { captured: 0 })
                } else {
                    (SessionState::Capturing, SessionAction::AwaitFrame)
                };
                (CalibrationSession { state, kind, target, samples, result: None, failure: None }, action)
            },
            (SessionState::Capturing, SessionEvent::Frame(Detection::NotFound)) => {
                (
                    CalibrationSession { state, kind, target, samples, result, failure },
                    SessionAction::AwaitFrame,
                )
            },
            (SessionState::Capturing, SessionEvent::Frame(Detection::Found(points))) => {
                let mut samples = samples;
                let reference = copy_points(target.points());
                let accepted = samples.push(reference, points);
                assert(accepted);
                let captured = samples.len();
                let (state, action) = if samples.is_full() {
                    (SessionState::Solving, SessionAction::Solve { captured })
                } else {
                    (SessionState::Capturing, SessionAction::ReportProgress { captured })
                };
                (CalibrationSession { state, kind, target, samples, result, failure }, action)
            },
            (SessionState::Capturing, SessionEvent::Cancel) => {
                let mut samples = samples;
                samples.clear();
                (
                    CalibrationSession {
                        state: SessionState::Cancelled,
                        kind,
                        target,
                        samples,
                        result,
                        failure,
                    },
                    SessionAction::Finish,
                )
            },
            (SessionState::Solving, SessionEvent::Solver(SolverOutcome::Solved(solved))) => {
                (
                    CalibrationSession {
                        state: SessionState::Completed,
                        kind,
                        target,
                        samples,
                        result: Some(solved),
                        failure,
                    },
                    SessionAction::Finish,
                )
            },
            (SessionState::Solving, SessionEvent::Solver(SolverOutcome::Failed(reason))) => {
                (
                    CalibrationSession {
                        state: SessionState::Failed,
                        kind,
                        target,
                        samples,
                        result,
                        failure: Some(reason),
                    },
                    SessionAction::Finish,
                )
            },
            (state, _) => {
                (
                    CalibrationSession { state, kind, target, samples, result, failure },
                    SessionAction::Ignored,
                )
            },
        }
    }

    /// Where the session stands.
    pub fn state(&self) -> (state: SessionState)
        ensures
            state == self@.state,
            self@.valid(),
    {
        proof {
            use_type_invariant(self);
        }
        self.state
    }

    /// The kind of pattern that the session was started for.
    pub fn kind(&self) -> (kind: CalibrationType)
        ensures
            kind == self@.kind,
    {
        self.kind
    }

    /// The pattern that the session looks for.
    pub fn target(&self) -> (target: &CalibrationTarget)
        ensures
            target@ == self@.target,
    {
        &self.target
    }

    /// The samples accepted so far.
    pub fn samples(&self) -> (samples: &SampleSet)
        ensures
            samples@ == self@.samples,
            self@.valid(),
    {
        proof {
            use_type_invariant(self);
        }
        &self.samples
    }

    /// Number of samples accepted so far.
    pub fn sample_count(&self) -> (captured: usize)
        ensures
            captured == self@.captured(),
            captured <= self@.required(),
    {
        self.samples.len()
    }

    /// Number of samples that the session needs before it solves.
    pub fn required(&self) -> (required: usize)
        ensures
            required == self@.required(),
    {
        self.samples.capacity()
    }

    /// The calibration, once the session is completed.
    pub fn result(&self) -> (result: Option<&CalibrationResult>)
        ensures
            result is Some <==> self@.state is Completed,
            result matches Some(r) ==> self@.result == Some(r@),
    {
        proof {
            use_type_invariant(self);
        }
        self.result.as_ref()
    }

    /// Why the solve failed, once the session has failed.
    pub fn failure(&self) -> (reason: Option<&String>)
        ensures
            reason is Some <==> self@.state is Failed,
            reason matches Some(r) ==> self@.failure == Some(r@),
    {
        proof {
            use_type_invariant(self);
        }
        self.failure.as_ref()
    }

    /// A report of where the session stands.
    pub fn status(&self) -> (status: SessionStatus)
        ensures
            status@ == self@.status(),
    {
        proof {
            use_type_invariant(self);
        }
        match self.state {
            SessionState::Idle => SessionStatus::Idle,
            SessionState::Capturing => SessionStatus::Capturing { captured: self.samples.len() },
            SessionState::Solving => SessionStatus::Solving,
            SessionState::Completed => match &self.result {
                Some(result) => SessionStatus::Completed { result: result.duplicate() },
                None => SessionStatus::Idle,
            },
            SessionState::Failed => match &self.failure {
                Some(reason) => SessionStatus::Failed { reason: reason.clone() },
                None => SessionStatus::Idle,
            },
            SessionState::Cancelled => SessionStatus::Cancelled,
        }
    }
}

} // verus!
