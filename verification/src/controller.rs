//! The session controller: it takes start and cancel requests from the user
//! interface, lets at most one session run, and passes on what the session
//! reports.
//!
//! The controller decides; whoever owns it spawns and joins the session's
//! thread and shows the reports.

use vstd::prelude::*;
use crate::session::{SessionEvent, SessionState, SessionStatus};
use crate::target::CalibrationType;

verus! {

/// Number of samples that a session collects unless told otherwise.
pub const DEFAULT_REQUIRED_SAMPLES: usize = 10;

/// A request to start a calibration session.
#[derive(Clone, Copy, Debug, PartialEq, Eq, Structural)]
pub struct StartRequest {
    pub kind: CalibrationType,
    pub rows: i32,
    pub cols: i32,
    pub required: usize,
}

impl StartRequest {
    /// The request that a selection in the user interface stands for.
    pub open spec fn of_selection(selected: int, rows: i32, cols: i32) -> Option<StartRequest> {
        match CalibrationType::of_index(selected) {
            Some(kind) => Some(StartRequest { kind, rows, cols, required: 10 }),
            None => None,
        }
    }

    /// Makes a request from what the user interface hands over: the number
    /// of the selected kind and the grid's size. The session is to collect
    /// the default number of samples. A number that names no kind makes no
    /// request.
    pub fn from_selection(selected: i32, rows: i32, cols: i32) -> (request: Option<StartRequest>)
        ensures
            request == StartRequest::of_selection(selected as int, rows, cols),
    {
        match CalibrationType::from_index(selected) {
            Some(kind) => Some(StartRequest { kind, rows, cols, required: DEFAULT_REQUIRED_SAMPLES }),
            None => None,
        }
    }

    /// The event that starts a session as requested.
    pub fn event(self) -> (event: SessionEvent)
        ensures
            event == (SessionEvent::Start {
                kind: self.kind,
                rows: self.rows,
                cols: self.cols,
                required: self.required,
            }),
    {
        SessionEvent::Start {
            kind: self.kind,
            rows: self.rows,
            cols: self.cols,
            required: self.required,
        }
    }
}

/// What can happen to a controller.
pub ghost enum ControllerEvent {
    /// The user asks for a session.
    Start(StartRequest),
    /// The user asks to give the session up.
    Cancel,
    /// The session reports that it is in the given state.
    Status(SessionState),
}

/// What the owner of the controller is to do.
#[derive(Clone, Copy, Debug, PartialEq, Eq, Structural)]
pub enum ControllerAction {
    /// Start a session on a thread of its own, as requested.
    Spawn(StartRequest),
    /// Tell the user that a session is running; start nothing.
    Busy,
    /// Raise the running session's cancel signal.
    SignalCancel,
    /// Show the report.
    Show,
    /// Show the report, then join the session's thread and let it go.
    ShowAndJoin,
    /// There is no session that this could concern; do nothing.
    Ignore,
}

/// What a controller is: whether a session is alive.
pub ghost struct ControllerModel {
    pub active: bool,
}

impl ControllerModel {
    /// A controller with no session.
    pub open spec fn vacant() -> ControllerModel {
        ControllerModel { active: false }
    }

    /// The controller after one event. A session is alive from the start
    /// request that is granted until it reports a state that ends it.
    pub open spec fn after(self, event: ControllerEvent) -> ControllerModel {
        match event {
            ControllerEvent::Start(_) => ControllerModel { active: true },
            ControllerEvent::Cancel => self,
            ControllerEvent::Status(state) => ControllerModel {
                active: self.active && !state.terminal(),
            },
        }
    }

    /// What the owner is told after one event.
    pub open spec fn action(self, event: ControllerEvent) -> ControllerAction {
        match event {
            ControllerEvent::Start(request) => if self.active {
                ControllerAction::Busy
            } else {
                ControllerAction::Spawn(request)
            },
            ControllerEvent::Cancel => if self.active {
                ControllerAction::SignalCancel
            } else {
                ControllerAction::Ignore
            },
            ControllerEvent::Status(state) => if !self.active {
                ControllerAction::Ignore
            } else if state.terminal() {
                ControllerAction::ShowAndJoin
            } else {
                ControllerAction::Show
            },
        }
    }

    /// The controller after a run of events, the first one first.
    pub open spec fn run(self, events: Seq<ControllerEvent>) -> ControllerModel
        decreases events.len(),
    {
        if events.len() == 0 {
            self
        } else {
            self.run(events.drop_last()).after(events.last())
        }
    }

    /// Number of sessions that the owner was told to spawn during a run of
    /// events.
    pub open spec fn spawned(self, events: Seq<ControllerEvent>) -> nat
        decreases events.len(),
    {
        if events.len() == 0 {
            0
        } else if self.run(events.drop_last()).action(events.last()) is Spawn {
            self.spawned(events.drop_last()) + 1
        } else {
            self.spawned(events.drop_last())
        }
    }

    /// Number of sessions that the owner was told to join during a run of
    /// events.
    pub open spec fn joined(self, events: Seq<ControllerEvent>) -> nat
        decreases events.len(),
    {
        if events.len() == 0 {
            0
        } else if self.run(events.drop_last()).action(events.last()) is ShowAndJoin {
            self.joined(events.drop_last()) + 1
        } else {
            self.joined(events.drop_last())
        }
    }
}

/// Lets at most one calibration session run at a time.
#[derive(Debug)]
pub struct SessionController {
    active: bool,
}

impl View for SessionController {
    type V = ControllerModel;

    closed spec fn view(&self) -> ControllerModel {
        ControllerModel { active: self.active }
    }
}

impl SessionController {
    /// A controller with no session.
    pub fn new() -> (controller: SessionController)
        ensures
            controller@ == ControllerModel::vacant(),
    {
        SessionController { active: false }
    }

    /// Whether a session is alive.
    pub fn is_active(&self) -> (active: bool)
        ensures
            active == self@.active,
    {
        self.active
    }

    /// Handles a start request: while a session is alive the answer is
    /// `Busy` and nothing changes; otherwise the session is to be spawned
    /// and counts as alive from now on.
    pub fn request_start(&mut self, request: StartRequest) -> (action: ControllerAction)
        ensures
            final(self)@ == old(self)@.after(ControllerEvent::Start(request)),
            action == old(self)@.action(ControllerEvent::Start(request)),
    {
        if self.active {
            ControllerAction::Busy
        } else {
            self.active = true;
            ControllerAction::Spawn(request)
        }
    }

    /// Handles a cancel request: the running session's signal is to be
    /// raised; without a session there is nothing to do.
    pub fn request_cancel(&mut self) -> (action: ControllerAction)
        ensures
            final(self)@ == old(self)@.after(ControllerEvent::Cancel),
            action == old(self)@.action(ControllerEvent::Cancel),
    {
        if self.active {
            ControllerAction::SignalCancel
        } else {
            ControllerAction::Ignore
        }
    }

    /// Handles a report of the session: it is to be shown, and with a state
    /// that ends the session the thread is to be joined; the session then
    /// no longer counts as alive.
    pub fn relay(&mut self, status: &SessionStatus) -> (action: ControllerAction)
        ensures
            final(self)@ == old(self)@.after(ControllerEvent::Status(status@.state())),
            action == old(self)@.action(ControllerEvent::Status(status@.state())),
    {
        if !self.active {
            ControllerAction::Ignore
        } else if status.state().is_terminal() {
            self.active = false;
            ControllerAction::ShowAndJoin
        } else {
            ControllerAction::Show
        }
    }
}

/// A start request while a session is alive is answered with `Busy`: no
/// second session is spawned, and the controller stays as it is.
pub proof fn law_busy_while_active(controller: ControllerModel, request: StartRequest)
    requires
        controller.active,
    ensures
        controller.action(ControllerEvent::Start(request)) == ControllerAction::Busy,
        controller.after(ControllerEvent::Start(request)) == controller,
{
}

/// At most one session is alive at any time: whatever is asked of a new
/// controller and whatever is reported to it, the sessions spawned are one
/// more than the sessions joined while a session is alive, and as many
/// otherwise.
pub proof fn law_one_session_at_a_time(events: Seq<ControllerEvent>)
    ensures
        ControllerModel::vacant().spawned(events) == ControllerModel::vacant().joined(events) + (if ControllerModel::vacant().run(
            events,
        ).active {
            1nat
        } else {
            0nat
        }),
    decreases events.len(),
{
    if events.len() > 0 {
        law_one_session_at_a_time(events.drop_last());
    }
}

} // verus!
