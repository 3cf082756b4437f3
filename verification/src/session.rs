//! The session as a state machine: from a state and an event to the next
//! state and the action to perform.
use vstd::prelude::*;
use crate::config::{
    launch_flags, launch_flags_spec, namespace_bootstrap, namespace_bootstrap_spec, target_url,
    target_url_spec,
};
use crate::protocol::{Action, ActionView, Event, EventView, Fault, Task};

verus! {

/// How far a session has come. A phase is never left for an earlier one, and
/// none stands for a closed session: a session stays open.
#[derive(Clone, Copy, Debug, PartialEq, Eq, Structural)]
pub enum Phase {
    /// Nothing has been asked of the browser yet.
    Created,
    /// The browser is being launched.
    Launching,
    /// The browser runs; the pump is being started.
    StartingPump,
    /// The pump runs; the page is being opened.
    Navigating,
    /// The page has navigated; the script file is being read.
    Reading,
    /// The script is at hand; the injector waits for navigation once more.
    AwaitingNavigation,
    /// The namespace object is being installed in the page.
    InstallingNamespace,
    /// The script is being evaluated in the page.
    EvaluatingScript,
    /// The script has run. The session stays open.
    Injected,
    /// The script file was unreadable and the injection was given up. The
    /// session stays open.
    Abandoned,
    /// The orchestrator or the injector has failed.
    Failed,
}

/// The task that drains the event stream.
#[derive(Clone, Copy, Debug, PartialEq, Eq, Structural)]
pub enum Pump {
    /// Not started yet.
    Absent,
    /// Polling the stream.
    Running,
    /// Failed, for good: nothing restarts it.
    Dead,
}

/// One browser session.
#[derive(Debug)]
pub struct Session {
    phase: Phase,
    pump: Pump,
    path: String,
    script: String,
}

/// A [`Session`] as plain values.
pub ghost struct SessionView {
    pub phase: Phase,
    pub pump: Pump,
    /// Where the script file lies.
    pub path: Seq<char>,
    /// The script's text; empty until the file has been read.
    pub script: Seq<char>,
}

/// The session before anything has happened.
pub open spec fn initial(path: Seq<char>) -> SessionView {
    SessionView { phase: Phase::Created, pump: Pump::Absent, path, script: Seq::empty() }
}

/// The position of a phase in the order in which phases are passed.
pub open spec fn rank(phase: Phase) -> int {
    match phase {
        Phase::Created => 0,
        Phase::Launching => 1,
        Phase::StartingPump => 2,
        Phase::Navigating => 3,
        Phase::Reading => 4,
        Phase::AwaitingNavigation => 5,
        Phase::InstallingNamespace => 6,
        Phase::EvaluatingScript => 7,
        Phase::Injected => 8,
        Phase::Abandoned => 9,
        Phase::Failed => 10,
    }
}

/// Whether the session waits in this phase for the answer to a command that
/// it sent over the browser's connection.
pub open spec fn awaits_response(phase: Phase) -> bool {
    phase == Phase::Navigating || phase == Phase::AwaitingNavigation || phase
        == Phase::InstallingNamespace || phase == Phase::EvaluatingScript
}

/// Whether the event is the answer to a command sent over the browser's
/// connection. Such an answer arrives only while the pump drains the stream.
pub open spec fn is_response(e: EventView) -> bool {
    e is PageOpened || e is PageOpenFailed || e is NavigationComplete || e is NavigationFailed
        || e is EvaluationDone || e is EvaluationFailed
}

/// Whether the event comes from the event stream.
pub open spec fn is_stream_event(e: EventView) -> bool {
    e is Notification || e is StreamEnded || e is StreamFailed
}

/// Whether the session takes the event into account. An event that belongs
/// to another phase is passed over, and so is every answer to a command once
/// the pump no longer runs: the command stays suspended. A pump is started
/// once only.
pub open spec fn accepts(s: SessionView, e: EventView) -> bool {
    if is_stream_event(e) {
        s.pump == Pump::Running
    } else if is_response(e) && s.pump != Pump::Running {
        false
    } else {
        match s.phase {
            Phase::Created => e is Started,
            Phase::Launching => e is Launched || e is LaunchFailed,
            Phase::StartingPump => e is PumpSpawned && s.pump == Pump::Absent,
            Phase::Navigating => e is PageOpened || e is PageOpenFailed,
            Phase::Reading => e is ScriptRead || e is ScriptUnreadable,
            Phase::AwaitingNavigation => e is NavigationComplete || e is NavigationFailed,
            Phase::InstallingNamespace => e is EvaluationDone || e is EvaluationFailed,
            Phase::EvaluatingScript => e is EvaluationDone || e is EvaluationFailed,
            Phase::Injected => false,
            Phase::Abandoned => false,
            Phase::Failed => false,
        }
    }
}

/// The state that follows `s` when `e` happens.
pub open spec fn next(s: SessionView, e: EventView) -> SessionView {
    if !accepts(s, e) {
        s
    } else {
        match e {
            EventView::Started => SessionView { phase: Phase::Launching, ..s },
            EventView::Launched => SessionView { phase: Phase::StartingPump, ..s },
            EventView::PumpSpawned => SessionView {
                phase: Phase::Navigating,
                pump: Pump::Running,
                ..s
            },
            EventView::PageOpened => SessionView { phase: Phase::Reading, ..s },
            EventView::ScriptRead { content } => SessionView {
                phase: Phase::AwaitingNavigation,
                script: content,
                ..s
            },
            EventView::ScriptUnreadable { .. } => SessionView { phase: Phase::Abandoned, ..s },
            EventView::NavigationComplete => SessionView {
                phase: Phase::InstallingNamespace,
                ..s
            },
            EventView::EvaluationDone => if s.phase == Phase::InstallingNamespace {
                SessionView { phase: Phase::EvaluatingScript, ..s }
            } else {
                SessionView { phase: Phase::Injected, ..s }
            },
            EventView::LaunchFailed
            | EventView::PageOpenFailed
            | EventView::NavigationFailed
            | EventView::EvaluationFailed => SessionView { phase: Phase::Failed, ..s },
            EventView::Notification => s,
            EventView::StreamEnded | EventView::StreamFailed => SessionView {
                pump: Pump::Dead,
                ..s
            },
        }
    }
}

/// What the driver is to do when `e` happens in state `s`.
pub open spec fn action(s: SessionView, e: EventView) -> ActionView {
    if !accepts(s, e) {
        ActionView::Wait
    } else {
        match e {
            EventView::Started => ActionView::Launch { flags: launch_flags_spec() },
            EventView::Launched => ActionView::SpawnPump,
            EventView::PumpSpawned => ActionView::OpenPage { url: target_url_spec() },
            EventView::PageOpened => ActionView::ReadScript { path: s.path },
            EventView::ScriptRead { .. } => ActionView::AwaitNavigation,
            EventView::ScriptUnreadable { diagnostic } => ActionView::Report { diagnostic },
            EventView::NavigationComplete => ActionView::Evaluate {
                source: namespace_bootstrap_spec(),
            },
            EventView::EvaluationDone => if s.phase == Phase::InstallingNamespace {
                ActionView::Evaluate { source: s.script }
            } else {
                ActionView::Finish
            },
            EventView::LaunchFailed => ActionView::Fail {
                task: Task::Orchestrator,
                fault: Fault::Launch,
            },
            EventView::PageOpenFailed => ActionView::Fail {
                task: Task::Orchestrator,
                fault: Fault::Navigation,
            },
            EventView::NavigationFailed => ActionView::Fail {
                task: Task::Injector,
                fault: Fault::Navigation,
            },
            EventView::EvaluationFailed => ActionView::Fail {
                task: Task::Injector,
                fault: Fault::Evaluation,
            },
            EventView::Notification => ActionView::Poll,
            EventView::StreamEnded => ActionView::Fail {
                task: Task::Pump,
                fault: Fault::StreamEnded,
            },
            EventView::StreamFailed => ActionView::Fail { task: Task::Pump, fault: Fault::Stream },
        }
    }
}

impl View for Session {
    type V = SessionView;

    closed spec fn view(&self) -> SessionView {
        SessionView { phase: self.phase, pump: self.pump, path: self.path@, script: self.script@ }
    }
}

impl Session {
    /// A session for the script at `path`, with nothing done yet.
    pub fn new(path: String) -> (session: Session)
        ensures
            session@ == initial(path@),
    {
        Session { phase: Phase::Created, pump: Pump::Absent, path, script: String::new() }
    }

    /// How far the session has come.
    pub fn phase(&self) -> (phase: Phase)
        ensures
            phase == self@.phase,
    {
        self.phase
    }

    /// The state of the task that drains the event stream.
    pub fn pump(&self) -> (pump: Pump)
        ensures
            pump == self@.pump,
    {
        self.pump
    }

    /// Whether the session would take `event` into account now.
    pub fn accepts(&self, event: &Event) -> (accepted: bool)
        ensures
            accepted == accepts(self@, event@),
    {
        match event {
            Event::Notification | Event::StreamEnded | Event::StreamFailed => self.pump
                == Pump::Running,
            Event::Started => self.phase == Phase::Created,
            Event::Launched | Event::LaunchFailed => self.phase == Phase::Launching,
            Event::PumpSpawned => self.phase == Phase::StartingPump && self.pump == Pump::Absent,
            Event::ScriptRead { .. } | Event::ScriptUnreadable { .. } => self.phase
                == Phase::Reading,
            Event::PageOpened | Event::PageOpenFailed => self.pump == Pump::Running
                && self.phase == Phase::Navigating,
            Event::NavigationComplete | Event::NavigationFailed => self.pump == Pump::Running
                && self.phase == Phase::AwaitingNavigation,
            Event::EvaluationDone | Event::EvaluationFailed => self.pump == Pump::Running && (
            self.phase == Phase::InstallingNamespace || self.phase == Phase::EvaluatingScript),
        }
    }

    /// Takes note of `event` and says what the driver is to do next.
    pub fn step(&mut self, event: &Event) -> (act: Action)
        ensures
            final(self)@ == next(old(self)@, event@),
            act@ == action(old(self)@, event@),
    {
        if !self.accepts(event) {
            return Action::Wait;
        }
        match event {
            Event::Started => {
                self.phase = Phase::Launching;
                Action::Launch { flags: launch_flags() }
            },
            Event::Launched => {
                self.phase = Phase::StartingPump;
                Action::SpawnPump
            },
            Event::PumpSpawned => {
                self.phase = Phase::Navigating;
                self.pump = Pump::Running;
                Action::OpenPage { url: target_url() }
            },
            Event::PageOpened => {
                self.phase = Phase::Reading;
                Action::ReadScript { path: self.path.clone() }
            },
            Event::ScriptRead { content } => {
                self.phase = Phase::AwaitingNavigation;
                self.script = content.clone();
                Action::AwaitNavigation
            },
            Event::ScriptUnreadable { diagnostic } => {
                self.phase = Phase::Abandoned;
                Action::Report { diagnostic: diagnostic.clone() }
            },
            Event::NavigationComplete => {
                self.phase = Phase::InstallingNamespace;
                Action::Evaluate { source: namespace_bootstrap() }
            },
            Event::EvaluationDone => {
                if self.phase == Phase::InstallingNamespace {
                    self.phase = Phase::EvaluatingScript;
                    Action::Evaluate { source: self.script.clone() }
                } else {
                    self.phase = Phase::Injected;
                    Action::Finish
                }
            },
            Event::LaunchFailed => {
                self.phase = Phase::Failed;
                Action::Fail { task: Task::Orchestrator, fault: Fault::Launch }
            },
            Event::PageOpenFailed => {
                self.phase = Phase::Failed;
                Action::Fail { task: Task::Orchestrator, fault: Fault::Navigation }
            },
            Event::NavigationFailed => {
                self.phase = Phase::Failed;
                Action::Fail { task: Task::Injector, fault: Fault::Navigation }
            },
            Event::EvaluationFailed => {
                self.phase = Phase::Failed;
                Action::Fail { task: Task::Injector, fault: Fault::Evaluation }
            },
            Event::Notification => Action::Poll,
            Event::StreamEnded => {
                self.pump = Pump::Dead;
                Action::Fail { task: Task::Pump, fault: Fault::StreamEnded }
            },
            Event::StreamFailed => {
                self.pump = Pump::Dead;
                Action::Fail { task: Task::Pump, fault: Fault::Stream }
            },
        }
    }
}

} // verus!
