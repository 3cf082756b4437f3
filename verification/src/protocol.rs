//! What a driver reports to a session and what the session asks of it.
use vstd::prelude::*;
use crate::config::texts;

verus! {

/// The concurrent tasks of one session. Each fails on its own; none is
/// supervised.
#[derive(Clone, Copy, Debug, PartialEq, Eq, Structural)]
pub enum Task {
    /// Launches the browser, starts the pump and opens the page.
    Orchestrator,
    /// Drains the browser's event stream.
    Pump,
    /// Prepares the namespace and evaluates the script.
    Injector,
}

/// Why a task ends. None of these is retried or reported to the caller; an
/// unreadable script file is no fault, since the session recovers from it.
#[derive(Clone, Copy, Debug, PartialEq, Eq, Structural)]
pub enum Fault {
    /// The browser did not start, or the handshake failed.
    Launch,
    /// The page could not be opened, or a wait for its navigation failed.
    Navigation,
    /// An evaluation in the page failed.
    Evaluation,
    /// The event stream closed.
    StreamEnded,
    /// The event stream yielded a transport error.
    Stream,
}

/// Something that happened outside the library.
#[derive(Debug, PartialEq, Eq)]
pub enum Event {
    /// The entry call was made.
    Started,
    /// The browser runs and its connection is open.
    Launched,
    /// The browser did not start, or the handshake failed.
    LaunchFailed,
    /// The pump is polling the event stream.
    PumpSpawned,
    /// The page was opened and reported that its navigation is complete.
    PageOpened,
    /// Opening the page, or waiting for its navigation, failed.
    PageOpenFailed,
    /// The script file was read.
    ScriptRead { content: String },
    /// The script file could not be read.
    ScriptUnreadable { diagnostic: String },
    /// The injector's own wait for navigation returned.
    NavigationComplete,
    /// The injector's own wait for navigation failed.
    NavigationFailed,
    /// An evaluation in the page returned.
    EvaluationDone,
    /// An evaluation in the page failed.
    EvaluationFailed,
    /// The pump received a notification from the browser.
    Notification,
    /// The event stream closed.
    StreamEnded,
    /// The event stream yielded a transport error.
    StreamFailed,
}

/// What an [`Event`] holds, as plain values.
pub ghost enum EventView {
    Started,
    Launched,
    LaunchFailed,
    PumpSpawned,
    PageOpened,
    PageOpenFailed,
    ScriptRead { content: Seq<char> },
    ScriptUnreadable { diagnostic: Seq<char> },
    NavigationComplete,
    NavigationFailed,
    EvaluationDone,
    EvaluationFailed,
    Notification,
    StreamEnded,
    StreamFailed,
}

impl View for Event {
    type V = EventView;

    open spec fn view(&self) -> EventView {
        match *self {
            Event::Started => EventView::Started,
            Event::Launched => EventView::Launched,
            Event::LaunchFailed => EventView::LaunchFailed,
            Event::PumpSpawned => EventView::PumpSpawned,
            Event::PageOpened => EventView::PageOpened,
            Event::PageOpenFailed => EventView::PageOpenFailed,
            Event::ScriptRead { content } => EventView::ScriptRead { content: content@ },
            Event::ScriptUnreadable { diagnostic } => EventView::ScriptUnreadable {
                diagnostic: diagnostic@,
            },
            Event::NavigationComplete => EventView::NavigationComplete,
            Event::NavigationFailed => EventView::NavigationFailed,
            Event::EvaluationDone => EventView::EvaluationDone,
            Event::EvaluationFailed => EventView::EvaluationFailed,
            Event::Notification => EventView::Notification,
            Event::StreamEnded => EventView::StreamEnded,
            Event::StreamFailed => EventView::StreamFailed,
        }
    }
}

/// What the driver is to do next.
#[derive(Debug, PartialEq, Eq)]
pub enum Action {
    /// Launch the browser with these startup flags, unchanged.
    Launch { flags: Vec<String> },
    /// Start the task that drains the event stream.
    SpawnPump,
    /// Open the page at this address and wait until it has navigated.
    OpenPage { url: String },
    /// Read the whole file at this path.
    ReadScript { path: String },
    /// Wait until the page confirms that its navigation is complete.
    AwaitNavigation,
    /// Evaluate this source text in the page.
    Evaluate { source: String },
    /// Write this diagnostic to the local output.
    Report { diagnostic: String },
    /// Discard the notification and poll the event stream again.
    Poll,
    /// The named task ends at once, with no retry and no word to the others.
    Fail { task: Task, fault: Fault },
    /// The script has run: the injector has nothing more to do. The session
    /// stays open.
    Finish,
    /// Nothing is to be done; whoever is suspended stays so.
    Wait,
}

/// What an [`Action`] holds, as plain values.
pub ghost enum ActionView {
    Launch { flags: Seq<Seq<char>> },
    SpawnPump,
    OpenPage { url: Seq<char> },
    ReadScript { path: Seq<char> },
    AwaitNavigation,
    Evaluate { source: Seq<char> },
    Report { diagnostic: Seq<char> },
    Poll,
    Fail { task: Task, fault: Fault },
    Finish,
    Wait,
}

impl View for Action {
    type V = ActionView;

    open spec fn view(&self) -> ActionView {
        match *self {
            Action::Launch { flags } => ActionView::Launch { flags: texts(flags@) },
            Action::SpawnPump => ActionView::SpawnPump,
            Action::OpenPage { url } => ActionView::OpenPage { url: url@ },
            Action::ReadScript { path } => ActionView::ReadScript { path: path@ },
            Action::AwaitNavigation => ActionView::AwaitNavigation,
            Action::Evaluate { source } => ActionView::Evaluate { source: source@ },
            Action::Report { diagnostic } => ActionView::Report { diagnostic: diagnostic@ },
            Action::Poll => ActionView::Poll,
            Action::Fail { task, fault } => ActionView::Fail { task, fault },
            Action::Finish => ActionView::Finish,
            Action::Wait => ActionView::Wait,
        }
    }
}

impl ActionView {
    /// Whether the action is a command that travels over the browser's
    /// connection, and so completes only while the pump drains it.
    pub open spec fn is_command(self) -> bool {
        self is OpenPage || self is AwaitNavigation || self is Evaluate
    }
}

} // verus!
