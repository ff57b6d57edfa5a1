//! The screencast of one output: the handshake with niri's ScreenCast interface, and the session
//! that it opens.
//!
//! The D-Bus connection is the session's lifetime, so a thread of its own keeps it. What that
//! thread does is decided here. It performs [`CastThread::action`] and hands back what came of it:
//! connect to the session bus, create a session, record the output, subscribe to the signal that
//! names the PipeWire node, start, and wait for that signal. Subscribing comes before starting,
//! because the signal could otherwise pass unheard. The thread then reports the node to whoever
//! opened the cast, parks until told to stop, and stops the session.
//! Where the opener gives the cast up before that, the pending step is broken off and the thread
//! ends, which closes the connection.

use vstd::prelude::*;
use vstd::string::*;

use crate::text::{concat2, concat3, debug, debug_text};

verus! {

/// Have the compositor paint the pointer into the frames.
pub const CURSOR_EMBEDDED: u32 = 1;

/// Have the pointer sent beside the frames.
pub const CURSOR_METADATA: u32 = 2;

/// Seconds that the node may take to be named once the session has started.
pub const NODE_BUDGET_SECONDS: u64 = 10;

/// Milliseconds between two looks at whether to stop.
pub const PARK_MILLIS: u64 = 200;

/// The cursor mode to ask for.
pub open spec fn mode_of_cursor(hw_cursor: bool) -> u32 {
    if hw_cursor {
        CURSOR_METADATA
    } else {
        CURSOR_EMBEDDED
    }
}

/// The cursor mode to ask for.
pub fn cursor_mode(hw_cursor: bool) -> (r: u32)
    ensures
        r == mode_of_cursor(hw_cursor),
{
    if hw_cursor {
        CURSOR_METADATA
    } else {
        CURSOR_EMBEDDED
    }
}

/// Where a cast stands.
#[derive(Debug)]
pub enum CastStage {
    /// The thread's runtime is to be built.
    Beginning,
    /// The session bus is to be connected.
    Connecting,
    /// The ScreenCast interface is to be opened.
    OpeningScreenCast,
    /// A session is to be created.
    CreatingSession,
    /// The session under this path is to be opened.
    OpeningSession { path: String },
    /// The output is to be recorded.
    Recording,
    /// The stream under this path is to be opened.
    OpeningStream { path: String },
    /// The signal that names the node is to be subscribed to.
    Subscribing,
    /// The session is to be started.
    Starting,
    /// The signal that names the node is awaited.
    AwaitingNode,
    /// The node is to be reported.
    Reporting { node_id: u32 },
    /// The cast runs; whether to stop is to be looked up.
    Parked,
    /// The cast runs; nothing is to be done for a while.
    Resting,
    /// The session is to be stopped.
    Stopping,
    /// The handshake failed, and that is to be reported.
    Failing { reason: String },
    /// Nothing is left to do.
    Finished,
    /// Nothing is left to do: the opener gave up before the handshake was over.
    Abandoned,
}

/// What came of an action.
#[derive(Debug)]
pub enum CastEvent {
    /// It is done.
    Done,
    /// It is done, and gave this object path.
    Opened(String),
    /// The signal came, with this node.
    Node(u32),
    /// It failed, for this cause.
    Failed(String),
    /// Nothing came in time.
    TimedOut,
    /// The signals ended before one came.
    SignalsEnded,
    /// Nobody is left to report to.
    OpenerGone,
    /// Whether the cast is to stop.
    StopWanted(bool),
    /// It was broken off, since the opener has given the cast up.
    BrokenOff,
}

/// What is to be done next for a cast.
#[derive(Debug)]
pub enum CastAction {
    /// Build a runtime for the connection.
    BuildRuntime,
    /// Connect to the session bus.
    ConnectBus,
    /// Open an object of the service [`screen_cast_bus`].
    OpenProxy { path: String, interface: String },
    /// Call `CreateSession` without properties. There is no RemoteDesktop session to anchor it on,
    /// since niri has none.
    CreateSession,
    /// Call the session's `RecordMonitor` with the output and this cursor mode.
    RecordMonitor { output: String, cursor_mode: u32 },
    /// Subscribe to the stream's `PipeWireStreamAdded`.
    Subscribe,
    /// Call the session's `Start`.
    Start,
    /// Wait for the signal, this long.
    AwaitNode { seconds: u64 },
    /// Tell the opener the node.
    ReportNode(u32),
    /// Tell the opener the failure.
    ReportFailure(String),
    /// Look up whether to stop.
    CheckStop,
    /// Do nothing, this long.
    Rest { millis: u64 },
    /// Call the session's `Stop`.
    Stop,
    /// End the thread.
    Exit,
}

/// What a [`CastStage`] holds.
pub enum CastStageView {
    Beginning,
    Connecting,
    OpeningScreenCast,
    CreatingSession,
    OpeningSession { path: Seq<char> },
    Recording,
    OpeningStream { path: Seq<char> },
    Subscribing,
    Starting,
    AwaitingNode,
    Reporting { node_id: u32 },
    Parked,
    Resting,
    Stopping,
    Failing { reason: Seq<char> },
    Finished,
    Abandoned,
}

/// What a [`CastEvent`] holds.
pub enum CastEventView {
    Done,
    Opened(Seq<char>),
    Node(u32),
    Failed(Seq<char>),
    TimedOut,
    SignalsEnded,
    OpenerGone,
    StopWanted(bool),
    BrokenOff,
}

/// What a [`CastAction`] holds.
pub enum CastActionView {
    BuildRuntime,
    ConnectBus,
    OpenProxy { path: Seq<char>, interface: Seq<char> },
    CreateSession,
    RecordMonitor { output: Seq<char>, cursor_mode: u32 },
    Subscribe,
    Start,
    AwaitNode { seconds: u64 },
    ReportNode(u32),
    ReportFailure(Seq<char>),
    CheckStop,
    Rest { millis: u64 },
    Stop,
    Exit,
}

impl View for CastStage {
    type V = CastStageView;

    open spec fn view(&self) -> CastStageView {
        match *self {
            CastStage::Beginning => CastStageView::Beginning,
            CastStage::Connecting => CastStageView::Connecting,
            CastStage::OpeningScreenCast => CastStageView::OpeningScreenCast,
            CastStage::CreatingSession => CastStageView::CreatingSession,
            CastStage::OpeningSession { path } => CastStageView::OpeningSession { path: path@ },
            CastStage::Recording => CastStageView::Recording,
            CastStage::OpeningStream { path } => CastStageView::OpeningStream { path: path@ },
            CastStage::Subscribing => CastStageView::Subscribing,
            CastStage::Starting => CastStageView::Starting,
            CastStage::AwaitingNode => CastStageView::AwaitingNode,
            CastStage::Reporting { node_id } => CastStageView::Reporting { node_id },
            CastStage::Parked => CastStageView::Parked,
            CastStage::Resting => CastStageView::Resting,
            CastStage::Stopping => CastStageView::Stopping,
            CastStage::Failing { reason } => CastStageView::Failing { reason: reason@ },
            CastStage::Finished => CastStageView::Finished,
            CastStage::Abandoned => CastStageView::Abandoned,
        }
    }
}

impl View for CastEvent {
    type V = CastEventView;

    open spec fn view(&self) -> CastEventView {
        match *self {
            CastEvent::Done => CastEventView::Done,
            CastEvent::Opened(path) => CastEventView::Opened(path@),
            CastEvent::Node(id) => CastEventView::Node(id),
            CastEvent::Failed(cause) => CastEventView::Failed(cause@),
            CastEvent::TimedOut => CastEventView::TimedOut,
            CastEvent::SignalsEnded => CastEventView::SignalsEnded,
            CastEvent::OpenerGone => CastEventView::OpenerGone,
            CastEvent::StopWanted(wanted) => CastEventView::StopWanted(wanted),
            CastEvent::BrokenOff => CastEventView::BrokenOff,
        }
    }
}

impl View for CastAction {
    type V = CastActionView;

    open spec fn view(&self) -> CastActionView {
        match *self {
            CastAction::BuildRuntime => CastActionView::BuildRuntime,
            CastAction::ConnectBus => CastActionView::ConnectBus,
            CastAction::OpenProxy { path, interface } => CastActionView::OpenProxy {
                path: path@,
                interface: interface@,
            },
            CastAction::CreateSession => CastActionView::CreateSession,
            CastAction::RecordMonitor { output, cursor_mode } => CastActionView::RecordMonitor {
                output: output@,
                cursor_mode,
            },
            CastAction::Subscribe => CastActionView::Subscribe,
            CastAction::Start => CastActionView::Start,
            CastAction::AwaitNode { seconds } => CastActionView::AwaitNode { seconds },
            CastAction::ReportNode(id) => CastActionView::ReportNode(id),
            CastAction::ReportFailure(reason) => CastActionView::ReportFailure(reason@),
            CastAction::CheckStop => CastActionView::CheckStop,
            CastAction::Rest { millis } => CastActionView::Rest { millis },
            CastAction::Stop => CastActionView::Stop,
            CastAction::Exit => CastActionView::Exit,
        }
    }
}

/// The D-Bus service of the screencast, which niri offers under Mutter's name.
pub fn screen_cast_bus() -> (r: &'static str)
    ensures
        r@ == "org.gnome.Mutter.ScreenCast"@,
{
    "org.gnome.Mutter.ScreenCast"
}

/// One cast and the thread that keeps it.
#[derive(Debug)]
pub struct CastThread {
    output: String,
    hw_cursor: bool,
    stage: CastStage,
}

/// What a [`CastThread`] holds.
pub struct CastView {
    pub output: Seq<char>,
    pub hw_cursor: bool,
    pub stage: CastStageView,
}

impl View for CastThread {
    type V = CastView;

    closed spec fn view(&self) -> CastView {
        CastView { output: self.output@, hw_cursor: self.hw_cursor, stage: self.stage@ }
    }
}

impl CastStageView {
    /// Is a step of the handshake pending?
    pub open spec fn in_handshake(self) -> bool {
        match self {
            CastStageView::Reporting { .. } => false,
            CastStageView::Parked => false,
            CastStageView::Resting => false,
            CastStageView::Stopping => false,
            CastStageView::Failing { .. } => false,
            CastStageView::Finished => false,
            CastStageView::Abandoned => false,
            _ => true,
        }
    }
}

impl CastStage {
    fn in_handshake(&self) -> (r: bool)
        ensures
            r == self@.in_handshake(),
    {
        match self {
            CastStage::Reporting { .. } => false,
            CastStage::Parked => false,
            CastStage::Resting => false,
            CastStage::Stopping => false,
            CastStage::Failing { .. } => false,
            CastStage::Finished => false,
            CastStage::Abandoned => false,
            _ => true,
        }
    }
}

impl CastView {
    /// What is reported where the pending action fails for `cause`. `None` where a failure of it
    /// is not reported.
    pub open spec fn failure(self, cause: Seq<char>) -> Option<Seq<char>> {
        match self.stage {
            CastStageView::Beginning => Some("build tokio runtime: "@ + cause),
            CastStageView::Connecting => Some("connect session D-Bus: "@ + cause),
            CastStageView::OpeningScreenCast => Some(
                "ScreenCast proxy (is niri running, and built with the xdp-gnome-screencast feature?): "@
                    + cause,
            ),
            CastStageView::CreatingSession => Some("ScreenCast.CreateSession: "@ + cause),
            CastStageView::OpeningSession { .. } => Some(cause),
            CastStageView::Recording => Some(
                "Session.RecordMonitor("@ + debug_text(self.output) + "): "@ + cause,
            ),
            CastStageView::OpeningStream { .. } => Some(cause),
            CastStageView::Subscribing => Some("subscribe PipeWireStreamAdded: "@ + cause),
            CastStageView::Starting => Some("ScreenCast.Session.Start: "@ + cause),
            CastStageView::AwaitingNode => Some("PipeWireStreamAdded body: "@ + cause),
            _ => None,
        }
    }

    /// The stage after `event`. An event that does not answer the pending action changes nothing.
    pub open spec fn stage_after(self, event: CastEventView) -> CastStageView {
        match (self.stage, event) {
            (CastStageView::Beginning, CastEventView::Done) => CastStageView::Connecting,
            (CastStageView::Connecting, CastEventView::Done) => CastStageView::OpeningScreenCast,
            (
                CastStageView::OpeningScreenCast,
                CastEventView::Done,
            ) => CastStageView::CreatingSession,
            (
                CastStageView::CreatingSession,
                CastEventView::Opened(path),
            ) => CastStageView::OpeningSession { path },
            (
                CastStageView::OpeningSession { .. },
                CastEventView::Done,
            ) => CastStageView::Recording,
            (CastStageView::Recording, CastEventView::Opened(path)) => CastStageView::OpeningStream {
                path,
            },
            (
                CastStageView::OpeningStream { .. },
                CastEventView::Done,
            ) => CastStageView::Subscribing,
            (CastStageView::Subscribing, CastEventView::Done) => CastStageView::Starting,
            (CastStageView::Starting, CastEventView::Done) => CastStageView::AwaitingNode,
            (CastStageView::AwaitingNode, CastEventView::Node(node_id)) => CastStageView::Reporting {
                node_id,
            },
            (CastStageView::AwaitingNode, CastEventView::TimedOut) => CastStageView::Failing {
                reason: "PipeWireStreamAdded did not arrive within 10s"@,
            },
            (CastStageView::AwaitingNode, CastEventView::SignalsEnded) => CastStageView::Failing {
                reason: "signal stream ended before PipeWireStreamAdded"@,
            },
            (CastStageView::Reporting { .. }, CastEventView::Done) => CastStageView::Parked,
            // Nobody will ever ask for the cast to stop: do not park on it.
            (CastStageView::Reporting { .. }, CastEventView::OpenerGone) => CastStageView::Stopping,
            (CastStageView::Parked, CastEventView::StopWanted(wanted)) => if wanted {
                CastStageView::Stopping
            } else {
                CastStageView::Resting
            },
            (CastStageView::Resting, CastEventView::Done) => CastStageView::Parked,
            (CastStageView::Stopping, CastEventView::Done) => CastStageView::Finished,
            (CastStageView::Stopping, CastEventView::Failed(_)) => CastStageView::Finished,
            (CastStageView::Failing { .. }, CastEventView::Done) => CastStageView::Finished,
            (CastStageView::Failing { .. }, CastEventView::OpenerGone) => CastStageView::Finished,
            // There is nobody to report to. The thread ends, and the connection with it, which ends
            // a session that was already opened.
            (stage, CastEventView::BrokenOff) => if stage.in_handshake() {
                CastStageView::Abandoned
            } else {
                stage
            },
            (stage, CastEventView::Failed(cause)) => match self.failure(cause) {
                Some(reason) => CastStageView::Failing { reason },
                None => stage,
            },
            (stage, _) => stage,
        }
    }

    pub open spec fn after(self, event: CastEventView) -> CastView {
        CastView { stage: self.stage_after(event), ..self }
    }

    pub open spec fn after_all(self, events: Seq<CastEventView>) -> CastView
        decreases events.len(),
    {
        if events.len() == 0 {
            self
        } else {
            self.after_all(events.drop_last()).after(events.last())
        }
    }

    pub open spec fn action(self) -> CastActionView {
        match self.stage {
            CastStageView::Beginning => CastActionView::BuildRuntime,
            CastStageView::Connecting => CastActionView::ConnectBus,
            CastStageView::OpeningScreenCast => CastActionView::OpenProxy {
                path: "/org/gnome/Mutter/ScreenCast"@,
                interface: "org.gnome.Mutter.ScreenCast"@,
            },
            CastStageView::CreatingSession => CastActionView::CreateSession,
            CastStageView::OpeningSession { path } => CastActionView::OpenProxy {
                path,
                interface: "org.gnome.Mutter.ScreenCast.Session"@,
            },
            CastStageView::Recording => CastActionView::RecordMonitor {
                output: self.output,
                cursor_mode: mode_of_cursor(self.hw_cursor),
            },
            CastStageView::OpeningStream { path } => CastActionView::OpenProxy {
                path,
                interface: "org.gnome.Mutter.ScreenCast.Stream"@,
            },
            CastStageView::Subscribing => CastActionView::Subscribe,
            CastStageView::Starting => CastActionView::Start,
            CastStageView::AwaitingNode => CastActionView::AwaitNode {
                seconds: NODE_BUDGET_SECONDS,
            },
            CastStageView::Reporting { node_id } => CastActionView::ReportNode(node_id),
            CastStageView::Parked => CastActionView::CheckStop,
            CastStageView::Resting => CastActionView::Rest { millis: PARK_MILLIS },
            CastStageView::Stopping => CastActionView::Stop,
            CastStageView::Failing { reason } => CastActionView::ReportFailure(reason),
            CastStageView::Finished => CastActionView::Exit,
            CastStageView::Abandoned => CastActionView::Exit,
        }
    }
}

impl CastThread {
    /// Begin a cast on `output`.
    pub fn new(output: String, hw_cursor: bool) -> (r: CastThread)
        ensures
            r@ == (CastView { output: output@, hw_cursor, stage: CastStageView::Beginning }),
    {
        CastThread { output, hw_cursor, stage: CastStage::Beginning }
    }

    /// The output that is cast.
    pub fn output(&self) -> (r: &str)
        ensures
            r@ == self@.output,
    {
        self.output.as_str()
    }

    /// Is a step of the handshake pending? Only such a step is broken off once the opener has given
    /// the cast up; a session that runs is stopped instead.
    pub fn in_handshake(&self) -> (r: bool)
        ensures
            r == self@.stage.in_handshake(),
    {
        self.stage.in_handshake()
    }

    /// What is to be done next.
    pub fn action(&self) -> (r: CastAction)
        ensures
            r@ == self@.action(),
    {
        match &self.stage {
            CastStage::Beginning => CastAction::BuildRuntime,
            CastStage::Connecting => CastAction::ConnectBus,
            CastStage::OpeningScreenCast => CastAction::OpenProxy {
                path: "/org/gnome/Mutter/ScreenCast".to_owned(),
                interface: "org.gnome.Mutter.ScreenCast".to_owned(),
            },
            CastStage::CreatingSession => CastAction::CreateSession,
            CastStage::OpeningSession { path } => CastAction::OpenProxy {
                path: path.clone(),
                interface: "org.gnome.Mutter.ScreenCast.Session".to_owned(),
            },
            CastStage::Recording => CastAction::RecordMonitor {
                output: self.output.clone(),
                cursor_mode: cursor_mode(self.hw_cursor),
            },
            CastStage::OpeningStream { path } => CastAction::OpenProxy {
                path: path.clone(),
                interface: "org.gnome.Mutter.ScreenCast.Stream".to_owned(),
            },
            CastStage::Subscribing => CastAction::Subscribe,
            CastStage::Starting => CastAction::Start,
            CastStage::AwaitingNode => CastAction::AwaitNode { seconds: NODE_BUDGET_SECONDS },
            CastStage::Reporting { node_id } => CastAction::ReportNode(*node_id),
            CastStage::Parked => CastAction::CheckStop,
            CastStage::Resting => CastAction::Rest { millis: PARK_MILLIS },
            CastStage::Stopping => CastAction::Stop,
            CastStage::Failing { reason } => CastAction::ReportFailure(reason.clone()),
            CastStage::Finished => CastAction::Exit,
            CastStage::Abandoned => CastAction::Exit,
        }
    }

    fn report(&self, cause: String) -> (r: Option<String>)
        ensures
            match r {
                Some(reason) => self@.failure(cause@) == Some(reason@),
                None => self@.failure(cause@) is None,
            },
    {
        match &self.stage {
            CastStage::Beginning => Some(concat2("build tokio runtime: ", cause.as_str())),
            CastStage::Connecting => Some(concat2("connect session D-Bus: ", cause.as_str())),
            CastStage::OpeningScreenCast => Some(
                concat2(
                    "ScreenCast proxy (is niri running, and built with the xdp-gnome-screencast feature?): ",
                    cause.as_str(),
                ),
            ),
            CastStage::CreatingSession => Some(
                concat2("ScreenCast.CreateSession: ", cause.as_str()),
            ),
            CastStage::OpeningSession { .. } => Some(cause),
            CastStage::Recording => {
                let call = concat3(
                    "Session.RecordMonitor(",
                    debug(self.output.as_str()).as_str(),
                    "): ",
                );
                Some(concat2(call.as_str(), cause.as_str()))
            },
            CastStage::OpeningStream { .. } => Some(cause),
            CastStage::Subscribing => Some(
                concat2("subscribe PipeWireStreamAdded: ", cause.as_str()),
            ),
            CastStage::Starting => Some(concat2("ScreenCast.Session.Start: ", cause.as_str())),
            CastStage::AwaitingNode => Some(concat2("PipeWireStreamAdded body: ", cause.as_str())),
            _ => None,
        }
    }

    /// Take what came of the pending action. An event that does not answer it changes nothing.
    pub fn next(self, event: CastEvent) -> (r: CastThread)
        ensures
            r@ == self@.after(event@),
    {
        let stage: CastStage = match (&self.stage, event) {
            (CastStage::Beginning, CastEvent::Done) => CastStage::Connecting,
            (CastStage::Connecting, CastEvent::Done) => CastStage::OpeningScreenCast,
            (CastStage::OpeningScreenCast, CastEvent::Done) => CastStage::CreatingSession,
            (CastStage::CreatingSession, CastEvent::Opened(path)) => CastStage::OpeningSession {
                path,
            },
            (CastStage::OpeningSession { .. }, CastEvent::Done) => CastStage::Recording,
            (CastStage::Recording, CastEvent::Opened(path)) => CastStage::OpeningStream { path },
            (CastStage::OpeningStream { .. }, CastEvent::Done) => CastStage::Subscribing,
            (CastStage::Subscribing, CastEvent::Done) => CastStage::Starting,
            (CastStage::Starting, CastEvent::Done) => CastStage::AwaitingNode,
            (CastStage::AwaitingNode, CastEvent::Node(node_id)) => CastStage::Reporting {
                node_id,
            },
            (CastStage::AwaitingNode, CastEvent::TimedOut) => CastStage::Failing {
                reason: "PipeWireStreamAdded did not arrive within 10s".to_owned(),
            },
            (CastStage::AwaitingNode, CastEvent::SignalsEnded) => CastStage::Failing {
                reason: "signal stream ended before PipeWireStreamAdded".to_owned(),
            },
            (CastStage::Reporting { .. }, CastEvent::Done) => CastStage::Parked,
            (CastStage::Reporting { .. }, CastEvent::OpenerGone) => CastStage::Stopping,
            (CastStage::Parked, CastEvent::StopWanted(wanted)) => if wanted {
                CastStage::Stopping
            } else {
                CastStage::Resting
            },
            (CastStage::Resting, CastEvent::Done) => CastStage::Parked,
            (CastStage::Stopping, CastEvent::Done) => CastStage::Finished,
            (CastStage::Stopping, CastEvent::Failed(_)) => CastStage::Finished,
            (CastStage::Failing { .. }, CastEvent::Done) => CastStage::Finished,
            (CastStage::Failing { .. }, CastEvent::OpenerGone) => CastStage::Finished,
            (stage, CastEvent::BrokenOff) => if stage.in_handshake() {
                CastStage::Abandoned
            } else {
                return self;
            },
            (_, CastEvent::Failed(cause)) => match self.report(cause) {
                Some(reason) => CastStage::Failing { reason },
                None => {
                    return self;
                },
            },
            (_, _) => {
                return self;
            },
        };
        CastThread { output: self.output, hw_cursor: self.hw_cursor, stage }
    }
}

/// The models of events and actions carry what these carry, unchanged.
pub proof fn law_casts_are_modelled_as_held(
    text: String,
    other: String,
    n: u32,
    wanted: bool,
    long: u64,
)
    ensures
        CastEvent::Opened(text)@ == CastEventView::Opened(text@),
        CastEvent::Node(n)@ == CastEventView::Node(n),
        CastEvent::Failed(text)@ == CastEventView::Failed(text@),
        CastEvent::StopWanted(wanted)@ == CastEventView::StopWanted(wanted),
        CastEvent::Done@ is Done && CastEvent::TimedOut@ is TimedOut,
        CastEvent::SignalsEnded@ is SignalsEnded && CastEvent::OpenerGone@ is OpenerGone,
        CastEvent::BrokenOff@ is BrokenOff,
        (CastAction::OpenProxy { path: text, interface: other })@ == (CastActionView::OpenProxy {
            path: text@,
            interface: other@,
        }),
        (CastAction::RecordMonitor { output: text, cursor_mode: n })@ == (
        CastActionView::RecordMonitor { output: text@, cursor_mode: n }),
        (CastAction::AwaitNode { seconds: long })@ == (CastActionView::AwaitNode { seconds: long }),
        CastAction::ReportNode(n)@ == CastActionView::ReportNode(n),
        CastAction::ReportFailure(text)@ == CastActionView::ReportFailure(text@),
        (CastAction::Rest { millis: long })@ == (CastActionView::Rest { millis: long }),
        CastAction::BuildRuntime@ is BuildRuntime && CastAction::ConnectBus@ is ConnectBus,
        CastAction::CreateSession@ is CreateSession && CastAction::Subscribe@ is Subscribe,
        CastAction::Start@ is Start && CastAction::CheckStop@ is CheckStop,
        CastAction::Stop@ is Stop && CastAction::Exit@ is Exit,
{
}

} // verus!
