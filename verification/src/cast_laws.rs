//! What a cast does with what it is told, step by step and over whole runs.

use vstd::prelude::*;

use crate::cast::{CastActionView, CastEventView, CastStageView, CastView};
use crate::session_laws::lemma_cast_keeps_its_output;
use crate::text::debug_text;

verus! {

proof fn lemma_node_was_signalled(c: CastView, events: Seq<CastEventView>, j: int, n: u32) -> (i: int)
    requires
        c.stage is Beginning,
        0 <= j <= events.len(),
        c.after_all(events.take(j)).action() == CastActionView::ReportNode(n),
    ensures
        0 <= i < j,
        c.after_all(events.take(i)).action() is AwaitNode,
        events[i] == CastEventView::Node(n),
    decreases j,
{
    if j == 0 {
        assert(events.take(0) == Seq::<CastEventView>::empty());
        0
    } else {
        assert(events.take(j).drop_last() == events.take(j - 1));
        assert(events.take(j).last() == events[j - 1]);
        if c.after_all(events.take(j - 1)).action() is ReportNode {
            lemma_node_was_signalled(c, events, j - 1, n)
        } else {
            j - 1
        }
    }
}

/// The node that is reported is the one that the awaited signal named.
pub proof fn law_the_reported_node_was_signalled(
    c: CastView,
    events: Seq<CastEventView>,
    j: int,
    n: u32,
)
    requires
        c.stage is Beginning,
        0 <= j <= events.len(),
        c.after_all(events.take(j)).action() == CastActionView::ReportNode(n),
    ensures
        exists|i: int|
            0 <= i < j && (#[trigger] c.after_all(events.take(i))).action() is AwaitNode
                && events[i] == CastEventView::Node(n),
{
    let i = lemma_node_was_signalled(c, events, j, n);
    assert(c.after_all(events.take(i)).action() is AwaitNode);
}

/// Whichever node the awaited signal names, that node is reported. Without a signal in time, or
/// with the end of the signals, the failure is reported.
pub proof fn law_a_signalled_node_is_reported(c: CastView, n: u32)
    requires
        c.action() is AwaitNode,
    ensures
        c.action() == (CastActionView::AwaitNode { seconds: 10 }),
        c.after(CastEventView::Node(n)).action() == CastActionView::ReportNode(n),
        c.after(CastEventView::TimedOut).action() == CastActionView::ReportFailure(
            "PipeWireStreamAdded did not arrive within 10s"@,
        ),
        c.after(CastEventView::SignalsEnded).action() == CastActionView::ReportFailure(
            "signal stream ended before PipeWireStreamAdded"@,
        ),
{
}

/// What is recorded is the output that the cast was begun on. The pointer is sent beside the frames
/// (mode two) exactly where that was asked for, and painted into them (mode one) otherwise.
pub proof fn law_the_output_is_recorded_with_its_cursor(c: CastView, events: Seq<CastEventView>)
    ensures
        c.after_all(events).action() matches CastActionView::RecordMonitor { output, cursor_mode }
            ==> output == c.output && cursor_mode == if c.hw_cursor {
            2u32
        } else {
            1u32
        },
{
    lemma_cast_keeps_its_output(c, events);
}

/// A handshake that goes well: each call in its turn, the session and the stream opened under the
/// paths that the calls before gave, and the node that the signal named reported at the end.
pub proof fn law_a_handshake_that_goes_well(
    c: CastView,
    session: Seq<char>,
    stream: Seq<char>,
    n: u32,
)
    requires
        c.stage is Beginning,
    ensures
        c.action() is BuildRuntime,
        ({
            let c1 = c.after(CastEventView::Done);
            let c2 = c1.after(CastEventView::Done);
            let c3 = c2.after(CastEventView::Done);
            let c4 = c3.after(CastEventView::Opened(session));
            let c5 = c4.after(CastEventView::Done);
            let c6 = c5.after(CastEventView::Opened(stream));
            let c7 = c6.after(CastEventView::Done);
            let c8 = c7.after(CastEventView::Done);
            let c9 = c8.after(CastEventView::Done);
            let c10 = c9.after(CastEventView::Node(n));
            &&& c1.action() is ConnectBus
            &&& c2.action() == CastActionView::OpenProxy {
                path: "/org/gnome/Mutter/ScreenCast"@,
                interface: "org.gnome.Mutter.ScreenCast"@,
            }
            &&& c3.action() is CreateSession
            &&& c4.action() == CastActionView::OpenProxy {
                path: session,
                interface: "org.gnome.Mutter.ScreenCast.Session"@,
            }
            &&& c5.action() == CastActionView::RecordMonitor {
                output: c.output,
                cursor_mode: if c.hw_cursor {
                    2
                } else {
                    1
                },
            }
            &&& c6.action() == CastActionView::OpenProxy {
                path: stream,
                interface: "org.gnome.Mutter.ScreenCast.Stream"@,
            }
            &&& c7.action() is Subscribe
            &&& c8.action() is Start
            &&& c9.action() == CastActionView::AwaitNode { seconds: 10 }
            &&& c10.action() == CastActionView::ReportNode(n)
        }),
{
}

/// A session whose node was reported runs: every fifth of a second it is looked up whether to stop.
/// Once it is to stop, or where nobody took the report, it is stopped and its thread ends, whatever
/// comes of the stop.
pub proof fn law_a_running_cast_stops_when_told(c: CastView, cause: Seq<char>)
    ensures
        c.action() is ReportNode ==> c.after(CastEventView::Done).action() is CheckStop && c.after(
            CastEventView::OpenerGone,
        ).action() is Stop,
        c.action() is CheckStop ==> c.after(CastEventView::StopWanted(true)).action() is Stop
            && c.after(CastEventView::StopWanted(false)).action() == (CastActionView::Rest {
            millis: 200,
        }),
        c.action() is Rest ==> c.after(CastEventView::Done).action() is CheckStop,
        c.action() is Stop ==> c.after(CastEventView::Done).action() is Exit && c.after(
            CastEventView::Failed(cause),
        ).action() is Exit,
        c.action() is ReportFailure ==> c.after(CastEventView::Done).action() is Exit && c.after(
            CastEventView::OpenerGone,
        ).action() is Exit,
{
}

/// A step of the handshake that fails is reported by what was tried, with the whole cause behind
/// it; where the opener gave the cast up, the thread ends without a report.
pub proof fn law_a_failed_step_is_reported_with_its_cause(c: CastView, cause: Seq<char>)
    ensures
        match c.stage {
            CastStageView::Reporting { .. } => true,
            CastStageView::Parked => true,
            CastStageView::Resting => true,
            CastStageView::Stopping => true,
            CastStageView::Failing { .. } => true,
            CastStageView::Finished => true,
            CastStageView::Abandoned => true,
            _ => c.after(CastEventView::BrokenOff).action() is Exit && c.after(
                CastEventView::Failed(cause),
            ).action() == CastActionView::ReportFailure(
                (match c.stage {
                    CastStageView::Beginning => "build tokio runtime: "@,
                    CastStageView::Connecting => "connect session D-Bus: "@,
                    CastStageView::OpeningScreenCast =>
                    "ScreenCast proxy (is niri running, and built with the xdp-gnome-screencast feature?): "@,
                    CastStageView::CreatingSession => "ScreenCast.CreateSession: "@,
                    CastStageView::Recording => "Session.RecordMonitor("@ + debug_text(c.output)
                        + "): "@,
                    CastStageView::Subscribing => "subscribe PipeWireStreamAdded: "@,
                    CastStageView::Starting => "ScreenCast.Session.Start: "@,
                    CastStageView::AwaitingNode => "PipeWireStreamAdded body: "@,
                    _ => Seq::empty(),
                }) + cause,
            ),
        },
{
    assert(Seq::<char>::empty() + cause == cause);
}

/// Only an answer to the pending action moves a cast on, and nothing moves one that is over.
pub proof fn law_only_answers_move_a_cast(c: CastView, event: CastEventView)
    ensures
        c.after(event).output == c.output,
        c.after(event).hw_cursor == c.hw_cursor,
        c.after(event).stage == c.stage || match c.action() {
            CastActionView::CreateSession => event is Opened || event is Failed || event is BrokenOff,
            CastActionView::RecordMonitor { .. } => event is Opened || event is Failed
                || event is BrokenOff,
            CastActionView::AwaitNode { .. } => event is Node || event is TimedOut
                || event is SignalsEnded || event is Failed || event is BrokenOff,
            CastActionView::ReportNode(_) => event is Done || event is OpenerGone,
            CastActionView::ReportFailure(_) => event is Done || event is OpenerGone,
            CastActionView::CheckStop => event is StopWanted,
            CastActionView::Rest { .. } => event is Done,
            CastActionView::Stop => event is Done || event is Failed,
            CastActionView::Exit => false,
            _ => event is Done || event is Failed || event is BrokenOff,
        },
{
}

} // verus!
