//! What holds over whole runs of a cast and of a virtual output, whatever comes of each action.

use vstd::prelude::*;

use crate::cast::{CastActionView, CastEventView, CastStageView, CastView};
use crate::niri::{
    creation_args, law_the_request_asks_for_the_mode, removal_args, shows, CastEndView,
    CastReplyView, DisplayOwnership, OutputActionView, OutputEventView, RemovalView, SessionView,
    StageView, VirtualOutput,
};
use crate::json::{document, JsonView};
use crate::niri_error::NiriErrorView;
use crate::niri_msg::{MsgErrorView, MsgOutcomeView};
use crate::output_names::numbered;
use crate::text::{decimal_digits, lossy_text};

verus! {

/// The steps of the handshake, in their order; none for the stages behind it.
pub open spec fn handshake_step(stage: CastStageView) -> Option<int> {
    match stage {
        CastStageView::Beginning => Some(0),
        CastStageView::Connecting => Some(1),
        CastStageView::OpeningScreenCast => Some(2),
        CastStageView::CreatingSession => Some(3),
        CastStageView::OpeningSession { .. } => Some(4),
        CastStageView::Recording => Some(5),
        CastStageView::OpeningStream { .. } => Some(6),
        CastStageView::Subscribing => Some(7),
        CastStageView::Starting => Some(8),
        CastStageView::AwaitingNode => Some(9),
        CastStageView::Reporting { .. } => Some(10),
        _ => None,
    }
}

proof fn lemma_handshake_passes(
    c: CastView,
    events: Seq<CastEventView>,
    j: int,
    step: int,
) -> (i: int)
    requires
        c.stage is Beginning,
        0 <= j <= events.len(),
        handshake_step(c.after_all(events.take(j)).stage) matches Some(reached) && 0 <= step
            < reached,
    ensures
        0 <= i < j,
        handshake_step(c.after_all(events.take(i)).stage) == Some(step),
    decreases j,
{
    if j == 0 {
        assert(events.take(0) == Seq::<CastEventView>::empty());
        0
    } else {
        assert(events.take(j).drop_last() == events.take(j - 1));
        let before = c.after_all(events.take(j - 1));
        if handshake_step(before.stage) == Some(step) {
            j - 1
        } else {
            lemma_handshake_passes(c, events, j - 1, step)
        }
    }
}

/// The session is started only after the signal that names its node has been subscribed to, so the
/// signal cannot pass unheard.
pub proof fn law_subscribes_before_starting(c: CastView, events: Seq<CastEventView>, j: int)
    requires
        c.stage is Beginning,
        0 <= j <= events.len(),
        c.after_all(events.take(j)).action() is Start,
    ensures
        exists|i: int|
            0 <= i < j && (#[trigger] c.after_all(events.take(i))).action() is Subscribe,
{
    let i = lemma_handshake_passes(c, events, j, 7);
    assert(c.after_all(events.take(i)).action() is Subscribe);
}

/// A node is reported only once the session has been started on the output that was asked for.
pub proof fn law_reports_only_a_started_session(c: CastView, events: Seq<CastEventView>, j: int)
    requires
        c.stage is Beginning,
        0 <= j <= events.len(),
        c.after_all(events.take(j)).action() is ReportNode,
    ensures
        exists|i: int| 0 <= i < j && (#[trigger] c.after_all(events.take(i))).action() is Start,
        exists|i: int|
            0 <= i < j && (#[trigger] c.after_all(events.take(i))).action() == (
            CastActionView::RecordMonitor {
                output: c.output,
                cursor_mode: crate::cast::mode_of_cursor(c.hw_cursor),
            }),
{
    let i = lemma_handshake_passes(c, events, j, 8);
    assert(c.after_all(events.take(i)).action() is Start);
    let k = lemma_handshake_passes(c, events, j, 5);
    lemma_cast_keeps_its_output(c, events.take(k));
    assert(c.after_all(events.take(k)).action() is RecordMonitor);
}

pub(crate) proof fn lemma_cast_keeps_its_output(c: CastView, events: Seq<CastEventView>)
    ensures
        c.after_all(events).output == c.output,
        c.after_all(events).hw_cursor == c.hw_cursor,
    decreases events.len(),
{
    if events.len() > 0 {
        lemma_cast_keeps_its_output(c, events.drop_last());
    }
}

/// Is a report to the opener pending?
pub open spec fn reporting(c: CastView) -> bool {
    c.action() is ReportNode || c.action() is ReportFailure
}

/// How many reports a run has made: how often it has left a stage in which one was pending.
pub open spec fn reports(c: CastView, events: Seq<CastEventView>) -> int
    decreases events.len(),
{
    if events.len() == 0 {
        0
    } else {
        let before = c.after_all(events.drop_last());
        reports(c, events.drop_last()) + if reporting(before) && before.after(events.last()) != before {
            1int
        } else {
            0
        }
    }
}

/// The opener hears of the cast once: not before the handshake is over, and not again after that.
/// No thread ends without having reported, but for one whose opener gave up during the handshake.
pub proof fn law_reports_once(c: CastView, events: Seq<CastEventView>)
    requires
        c.stage is Beginning,
    ensures
        reports(c, events) == match c.after_all(events).stage {
            CastStageView::Parked => 1int,
            CastStageView::Resting => 1,
            CastStageView::Stopping => 1,
            CastStageView::Finished => 1,
            _ => 0,
        },
    decreases events.len(),
{
    if events.len() > 0 {
        law_reports_once(c, events.drop_last());
    }
}

proof fn lemma_session_is_stopped(
    c: CastView,
    events: Seq<CastEventView>,
    i: int,
    j: int,
) -> (k: int)
    requires
        0 <= i <= j <= events.len(),
        c.after_all(events.take(i)).action() is ReportNode,
    ensures
        match c.after_all(events.take(j)).stage {
            CastStageView::Finished => i < k < j && c.after_all(events.take(k)).action() is Stop,
            CastStageView::Reporting { .. } => true,
            CastStageView::Parked => true,
            CastStageView::Resting => true,
            CastStageView::Stopping => i < j,
            _ => false,
        },
    decreases j,
{
    if i == j {
        i
    } else {
        assert(events.take(j).drop_last() == events.take(j - 1));
        let k = lemma_session_is_stopped(c, events, i, j - 1);
        if c.after_all(events.take(j - 1)).stage is Stopping {
            j - 1
        } else {
            k
        }
    }
}

/// A session whose node was there to report is always stopped before its thread ends, whether the
/// opener asked for it or had already gone.
pub proof fn law_sessions_are_stopped(c: CastView, events: Seq<CastEventView>, i: int, j: int)
    requires
        0 <= i <= j <= events.len(),
        c.after_all(events.take(i)).action() is ReportNode,
        c.after_all(events.take(j)).action() is Exit,
    ensures
        exists|k: int| i < k < j && (#[trigger] c.after_all(events.take(k))).action() is Stop,
{
    let k = lemma_session_is_stopped(c, events, i, j);
    assert(c.after_all(events.take(k)).action() is Stop);
}

/// Does this event say that the cast on `output` has ended? Its thread, where there was one, had
/// nothing left to do but to exit.
pub open spec fn ends_cast(event: OutputEventView, output: Seq<char>) -> bool {
    match event {
        OutputEventView::Stopped(CastEndView::Finished(cast)) => cast.output == output
            && cast.action() is Exit,
        OutputEventView::Stopped(CastEndView::NoThread) => true,
        _ => false,
    }
}

/// The name of an output that exists.
pub open spec fn existing(stage: StageView) -> Option<Seq<char>> {
    match stage {
        StageView::Recording { name } => Some(name),
        StageView::Ready { name, .. } => Some(name),
        StageView::Stopping { name, .. } => Some(name),
        StageView::Removing { name, .. } => Some(name),
        _ => None,
    }
}

proof fn lemma_output_is_removed(
    s: SessionView,
    events: Seq<OutputEventView>,
    i: int,
    j: int,
    name: Seq<char>,
) -> (w: (int, int))
    requires
        0 <= i <= j <= events.len(),
        s.after_all(events.take(i)).stage matches StageView::Recording { name: n } && n == name,
    ensures
        match s.after_all(events.take(j)).stage {
            StageView::Gone { .. } => i < w.0 < w.1 < j && s.after_all(
                events.take(w.0),
            ).action() is StopCast && ends_cast(events[w.0], name) && s.after_all(
                events.take(w.1),
            ).action() == OutputActionView::Remove(removal_args(name)),
            StageView::Removing { .. } => i < w.0 < j && s.after_all(
                events.take(w.0),
            ).action() is StopCast && ends_cast(events[w.0], name),
            StageView::Stopping { .. } => i < j,
            _ => true,
        },
        s.after_all(events.take(j)).stage is Gone || existing(s.after_all(events.take(j)).stage)
            == Some(name),
    decreases j,
{
    if i == j {
        (i, i)
    } else {
        assert(events.take(j).drop_last() == events.take(j - 1));
        assert(events.take(j).last() == events[j - 1]);
        let w = lemma_output_is_removed(s, events, i, j - 1, name);
        match s.after_all(events.take(j - 1)).stage {
            StageView::Stopping { .. } => (j - 1, w.1),
            StageView::Removing { .. } => (w.0, j - 1),
            _ => w,
        }
    }
}

/// An output that niri has created never outlives its session: before the session is over its cast
/// is stopped, which takes until the cast has ended, and then, by its own name, the output is
/// removed. That is so whether it was streamed or its recording failed.
pub proof fn law_created_outputs_are_removed(
    s: SessionView,
    events: Seq<OutputEventView>,
    i: int,
    j: int,
    name: Seq<char>,
)
    requires
        0 <= i <= j <= events.len(),
        s.after_all(events.take(i)).stage == (StageView::Recording { name }),
        s.after_all(events.take(j)).stage is Gone,
    ensures
        exists|a: int, b: int|
            i < a < b < j && (#[trigger] s.after_all(events.take(a))).action() is StopCast
                && ends_cast(events[a], name) && (#[trigger] s.after_all(
                events.take(b),
            )).action() == OutputActionView::Remove(removal_args(name)),
{
    let w = lemma_output_is_removed(s, events, i, j, name);
    assert(s.after_all(events.take(w.0)).action() is StopCast);
    assert(s.after_all(events.take(w.1)).action() == OutputActionView::Remove(removal_args(name)));
}

proof fn lemma_cast_has_ended(s: SessionView, events: Seq<OutputEventView>, j: int) -> (i: int)
    requires
        !(s.stage is Removing),
        0 <= j <= events.len(),
        s.after_all(events.take(j)).stage is Removing,
    ensures
        0 <= i < j,
        match (s.after_all(events.take(i)).stage, s.after_all(events.take(j)).stage) {
            (
                StageView::Stopping { name: stopped, .. },
                StageView::Removing { name, .. },
            ) => stopped == name && ends_cast(events[i], name),
            _ => false,
        },
    decreases j,
{
    if j == 0 {
        assert(events.take(0) == Seq::<OutputEventView>::empty());
        0
    } else {
        assert(events.take(j).drop_last() == events.take(j - 1));
        assert(events.take(j).last() == events[j - 1]);
        if s.after_all(events.take(j - 1)).stage is Removing {
            lemma_cast_has_ended(s, events, j - 1)
        } else {
            j - 1
        }
    }
}

/// niri is asked to remove an output only after the cast on that very output has ended: the thread
/// that kept it, where there was one, had nothing left to do but to exit.
pub proof fn law_the_cast_ends_before_the_removal(
    s: SessionView,
    events: Seq<OutputEventView>,
    j: int,
)
    requires
        s.stage is Creating,
        0 <= j <= events.len(),
        s.after_all(events.take(j)).action() is Remove,
    ensures
        exists|i: int, name: Seq<char>|
            0 <= i < j && (#[trigger] s.after_all(events.take(i))).action() is StopCast
                && #[trigger] ends_cast(events[i], name) && s.after_all(events.take(j)).action()
                == OutputActionView::Remove(removal_args(name)),
{
    let i = lemma_cast_has_ended(s, events, j);
    let name = s.after_all(events.take(j)).stage->Removing_name;
    assert(s.after_all(events.take(i)).action() is StopCast && ends_cast(events[i], name));
}

/// Nothing is removed for a session whose creation failed, and its number is free again.
pub proof fn law_failed_creation_leaves_nothing(
    s: SessionView,
    held: Set<u64>,
    event: OutputEventView,
)
    requires
        s.stage is Creating,
        s.after(event).stage is Gone,
    ensures
        s.after(event).stage matches StageView::Gone { failure, removal } && failure is Some
            && removal is NotNeeded,
        s.held_after(held, event) == held.remove(s.number),
{
}

/// How often a run has given its number back.
pub open spec fn releases(s: SessionView, events: Seq<OutputEventView>) -> int
    decreases events.len(),
{
    if events.len() == 0 {
        0
    } else {
        let before = s.after_all(events.drop_last());
        releases(s, events.drop_last()) + if !before.frees_number() && before.after(
            events.last(),
        ).frees_number() {
            1int
        } else {
            0
        }
    }
}

/// A session gives its number back once: not while its output has that number's name, and not
/// again after that, when the number may be another session's. No session ends without having done
/// so.
pub proof fn law_the_number_is_given_back_once(s: SessionView, events: Seq<OutputEventView>)
    requires
        s.stage is Creating,
    ensures
        s.after_all(events).number == s.number,
        releases(s, events) == match s.after_all(events).stage {
            StageView::Creating => 0int,
            StageView::Gone { .. } => 1,
            _ => if existing(s.after_all(events).stage) == Some(numbered(s.number as nat)) {
                0
            } else {
                1
            },
        },
    decreases events.len(),
{
    if events.len() > 0 {
        law_the_number_is_given_back_once(s, events.drop_last());
    }
}

/// What a session failed with.
pub open spec fn failed_with(stage: StageView) -> Option<NiriErrorView> {
    match stage {
        StageView::Stopping { failure, .. } => failure,
        StageView::Removing { failure, .. } => failure,
        StageView::Gone { failure, .. } => failure,
        _ => None,
    }
}

/// The first failure of a session is the one that it reports: the teardown does not replace it.
pub proof fn law_teardown_keeps_the_failure(s: SessionView, events: Seq<OutputEventView>)
    requires
        s.stage is Stopping || s.stage is Removing || s.stage is Gone,
    ensures
        s.after_all(events).stage is Stopping || s.after_all(events).stage is Removing
            || s.after_all(events).stage is Gone,
        failed_with(s.after_all(events).stage) == failed_with(s.stage),
    decreases events.len(),
{
    if events.len() > 0 {
        law_teardown_keeps_the_failure(s, events.drop_last());
    }
}

/// Is `event` niri's word that it has made an output called `name`?
pub open spec fn names_output(event: OutputEventView, name: Seq<char>) -> bool {
    match event {
        OutputEventView::Answered(
            MsgOutcomeView::Exited { success: true, stdout, .. },
        ) => match document(lossy_text(stdout)) {
            Ok(reply) => reply.member("name"@) == Some(JsonView::Text(name)),
            Err(_) => false,
        },
        _ => false,
    }
}

proof fn lemma_output_was_named(s: SessionView, events: Seq<OutputEventView>, j: int) -> (i: int)
    requires
        s.stage is Creating,
        0 <= j <= events.len(),
        existing(s.after_all(events.take(j)).stage) is Some,
    ensures
        0 <= i < j,
        s.after_all(events.take(i)).stage is Creating,
        names_output(events[i], existing(s.after_all(events.take(j)).stage)->0),
        s.after_all(events.take(j)).mode == s.mode,
        s.after_all(events.take(j)).hw_cursor == s.hw_cursor,
    decreases j,
{
    if j == 0 {
        assert(events.take(0) == Seq::<OutputEventView>::empty());
        0
    } else {
        assert(events.take(j).drop_last() == events.take(j - 1));
        assert(events.take(j).last() == events[j - 1]);
        if existing(s.after_all(events.take(j - 1)).stage) is Some {
            lemma_output_was_named(s, events, j - 1)
        } else {
            lemma_session_keeps_its_mode(s, events.take(j - 1));
            j - 1
        }
    }
}

proof fn lemma_session_keeps_its_mode(s: SessionView, events: Seq<OutputEventView>)
    ensures
        s.after_all(events).mode == s.mode,
        s.after_all(events).hw_cursor == s.hw_cursor,
        s.after_all(events).number == s.number,
    decreases events.len(),
{
    if events.len() > 0 {
        lemma_session_keeps_its_mode(s, events.drop_last());
    }
}

/// Whenever a session asks for a recording, it is of the output that niri said it had made, with
/// the cursor that the session was begun with, and with twenty seconds to start in.
pub proof fn law_the_recording_is_of_the_named_output(
    s: SessionView,
    events: Seq<OutputEventView>,
    j: int,
    output: Seq<char>,
    hw_cursor: bool,
    seconds: u64,
)
    requires
        s.stage is Creating,
        0 <= j <= events.len(),
        s.after_all(events.take(j)).action() == (OutputActionView::Record {
            output,
            hw_cursor,
            seconds,
        }),
    ensures
        hw_cursor == s.hw_cursor,
        seconds == 20,
        exists|i: int|
            0 <= i < j && (#[trigger] s.after_all(events.take(i))).action() is Create
                && names_output(events[i], output),
{
    let i = lemma_output_was_named(s, events, j);
    assert(s.after_all(events.take(i)).action() is Create);
}

proof fn lemma_node_was_recorded(s: SessionView, events: Seq<OutputEventView>, j: int) -> (i: int)
    requires
        s.stage is Creating,
        0 <= j <= events.len(),
        s.after_all(events.take(j)).stage is Ready,
    ensures
        0 <= i < j,
        s.after_all(events.take(i)).action() is Record,
        events[i] == OutputEventView::Recorded(
            CastReplyView::Node(s.after_all(events.take(j)).stage->Ready_node_id),
        ),
    decreases j,
{
    if j == 0 {
        assert(events.take(0) == Seq::<OutputEventView>::empty());
        0
    } else {
        assert(events.take(j).drop_last() == events.take(j - 1));
        assert(events.take(j).last() == events[j - 1]);
        if s.after_all(events.take(j - 1)).stage is Ready {
            lemma_node_was_recorded(s, events, j - 1)
        } else {
            j - 1
        }
    }
}

/// Whenever a session hands out a stream, it is at the mode that the session was begun with, from
/// the node that its recording gave, on the user's own daemon, and owned by the session.
pub proof fn law_the_stream_is_the_clients(
    s: SessionView,
    events: Seq<OutputEventView>,
    j: int,
    stream: VirtualOutput,
)
    requires
        s.stage is Creating,
        0 <= j <= events.len(),
        s.after_all(events.take(j)).action() == OutputActionView::Stream(stream),
    ensures
        stream.mode == Some((s.mode.width, s.mode.height, s.mode.refresh_hz)),
        stream.remote_fd is None,
        stream.ownership == DisplayOwnership::Owned,
        exists|i: int|
            0 <= i < j && (#[trigger] s.after_all(events.take(i))).action() is Record && events[i]
                == OutputEventView::Recorded(CastReplyView::Node(stream.node_id)),
{
    lemma_session_keeps_its_mode(s, events.take(j));
    let i = lemma_node_was_recorded(s, events, j);
    assert(s.after_all(events.take(i)).action() is Record);
}

/// As long as nothing exists, the pending request creates an output at the session's mode, under
/// `pf-` and the session's number.
pub proof fn law_the_creation_asks_for_the_sessions_mode(
    s: SessionView,
    events: Seq<OutputEventView>,
)
    requires
        s.stage is Creating,
        s.after_all(events).stage is Creating,
        1 <= s.mode.width <= 65535,
        1 <= s.mode.height <= 65535,
        1 <= s.mode.refresh_hz,
    ensures
        s.after_all(events).action() matches OutputActionView::Create(args) && {
            &&& args.len() == 9
            &&& args[0] == "create-virtual-output"@
            &&& args[1] == "--name"@ && args[2] == "pf-"@ + decimal_digits(s.number as nat)
            &&& args[3] == "--width"@ && shows(args[4], s.mode.width as int)
            &&& args[5] == "--height"@ && shows(args[6], s.mode.height as int)
            &&& args[7] == "--refresh-rate"@ && shows(args[8], s.mode.refresh_hz as int)
        },
{
    lemma_session_keeps_its_mode(s, events);
    law_the_request_asks_for_the_mode(numbered(s.number as nat), s.mode);
    assert(s.after_all(events).action() == OutputActionView::Create(
        creation_args(numbered(s.number as nat), s.mode),
    ));
}

/// A session that goes well: the output is created, recorded under the name that niri gave, streamed
/// from the node that the recording gave until it is no longer wanted, its cast is ended, and it is
/// removed by its name.
pub proof fn law_a_session_that_goes_well(
    s: SessionView,
    made: OutputEventView,
    name: Seq<char>,
    node_id: u32,
    ended: OutputEventView,
    stdout: Seq<u8>,
    stderr: Seq<u8>,
)
    requires
        s.stage is Creating,
        names_output(made, name),
        ends_cast(ended, name),
    ensures
        s.action() is Create,
        ({
            let s1 = s.after(made);
            let s2 = s1.after(OutputEventView::Recorded(CastReplyView::Node(node_id)));
            let s3 = s2.after(OutputEventView::Released);
            let s4 = s3.after(ended);
            let s5 = s4.after(
                OutputEventView::Answered(
                    MsgOutcomeView::Exited { success: true, stdout, stderr },
                ),
            );
            &&& s1.action() == OutputActionView::Record {
                output: name,
                hw_cursor: s.hw_cursor,
                seconds: 20,
            }
            &&& s2.action() matches OutputActionView::Stream(stream) && stream.node_id == node_id
                && stream.mode == Some((s.mode.width, s.mode.height, s.mode.refresh_hz))
            &&& s3.action() is StopCast
            &&& s4.action() == OutputActionView::Remove(seq!["remove-virtual-output"@, name])
            &&& s5.action() is Nothing
            &&& s5.stage == StageView::Gone { failure: None, removal: RemovalView::Done }
        }),
{
}

/// A recording that fails takes the output with it, and the session reports why: the cast's own
/// reason, the lack of a thread, or that nothing was heard of the output in time.
pub proof fn law_a_failed_recording_is_reported(
    s: SessionView,
    name: Seq<char>,
    ended: OutputEventView,
    outcome: MsgOutcomeView,
)
    requires
        s.stage == (StageView::Recording { name }),
        ends_cast(ended, name),
    ensures
        forall|reply: CastReplyView|
            !(reply is Node) ==> {
                let failed = #[trigger] s.after(OutputEventView::Recorded(reply));
                let why = match reply {
                    CastReplyView::Failed(cause) => NiriErrorView::CastFailed { cause },
                    CastReplyView::NotSpawned(cause) => NiriErrorView::NoThread { cause },
                    _ => NiriErrorView::CastTimedOut { output: name },
                };
                let over = failed.after(ended).after(OutputEventView::Answered(outcome));
                &&& failed.action() is StopCast
                &&& failed.after(ended).action() == OutputActionView::Remove(
                    seq!["remove-virtual-output"@, name],
                )
                &&& over.action() is Nothing
                &&& failed_with(over.stage) == Some(why)
            },
{
}

/// A creation that fails ends the session and is reported: niri could not be asked, refused, did
/// not answer with a document, or did not name the output.
pub proof fn law_a_failed_creation_is_reported(
    s: SessionView,
    stdout: Seq<u8>,
    stderr: Seq<u8>,
    cause: Seq<char>,
)
    requires
        s.stage is Creating,
    ensures
        s.after(OutputEventView::Answered(MsgOutcomeView::NotRun { cause })).stage == (
        StageView::Gone {
            failure: Some(
                NiriErrorView::CreateVirtualOutput { error: MsgErrorView::NotRun { cause } },
            ),
            removal: RemovalView::NotNeeded,
        }),
        s.after(
            OutputEventView::Answered(MsgOutcomeView::Exited { success: false, stdout, stderr }),
        ).stage matches StageView::Gone {
            failure: Some(NiriErrorView::CreateVirtualOutput { error: MsgErrorView::Refused { .. } }),
            removal: RemovalView::NotNeeded,
        },
        ({
            let after = s.after(
                OutputEventView::Answered(
                    MsgOutcomeView::Exited { success: true, stdout, stderr },
                ),
            ).stage;
            match document(lossy_text(stdout)) {
                Ok(reply) => match reply.member("name"@) {
                    Some(JsonView::Text(name)) => after == StageView::Recording { name },
                    _ => after == StageView::Gone {
                        failure: Some(NiriErrorView::NoName),
                        removal: RemovalView::NotNeeded,
                    },
                },
                Err(why) => after matches StageView::Gone {
                    failure: Some(
                        NiriErrorView::CreateVirtualOutput {
                            error: MsgErrorView::NotJson { cause: told, .. },
                        },
                    ),
                    removal: RemovalView::NotNeeded,
                } && told == why,
            }
        }),
{
}

/// The end of a session says truly how the removal came out.
pub proof fn law_the_removal_is_reported(
    s: SessionView,
    name: Seq<char>,
    stdout: Seq<u8>,
    stderr: Seq<u8>,
    cause: Seq<char>,
)
    requires
        s.stage matches StageView::Removing { name: n, .. } && n == name,
    ensures
        s.after(
            OutputEventView::Answered(MsgOutcomeView::Exited { success: true, stdout, stderr }),
        ).stage == (StageView::Gone {
            failure: failed_with(s.stage),
            removal: RemovalView::Done,
        }),
        s.after(OutputEventView::Answered(MsgOutcomeView::NotRun { cause })).stage == (
        StageView::Gone {
            failure: failed_with(s.stage),
            removal: RemovalView::Failed(MsgErrorView::NotRun { cause }),
        }),
        s.after(
            OutputEventView::Answered(MsgOutcomeView::Exited { success: false, stdout, stderr }),
        ).stage matches StageView::Gone {
            removal: RemovalView::Failed(MsgErrorView::Refused { args, .. }),
            ..
        } && args == seq!["remove-virtual-output"@, name],
{
}

/// Only an answer to the pending action moves a session on, and nothing moves one that is over.
pub proof fn law_only_answers_move_a_session(s: SessionView, event: OutputEventView)
    ensures
        s.after(event).number == s.number,
        s.after(event).mode == s.mode,
        s.after(event).hw_cursor == s.hw_cursor,
        s.after(event).stage == s.stage || match s.action() {
            OutputActionView::Create(_) => event is Answered,
            OutputActionView::Record { .. } => event is Recorded,
            OutputActionView::Stream(_) => event is Released,
            OutputActionView::StopCast => event is Stopped,
            OutputActionView::Remove(_) => event is Answered,
            OutputActionView::Nothing => false,
        },
        // A cast that has not ended, or that is on another output, does not answer a stop.
        s.action() is StopCast && s.after(event).stage != s.stage ==> ends_cast(
            event,
            existing(s.stage)->0,
        ),
{
}

/// An event changes the numbers that are held by no more than this session's own, and only where it
/// ends the use of it.
pub proof fn law_other_numbers_stay_held(
    s: SessionView,
    held: Set<u64>,
    event: OutputEventView,
    m: u64,
)
    ensures
        m != s.number ==> (s.held_after(held, event).contains(m) <==> held.contains(m)),
        s.after(event).stage is Creating || existing(s.after(event).stage) == Some(
            "pf-"@ + decimal_digits(s.number as nat),
        ) ==> s.held_after(held, event) == held,
        s.stage is Creating && s.after(event).stage is Gone ==> !s.held_after(
            held,
            event,
        ).contains(s.number),
        existing(s.stage) == Some("pf-"@ + decimal_digits(s.number as nat)) && s.after(
            event,
        ).stage is Gone ==> !s.held_after(held, event).contains(s.number),
{
}

} // verus!
