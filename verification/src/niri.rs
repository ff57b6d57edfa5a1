//! The niri backend: a virtual output for a stream, from its creation to its removal.
//!
//! `niri msg create-virtual-output` adds a headless output at the client's mode, which is fixed
//! from then on and paces the frames. A cast then records the output. The teardown goes the other
//! way: first the cast is stopped, and once its thread has ended the output is removed. It stays
//! enabled up to the removal, since removing a disabled virtual output panics the compositor.

use vstd::prelude::*;
use vstd::string::*;

use crate::cast::{CastAction, CastThread, CastView};
use crate::json::{document, keys_differ, law_members_are_found_by_their_keys, Json, JsonView};
use crate::niri_error::{NiriError, NiriErrorView};
use crate::niri_msg::{
    answer, answered, answered_in_json, json_answer, MsgError, MsgErrorView, MsgOutcome,
    MsgOutcomeView,
};
use crate::output_names::{lowest_free, numbered, output_name, taken, OutputNames};
use crate::text::{
    decimal, decimal_digits, decimal_value, is_text, law_decimal_is_plain,
    law_decimal_stands_for_its_number, lossy_text, texts,
};

verus! {

/// Seconds that a cast may take to start.
pub const RECORD_BUDGET_SECONDS: u64 = 20;

/// A display mode.
#[derive(Clone, Copy, Debug, PartialEq, Eq, Structural)]
pub struct Mode {
    pub width: u32,
    pub height: u32,
    pub refresh_hz: u32,
}

/// Who owns a display.
#[derive(Clone, Copy, Debug, PartialEq, Eq, Structural)]
pub enum DisplayOwnership {
    /// It was created for the stream and goes with it.
    Owned,
}

/// A virtual output that is being streamed.
#[derive(Clone, Copy, Debug, PartialEq, Eq)]
pub struct VirtualOutput {
    /// The PipeWire node that carries the frames.
    pub node_id: u32,
    /// Width, height and refresh rate.
    pub mode: Option<(u32, u32, u32)>,
    /// The node lives on the user's own PipeWire daemon: there is no remote to connect through.
    pub remote_fd: Option<i32>,
    pub ownership: DisplayOwnership,
}

/// A stream of an output that someone else owns.
#[derive(Clone, Copy, Debug, PartialEq, Eq)]
pub struct MirrorStream {
    /// The PipeWire node that carries the frames.
    pub node_id: u32,
    /// As for [`VirtualOutput::remote_fd`].
    pub remote_fd: Option<i32>,
    /// The cursor mode, where the other side could have chosen another one than was asked for.
    /// niri takes what it is asked for, so there is nothing to report.
    pub cursor_mode: Option<u32>,
}

/// How the start of a cast came out.
#[derive(Debug)]
pub enum CastReply {
    /// The frames come from this PipeWire node.
    Node(u32),
    /// The cast failed, for this cause.
    Failed(String),
    /// No thread could be had for the cast, for this cause.
    NotSpawned(String),
    /// Nothing was heard of it in time.
    TimedOut,
}

/// What a [`CastReply`] holds.
pub enum CastReplyView {
    Node(u32),
    Failed(Seq<char>),
    NotSpawned(Seq<char>),
    TimedOut,
}

impl View for CastReply {
    type V = CastReplyView;

    open spec fn view(&self) -> CastReplyView {
        match *self {
            CastReply::Node(id) => CastReplyView::Node(id),
            CastReply::Failed(cause) => CastReplyView::Failed(cause@),
            CastReply::NotSpawned(cause) => CastReplyView::NotSpawned(cause@),
            CastReply::TimedOut => CastReplyView::TimedOut,
        }
    }
}

/// The node of a cast on `output`, or why there is none.
pub open spec fn recorded(output: Seq<char>, reply: CastReplyView) -> Result<u32, NiriErrorView> {
    match reply {
        CastReplyView::Node(id) => Ok(id),
        CastReplyView::Failed(cause) => Err(NiriErrorView::CastFailed { cause }),
        CastReplyView::NotSpawned(cause) => Err(NiriErrorView::NoThread { cause }),
        CastReplyView::TimedOut => Err(NiriErrorView::CastTimedOut { output }),
    }
}

/// The node of a cast on `output`, or why there is none.
pub fn record(output: &str, reply: CastReply) -> (r: Result<u32, NiriError>)
    ensures
        match r {
            Ok(id) => recorded(output@, reply@) == Ok::<u32, NiriErrorView>(id),
            Err(error) => recorded(output@, reply@) == Err::<u32, NiriErrorView>(error@),
        },
{
    match reply {
        CastReply::Node(id) => Ok(id),
        CastReply::Failed(cause) => Err(NiriError::CastFailed { cause }),
        CastReply::NotSpawned(cause) => Err(NiriError::NoThread { cause }),
        CastReply::TimedOut => Err(NiriError::CastTimedOut { output: output.to_owned() }),
    }
}

/// The stream of the existing output `connector`, given how the cast on it came out. Nothing is
/// created, so nothing is ever torn down but the cast.
pub fn stream_existing_output(connector: &str, reply: CastReply) -> (r: Result<
    MirrorStream,
    NiriError,
>)
    ensures
        match r {
            Ok(stream) => {
                &&& recorded(connector@, reply@) == Ok::<u32, NiriErrorView>(stream.node_id)
                &&& stream.remote_fd is None
                &&& stream.cursor_mode is None
            },
            Err(error) => recorded(connector@, reply@) == Err::<u32, NiriErrorView>(error@),
        },
{
    match record(connector, reply) {
        Ok(node_id) => Ok(MirrorStream { node_id, remote_fd: None, cursor_mode: None }),
        Err(error) => Err(error),
    }
}

/// `v` within the bounds.
pub open spec fn clamped(v: u32, least: u32, most: u32) -> u32 {
    if v < least {
        least
    } else if v > most {
        most
    } else {
        v
    }
}

fn clamp(v: u32, least: u32, most: u32) -> (r: u32)
    ensures
        r == clamped(v, least, most),
{
    if v < least {
        least
    } else if v > most {
        most
    } else {
        v
    }
}

/// The request that creates the output `requested` at `mode`. niri takes sizes of sixteen bits and
/// whole hertz, none of them zero.
pub open spec fn creation_args(requested: Seq<char>, mode: Mode) -> Seq<Seq<char>> {
    seq![
        "create-virtual-output"@,
        "--name"@,
        requested,
        "--width"@,
        decimal_digits(clamped(mode.width, 1, 0xffff) as nat),
        "--height"@,
        decimal_digits(clamped(mode.height, 1, 0xffff) as nat),
        "--refresh-rate"@,
        decimal_digits(clamped(mode.refresh_hz, 1, u32::MAX) as nat),
    ]
}

/// The request that creates the output `requested` at `mode`.
pub fn creation_request(requested: &str, mode: Mode) -> (r: Vec<String>)
    ensures
        texts(r@) == creation_args(requested@, mode),
{
    let mut r: Vec<String> = Vec::new();
    r.push("create-virtual-output".to_owned());
    r.push("--name".to_owned());
    r.push(requested.to_owned());
    r.push("--width".to_owned());
    r.push(decimal(clamp(mode.width, 1, 0xffff) as u64));
    r.push("--height".to_owned());
    r.push(decimal(clamp(mode.height, 1, 0xffff) as u64));
    r.push("--refresh-rate".to_owned());
    r.push(decimal(clamp(mode.refresh_hz, 1, u32::MAX) as u64));
    assert(texts(r@) == creation_args(requested@, mode));
    r
}

/// The name in niri's answer to a creation.
pub open spec fn name_in(reply: JsonView) -> Option<Seq<char>> {
    match reply.member("name"@) {
        Some(value) => value.text(),
        None => None,
    }
}

/// The name in niri's answer to a creation.
pub fn created_name(reply: &Json) -> (r: Option<String>)
    ensures
        match r {
            Some(name) => name_in(reply@) == Some(name@),
            None => name_in(reply@) is None,
        },
{
    match reply.member("name") {
        Some(value) => match value.as_text() {
            Some(s) => Some(s.clone()),
            None => None,
        },
        None => None,
    }
}

/// The name of the output that a creation made, or why it made none.
pub open spec fn created(requested: Seq<char>, mode: Mode, outcome: MsgOutcomeView) -> Result<
    Seq<char>,
    NiriErrorView,
> {
    match answered_in_json(creation_args(requested, mode), outcome) {
        Ok(reply) => match name_in(reply) {
            Some(name) => Ok(name),
            None => Err(NiriErrorView::NoName),
        },
        Err(error) => Err(NiriErrorView::CreateVirtualOutput { error }),
    }
}

/// The name of the output that niri made, given how the JSON request [`creation_request`] came
/// out. The name is read back and not assumed: niri may have declined the one asked for.
pub fn create_virtual_output(requested: &str, mode: Mode, outcome: &MsgOutcome) -> (r: Result<
    String,
    NiriError,
>)
    ensures
        match r {
            Ok(name) => created(requested@, mode, outcome@) == Ok::<Seq<char>, NiriErrorView>(
                name@,
            ),
            Err(error) => created(requested@, mode, outcome@) == Err::<Seq<char>, NiriErrorView>(
                error@,
            ),
        },
{
    match json_answer(&creation_request(requested, mode), outcome) {
        Ok(reply) => match created_name(&reply) {
            Some(name) => Ok(name),
            None => Err(NiriError::NoName),
        },
        Err(error) => Err(NiriError::CreateVirtualOutput { error }),
    }
}

/// The request that removes the output `name`.
pub open spec fn removal_args(name: Seq<char>) -> Seq<Seq<char>> {
    seq!["remove-virtual-output"@, name]
}

/// The request that removes the output `name`.
pub fn removal_request(name: &str) -> (r: Vec<String>)
    ensures
        texts(r@) == removal_args(name@),
{
    let mut r: Vec<String> = Vec::new();
    r.push("remove-virtual-output".to_owned());
    r.push(name.to_owned());
    assert(texts(r@) == removal_args(name@));
    r
}

/// The request that focuses the output `name`, so that windows of the session open on it. niri
/// spells that as an action; its `output` subcommand has no such verb.
pub fn focus_argv(name: &str) -> (argv: [&str; 3])
    ensures
        argv@[0]@ == "action"@,
        argv@[1]@ == "focus-monitor"@,
        argv@[2]@ == name@,
{
    ["action", "focus-monitor", name]
}

/// The niri virtual-display driver.
pub struct NiriDisplay {
    hw_cursor: bool,
}

impl View for NiriDisplay {
    type V = bool;

    /// Is the cursor to be sent beside the frames, and not painted into them?
    closed spec fn view(&self) -> bool {
        self.hw_cursor
    }
}

impl NiriDisplay {
    /// A driver that has the cursor painted into the frames. It never fails.
    pub fn new() -> (r: Result<NiriDisplay, NiriError>)
        ensures
            r matches Ok(display) && !display@,
    {
        Ok(NiriDisplay { hw_cursor: false })
    }

    pub fn name(&self) -> (r: &'static str)
        ensures
            r@ == "niri"@,
    {
        "niri"
    }

    pub fn set_hw_cursor(&mut self, on: bool)
        ensures
            final(self)@ == on,
    {
        self.hw_cursor = on;
    }

    pub fn hw_cursor(&self) -> (r: bool)
        ensures
            r == self@,
    {
        self.hw_cursor
    }

    /// Begin a virtual output at `mode`, under the lowest name that is free beside the `existing`
    /// outputs. `None` where no name is.
    pub fn create(
        &mut self,
        names: &mut OutputNames,
        existing: &Vec<String>,
        mode: Mode,
    ) -> (r: Option<OutputSession>)
        ensures
            final(self)@ == old(self)@,
            match r {
                Some(session) => {
                    &&& session@ == (SessionView {
                        number: session@.number,
                        mode,
                        hw_cursor: old(self)@,
                        stage: StageView::Creating,
                    })
                    &&& lowest_free(old(names)@, texts(existing@), session@.number)
                    &&& final(names)@ == old(names)@.insert(session@.number)
                },
                None => {
                    &&& forall|m: u64|
                        1 <= m ==> #[trigger] taken(old(names)@, texts(existing@), m)
                    &&& final(names)@ == old(names)@
                },
            },
    {
        match names.take(existing) {
            Some(number) => Some(
                OutputSession { number, mode, hw_cursor: self.hw_cursor, stage: Stage::Creating },
            ),
            None => None,
        }
    }
}

/// How the removal of an output came out.
#[derive(Debug)]
pub enum Removal {
    /// There was no output to remove.
    NotNeeded,
    Done,
    Failed(MsgError),
}

/// Where a virtual output stands.
#[derive(Debug)]
pub enum Stage {
    /// niri is to create it.
    Creating,
    /// It exists under this name, and is to be recorded.
    Recording { name: String },
    /// It is being streamed from this PipeWire node.
    Ready { name: String, node_id: u32 },
    /// Its cast is to be ended: the stream is over, or the recording failed.
    Stopping { name: String, failure: Option<NiriError> },
    /// niri is to remove it.
    Removing { name: String, failure: Option<NiriError> },
    /// Nothing is left to do.
    Gone { failure: Option<NiriError>, removal: Removal },
}

/// What happened to a virtual output.
#[derive(Debug)]
pub enum OutputEvent {
    /// The pending request to niri came out like this.
    Answered(MsgOutcome),
    /// The start of the cast came out like this.
    Recorded(CastReply),
    /// The stream is no longer wanted.
    Released,
    /// The cast has ended.
    Stopped(CastEnd),
}

/// How a cast came to its end.
#[derive(Debug)]
pub enum CastEnd {
    /// Its thread ended and left this behind.
    Finished(CastThread),
    /// There is no thread of it: none was ever spawned, or it ended in a panic.
    NoThread,
}

/// What is to be done next for a virtual output.
#[derive(Debug)]
pub enum OutputAction {
    /// Run this request, answered in JSON.
    Create(Vec<String>),
    /// Start a cast, and wait for its node this long.
    Record { output: String, hw_cursor: bool, seconds: u64 },
    /// Stream, until the stream is no longer wanted.
    Stream(VirtualOutput),
    /// Tell the cast to stop, and wait for its thread to end.
    StopCast,
    /// Run this request.
    Remove(Vec<String>),
    Nothing,
}

/// What a [`Removal`] holds.
pub enum RemovalView {
    NotNeeded,
    Done,
    Failed(MsgErrorView),
}

/// What a [`Stage`] holds.
pub enum StageView {
    Creating,
    Recording { name: Seq<char> },
    Ready { name: Seq<char>, node_id: u32 },
    Stopping { name: Seq<char>, failure: Option<NiriErrorView> },
    Removing { name: Seq<char>, failure: Option<NiriErrorView> },
    Gone { failure: Option<NiriErrorView>, removal: RemovalView },
}

/// What an [`OutputEvent`] holds.
pub enum OutputEventView {
    Answered(MsgOutcomeView),
    Recorded(CastReplyView),
    Released,
    Stopped(CastEndView),
}

/// What a [`CastEnd`] holds.
pub enum CastEndView {
    Finished(CastView),
    NoThread,
}

/// What an [`OutputAction`] holds.
pub enum OutputActionView {
    Create(Seq<Seq<char>>),
    Record { output: Seq<char>, hw_cursor: bool, seconds: u64 },
    Stream(VirtualOutput),
    StopCast,
    Remove(Seq<Seq<char>>),
    Nothing,
}

pub open spec fn failure_view(failure: Option<NiriError>) -> Option<NiriErrorView> {
    match failure {
        Some(error) => Some(error@),
        None => None,
    }
}

impl View for Removal {
    type V = RemovalView;

    open spec fn view(&self) -> RemovalView {
        match *self {
            Removal::NotNeeded => RemovalView::NotNeeded,
            Removal::Done => RemovalView::Done,
            Removal::Failed(error) => RemovalView::Failed(error@),
        }
    }
}

impl View for Stage {
    type V = StageView;

    open spec fn view(&self) -> StageView {
        match *self {
            Stage::Creating => StageView::Creating,
            Stage::Recording { name } => StageView::Recording { name: name@ },
            Stage::Ready { name, node_id } => StageView::Ready { name: name@, node_id },
            Stage::Stopping { name, failure } => StageView::Stopping {
                name: name@,
                failure: failure_view(failure),
            },
            Stage::Removing { name, failure } => StageView::Removing {
                name: name@,
                failure: failure_view(failure),
            },
            Stage::Gone { failure, removal } => StageView::Gone {
                failure: failure_view(failure),
                removal: removal@,
            },
        }
    }
}

impl View for CastEnd {
    type V = CastEndView;

    open spec fn view(&self) -> CastEndView {
        match *self {
            CastEnd::Finished(cast) => CastEndView::Finished(cast@),
            CastEnd::NoThread => CastEndView::NoThread,
        }
    }
}

impl CastEndView {
    /// Has the cast on `output` ended? Its thread, where there is one, has nothing left to do.
    pub open spec fn ends(self, output: Seq<char>) -> bool {
        match self {
            CastEndView::Finished(cast) => cast.output == output && cast.action() is Exit,
            CastEndView::NoThread => true,
        }
    }
}

impl CastEnd {
    fn is_end_of(&self, output: &String) -> (r: bool)
        ensures
            r == self@.ends(output@),
    {
        match self {
            CastEnd::Finished(cast) => match cast.action() {
                CastAction::Exit => is_text(output, cast.output()),
                _ => false,
            },
            CastEnd::NoThread => true,
        }
    }
}

impl View for OutputEvent {
    type V = OutputEventView;

    open spec fn view(&self) -> OutputEventView {
        match *self {
            OutputEvent::Answered(outcome) => OutputEventView::Answered(outcome@),
            OutputEvent::Recorded(reply) => OutputEventView::Recorded(reply@),
            OutputEvent::Released => OutputEventView::Released,
            OutputEvent::Stopped(end) => OutputEventView::Stopped(end@),
        }
    }
}

impl View for OutputAction {
    type V = OutputActionView;

    open spec fn view(&self) -> OutputActionView {
        match *self {
            OutputAction::Create(args) => OutputActionView::Create(texts(args@)),
            OutputAction::Record { output, hw_cursor, seconds } => OutputActionView::Record {
                output: output@,
                hw_cursor,
                seconds,
            },
            OutputAction::Stream(output) => OutputActionView::Stream(output),
            OutputAction::StopCast => OutputActionView::StopCast,
            OutputAction::Remove(args) => OutputActionView::Remove(texts(args@)),
            OutputAction::Nothing => OutputActionView::Nothing,
        }
    }
}

/// One virtual output, from its creation to its removal. Its owner performs
/// [`OutputSession::action`] and hands back what came of it, until nothing is left to do.
pub struct OutputSession {
    number: u64,
    mode: Mode,
    hw_cursor: bool,
    stage: Stage,
}

/// What an [`OutputSession`] holds.
pub struct SessionView {
    pub number: u64,
    pub mode: Mode,
    pub hw_cursor: bool,
    pub stage: StageView,
}

impl View for OutputSession {
    type V = SessionView;

    closed spec fn view(&self) -> SessionView {
        SessionView {
            number: self.number,
            mode: self.mode,
            hw_cursor: self.hw_cursor,
            stage: self.stage@,
        }
    }
}

impl SessionView {
    /// The stage after `event`. An event that does not answer the pending action changes nothing.
    pub open spec fn stage_after(self, event: OutputEventView) -> StageView {
        match (self.stage, event) {
            (StageView::Creating, OutputEventView::Answered(outcome)) => match created(
                numbered(self.number as nat),
                self.mode,
                outcome,
            ) {
                Ok(name) => StageView::Recording { name },
                Err(error) => StageView::Gone {
                    failure: Some(error),
                    removal: RemovalView::NotNeeded,
                },
            },
            (StageView::Recording { name }, OutputEventView::Recorded(reply)) => match recorded(
                name,
                reply,
            ) {
                Ok(node_id) => StageView::Ready { name, node_id },
                Err(error) => StageView::Stopping { name, failure: Some(error) },
            },
            (StageView::Ready { name, .. }, OutputEventView::Released) => StageView::Stopping {
                name,
                failure: None,
            },
            (StageView::Stopping { name, failure }, OutputEventView::Stopped(end)) => if end.ends(
                name,
            ) {
                StageView::Removing { name, failure }
            } else {
                self.stage
            },
            (
                StageView::Removing { name, failure },
                OutputEventView::Answered(outcome),
            ) => StageView::Gone {
                failure,
                removal: match answered(removal_args(name), outcome) {
                    Ok(_) => RemovalView::Done,
                    Err(error) => RemovalView::Failed(error),
                },
            },
            _ => self.stage,
        }
    }

    pub open spec fn after(self, event: OutputEventView) -> SessionView {
        SessionView { stage: self.stage_after(event), ..self }
    }

    pub open spec fn after_all(self, events: Seq<OutputEventView>) -> SessionView
        decreases events.len(),
    {
        if events.len() == 0 {
            self
        } else {
            self.after_all(events.drop_last()).after(events.last())
        }
    }

    pub open spec fn action(self) -> OutputActionView {
        match self.stage {
            StageView::Creating => OutputActionView::Create(
                creation_args(numbered(self.number as nat), self.mode),
            ),
            StageView::Recording { name } => OutputActionView::Record {
                output: name,
                hw_cursor: self.hw_cursor,
                seconds: RECORD_BUDGET_SECONDS,
            },
            StageView::Ready { node_id, .. } => OutputActionView::Stream(
                VirtualOutput {
                    node_id,
                    mode: Some((self.mode.width, self.mode.height, self.mode.refresh_hz)),
                    remote_fd: None,
                    ownership: DisplayOwnership::Owned,
                },
            ),
            StageView::Stopping { .. } => OutputActionView::StopCast,
            StageView::Removing { name, .. } => OutputActionView::Remove(removal_args(name)),
            StageView::Gone { .. } => OutputActionView::Nothing,
        }
    }

    /// Has the session no use for its number any more? That is so once it is over, and as soon as
    /// niri has given the output another name.
    pub open spec fn frees_number(self) -> bool {
        match self.stage {
            StageView::Creating => false,
            StageView::Recording { name } => name != numbered(self.number as nat),
            StageView::Ready { name, .. } => name != numbered(self.number as nat),
            StageView::Stopping { name, .. } => name != numbered(self.number as nat),
            StageView::Removing { name, .. } => name != numbered(self.number as nat),
            StageView::Gone { .. } => true,
        }
    }

    /// The numbers that are held after `event`: without this session's, where the event frees it.
    pub open spec fn held_after(self, held: Set<u64>, event: OutputEventView) -> Set<u64> {
        if !self.frees_number() && self.after(event).frees_number() {
            held.remove(self.number)
        } else {
            held
        }
    }
}

impl OutputSession {
    /// The number of the output's name.
    pub fn number(&self) -> (r: u64)
        ensures
            r == self@.number,
    {
        self.number
    }

    /// What is to be done next.
    pub fn action(&self) -> (r: OutputAction)
        ensures
            r@ == self@.action(),
    {
        match &self.stage {
            Stage::Creating => OutputAction::Create(
                creation_request(output_name(self.number).as_str(), self.mode),
            ),
            Stage::Recording { name } => OutputAction::Record {
                output: name.clone(),
                hw_cursor: self.hw_cursor,
                seconds: RECORD_BUDGET_SECONDS,
            },
            Stage::Ready { node_id, .. } => OutputAction::Stream(
                VirtualOutput {
                    node_id: *node_id,
                    mode: Some((self.mode.width, self.mode.height, self.mode.refresh_hz)),
                    remote_fd: None,
                    ownership: DisplayOwnership::Owned,
                },
            ),
            Stage::Stopping { .. } => OutputAction::StopCast,
            Stage::Removing { name, .. } => OutputAction::Remove(removal_request(name.as_str())),
            Stage::Gone { .. } => OutputAction::Nothing,
        }
    }

    /// Take what happened. An event that does not answer the pending action changes nothing. The
    /// session's number is given back with the event that frees it.
    pub fn next(self, names: &mut OutputNames, event: OutputEvent) -> (r: OutputSession)
        ensures
            r@ == self@.after(event@),
            final(names)@ == self@.held_after(old(names)@, event@),
    {
        let in_use: bool = !self.frees_number();
        let number = self.number;
        let mode = self.mode;
        let hw_cursor = self.hw_cursor;
        let stage = match (self.stage, event) {
            (Stage::Creating, OutputEvent::Answered(outcome)) => match create_virtual_output(
                output_name(number).as_str(),
                mode,
                &outcome,
            ) {
                Ok(name) => Stage::Recording { name },
                Err(error) => Stage::Gone { failure: Some(error), removal: Removal::NotNeeded },
            },
            (Stage::Recording { name }, OutputEvent::Recorded(reply)) => match record(
                name.as_str(),
                reply,
            ) {
                Ok(node_id) => Stage::Ready { name, node_id },
                Err(error) => Stage::Stopping { name, failure: Some(error) },
            },
            (Stage::Ready { name, .. }, OutputEvent::Released) => Stage::Stopping {
                name,
                failure: None,
            },
            (Stage::Stopping { name, failure }, OutputEvent::Stopped(end)) => if end.is_end_of(
                &name,
            ) {
                Stage::Removing { name, failure }
            } else {
                Stage::Stopping { name, failure }
            },
            (Stage::Removing { name, failure }, OutputEvent::Answered(outcome)) => {
                let removal = match answer(&removal_request(name.as_str()), &outcome) {
                    Ok(_) => Removal::Done,
                    Err(error) => Removal::Failed(error),
                };
                Stage::Gone { failure, removal }
            },
            (stage, _) => stage,
        };
        let session = OutputSession { number, mode, hw_cursor, stage };
        if in_use && session.frees_number() {
            names.release(number);
        }
        session
    }

    /// Has the session no use for its number any more?
    pub fn frees_number(&self) -> (r: bool)
        ensures
            r == self@.frees_number(),
    {
        let own = output_name(self.number);
        match &self.stage {
            Stage::Creating => false,
            Stage::Recording { name } => *name != own,
            Stage::Ready { name, .. } => *name != own,
            Stage::Stopping { name, .. } => *name != own,
            Stage::Removing { name, .. } => *name != own,
            Stage::Gone { .. } => true,
        }
    }

    /// Where the output stands.
    pub fn into_stage(self) -> (r: Stage)
        ensures
            r@ == self@.stage,
    {
        self.stage
    }
}

/// Does `text` show `n` as a person writes it?
pub open spec fn shows(text: Seq<char>, n: int) -> bool {
    &&& text.len() > 0
    &&& forall|i: int| 0 <= i < text.len() ==> '0' <= #[trigger] text[i] <= '9'
    &&& text[0] == '0' ==> text.len() == 1
    &&& decimal_value(text) == n
}

/// niri is asked for exactly the client's mode, under the name that was chosen: each number behind
/// its own flag. A size that niri cannot take becomes the nearest that it can, as does a rate of
/// zero.
pub proof fn law_the_request_asks_for_the_mode(requested: Seq<char>, mode: Mode)
    ensures
        ({
            let args = creation_args(requested, mode);
            &&& args.len() == 9
            &&& args[0] == "create-virtual-output"@
            &&& args[1] == "--name"@ && args[2] == requested
            &&& args[3] == "--width"@ && args[5] == "--height"@ && args[7] == "--refresh-rate"@
            &&& 1 <= mode.width <= 65535 ==> shows(args[4], mode.width as int)
            &&& mode.width == 0 ==> shows(args[4], 1)
            &&& mode.width > 65535 ==> shows(args[4], 65535)
            &&& 1 <= mode.height <= 65535 ==> shows(args[6], mode.height as int)
            &&& mode.height == 0 ==> shows(args[6], 1)
            &&& mode.height > 65535 ==> shows(args[6], 65535)
            &&& mode.refresh_hz >= 1 ==> shows(args[8], mode.refresh_hz as int)
            &&& mode.refresh_hz == 0 ==> shows(args[8], 1)
        }),
{
    lemma_decimal_shows(clamped(mode.width, 1, 0xffff) as nat);
    lemma_decimal_shows(clamped(mode.height, 1, 0xffff) as nat);
    lemma_decimal_shows(clamped(mode.refresh_hz, 1, u32::MAX) as nat);
}

proof fn lemma_decimal_shows(n: nat)
    ensures
        shows(decimal_digits(n), n as int),
{
    law_decimal_stands_for_its_number(n);
    law_decimal_is_plain(n);
}

/// Different modes that niri can take, or different names, make different requests.
pub proof fn law_requests_tell_modes_apart(
    requested: Seq<char>,
    mode: Mode,
    other_requested: Seq<char>,
    other: Mode,
)
    requires
        1 <= mode.width <= 65535 && 1 <= mode.height <= 65535 && 1 <= mode.refresh_hz,
        1 <= other.width <= 65535 && 1 <= other.height <= 65535 && 1 <= other.refresh_hz,
        creation_args(requested, mode) == creation_args(other_requested, other),
    ensures
        requested == other_requested,
        mode == other,
{
    law_the_request_asks_for_the_mode(requested, mode);
    law_the_request_asks_for_the_mode(other_requested, other);
}

/// The name of a created output is the one that niri answers with, whatever was asked for. There is
/// none where the answer has no text under `name`, is no document, or never came.
pub proof fn law_the_name_is_read_back(
    requested: Seq<char>,
    mode: Mode,
    stdout: Seq<u8>,
    stderr: Seq<u8>,
    i: int,
    cause: Seq<char>,
)
    ensures
        ({
            let made = created(
                requested,
                mode,
                MsgOutcomeView::Exited { success: true, stdout, stderr },
            );
            match document(lossy_text(stdout)) {
                Ok(JsonView::Record(entries)) => keys_differ(entries) ==> {
                    &&& 0 <= i < entries.len() && entries[i].0 == "name"@ ==> made == (
                    match entries[i].1 {
                        JsonView::Text(name) => Ok::<Seq<char>, NiriErrorView>(name),
                        _ => Err(NiriErrorView::NoName),
                    })
                    &&& (forall|j: int| 0 <= j < entries.len() ==> (#[trigger] entries[j]).0
                        != "name"@) ==> made == Err::<Seq<char>, NiriErrorView>(
                        NiriErrorView::NoName,
                    )
                },
                Ok(_) => made == Err::<Seq<char>, NiriErrorView>(NiriErrorView::NoName),
                Err(why) => made matches Err(
                    NiriErrorView::CreateVirtualOutput {
                        error: MsgErrorView::NotJson { args, cause: told },
                    },
                ) && told == why && args == creation_args(requested, mode),
            }
        }),
        created(
            requested,
            mode,
            MsgOutcomeView::Exited { success: false, stdout, stderr },
        ) matches Err(
            NiriErrorView::CreateVirtualOutput { error: MsgErrorView::Refused { args, .. } },
        ) && args == seq!["-j"@] + creation_args(requested, mode),
        created(requested, mode, MsgOutcomeView::NotRun { cause }) == Err::<
            Seq<char>,
            NiriErrorView,
        >(NiriErrorView::CreateVirtualOutput { error: MsgErrorView::NotRun { cause } }),
{
    match document(lossy_text(stdout)) {
        Ok(JsonView::Record(entries)) => {
            if keys_differ(entries) {
                law_members_are_found_by_their_keys(entries, "name"@, i);
            }
        },
        _ => {},
    }
}

/// The start of a cast gives exactly the node that was named, whichever that is, or the reason that
/// was given; one that was not heard of is told by its output.
pub proof fn law_the_reply_is_passed_on(output: Seq<char>, node_id: u32, cause: Seq<char>)
    ensures
        recorded(output, CastReplyView::Node(node_id)) == Ok::<u32, NiriErrorView>(node_id),
        recorded(output, CastReplyView::Failed(cause)) == Err::<u32, NiriErrorView>(
            NiriErrorView::CastFailed { cause },
        ),
        recorded(output, CastReplyView::NotSpawned(cause)) == Err::<u32, NiriErrorView>(
            NiriErrorView::NoThread { cause },
        ),
        recorded(output, CastReplyView::TimedOut) == Err::<u32, NiriErrorView>(
            NiriErrorView::CastTimedOut { output },
        ),
{
}

/// An output is removed by a request of two words, the second of which is its name.
pub proof fn law_the_removal_names_the_output(name: Seq<char>)
    ensures
        removal_args(name).len() == 2,
        removal_args(name)[0] == "remove-virtual-output"@,
        removal_args(name)[1] == name,
{
}

/// The models of replies, events and actions carry what these carry, unchanged.
pub proof fn law_sessions_are_modelled_as_held(
    text: String,
    n: u32,
    on: bool,
    long: u64,
    args: Vec<String>,
    stream: VirtualOutput,
    cast: CastThread,
    outcome: MsgOutcome,
)
    ensures
        CastReply::Node(n)@ == CastReplyView::Node(n),
        CastReply::Failed(text)@ == CastReplyView::Failed(text@),
        CastReply::NotSpawned(text)@ == CastReplyView::NotSpawned(text@),
        CastReply::TimedOut@ is TimedOut,
        CastEnd::Finished(cast)@ == CastEndView::Finished(cast@),
        CastEnd::NoThread@ is NoThread,
        OutputEvent::Answered(outcome)@ == OutputEventView::Answered(outcome@),
        OutputEvent::Recorded(CastReply::Node(n))@ == OutputEventView::Recorded(
            CastReplyView::Node(n),
        ),
        OutputEvent::Released@ is Released,
        OutputEvent::Stopped(CastEnd::NoThread)@ is Stopped,
        OutputAction::Create(args)@ == OutputActionView::Create(texts(args@)),
        (OutputAction::Record { output: text, hw_cursor: on, seconds: long })@ == (
        OutputActionView::Record { output: text@, hw_cursor: on, seconds: long }),
        OutputAction::Stream(stream)@ == OutputActionView::Stream(stream),
        OutputAction::StopCast@ is StopCast,
        OutputAction::Remove(args)@ == OutputActionView::Remove(texts(args@)),
        OutputAction::Nothing@ is Nothing,
        Stage::Creating@ is Creating,
        (Stage::Recording { name: text })@ == (StageView::Recording { name: text@ }),
        (Stage::Ready { name: text, node_id: n })@ == (StageView::Ready { name: text@, node_id: n }),
        (Stage::Stopping { name: text, failure: None })@ == (StageView::Stopping {
            name: text@,
            failure: None,
        }),
        (Stage::Removing { name: text, failure: None })@ == (StageView::Removing {
            name: text@,
            failure: None,
        }),
        Removal::NotNeeded@ is NotNeeded && Removal::Done@ is Done,
{
}

/// The model of a failure is the failure: it is kept, and none is made up.
pub proof fn law_failures_are_modelled_as_held(error: NiriError, removal: MsgError, name: String)
    ensures
        failure_view(Some(error)) == Some(error@),
        failure_view(None) is None,
        Removal::Failed(removal)@ == RemovalView::Failed(removal@),
        (Stage::Stopping { name, failure: Some(error) })@ == (StageView::Stopping {
            name: name@,
            failure: Some(error@),
        }),
        (Stage::Removing { name, failure: Some(error) })@ == (StageView::Removing {
            name: name@,
            failure: Some(error@),
        }),
        (Stage::Gone { failure: Some(error), removal: Removal::Done })@ == (StageView::Gone {
            failure: Some(error@),
            removal: RemovalView::Done,
        }),
{
}

} // verus!
