//! Talking to niri: what `niri msg` is run with, and what its answer comes to.

use vstd::prelude::*;
use vstd::string::*;
use vstd::utf8::{decode_utf8, valid_utf8};

use crate::json::{document, parse, Json, JsonView};
use crate::text::{
    concat2, debug_list, debug_strings, lossy, lossy_text, repaired_text, texts, trim, trimmed_end,
    trimmed_start,
};

verus! {

/// Seconds that a `niri msg` call may take. Every query runs a process, and one without a bound
/// could wedge the session for good.
pub const MSG_BUDGET_SECONDS: u64 = 5;

/// How a run of `niri msg` came out.
#[derive(Debug)]
pub enum MsgOutcome {
    /// It could not be run to its end, for this cause.
    NotRun { cause: String },
    /// It exited.
    Exited { success: bool, stdout: Vec<u8>, stderr: Vec<u8> },
}

/// Why there is no answer to be had of `niri msg`.
#[derive(Debug)]
pub enum MsgError {
    /// It could not be run to its end.
    NotRun { cause: String },
    /// It failed: a refused request, or a subcommand that this niri does not have.
    Refused { args: Vec<String>, stdout: String, stderr: String },
    /// It answered with something that is not JSON.
    NotJson { args: Vec<String>, cause: String },
}

/// What a [`MsgOutcome`] holds.
pub enum MsgOutcomeView {
    NotRun { cause: Seq<char> },
    Exited { success: bool, stdout: Seq<u8>, stderr: Seq<u8> },
}

/// What a [`MsgError`] holds.
pub enum MsgErrorView {
    NotRun { cause: Seq<char> },
    Refused { args: Seq<Seq<char>>, stdout: Seq<char>, stderr: Seq<char> },
    NotJson { args: Seq<Seq<char>>, cause: Seq<char> },
}

impl View for MsgOutcome {
    type V = MsgOutcomeView;

    open spec fn view(&self) -> MsgOutcomeView {
        match *self {
            MsgOutcome::NotRun { cause } => MsgOutcomeView::NotRun { cause: cause@ },
            MsgOutcome::Exited { success, stdout, stderr } => MsgOutcomeView::Exited {
                success,
                stdout: stdout@,
                stderr: stderr@,
            },
        }
    }
}

impl View for MsgError {
    type V = MsgErrorView;

    open spec fn view(&self) -> MsgErrorView {
        match *self {
            MsgError::NotRun { cause } => MsgErrorView::NotRun { cause: cause@ },
            MsgError::Refused { args, stdout, stderr } => MsgErrorView::Refused {
                args: texts(args@),
                stdout: stdout@,
                stderr: stderr@,
            },
            MsgError::NotJson { args, cause } => MsgErrorView::NotJson {
                args: texts(args@),
                cause: cause@,
            },
        }
    }
}

impl MsgErrorView {
    /// The error in words.
    pub open spec fn message(self) -> Seq<char> {
        match self {
            MsgErrorView::NotRun { cause } =>
            "run niri msg (is niri installed and NIRI_SOCKET set?): "@ + cause,
            MsgErrorView::Refused { args, stdout, stderr } => "niri msg "@ + debug_list(args)
                + " failed: "@ + stdout + stderr,
            MsgErrorView::NotJson { args, cause } => "parse niri msg "@ + debug_list(args)
                + " output: "@ + cause,
        }
    }
}

impl MsgError {
    /// The error in words.
    pub fn message(&self) -> (r: String)
        ensures
            r@ == self@.message(),
    {
        match self {
            MsgError::NotRun { cause } => concat2(
                "run niri msg (is niri installed and NIRI_SOCKET set?): ",
                cause.as_str(),
            ),
            MsgError::Refused { args, stdout, stderr } => {
                let mut r = "niri msg ".to_owned();
                r.append(debug_strings(args).as_str());
                r.append(" failed: ");
                r.append(stdout.as_str());
                r.append(stderr.as_str());
                r
            },
            MsgError::NotJson { args, cause } => {
                let mut r = "parse niri msg ".to_owned();
                r.append(debug_strings(args).as_str());
                r.append(" output: ");
                r.append(cause.as_str());
                r
            },
        }
    }
}

/// `strings`, one by one.
fn copies(strings: &Vec<String>) -> (r: Vec<String>)
    ensures
        texts(r@) == texts(strings@),
{
    let mut r: Vec<String> = Vec::new();
    let mut i: usize = 0;
    while i < strings.len()
        invariant
            i <= strings@.len(),
            r@.len() == i,
            forall|j: int| 0 <= j < i ==> (#[trigger] r@[j])@ == strings@[j]@,
        decreases strings@.len() - i,
    {
        r.push(strings[i].clone());
        i += 1;
    }
    assert(texts(r@) == texts(strings@));
    r
}

/// `first` followed by `rest`.
fn led_by(first: &str, rest: &Vec<String>) -> (r: Vec<String>)
    ensures
        texts(r@) == seq![first@] + texts(rest@),
{
    let mut r: Vec<String> = Vec::new();
    r.push(first.to_owned());
    let mut more = copies(rest);
    let ghost before = r@;
    r.append(&mut more);
    assert(texts(r@) == texts(before) + texts(rest@));
    r
}

/// The arguments that the process `niri` gets for the request `args`.
pub fn command_args(args: &Vec<String>) -> (r: Vec<String>)
    ensures
        texts(r@) == seq!["msg"@] + texts(args@),
{
    led_by("msg", args)
}

/// The request `args`, answered in JSON. The flag goes before the subcommand: behind it, it would
/// be read as an argument of the subcommand.
pub fn json_request(args: &Vec<String>) -> (r: Vec<String>)
    ensures
        texts(r@) == seq!["-j"@] + texts(args@),
{
    led_by("-j", args)
}

/// What the request `args` comes to: what niri printed, or why there is nothing.
pub open spec fn answered(args: Seq<Seq<char>>, outcome: MsgOutcomeView) -> Result<
    Seq<char>,
    MsgErrorView,
> {
    match outcome {
        MsgOutcomeView::NotRun { cause } => Err(MsgErrorView::NotRun { cause }),
        MsgOutcomeView::Exited { success, stdout, stderr } => if success {
            Ok(lossy_text(stdout))
        } else {
            Err(
                MsgErrorView::Refused {
                    args,
                    stdout: trimmed_end(trimmed_start(lossy_text(stdout))),
                    stderr: trimmed_end(trimmed_start(lossy_text(stderr))),
                },
            )
        },
    }
}

/// What the request `args` comes to when answered in JSON.
pub open spec fn answered_in_json(args: Seq<Seq<char>>, outcome: MsgOutcomeView) -> Result<
    JsonView,
    MsgErrorView,
> {
    match answered(seq!["-j"@] + args, outcome) {
        Ok(raw) => match document(raw) {
            Ok(json) => Ok(json),
            Err(cause) => Err(MsgErrorView::NotJson { args, cause }),
        },
        Err(error) => Err(error),
    }
}

/// What the request `args` comes to, given how the run with [`command_args`] came out. `niri msg`
/// exits with a failure and its reason on stderr both for a refused request and for a subcommand
/// that it does not know.
pub fn answer(args: &Vec<String>, outcome: &MsgOutcome) -> (r: Result<String, MsgError>)
    ensures
        match r {
            Ok(raw) => answered(texts(args@), outcome@) == Ok::<Seq<char>, MsgErrorView>(raw@),
            Err(error) => answered(texts(args@), outcome@) == Err::<Seq<char>, MsgErrorView>(
                error@,
            ),
        },
{
    match outcome {
        MsgOutcome::NotRun { cause } => Err(MsgError::NotRun { cause: cause.clone() }),
        MsgOutcome::Exited { success, stdout, stderr } => if *success {
            Ok(lossy(stdout))
        } else {
            Err(
                MsgError::Refused {
                    args: copies(args),
                    stdout: trim(lossy(stdout).as_str()),
                    stderr: trim(lossy(stderr).as_str()),
                },
            )
        },
    }
}

/// What the request `args` comes to when answered in JSON, given how the run of
/// [`json_request`] came out.
pub fn json_answer(args: &Vec<String>, outcome: &MsgOutcome) -> (r: Result<Json, MsgError>)
    ensures
        match r {
            Ok(json) => answered_in_json(texts(args@), outcome@) == Ok::<JsonView, MsgErrorView>(
                json@,
            ) && json@.well_formed(),
            Err(error) => answered_in_json(texts(args@), outcome@) == Err::<
                JsonView,
                MsgErrorView,
            >(error@),
        },
{
    let request = json_request(args);
    match answer(&request, outcome) {
        Ok(raw) => match parse(raw.as_str()) {
            Ok(json) => Ok(json),
            Err(cause) => Err(MsgError::NotJson { args: copies(args), cause }),
        },
        Err(error) => Err(error),
    }
}

/// An answer is all that niri printed, and is there exactly where the run succeeded. A refusal
/// keeps the request and what was said on both channels, each without the white space around it.
pub proof fn law_answers_are_what_niri_printed(
    args: Seq<Seq<char>>,
    success: bool,
    stdout: Seq<u8>,
    stderr: Seq<u8>,
    cause: Seq<char>,
)
    ensures
        answered(args, MsgOutcomeView::NotRun { cause }) == Err::<Seq<char>, MsgErrorView>(
            MsgErrorView::NotRun { cause },
        ),
        answered(args, MsgOutcomeView::Exited { success, stdout, stderr }) is Ok <==> success,
        success && valid_utf8(stdout) ==> answered(
            args,
            MsgOutcomeView::Exited { success, stdout, stderr },
        ) == Ok::<Seq<char>, MsgErrorView>(decode_utf8(stdout)),
        success && !valid_utf8(stdout) ==> answered(
            args,
            MsgOutcomeView::Exited { success, stdout, stderr },
        ) == Ok::<Seq<char>, MsgErrorView>(repaired_text(stdout)),
        !success ==> answered(args, MsgOutcomeView::Exited { success, stdout, stderr }) == Err::<
            Seq<char>,
            MsgErrorView,
        >(
            MsgErrorView::Refused {
                args,
                stdout: trimmed_end(trimmed_start(lossy_text(stdout))),
                stderr: trimmed_end(trimmed_start(lossy_text(stderr))),
            },
        ),
{
}

/// A request for JSON is run with `-j` in front, which a refusal shows, and its answer is the
/// document that niri printed. What is no document is blamed on the request as it was made.
pub proof fn law_json_answers_are_the_printed_document(
    args: Seq<Seq<char>>,
    stdout: Seq<u8>,
    stderr: Seq<u8>,
    cause: Seq<char>,
)
    ensures
        answered_in_json(args, MsgOutcomeView::NotRun { cause }) == Err::<JsonView, MsgErrorView>(
            MsgErrorView::NotRun { cause },
        ),
        answered_in_json(args, MsgOutcomeView::Exited { success: true, stdout, stderr })
            == match document(lossy_text(stdout)) {
            Ok(json) => Ok::<JsonView, MsgErrorView>(json),
            Err(cause) => Err(MsgErrorView::NotJson { args, cause }),
        },
        answered_in_json(
            args,
            MsgOutcomeView::Exited { success: false, stdout, stderr },
        ) matches Err(MsgErrorView::Refused { args: shown, .. }) && shown.len() == args.len() + 1
            && shown[0] == "-j"@ && shown.skip(1) == args,
{
    let shown = seq!["-j"@] + args;
    assert(shown.skip(1) == args);
}

/// The words of each error hold all that is known of it, in order.
pub proof fn law_msg_errors_say_all_they_know(
    args: Seq<Seq<char>>,
    stdout: Seq<char>,
    stderr: Seq<char>,
    cause: Seq<char>,
)
    ensures
        (MsgErrorView::NotRun { cause }).message()
            == "run niri msg (is niri installed and NIRI_SOCKET set?): "@ + cause,
        (MsgErrorView::Refused { args, stdout, stderr }).message() == "niri msg "@ + debug_list(
            args,
        ) + " failed: "@ + stdout + stderr,
        (MsgErrorView::NotJson { args, cause }).message() == "parse niri msg "@ + debug_list(args)
            + " output: "@ + cause,
{
}

/// The models of outcomes and errors carry what these carry, unchanged.
pub proof fn law_outcomes_are_modelled_as_held(
    text: String,
    other: String,
    args: Vec<String>,
    success: bool,
    stdout: Vec<u8>,
    stderr: Vec<u8>,
)
    ensures
        (MsgOutcome::NotRun { cause: text })@ == (MsgOutcomeView::NotRun { cause: text@ }),
        (MsgOutcome::Exited { success, stdout, stderr })@ == (MsgOutcomeView::Exited {
            success,
            stdout: stdout@,
            stderr: stderr@,
        }),
        (MsgError::NotRun { cause: text })@ == (MsgErrorView::NotRun { cause: text@ }),
        (MsgError::Refused { args, stdout: text, stderr: other })@ == (MsgErrorView::Refused {
            args: texts(args@),
            stdout: text@,
            stderr: other@,
        }),
        (MsgError::NotJson { args, cause: text })@ == (MsgErrorView::NotJson {
            args: texts(args@),
            cause: text@,
        }),
{
}

} // verus!
