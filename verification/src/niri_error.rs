//! What can go wrong between the host and niri.

use vstd::prelude::*;
use vstd::string::*;

use crate::niri_msg::{MsgError, MsgErrorView};
use crate::text::{concat2, debug, debug_text};

verus! {

/// Why a request to niri failed.
#[derive(Debug)]
pub enum NiriError {
    /// No virtual output could be created.
    CreateVirtualOutput { error: MsgError },
    /// The answer to the creation does not name the output.
    NoName,
    /// The outputs could not be listed.
    Outputs { error: MsgError },
    /// The list of outputs is no JSON object.
    NotAnObject,
    /// There is no thread for the cast.
    NoThread { cause: String },
    /// The cast could not be started.
    CastFailed { cause: String },
    /// The cast on this output did not start in time.
    CastTimedOut { output: String },
}

/// What a [`NiriError`] holds.
pub enum NiriErrorView {
    CreateVirtualOutput { error: MsgErrorView },
    NoName,
    Outputs { error: MsgErrorView },
    NotAnObject,
    NoThread { cause: Seq<char> },
    CastFailed { cause: Seq<char> },
    CastTimedOut { output: Seq<char> },
}

impl View for NiriError {
    type V = NiriErrorView;

    open spec fn view(&self) -> NiriErrorView {
        match *self {
            NiriError::CreateVirtualOutput { error } => NiriErrorView::CreateVirtualOutput {
                error: error@,
            },
            NiriError::NoName => NiriErrorView::NoName,
            NiriError::Outputs { error } => NiriErrorView::Outputs { error: error@ },
            NiriError::NotAnObject => NiriErrorView::NotAnObject,
            NiriError::NoThread { cause } => NiriErrorView::NoThread { cause: cause@ },
            NiriError::CastFailed { cause } => NiriErrorView::CastFailed { cause: cause@ },
            NiriError::CastTimedOut { output } => NiriErrorView::CastTimedOut { output: output@ },
        }
    }
}

impl NiriErrorView {
    /// The error in words, its cause behind it.
    pub open spec fn message(self) -> Seq<char> {
        match self {
            NiriErrorView::CreateVirtualOutput { error } =>
            "niri msg create-virtual-output (does this niri have virtual-output support? niri-wm/niri#3800 is unmerged upstream — a stock build has no such subcommand): "@
                + error.message(),
            NiriErrorView::NoName => "create-virtual-output: no `name` in the reply"@,
            NiriErrorView::Outputs { error } => "niri msg outputs: "@ + error.message(),
            NiriErrorView::NotAnObject => "niri msg outputs: not a JSON object"@,
            NiriErrorView::NoThread { cause } => "spawn niri screencast thread: "@ + cause,
            NiriErrorView::CastFailed { cause } => "niri screencast failed: "@ + cause,
            NiriErrorView::CastTimedOut { output } => "timed out recording the niri output "@
                + debug_text(output),
        }
    }
}

impl NiriError {
    /// The error in words, its cause behind it.
    pub fn message(&self) -> (r: String)
        ensures
            r@ == self@.message(),
    {
        match self {
            NiriError::CreateVirtualOutput { error } => concat2(
                "niri msg create-virtual-output (does this niri have virtual-output support? niri-wm/niri#3800 is unmerged upstream — a stock build has no such subcommand): ",
                error.message().as_str(),
            ),
            NiriError::NoName => "create-virtual-output: no `name` in the reply".to_owned(),
            NiriError::Outputs { error } => concat2(
                "niri msg outputs: ",
                error.message().as_str(),
            ),
            NiriError::NotAnObject => "niri msg outputs: not a JSON object".to_owned(),
            NiriError::NoThread { cause } => concat2(
                "spawn niri screencast thread: ",
                cause.as_str(),
            ),
            NiriError::CastFailed { cause } => concat2(
                "niri screencast failed: ",
                cause.as_str(),
            ),
            NiriError::CastTimedOut { output } => concat2(
                "timed out recording the niri output ",
                debug(output.as_str()).as_str(),
            ),
        }
    }
}

/// The words of each error name what failed, and hold what caused it.
pub proof fn law_niri_errors_hold_their_cause(
    error: MsgErrorView,
    cause: Seq<char>,
    output: Seq<char>,
)
    ensures
        (NiriErrorView::CreateVirtualOutput { error }).message()
            == "niri msg create-virtual-output (does this niri have virtual-output support? niri-wm/niri#3800 is unmerged upstream — a stock build has no such subcommand): "@
            + error.message(),
        NiriErrorView::NoName.message() == "create-virtual-output: no `name` in the reply"@,
        (NiriErrorView::Outputs { error }).message() == "niri msg outputs: "@ + error.message(),
        NiriErrorView::NotAnObject.message() == "niri msg outputs: not a JSON object"@,
        (NiriErrorView::NoThread { cause }).message() == "spawn niri screencast thread: "@ + cause,
        (NiriErrorView::CastFailed { cause }).message() == "niri screencast failed: "@ + cause,
        (NiriErrorView::CastTimedOut { output }).message()
            == "timed out recording the niri output "@ + debug_text(output),
{
}

/// The model of an error carries what it carries, unchanged.
pub proof fn law_errors_are_modelled_as_held(error: MsgError, text: String)
    ensures
        (NiriError::CreateVirtualOutput { error })@ == (NiriErrorView::CreateVirtualOutput {
            error: error@,
        }),
        NiriError::NoName@ is NoName && NiriError::NotAnObject@ is NotAnObject,
        (NiriError::Outputs { error })@ == (NiriErrorView::Outputs { error: error@ }),
        (NiriError::NoThread { cause: text })@ == (NiriErrorView::NoThread { cause: text@ }),
        (NiriError::CastFailed { cause: text })@ == (NiriErrorView::CastFailed { cause: text@ }),
        (NiriError::CastTimedOut { output: text })@ == (NiriErrorView::CastTimedOut {
            output: text@,
        }),
{
}

} // verus!
