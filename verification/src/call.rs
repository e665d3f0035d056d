//! A call: one request over a connection of its own, and its one response.
//!
//! The host opens the channel, polling while the budget lasts, writes the
//! request, reads one frame and lets the connection go. What is decided along
//! the way is decided here: whether a failed open is tried again, what is
//! written, and what the frame that came back amounts to.

use crate::decoder::Frame;
use crate::envelope::arrival_of;
use crate::envelope::build_request;
use crate::envelope::is_response;
use crate::envelope::outcome_view;
use crate::envelope::params_model;
use crate::envelope::receive;
use crate::envelope::request_model;
use crate::envelope::response_from;
use crate::envelope::Rejection;
use crate::events::Arrival;
use crate::events::Command;
use crate::events::ReadFault;
use crate::framing::frame;
use crate::framing::FrameError;
use crate::framing::ReadPhase;
use crate::json::json_text;
use crate::json::value_model;
use crate::json::JsonModel;
use crate::retry::after_failed_open;
use crate::retry::retry_decision;
use crate::retry::OpenRetry;
use vstd::prelude::*;
use vstd::slice::slice_to_vec;

verus! {

/// Why a call gave no result.
#[derive(Debug, PartialEq)]
pub enum CallError<T, B, J> {
    /// The channel could not be opened within the budget; the host's words
    /// for the last attempt.
    ConnectOpenFailed(T),
    /// A read or a write failed; the host's words.
    Io(T),
    /// The peer closed the connection before the part was complete.
    ConnectionClosed(ReadPhase),
    /// The header declares no usable body length.
    Framing,
    /// The body is no JSON, or no response: the header and the start of the
    /// body.
    Decode { header: B, body: B },
    /// The response carries neither a result nor an error.
    MalformedResponse,
    /// The backend answered with an error value.
    Remote(J),
    /// The worker that ran the call did not complete; the host's words.
    Join(T),
}

impl View for CallError<String, Vec<u8>, serde_json::Value> {
    type V = CallError<Seq<char>, Seq<u8>, JsonModel>;

    open spec fn view(&self) -> CallError<Seq<char>, Seq<u8>, JsonModel> {
        match self {
            CallError::ConnectOpenFailed(text) => CallError::ConnectOpenFailed(text@),
            CallError::Io(text) => CallError::Io(text@),
            CallError::ConnectionClosed(phase) => CallError::ConnectionClosed(*phase),
            CallError::Framing => CallError::Framing,
            CallError::Decode { header, body } => CallError::Decode {
                header: header@,
                body: body@,
            },
            CallError::MalformedResponse => CallError::MalformedResponse,
            CallError::Remote(error) => CallError::Remote(value_model(*error)),
            CallError::Join(text) => CallError::Join(text@),
        }
    }
}

/// What a call amounts to once something has arrived: the failure of the
/// read under its own name; a body that spells no response as a decode
/// error, with the header and the start of the body; the error of the
/// response as a remote error; a response with neither as malformed; else
/// the result.
pub open spec fn call_outcome(arrival: Arrival<Seq<char>, Seq<u8>, JsonModel>) -> Result<
    JsonModel,
    CallError<Seq<char>, Seq<u8>, JsonModel>,
> {
    match arrival {
        Arrival::Fault(ReadFault::Write(text)) => Err(CallError::Io(text)),
        Arrival::Fault(ReadFault::Read(_, text)) => Err(CallError::Io(text)),
        Arrival::Fault(ReadFault::Frame(FrameError::ConnectionClosed(phase))) => Err(
            CallError::ConnectionClosed(phase),
        ),
        Arrival::Fault(ReadFault::Frame(FrameError::Framing)) => Err(CallError::Framing),
        Arrival::Undecodable { header, body } => Err(CallError::Decode { header, body }),
        Arrival::Document { header, body, document } => if !is_response(document) {
            Err(CallError::Decode { header, body })
        } else {
            match document.present_member("error"@) {
                Some(error) => Err(CallError::Remote(error)),
                None => match document.present_member("result"@) {
                    Some(result) => Ok(result),
                    None => Err(CallError::MalformedResponse),
                },
            }
        },
    }
}

/// What the outcome of a call holds.
pub open spec fn result_view(
    result: Result<serde_json::Value, CallError<String, Vec<u8>, serde_json::Value>>,
) -> Result<JsonModel, CallError<Seq<char>, Seq<u8>, JsonModel>> {
    match result {
        Ok(value) => Ok(value_model(value)),
        Err(error) => Err(error@),
    }
}

/// What the call asks of its host next.
#[derive(Debug)]
pub enum CallStep {
    /// Do this and report the outcome.
    Do(Command<Vec<u8>>),
    /// The budget for opening the channel is spent: the call has failed.
    GaveUp(CallError<String, Vec<u8>, serde_json::Value>),
}

/// A call under way.
#[derive(Debug)]
pub struct Call {
    /// The identifier of the request.
    pub id: u64,
    /// The frame of the request.
    pub request: Vec<u8>,
    /// Milliseconds that opening the channel may take.
    pub timeout_ms: u64,
}

impl Call {
    /// Begins a call of `method`: the request is framed under an identifier
    /// taken from the clock, and the first thing to do is to open the
    /// channel.
    pub fn begin(method: &str, params: Option<serde_json::Value>, timeout_ms: u64) -> (call: Call)
        ensures
            call.timeout_ms == timeout_ms,
            call.request@ == frame(
                json_text(request_model(call.id, method@, params_model(params))),
            ),
    {
        let built = build_request(method, params);
        Call { id: built.1, request: built.0, timeout_ms }
    }

    /// An attempt to open the channel has failed, `elapsed_ms` milliseconds
    /// after the first: while the budget lasts the host sleeps for the poll
    /// interval and opens again; once it is spent the call fails with the
    /// host's words for this attempt.
    pub fn open_failed(&self, error: String, elapsed_ms: u64) -> (step: CallStep)
        ensures
            match retry_decision(elapsed_ms, self.timeout_ms) {
                OpenRetry::RetryAfter(ms) => step matches CallStep::Do(Command::Sleep(delay))
                    && delay == ms,
                OpenRetry::GiveUp => step matches CallStep::GaveUp(
                    CallError::ConnectOpenFailed(text),
                ) && text@ == error@,
            },
    {
        match after_failed_open(elapsed_ms, self.timeout_ms) {
            OpenRetry::RetryAfter(ms) => CallStep::Do(Command::Sleep(ms)),
            OpenRetry::GiveUp => CallStep::GaveUp(CallError::ConnectOpenFailed(error)),
        }
    }

    /// The host has slept: it opens the channel again.
    pub fn woke(&self) -> (command: Command<Vec<u8>>)
        ensures
            command@ == Command::<Seq<u8>>::Open,
    {
        Command::Open
    }

    /// The channel is open: the request is exchanged for a response.
    pub fn opened(&self) -> (command: Command<Vec<u8>>)
        ensures
            command@ == Command::Exchange(self.request@),
    {
        Command::Exchange(slice_to_vec(self.request.as_slice()))
    }

    /// The exchange has ended: the body of a frame is read as JSON, and
    /// what has arrived is what the call amounts to.
    pub fn read(self, outcome: Result<Frame, ReadFault<String>>) -> (result: Result<
        serde_json::Value,
        CallError<String, Vec<u8>, serde_json::Value>,
    >)
        ensures
            result_view(result) == call_outcome(arrival_of(outcome_view(outcome))),
    {
        finish_call(receive(outcome))
    }
}

/// What a call amounts to once something has arrived.
pub fn finish_call(arrival: Arrival<String, Vec<u8>, serde_json::Value>) -> (result: Result<
    serde_json::Value,
    CallError<String, Vec<u8>, serde_json::Value>,
>)
    ensures
        result_view(result) == call_outcome(arrival@),
{
    match arrival {
        Arrival::Fault(fault) => Err(
            match fault {
                ReadFault::Write(text) => CallError::Io(text),
                ReadFault::Read(_, text) => CallError::Io(text),
                ReadFault::Frame(error) => match error {
                    FrameError::ConnectionClosed(phase) => CallError::ConnectionClosed(phase),
                    FrameError::Framing => CallError::Framing,
                },
            },
        ),
        Arrival::Undecodable { header, body } => Err(CallError::Decode { header, body }),
        Arrival::Document { header, body, document } => match response_from(&document) {
            None => Err(CallError::Decode { header, body }),
            Some(response) => match response.into_result() {
                Ok(result) => Ok(result),
                Err(Rejection::Remote(error)) => Err(CallError::Remote(error)),
                Err(Rejection::Malformed) => Err(CallError::MalformedResponse),
            },
        },
    }
}

} // verus!
