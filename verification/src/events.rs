//! What the event bridge tells its host, and what the host tells the bridge.
//!
//! Each kind of message is one type with the carriers of text, bytes and JSON
//! left open. The bridge fills them with `String`, `Vec<u8>` and
//! `serde_json::Value`; contracts speak of the same message over `Seq<char>`,
//! `Seq<u8>` and `JsonModel`, which is its view.

use crate::framing::FrameError;
use crate::framing::ReadPhase;
use crate::json::value_model;
use crate::json::JsonModel;
use vstd::prelude::*;
use vstd::slice::slice_to_vec;

verus! {

/// The stage at which the bridge failed.
#[derive(Clone, Copy, Debug, PartialEq, Eq)]
pub enum Stage {
    Hello,
    InitSubscribe,
    ReadHeader,
    ParseHeader,
    ReadBody,
    DecodeJson,
}

/// Which subscription toggle is meant: the one that follows the handshake or
/// one that the host has asked for since.
#[derive(Clone, Copy, Debug, PartialEq, Eq)]
pub enum ToggleStage {
    Init,
    Toggle,
}

/// Why a read gave no frame.
#[derive(Debug, PartialEq)]
pub enum ReadFault<T> {
    /// The request could not be written or flushed; the host's words.
    Write(T),
    /// The stream could not be read; the part of the frame and the host's
    /// words.
    Read(ReadPhase, T),
    /// The stream was read and held no frame.
    Frame(FrameError),
}

/// What a read has brought.
#[derive(Debug, PartialEq)]
pub enum Arrival<T, B, J> {
    /// No frame.
    Fault(ReadFault<T>),
    /// A frame whose body is no JSON: the header and the start of the body.
    Undecodable { header: B, body: B },
    /// A frame whose body is a JSON document: the header, the start of the
    /// body, and the document.
    Document { header: B, body: B, document: J },
}

/// What went wrong, for the host to put into words.
#[derive(Debug, PartialEq)]
pub enum Detail<T, B> {
    /// A read or a write failed; the host's own words.
    Host(T),
    /// The peer closed the connection, in this part of the frame.
    Closed(ReadPhase),
    /// The header declares no usable body length.
    NoLength,
    /// The body is no JSON, or not the envelope that was awaited: the header
    /// and the start of the body.
    Undecodable { header: B, body: B },
    /// The backend answered with an error.
    Refused,
}

/// An event for the host's event surface.
#[derive(Debug, PartialEq)]
pub enum HostEvent<T, B, J> {
    /// The channel could not be opened; the bridge tries again after the
    /// delay.
    Disconnected { error: T, retry_in_ms: u64 },
    /// The channel is open and the handshake begins.
    Handshake,
    /// A subscription toggle is being sent.
    Subscribe { toggle: ToggleStage, enable: bool },
    /// A subscription toggle was answered, or was not.
    SubscribeAck { toggle: ToggleStage, ok: bool },
    /// The bridge failed at a stage.
    Error { stage: Stage, detail: Detail<T, B> },
    /// A notification has arrived.
    Received { method: T },
    /// The notification itself: an event named by the method, with the
    /// parameters as its payload.
    Notification { method: T, payload: J },
}

/// A line for the local diagnostic record.
#[derive(Debug, PartialEq)]
pub enum LogLine<T, B> {
    Disconnected(T),
    HelloFailed(Detail<T, B>),
    HelloOk,
    SubscribeAck { toggle: ToggleStage, enable: bool, ok: bool },
    SubscribeFailed(Detail<T, B>),
    NoLength,
    ReadBodyFailed(Detail<T, B>),
    DecodeFailed,
    Memory { total_mb: u64, used_mb: u64, at: u64 },
}

/// Something for the host to do in passing.
#[derive(Debug, PartialEq)]
pub enum Effect<T, B, J> {
    Emit(HostEvent<T, B, J>),
    Log(LogLine<T, B>),
}

/// What the host is to do next, and to report the outcome of.
#[derive(Debug, PartialEq)]
pub enum Command<B> {
    /// Drop the connection, if there is one, and open the channel.
    Open,
    /// Write the request to the connection, flush, and read one frame.
    Exchange(B),
    /// Read one frame from the connection.
    AwaitFrame,
    /// Sleep for so many milliseconds.
    Sleep(u64),
}

impl View for ReadFault<String> {
    type V = ReadFault<Seq<char>>;

    open spec fn view(&self) -> ReadFault<Seq<char>> {
        match self {
            ReadFault::Write(text) => ReadFault::Write(text@),
            ReadFault::Read(phase, text) => ReadFault::Read(*phase, text@),
            ReadFault::Frame(error) => ReadFault::Frame(*error),
        }
    }
}

impl View for Arrival<String, Vec<u8>, serde_json::Value> {
    type V = Arrival<Seq<char>, Seq<u8>, JsonModel>;

    open spec fn view(&self) -> Arrival<Seq<char>, Seq<u8>, JsonModel> {
        match self {
            Arrival::Fault(fault) => Arrival::Fault(fault@),
            Arrival::Undecodable { header, body } => Arrival::Undecodable {
                header: header@,
                body: body@,
            },
            Arrival::Document { header, body, document } => Arrival::Document {
                header: header@,
                body: body@,
                document: value_model(*document),
            },
        }
    }
}

impl View for Detail<String, Vec<u8>> {
    type V = Detail<Seq<char>, Seq<u8>>;

    open spec fn view(&self) -> Detail<Seq<char>, Seq<u8>> {
        match self {
            Detail::Host(text) => Detail::Host(text@),
            Detail::Closed(phase) => Detail::Closed(*phase),
            Detail::NoLength => Detail::NoLength,
            Detail::Undecodable { header, body } => Detail::Undecodable {
                header: header@,
                body: body@,
            },
            Detail::Refused => Detail::Refused,
        }
    }
}

impl View for HostEvent<String, Vec<u8>, serde_json::Value> {
    type V = HostEvent<Seq<char>, Seq<u8>, JsonModel>;

    open spec fn view(&self) -> HostEvent<Seq<char>, Seq<u8>, JsonModel> {
        match self {
            HostEvent::Disconnected { error, retry_in_ms } => HostEvent::Disconnected {
                error: error@,
                retry_in_ms: *retry_in_ms,
            },
            HostEvent::Handshake => HostEvent::Handshake,
            HostEvent::Subscribe { toggle, enable } => HostEvent::Subscribe {
                toggle: *toggle,
                enable: *enable,
            },
            HostEvent::SubscribeAck { toggle, ok } => HostEvent::SubscribeAck {
                toggle: *toggle,
                ok: *ok,
            },
            HostEvent::Error { stage, detail } => HostEvent::Error {
                stage: *stage,
                detail: detail@,
            },
            HostEvent::Received { method } => HostEvent::Received { method: method@ },
            HostEvent::Notification { method, payload } => HostEvent::Notification {
                method: method@,
                payload: value_model(*payload),
            },
        }
    }
}

impl View for LogLine<String, Vec<u8>> {
    type V = LogLine<Seq<char>, Seq<u8>>;

    open spec fn view(&self) -> LogLine<Seq<char>, Seq<u8>> {
        match self {
            LogLine::Disconnected(text) => LogLine::Disconnected(text@),
            LogLine::HelloFailed(detail) => LogLine::HelloFailed(detail@),
            LogLine::HelloOk => LogLine::HelloOk,
            LogLine::SubscribeAck { toggle, enable, ok } => LogLine::SubscribeAck {
                toggle: *toggle,
                enable: *enable,
                ok: *ok,
            },
            LogLine::SubscribeFailed(detail) => LogLine::SubscribeFailed(detail@),
            LogLine::NoLength => LogLine::NoLength,
            LogLine::ReadBodyFailed(detail) => LogLine::ReadBodyFailed(detail@),
            LogLine::DecodeFailed => LogLine::DecodeFailed,
            LogLine::Memory { total_mb, used_mb, at } => LogLine::Memory {
                total_mb: *total_mb,
                used_mb: *used_mb,
                at: *at,
            },
        }
    }
}

impl View for Effect<String, Vec<u8>, serde_json::Value> {
    type V = Effect<Seq<char>, Seq<u8>, JsonModel>;

    open spec fn view(&self) -> Effect<Seq<char>, Seq<u8>, JsonModel> {
        match self {
            Effect::Emit(event) => Effect::Emit(event@),
            Effect::Log(line) => Effect::Log(line@),
        }
    }
}

impl View for Command<Vec<u8>> {
    type V = Command<Seq<u8>>;

    open spec fn view(&self) -> Command<Seq<u8>> {
        match self {
            Command::Open => Command::Open,
            Command::Exchange(request) => Command::Exchange(request@),
            Command::AwaitFrame => Command::AwaitFrame,
            Command::Sleep(ms) => Command::Sleep(*ms),
        }
    }
}

/// What each of the effects is, in order.
pub open spec fn effects_view(effects: Seq<Effect<String, Vec<u8>, serde_json::Value>>) -> Seq<
    Effect<Seq<char>, Seq<u8>, JsonModel>,
> {
    Seq::new(effects.len(), |i: int| effects[i]@)
}

/// A copy of a detail.
pub fn copy_detail(detail: &Detail<String, Vec<u8>>) -> (copy: Detail<String, Vec<u8>>)
    ensures
        copy@ == detail@,
{
    match detail {
        Detail::Host(text) => Detail::Host(text.clone()),
        Detail::Closed(phase) => Detail::Closed(*phase),
        Detail::NoLength => Detail::NoLength,
        Detail::Undecodable { header, body } => Detail::Undecodable {
            header: slice_to_vec(header.as_slice()),
            body: slice_to_vec(body.as_slice()),
        },
        Detail::Refused => Detail::Refused,
    }
}

/// What went wrong, told from why a read gave no frame.
pub open spec fn fault_detail(fault: ReadFault<Seq<char>>) -> Detail<Seq<char>, Seq<u8>> {
    match fault {
        ReadFault::Write(text) => Detail::Host(text),
        ReadFault::Read(_, text) => Detail::Host(text),
        ReadFault::Frame(FrameError::ConnectionClosed(phase)) => Detail::Closed(phase),
        ReadFault::Frame(FrameError::Framing) => Detail::NoLength,
    }
}

/// The stage at which a read that was to bring a notification failed.
pub open spec fn fault_stage(fault: ReadFault<Seq<char>>) -> Stage {
    match fault {
        ReadFault::Write(_) => Stage::ReadHeader,
        ReadFault::Read(ReadPhase::Header, _) => Stage::ReadHeader,
        ReadFault::Read(ReadPhase::Body, _) => Stage::ReadBody,
        ReadFault::Frame(FrameError::ConnectionClosed(ReadPhase::Header)) => Stage::ReadHeader,
        ReadFault::Frame(FrameError::ConnectionClosed(ReadPhase::Body)) => Stage::ReadBody,
        ReadFault::Frame(FrameError::Framing) => Stage::ParseHeader,
    }
}

/// Tells what went wrong, and at which stage of reading, from why a read gave
/// no frame.
pub fn describe_fault(fault: ReadFault<String>) -> (told: (Stage, Detail<String, Vec<u8>>))
    ensures
        told.0 == fault_stage(fault@),
        told.1@ == fault_detail(fault@),
{
    match fault {
        ReadFault::Write(text) => (Stage::ReadHeader, Detail::Host(text)),
        ReadFault::Read(phase, text) => match phase {
            ReadPhase::Header => (Stage::ReadHeader, Detail::Host(text)),
            ReadPhase::Body => (Stage::ReadBody, Detail::Host(text)),
        },
        ReadFault::Frame(error) => match error {
            FrameError::ConnectionClosed(phase) => match phase {
                ReadPhase::Header => (Stage::ReadHeader, Detail::Closed(ReadPhase::Header)),
                ReadPhase::Body => (Stage::ReadBody, Detail::Closed(ReadPhase::Body)),
            },
            FrameError::Framing => (Stage::ParseHeader, Detail::NoLength),
        },
    }
}

} // verus!
