//! The words of the bridge: under which name and with which payload an event
//! reaches the user interface, how a line of the record reads, and in which
//! words a failed call is reported.

use crate::call::CallError;
use crate::diag::escape_line_breaks;
use crate::diag::escaped;
use crate::envelope::lemma_members_push;
use crate::events::Detail;
use crate::events::HostEvent;
use crate::events::LogLine;
use crate::events::Stage;
use crate::events::ToggleStage;
use crate::framing::ReadPhase;
use crate::json::json_text;
use crate::json::members_of;
use crate::json::print_value;
use crate::json::value_bool;
use crate::json::value_model;
use crate::json::value_object;
use crate::json::value_string;
use crate::json::value_u64;
use crate::json::JsonModel;
use crate::json::JsonNumber;
use vstd::prelude::*;
use vstd::string::StringExecFns;

verus! {

/// The text that `String::from_utf8_lossy` reads from bytes: their UTF-8
/// reading, with U+FFFD in place of what is no UTF-8.
pub uninterp spec fn utf8_lossy(bytes: Seq<u8>) -> Seq<char>;

/// `String::from_utf8_lossy`, made an owned `String`: the text of the bytes,
/// a function of the bytes alone, named `utf8_lossy`.
#[verifier::external_body]
fn lossy_text(bytes: &[u8]) -> (text: String)
    ensures
        text@ == utf8_lossy(bytes@),
{
    String::from_utf8_lossy(bytes).into_owned()
}

/// The name of a stage as the user interface knows it.
pub open spec fn stage_name(stage: Stage) -> Seq<char> {
    match stage {
        Stage::Hello => "hello"@,
        Stage::InitSubscribe => "init_subscribe"@,
        Stage::ReadHeader => "read_header"@,
        Stage::ParseHeader => "parse_header"@,
        Stage::ReadBody => "read_body"@,
        Stage::DecodeJson => "decode_json"@,
    }
}

/// The name of a toggle as the user interface knows it.
pub open spec fn toggle_name(toggle: ToggleStage) -> Seq<char> {
    match toggle {
        ToggleStage::Init => "init"@,
        ToggleStage::Toggle => "toggle"@,
    }
}

/// `true` or `false`.
pub open spec fn bool_text(flag: bool) -> Seq<char> {
    if flag {
        "true"@
    } else {
        "false"@
    }
}

/// The character of a decimal digit.
pub open spec fn digit_char(digit: nat) -> char {
    if digit == 0 {
        '0'
    } else if digit == 1 {
        '1'
    } else if digit == 2 {
        '2'
    } else if digit == 3 {
        '3'
    } else if digit == 4 {
        '4'
    } else if digit == 5 {
        '5'
    } else if digit == 6 {
        '6'
    } else if digit == 7 {
        '7'
    } else if digit == 8 {
        '8'
    } else {
        '9'
    }
}

/// A number in decimal, without leading zeros.
pub open spec fn decimal_text(n: nat) -> Seq<char>
    decreases n,
{
    if n < 10 {
        seq![digit_char(n)]
    } else {
        decimal_text(n / 10).push(digit_char(n % 10))
    }
}

/// That the peer closed the connection, and in which part of the frame.
pub open spec fn closed_text(phase: ReadPhase) -> Seq<char> {
    match phase {
        ReadPhase::Header => "connection closed while reading header"@,
        ReadPhase::Body => "connection closed while reading body"@,
    }
}

/// That a body could not be decoded, with the header and the start of the
/// body on one line.
pub open spec fn decode_text(header: Seq<u8>, body: Seq<u8>) -> Seq<char> {
    "decode json-rpc response (header=\""@ + utf8_lossy(escaped(header))
        + "\", body_preview=\""@ + utf8_lossy(escaped(body)) + "\")"@
}

/// What went wrong, in words.
pub open spec fn detail_text(detail: Detail<Seq<char>, Seq<u8>>) -> Seq<char> {
    match detail {
        Detail::Host(text) => text,
        Detail::Closed(phase) => closed_text(phase),
        Detail::NoLength => "missing or zero Content-Length"@,
        Detail::Undecodable { header, body } => decode_text(header, body),
        Detail::Refused => "hello error"@,
    }
}

/// What went wrong at a stage, in the words of the event that tells it.
pub open spec fn error_text(stage: Stage, detail: Detail<Seq<char>, Seq<u8>>) -> Seq<char> {
    match (stage, detail) {
        (Stage::ReadBody, Detail::Closed(_)) => "connection closed"@,
        (Stage::ParseHeader, Detail::NoLength) => "missing or zero content-length"@,
        _ => detail_text(detail),
    }
}

/// An object of two members.
pub open spec fn pair(first: Seq<char>, a: JsonModel, second: Seq<char>, b: JsonModel) -> JsonModel {
    JsonModel::Object(Map::<Seq<char>, JsonModel>::empty().insert(first, a).insert(second, b))
}

/// The name under which an event is emitted: a fixed name for what the
/// bridge itself has to say, the method for a notification.
pub open spec fn event_name(event: HostEvent<Seq<char>, Seq<u8>, JsonModel>) -> Seq<char> {
    match event {
        HostEvent::Disconnected { .. } => "bridge_disconnected"@,
        HostEvent::Handshake => "bridge_handshake"@,
        HostEvent::Subscribe { .. } => "bridge_subscribe"@,
        HostEvent::SubscribeAck { .. } => "bridge_subscribe_ack"@,
        HostEvent::Error { .. } => "bridge_error"@,
        HostEvent::Received { .. } => "bridge_rx"@,
        HostEvent::Notification { method, .. } => method,
    }
}

/// The payload with which an event is emitted.
pub open spec fn event_payload(event: HostEvent<Seq<char>, Seq<u8>, JsonModel>) -> JsonModel {
    match event {
        HostEvent::Disconnected { error, retry_in_ms } => pair(
            "error"@,
            JsonModel::String(error),
            "retry_in_ms"@,
            JsonModel::Number(JsonNumber::Integer(retry_in_ms as int)),
        ),
        HostEvent::Handshake => JsonModel::Object(
            Map::<Seq<char>, JsonModel>::empty().insert("stage"@, JsonModel::String("hello"@)),
        ),
        HostEvent::Subscribe { toggle, enable } => pair(
            "stage"@,
            JsonModel::String(toggle_name(toggle)),
            "enable"@,
            JsonModel::Bool(enable),
        ),
        HostEvent::SubscribeAck { toggle, ok } => pair(
            "stage"@,
            JsonModel::String(toggle_name(toggle)),
            "ok"@,
            JsonModel::Bool(ok),
        ),
        HostEvent::Error { stage, detail } => match (stage, detail) {
            (Stage::DecodeJson, Detail::Undecodable { header, body }) => pair(
                "stage"@,
                JsonModel::String(stage_name(stage)),
                "body_preview"@,
                JsonModel::String(utf8_lossy(body)),
            ),
            _ => pair(
                "stage"@,
                JsonModel::String(stage_name(stage)),
                "error"@,
                JsonModel::String(error_text(stage, detail)),
            ),
        },
        HostEvent::Received { method } => pair(
            "method"@,
            JsonModel::String(method),
            "has_id"@,
            JsonModel::Bool(false),
        ),
        HostEvent::Notification { payload, .. } => payload,
    }
}

/// The level of a line of the record.
pub open spec fn log_level(line: LogLine<Seq<char>, Seq<u8>>) -> Seq<char> {
    match line {
        LogLine::Disconnected(_) => "WARN"@,
        LogLine::HelloOk => "INFO"@,
        LogLine::SubscribeAck { .. } => "INFO"@,
        LogLine::Memory { .. } => "MEM"@,
        _ => "ERROR"@,
    }
}

/// The message of a line of the record.
pub open spec fn log_message(line: LogLine<Seq<char>, Seq<u8>>) -> Seq<char> {
    match line {
        LogLine::Disconnected(error) => "bridge disconnected: "@ + error,
        LogLine::HelloFailed(detail) => "bridge hello failed: "@ + detail_text(detail),
        LogLine::HelloOk => "bridge hello ok"@,
        LogLine::SubscribeAck { toggle, enable, ok } => match toggle {
            ToggleStage::Init => "bridge subscribe(init) ack ok="@ + bool_text(ok),
            ToggleStage::Toggle => "bridge subscribe(toggle enable="@ + bool_text(enable)
                + ") ack ok="@ + bool_text(ok),
        },
        LogLine::SubscribeFailed(detail) => "bridge subscribe(init) failed: "@ + detail_text(
            detail,
        ),
        LogLine::NoLength => "bridge parse_header: missing or zero content-length"@,
        LogLine::ReadBodyFailed(detail) => match detail {
            Detail::Closed(_) => "bridge read_body: connection closed"@,
            _ => "bridge read_body error: "@ + detail_text(detail),
        },
        LogLine::DecodeFailed => "bridge decode_json failed"@,
        LogLine::Memory { total_mb, used_mb, at } => "mem total_mb="@ + decimal_text(
            total_mb as nat,
        ) + " used_mb="@ + decimal_text(used_mb as nat) + " ts="@ + decimal_text(at as nat),
    }
}

/// The words in which a failed call is reported to its caller.
pub open spec fn call_error_text(error: CallError<Seq<char>, Seq<u8>, JsonModel>) -> Seq<char> {
    match error {
        CallError::ConnectOpenFailed(text) => text,
        CallError::Io(text) => text,
        CallError::ConnectionClosed(phase) => closed_text(phase),
        CallError::Framing => "missing or zero Content-Length"@,
        CallError::Decode { header, body } => decode_text(header, body),
        CallError::MalformedResponse => "rpc response missing result"@,
        CallError::Remote(error) => "rpc error: "@ + utf8_lossy(json_text(error)),
        CallError::Join(text) => "rpc task join error: "@ + text,
    }
}

/// The line of the record for a call that has failed: the failure in words,
/// behind the method that was called; a worker that did not complete is
/// recorded in its own words alone.
pub open spec fn call_failure_text(
    method: Seq<char>,
    error: CallError<Seq<char>, Seq<u8>, JsonModel>,
) -> Seq<char> {
    match error {
        CallError::Join(_) => call_error_text(error),
        _ => "rpc_call "@ + method + " failed: "@ + call_error_text(error),
    }
}

/// The keys of the payloads are different words.
proof fn lemma_payload_keys()
    ensures
        "error"@ != "retry_in_ms"@,
        "stage"@ != "enable"@,
        "stage"@ != "ok"@,
        "stage"@ != "body_preview"@,
        "stage"@ != "error"@,
        "method"@ != "has_id"@,
{
    reveal_strlit("error");
    reveal_strlit("retry_in_ms");
    reveal_strlit("stage");
    reveal_strlit("enable");
    reveal_strlit("ok");
    reveal_strlit("body_preview");
    reveal_strlit("method");
    reveal_strlit("has_id");
    assert("error"@.len() == 5);
    assert("retry_in_ms"@.len() == 11);
    assert("stage"@.len() == 5);
    assert("enable"@.len() == 6);
    assert("ok"@.len() == 2);
    assert("body_preview"@.len() == 12);
    assert("method"@.len() == 6);
    assert("has_id"@.len() == 6);
    assert("stage"@[0] == 's');
    assert("error"@[0] == 'e');
    assert("method"@[0] == 'm');
    assert("has_id"@[0] == 'h');
}

/// An object of one member.
fn object_of_one(key: &str, value: serde_json::Value) -> (object: serde_json::Value)
    ensures
        value_model(object) == JsonModel::Object(
            Map::<Seq<char>, JsonModel>::empty().insert(key@, value_model(value)),
        ),
{
    let mut entries: Vec<(String, serde_json::Value)> = Vec::new();
    let ghost none = entries@;
    entries.push((key.to_owned(), value));
    proof {
        lemma_members_push(none, entries@.last());
        assert(none.push(entries@.last()) =~= entries@);
        assert(members_of(none) =~= Map::<Seq<char>, JsonModel>::empty());
    }
    value_object(entries)
}

/// An object of two members under different keys.
fn object_of_two(first: &str, a: serde_json::Value, second: &str, b: serde_json::Value) -> (object:
    serde_json::Value)
    requires
        first@ != second@,
    ensures
        value_model(object) == pair(first@, value_model(a), second@, value_model(b)),
{
    let mut entries: Vec<(String, serde_json::Value)> = Vec::new();
    let ghost none = entries@;
    entries.push((first.to_owned(), a));
    let ghost one = entries@;
    entries.push((second.to_owned(), b));
    proof {
        lemma_members_push(none, one.last());
        lemma_members_push(one, entries@.last());
        assert(none.push(one.last()) =~= one);
        assert(one.push(entries@.last()) =~= entries@);
        assert(members_of(none) =~= Map::<Seq<char>, JsonModel>::empty());
    }
    value_object(entries)
}

/// The name of a stage as the user interface knows it.
pub fn stage_word(stage: Stage) -> (word: &'static str)
    ensures
        word@ == stage_name(stage),
{
    match stage {
        Stage::Hello => "hello",
        Stage::InitSubscribe => "init_subscribe",
        Stage::ReadHeader => "read_header",
        Stage::ParseHeader => "parse_header",
        Stage::ReadBody => "read_body",
        Stage::DecodeJson => "decode_json",
    }
}

/// The name of a toggle as the user interface knows it.
pub fn toggle_word(toggle: ToggleStage) -> (word: &'static str)
    ensures
        word@ == toggle_name(toggle),
{
    match toggle {
        ToggleStage::Init => "init",
        ToggleStage::Toggle => "toggle",
    }
}

/// `true` or `false`.
fn bool_word(flag: bool) -> (word: &'static str)
    ensures
        word@ == bool_text(flag),
{
    if flag {
        "true"
    } else {
        "false"
    }
}

/// The word for a decimal digit.
fn digit_word(digit: u64) -> (word: &'static str)
    requires
        digit < 10,
    ensures
        word@ == seq![digit_char(digit as nat)],
{
    proof {
        reveal_strlit("0");
        reveal_strlit("1");
        reveal_strlit("2");
        reveal_strlit("3");
        reveal_strlit("4");
        reveal_strlit("5");
        reveal_strlit("6");
        reveal_strlit("7");
        reveal_strlit("8");
        reveal_strlit("9");
    }
    let word = if digit == 0 {
        "0"
    } else if digit == 1 {
        "1"
    } else if digit == 2 {
        "2"
    } else if digit == 3 {
        "3"
    } else if digit == 4 {
        "4"
    } else if digit == 5 {
        "5"
    } else if digit == 6 {
        "6"
    } else if digit == 7 {
        "7"
    } else if digit == 8 {
        "8"
    } else {
        "9"
    };
    proof {
        assert(word@ =~= seq![digit_char(digit as nat)]);
    }
    word
}

/// Appends a number in decimal to a text.
pub fn append_decimal(text: &mut String, n: u64)
    ensures
        final(text)@ == old(text)@ + decimal_text(n as nat),
    decreases n,
{
    if n >= 10 {
        append_decimal(text, n / 10);
    }
    text.append(digit_word(n % 10));
    proof {
        assert(text@ =~= old(text)@ + decimal_text(n as nat));
    }
}

/// That a body could not be decoded, around the header and the start of the
/// body as they are shown.
pub fn decode_context(shown_header: &str, shown_body: &str) -> (words: String)
    ensures
        words@ == "decode json-rpc response (header=\""@ + shown_header@
            + "\", body_preview=\""@ + shown_body@ + "\")"@,
{
    let mut words = "decode json-rpc response (header=\"".to_owned();
    words.append(shown_header);
    words.append("\", body_preview=\"");
    words.append(shown_body);
    words.append("\")");
    words
}

/// That a body could not be decoded, with the header and the start of the
/// body on one line.
fn decode_words(header: &[u8], body: &[u8]) -> (words: String)
    ensures
        words@ == decode_text(header@, body@),
{
    let shown_header = lossy_text(escape_line_breaks(header).as_slice());
    let shown_body = lossy_text(escape_line_breaks(body).as_slice());
    decode_context(shown_header.as_str(), shown_body.as_str())
}

/// That the peer closed the connection, and in which part of the frame.
fn closed_words(phase: ReadPhase) -> (words: &'static str)
    ensures
        words@ == closed_text(phase),
{
    match phase {
        ReadPhase::Header => "connection closed while reading header",
        ReadPhase::Body => "connection closed while reading body",
    }
}

/// What went wrong, in words.
pub fn detail_words(detail: &Detail<String, Vec<u8>>) -> (words: String)
    ensures
        words@ == detail_text(detail@),
{
    match detail {
        Detail::Host(text) => text.clone(),
        Detail::Closed(phase) => closed_words(*phase).to_owned(),
        Detail::NoLength => "missing or zero Content-Length".to_owned(),
        Detail::Undecodable { header, body } => decode_words(header.as_slice(), body.as_slice()),
        Detail::Refused => "hello error".to_owned(),
    }
}

/// What went wrong at a stage, in the words of the event that tells it.
fn error_words(stage: Stage, detail: &Detail<String, Vec<u8>>) -> (words: String)
    ensures
        words@ == error_text(stage, detail@),
{
    match stage {
        Stage::ReadBody => match detail {
            Detail::Closed(_) => "connection closed".to_owned(),
            _ => detail_words(detail),
        },
        Stage::ParseHeader => match detail {
            Detail::NoLength => "missing or zero content-length".to_owned(),
            _ => detail_words(detail),
        },
        _ => detail_words(detail),
    }
}

/// The name under which an event is emitted, and its payload.
pub fn event_parts(event: HostEvent<String, Vec<u8>, serde_json::Value>) -> (parts: (
    String,
    serde_json::Value,
))
    ensures
        parts.0@ == event_name(event@),
        value_model(parts.1) == event_payload(event@),
{
    proof {
        lemma_payload_keys();
    }
    match event {
        HostEvent::Disconnected { error, retry_in_ms } => (
            "bridge_disconnected".to_owned(),
            object_of_two(
                "error",
                value_string(error.as_str()),
                "retry_in_ms",
                value_u64(retry_in_ms),
            ),
        ),
        HostEvent::Handshake => (
            "bridge_handshake".to_owned(),
            object_of_one("stage", value_string("hello")),
        ),
        HostEvent::Subscribe { toggle, enable } => (
            "bridge_subscribe".to_owned(),
            object_of_two("stage", value_string(toggle_word(toggle)), "enable", value_bool(enable)),
        ),
        HostEvent::SubscribeAck { toggle, ok } => (
            "bridge_subscribe_ack".to_owned(),
            object_of_two("stage", value_string(toggle_word(toggle)), "ok", value_bool(ok)),
        ),
        HostEvent::Error { stage, detail } => {
            let name = "bridge_error".to_owned();
            let shown_stage = value_string(stage_word(stage));
            match stage {
                Stage::DecodeJson => match &detail {
                    Detail::Undecodable { header, body } => {
                        let shown = lossy_text(body.as_slice());
                        (
                            name,
                            object_of_two(
                                "stage",
                                shown_stage,
                                "body_preview",
                                value_string(shown.as_str()),
                            ),
                        )
                    },
                    _ => {
                        let words = error_words(stage, &detail);
                        (
                            name,
                            object_of_two(
                                "stage",
                                shown_stage,
                                "error",
                                value_string(words.as_str()),
                            ),
                        )
                    },
                },
                _ => {
                    let words = error_words(stage, &detail);
                    (
                        name,
                        object_of_two("stage", shown_stage, "error", value_string(words.as_str())),
                    )
                },
            }
        },
        HostEvent::Received { method } => (
            "bridge_rx".to_owned(),
            object_of_two("method", value_string(method.as_str()), "has_id", value_bool(false)),
        ),
        HostEvent::Notification { method, payload } => (method, payload),
    }
}

/// The level of a line of the record.
pub fn log_level_word(line: &LogLine<String, Vec<u8>>) -> (level: &'static str)
    ensures
        level@ == log_level(line@),
{
    match line {
        LogLine::Disconnected(_) => "WARN",
        LogLine::HelloOk => "INFO",
        LogLine::SubscribeAck { .. } => "INFO",
        LogLine::Memory { .. } => "MEM",
        _ => "ERROR",
    }
}

/// The message of a line of the record.
pub fn log_message_words(line: &LogLine<String, Vec<u8>>) -> (message: String)
    ensures
        message@ == log_message(line@),
{
    match line {
        LogLine::Disconnected(error) => {
            let mut message = "bridge disconnected: ".to_owned();
            message.append(error.as_str());
            message
        },
        LogLine::HelloFailed(detail) => {
            let mut message = "bridge hello failed: ".to_owned();
            let words = detail_words(detail);
            message.append(words.as_str());
            message
        },
        LogLine::HelloOk => "bridge hello ok".to_owned(),
        LogLine::SubscribeAck { toggle, enable, ok } => match toggle {
            ToggleStage::Init => {
                let mut message = "bridge subscribe(init) ack ok=".to_owned();
                message.append(bool_word(*ok));
                message
            },
            ToggleStage::Toggle => {
                let mut message = "bridge subscribe(toggle enable=".to_owned();
                message.append(bool_word(*enable));
                message.append(") ack ok=");
                message.append(bool_word(*ok));
                message
            },
        },
        LogLine::SubscribeFailed(detail) => {
            let mut message = "bridge subscribe(init) failed: ".to_owned();
            let words = detail_words(detail);
            message.append(words.as_str());
            message
        },
        LogLine::NoLength => "bridge parse_header: missing or zero content-length".to_owned(),
        LogLine::ReadBodyFailed(detail) => match detail {
            Detail::Closed(_) => "bridge read_body: connection closed".to_owned(),
            _ => {
                let mut message = "bridge read_body error: ".to_owned();
                let words = detail_words(detail);
                message.append(words.as_str());
                message
            },
        },
        LogLine::DecodeFailed => "bridge decode_json failed".to_owned(),
        LogLine::Memory { total_mb, used_mb, at } => {
            let mut message = "mem total_mb=".to_owned();
            append_decimal(&mut message, *total_mb);
            message.append(" used_mb=");
            append_decimal(&mut message, *used_mb);
            message.append(" ts=");
            append_decimal(&mut message, *at);
            message
        },
    }
}

/// The words in which a failed call is reported to its caller.
pub fn call_error_words(error: &CallError<String, Vec<u8>, serde_json::Value>) -> (words: String)
    ensures
        words@ == call_error_text(error@),
{
    match error {
        CallError::ConnectOpenFailed(text) => text.clone(),
        CallError::Io(text) => text.clone(),
        CallError::ConnectionClosed(phase) => closed_words(*phase).to_owned(),
        CallError::Framing => "missing or zero Content-Length".to_owned(),
        CallError::Decode { header, body } => decode_words(header.as_slice(), body.as_slice()),
        CallError::MalformedResponse => "rpc response missing result".to_owned(),
        CallError::Remote(value) => {
            let mut words = "rpc error: ".to_owned();
            let shown = lossy_text(print_value(value).as_slice());
            words.append(shown.as_str());
            words
        },
        CallError::Join(text) => {
            let mut words = "rpc task join error: ".to_owned();
            words.append(text.as_str());
            words
        },
    }
}

/// The line of the record for a call of `method` that has failed.
pub fn call_failure_words(
    method: &str,
    error: &CallError<String, Vec<u8>, serde_json::Value>,
) -> (words: String)
    ensures
        words@ == call_failure_text(method@, error@),
{
    let told = call_error_words(error);
    match error {
        CallError::Join(_) => told,
        _ => {
            let mut words = "rpc_call ".to_owned();
            words.append(method);
            words.append(" failed: ");
            words.append(told.as_str());
            words
        },
    }
}

} // verus!
