//! Envelopes: the JSON objects that travel inside frames.
//!
//! A request carries the protocol tag, an identifier, a method name and,
//! where there are any, parameters. Parameters that are not already a
//! positional array are sent as an array of one element, since a backend that
//! expects one positional argument would read a bare object as named
//! arguments. A response echoes the tag and the identifier and carries a
//! result or an error. A notification carries a method and no identifier;
//! its parameters come wrapped the same way and are unwrapped again.

use crate::clock::now_millis;
use crate::decoder::Frame;
use crate::diag::preview;
use crate::diag::preview_of;
use crate::events::Arrival;
use crate::events::ReadFault;
use crate::framing::declared_length;
use crate::framing::decode_frame;
use crate::framing::encode_frame;
use crate::framing::frame;
use crate::framing::frame_header;
use crate::framing::law_reframing_keeps_the_length;
use crate::framing::FrameError;
use crate::json::json_parse;
use crate::json::json_text;
use crate::json::members_of;
use crate::json::models;
use crate::json::parse_value;
use crate::json::print_value;
use crate::json::value_array;
use crate::json::value_as_array;
use crate::json::value_as_str;
use crate::json::value_bool;
use crate::json::value_clone;
use crate::json::value_get;
use crate::json::value_is_null;
use crate::json::value_model;
use crate::json::value_null;
use crate::json::value_object;
use crate::json::value_string;
use crate::json::value_u64;
use crate::json::JsonModel;
use crate::json::JsonNumber;
use vstd::prelude::*;

verus! {

/// The parameters as they are sent: an array as it is, anything else as the
/// one element of an array.
pub open spec fn wrapped(params: JsonModel) -> JsonModel {
    if params is Array {
        params
    } else {
        JsonModel::Array(seq![params])
    }
}

/// The parameters as they are handed on: the one element of an array of one
/// element, anything else as it is.
pub open spec fn unwrapped(params: JsonModel) -> JsonModel {
    match params {
        JsonModel::Array(items) => if items.len() == 1 {
            items[0]
        } else {
            params
        },
        _ => params,
    }
}

/// The members of a request without parameters.
pub open spec fn request_head(id: u64, method: Seq<char>) -> Map<Seq<char>, JsonModel> {
    Map::<Seq<char>, JsonModel>::empty().insert("jsonrpc"@, JsonModel::String("2.0"@)).insert(
        "id"@,
        JsonModel::Number(JsonNumber::Integer(id as int)),
    ).insert("method"@, JsonModel::String(method))
}

/// The request envelope: the tag `2.0`, the identifier, the method and, where
/// parameters are given, the parameters as they are sent.
pub open spec fn request_model(id: u64, method: Seq<char>, params: Option<JsonModel>) -> JsonModel {
    match params {
        Some(given) => JsonModel::Object(request_head(id, method).insert("params"@, wrapped(given))),
        None => JsonModel::Object(request_head(id, method)),
    }
}

/// What `params` holds, where there are any.
pub open spec fn params_model(params: Option<serde_json::Value>) -> Option<JsonModel> {
    match params {
        Some(given) => Some(value_model(given)),
        None => None,
    }
}

/// The parameters of a subscription toggle: `{"enable": ...}`.
pub open spec fn subscribe_params_model(enable: bool) -> JsonModel {
    JsonModel::Object(
        Map::<Seq<char>, JsonModel>::empty().insert("enable"@, JsonModel::Bool(enable)),
    )
}

/// The parameters of the handshake: who calls, which protocol, and that this
/// connection wants the metrics stream.
pub open spec fn hello_params_model() -> JsonModel {
    JsonModel::Object(
        Map::<Seq<char>, JsonModel>::empty().insert(
            "app_version"@,
            JsonModel::String("tauri-bridge"@),
        ).insert("protocol_version"@, JsonModel::Number(JsonNumber::Integer(1))).insert(
            "token"@,
            JsonModel::String("dev"@),
        ).insert("capabilities"@, JsonModel::Array(seq![JsonModel::String("metrics_stream"@)])),
    )
}

/// Unwrapping undoes wrapping for parameters that were not an array.
pub proof fn law_unwrap_undoes_wrap(params: JsonModel)
    requires
        !(params is Array),
    ensures
        wrapped(params) == JsonModel::Array(seq![params]),
        unwrapped(wrapped(params)) == params,
{
}

/// Parameters that are already an array are sent as they are.
pub proof fn law_wrap_keeps_arrays(params: JsonModel)
    requires
        params is Array,
    ensures
        wrapped(params) == params,
        wrapped(wrapped(params)) == wrapped(params),
{
}

/// A request for parameters that are not an array holds the tag `2.0`, the
/// identifier, the method, and the parameters as the one element of an array.
pub proof fn law_request_members(id: u64, method: Seq<char>, params: JsonModel)
    requires
        !(params is Array),
    ensures
        ({
            let request = request_model(id, method, Some(params));
            &&& request.member("jsonrpc"@) == Some(JsonModel::String("2.0"@))
            &&& request.member("id"@) == Some(JsonModel::Number(JsonNumber::Integer(id as int)))
            &&& request.member("method"@) == Some(JsonModel::String(method))
            &&& request.member("params"@) == Some(JsonModel::Array(seq![params]))
            &&& unwrapped(request.member("params"@)->Some_0) == params
        }),
{
    lemma_request_keys();
}

/// A request without parameters has no member `params`, and a request for an
/// array carries the array as it is.
pub proof fn law_request_params(id: u64, method: Seq<char>, params: JsonModel)
    requires
        params is Array,
    ensures
        request_model(id, method, None).member("params"@) is None,
        request_model(id, method, Some(params)).member("params"@) == Some(params),
{
    lemma_request_keys();
}

/// A frame that was captured from the stream and framed again reads back as
/// the same body under a header of the same length, and so as the same
/// document and the same response.
pub proof fn law_captured_frames_round_trip(input: Seq<u8>)
    requires
        decode_frame(input) is Ok,
    ensures
        ({
            let captured = decode_frame(input)->Ok_0;
            let again = decode_frame(frame(captured.1));
            &&& again == Ok::<(Seq<u8>, Seq<u8>), FrameError>(
                (frame_header(captured.1.len()), captured.1),
            )
            &&& declared_length(again->Ok_0.0) == declared_length(captured.0)
            &&& json_parse(again->Ok_0.1) == json_parse(captured.1)
            &&& response_of(again->Ok_0.1) == response_of(captured.1)
        }),
{
    law_reframing_keeps_the_length(input);
}

/// One more entry is one more member.
pub proof fn lemma_members_push(
    entries: Seq<(String, serde_json::Value)>,
    entry: (String, serde_json::Value),
)
    ensures
        members_of(entries.push(entry)) == members_of(entries).insert(
            entry.0@,
            value_model(entry.1),
        ),
{
    assert(entries.push(entry).drop_last() =~= entries);
}

/// The keys of a request are four different words.
proof fn lemma_request_keys()
    ensures
        "jsonrpc"@ != "id"@,
        "jsonrpc"@ != "method"@,
        "jsonrpc"@ != "params"@,
        "id"@ != "method"@,
        "id"@ != "params"@,
        "method"@ != "params"@,
{
    reveal_strlit("jsonrpc");
    reveal_strlit("id");
    reveal_strlit("method");
    reveal_strlit("params");
    assert("jsonrpc"@.len() == 7);
    assert("id"@.len() == 2);
    assert("method"@.len() == 6);
    assert("params"@.len() == 6);
    assert("method"@[0] == 'm');
    assert("params"@[0] == 'p');
}

/// The keys of the handshake parameters are four different words.
proof fn lemma_hello_keys()
    ensures
        "app_version"@ != "protocol_version"@,
        "app_version"@ != "token"@,
        "app_version"@ != "capabilities"@,
        "protocol_version"@ != "token"@,
        "protocol_version"@ != "capabilities"@,
        "token"@ != "capabilities"@,
{
    reveal_strlit("app_version");
    reveal_strlit("protocol_version");
    reveal_strlit("token");
    reveal_strlit("capabilities");
    assert("app_version"@.len() == 11);
    assert("protocol_version"@.len() == 16);
    assert("token"@.len() == 5);
    assert("capabilities"@.len() == 12);
}

/// An entry of an object under construction.
fn entry(key: &str, value: serde_json::Value) -> (made: (String, serde_json::Value))
    ensures
        made.0@ == key@,
        made.1 == value,
{
    (key.to_owned(), value)
}

/// The parameters as they are sent: an array as it is, anything else as the
/// one element of an array.
pub fn wrap_params(params: serde_json::Value) -> (sent: serde_json::Value)
    ensures
        value_model(sent) == wrapped(value_model(params)),
{
    let is_array = value_as_array(&params).is_some();
    if is_array {
        params
    } else {
        let mut items: Vec<serde_json::Value> = Vec::new();
        items.push(params);
        proof {
            assert(models(items@) =~= seq![value_model(params)]);
        }
        value_array(items)
    }
}

/// The parameters as they are handed on: the one element of an array of one
/// element, anything else as it is.
pub fn unwrap_params(params: &serde_json::Value) -> (handed: serde_json::Value)
    ensures
        value_model(handed) == unwrapped(value_model(*params)),
{
    match value_as_array(params) {
        Some(items) => {
            if items.len() == 1 {
                proof {
                    assert(models(items@)[0] == value_model(items@[0]));
                }
                value_clone(&items[0])
            } else {
                value_clone(params)
            }
        },
        None => value_clone(params),
    }
}

/// The request envelope for a call of `method`.
pub fn request_envelope(id: u64, method: &str, params: Option<serde_json::Value>) -> (envelope:
    serde_json::Value)
    ensures
        value_model(envelope) == request_model(id, method@, params_model(params)),
{
    let mut entries: Vec<(String, serde_json::Value)> = Vec::new();
    let ghost none = entries@;
    entries.push(entry("jsonrpc", value_string("2.0")));
    let ghost one = entries@;
    entries.push(entry("id", value_u64(id)));
    let ghost two = entries@;
    entries.push(entry("method", value_string(method)));
    let ghost three = entries@;
    proof {
        lemma_request_keys();
        lemma_members_push(none, one.last());
        lemma_members_push(one, two.last());
        lemma_members_push(two, three.last());
        assert(none.push(one.last()) =~= one);
        assert(one.push(two.last()) =~= two);
        assert(two.push(three.last()) =~= three);
        assert(members_of(none) =~= Map::<Seq<char>, JsonModel>::empty());
        assert(members_of(three) == request_head(id, method@));
    }
    match params {
        Some(given) => {
            entries.push(entry("params", wrap_params(given)));
            proof {
                lemma_members_push(three, entries@.last());
                assert(three.push(entries@.last()) =~= entries@);
            }
            value_object(entries)
        },
        None => value_object(entries),
    }
}

/// The parameters of a subscription toggle.
pub fn subscribe_params(enable: bool) -> (params: serde_json::Value)
    ensures
        value_model(params) == subscribe_params_model(enable),
        !(value_model(params) is Array),
{
    let mut entries: Vec<(String, serde_json::Value)> = Vec::new();
    let ghost none = entries@;
    entries.push(entry("enable", value_bool(enable)));
    proof {
        lemma_members_push(none, entries@.last());
        assert(none.push(entries@.last()) =~= entries@);
        assert(members_of(none) =~= Map::<Seq<char>, JsonModel>::empty());
    }
    value_object(entries)
}

/// The parameters of the handshake.
pub fn hello_params() -> (params: serde_json::Value)
    ensures
        value_model(params) == hello_params_model(),
        !(value_model(params) is Array),
{
    let mut streams: Vec<serde_json::Value> = Vec::new();
    streams.push(value_string("metrics_stream"));
    proof {
        assert(models(streams@) =~= seq![JsonModel::String("metrics_stream"@)]);
    }
    let mut entries: Vec<(String, serde_json::Value)> = Vec::new();
    let ghost none = entries@;
    entries.push(entry("app_version", value_string("tauri-bridge")));
    let ghost one = entries@;
    entries.push(entry("protocol_version", value_u64(1)));
    let ghost two = entries@;
    entries.push(entry("token", value_string("dev")));
    let ghost three = entries@;
    entries.push(entry("capabilities", value_array(streams)));
    proof {
        lemma_hello_keys();
        lemma_members_push(none, one.last());
        lemma_members_push(one, two.last());
        lemma_members_push(two, three.last());
        lemma_members_push(three, entries@.last());
        assert(none.push(one.last()) =~= one);
        assert(one.push(two.last()) =~= two);
        assert(two.push(three.last()) =~= three);
        assert(three.push(entries@.last()) =~= entries@);
        assert(members_of(none) =~= Map::<Seq<char>, JsonModel>::empty());
    }
    value_object(entries)
}

/// The frame that carries the request: the text of the request envelope
/// behind a header that declares its length. Read back, the frame gives that
/// header and that text, whatever follows it on the stream.
pub fn encode_request(id: u64, method: &str, params: Option<serde_json::Value>) -> (out: Vec<u8>)
    ensures
        out@ == frame(json_text(request_model(id, method@, params_model(params)))),
        decode_frame(out@) == Ok::<(Seq<u8>, Seq<u8>), FrameError>(
            (
                frame_header(json_text(request_model(id, method@, params_model(params))).len()),
                json_text(request_model(id, method@, params_model(params))),
            ),
        ),
{
    let envelope = request_envelope(id, method, params);
    let body = print_value(&envelope);
    encode_frame(body.as_slice())
}

/// A request for `method`, framed, under an identifier taken from the clock:
/// the frame and the identifier.
pub fn build_request(method: &str, params: Option<serde_json::Value>) -> (built: (Vec<u8>, u64))
    ensures
        built.0@ == frame(json_text(request_model(built.1, method@, params_model(params)))),
        decode_frame(built.0@) == Ok::<(Seq<u8>, Seq<u8>), FrameError>(
            (
                frame_header(
                    json_text(request_model(built.1, method@, params_model(params))).len(),
                ),
                json_text(request_model(built.1, method@, params_model(params))),
            ),
        ),
{
    let id = now_millis();
    let frame = encode_request(id, method, params);
    (frame, id)
}

/// What a response envelope carries.
#[derive(Debug, PartialEq)]
pub struct Response {
    /// The result, where the envelope has one that is not `null`.
    pub result: Option<serde_json::Value>,
    /// The error, where the envelope has one that is not `null`.
    pub error: Option<serde_json::Value>,
}

/// Why a call gave no result although a response came.
#[derive(Debug, PartialEq)]
pub enum Rejection {
    /// The backend answered with an error value.
    Remote(serde_json::Value),
    /// The response carries neither a result nor an error.
    Malformed,
}

/// Whether a document has the shape of a response: an object with a string
/// as its tag and with an identifier.
pub open spec fn is_response(envelope: JsonModel) -> bool {
    envelope.text_member("jsonrpc"@) is Some && envelope.member("id"@) is Some
}

/// The response that a body spells, `None` where the body is no JSON or the
/// document has not the shape of a response.
pub open spec fn response_of(body: Seq<u8>) -> Option<JsonModel> {
    match json_parse(body) {
        Some(envelope) => if is_response(envelope) {
            Some(envelope)
        } else {
            None
        },
        None => None,
    }
}

impl Response {
    /// What the result holds, where there is one.
    pub open spec fn result_model(self) -> Option<JsonModel> {
        params_model(self.result)
    }

    /// What the error holds, where there is one.
    pub open spec fn error_model(self) -> Option<JsonModel> {
        params_model(self.error)
    }

    /// Whether the response carries what the envelope holds.
    pub open spec fn carries(self, envelope: JsonModel) -> bool {
        &&& self.result_model() == envelope.present_member("result"@)
        &&& self.error_model() == envelope.present_member("error"@)
    }

    /// The outcome of a call that was answered with this response: the error
    /// as a rejection where there is one, else the result, and a rejection as
    /// malformed where there is neither.
    pub fn into_result(self) -> (outcome: Result<serde_json::Value, Rejection>)
        ensures
            match self.error {
                Some(error) => outcome matches Err(Rejection::Remote(carried)) && carried == error,
                None => match self.result {
                    Some(result) => outcome matches Ok(carried) && carried == result,
                    None => outcome matches Err(Rejection::Malformed),
                },
            },
    {
        match self.error {
            Some(error) => Err(Rejection::Remote(error)),
            None => match self.result {
                Some(result) => Ok(result),
                None => Err(Rejection::Malformed),
            },
        }
    }
}

/// The member under `key` where it is there and is not `null`.
pub fn present_member(envelope: &serde_json::Value, key: &str) -> (found: Option<
    serde_json::Value,
>)
    ensures
        params_model(found) == value_model(*envelope).present_member(key@),
{
    match value_get(envelope, key) {
        Some(member) => {
            if value_is_null(member) {
                None
            } else {
                Some(value_clone(member))
            }
        },
        None => None,
    }
}

/// Reads a response from a document. `None` where the document is not an
/// object with a string tag `jsonrpc` and an `id`.
pub fn response_from(envelope: &serde_json::Value) -> (read: Option<Response>)
    ensures
        match read {
            Some(response) => is_response(value_model(*envelope)) && response.carries(
                value_model(*envelope),
            ),
            None => !is_response(value_model(*envelope)),
        },
{
    let tagged = match value_get(envelope, "jsonrpc") {
        Some(tag) => value_as_str(tag).is_some(),
        None => false,
    };
    let identified = value_get(envelope, "id").is_some();
    if !tagged || !identified {
        return None;
    }
    let result = present_member(envelope, "result");
    let error = present_member(envelope, "error");
    Some(Response { result, error })
}

/// Reads a response from the body of a frame. `None` where the body is no
/// JSON document and where the document is no response.
pub fn decode_response(body: &[u8]) -> (decoded: Option<Response>)
    ensures
        match response_of(body@) {
            Some(envelope) => decoded matches Some(response) && response.carries(envelope),
            None => decoded is None,
        },
{
    match parse_value(body) {
        Ok(envelope) => response_from(&envelope),
        Err(_) => None,
    }
}

/// What the outcome of a read holds.
pub open spec fn outcome_view(outcome: Result<Frame, ReadFault<String>>) -> Result<
    (Seq<u8>, Seq<u8>),
    ReadFault<Seq<char>>,
> {
    match outcome {
        Ok(frame) => Ok((frame.header@, frame.body@)),
        Err(fault) => Err(fault@),
    }
}

/// What a read has brought, told from its outcome: the fault of a read that
/// gave no frame; of a frame, the header, the start of the body, and the
/// document that the body spells, if it spells one.
pub open spec fn arrival_of(outcome: Result<(Seq<u8>, Seq<u8>), ReadFault<Seq<char>>>) -> Arrival<
    Seq<char>,
    Seq<u8>,
    JsonModel,
> {
    match outcome {
        Err(fault) => Arrival::Fault(fault),
        Ok((header, body)) => match json_parse(body) {
            Some(document) => Arrival::Document { header, body: preview_of(body), document },
            None => Arrival::Undecodable { header, body: preview_of(body) },
        },
    }
}

/// Tells what a read has brought: reads the body of a frame as JSON.
pub fn receive(outcome: Result<Frame, ReadFault<String>>) -> (arrival: Arrival<
    String,
    Vec<u8>,
    serde_json::Value,
>)
    ensures
        arrival@ == arrival_of(outcome_view(outcome)),
{
    match outcome {
        Err(fault) => Arrival::Fault(fault),
        Ok(frame) => {
            let body = preview(frame.body.as_slice());
            match parse_value(frame.body.as_slice()) {
                Ok(document) => Arrival::Document { header: frame.header, body, document },
                Err(_) => Arrival::Undecodable { header: frame.header, body },
            }
        },
    }
}

/// What an inbound frame on the event bridge is.
#[derive(Debug, PartialEq)]
pub enum Inbound {
    /// A notification: a method and no identifier. The payload is what the
    /// parameters hold once unwrapped, `null` where there are none.
    Notification { method: String, payload: serde_json::Value },
    /// Anything else, a response to no pending call among them. It is
    /// consumed and nothing is made of it.
    Unrouted,
}

/// How a document on the event bridge is routed.
pub enum Routing {
    Notification { method: Seq<char>, payload: JsonModel },
    Unrouted,
}

/// How a document on the event bridge is routed: it is a notification where
/// it has a string as its method and no identifier, whatever else it holds.
pub open spec fn routing(envelope: JsonModel) -> Routing {
    match envelope.text_member("method"@) {
        Some(method) => if envelope.member("id"@) is None {
            Routing::Notification {
                method,
                payload: match envelope.member("params"@) {
                    Some(params) => unwrapped(params),
                    None => JsonModel::Null,
                },
            }
        } else {
            Routing::Unrouted
        },
        None => Routing::Unrouted,
    }
}

impl Inbound {
    /// The routing that this is.
    pub open spec fn view(self) -> Routing {
        match self {
            Inbound::Notification { method, payload } => Routing::Notification {
                method: method@,
                payload: value_model(payload),
            },
            Inbound::Unrouted => Routing::Unrouted,
        }
    }
}

/// Routes a document that came in on the event bridge.
pub fn route_inbound(envelope: &serde_json::Value) -> (routed: Inbound)
    ensures
        routed.view() == routing(value_model(*envelope)),
{
    let method = match value_get(envelope, "method") {
        Some(member) => match value_as_str(member) {
            Some(text) => text,
            None => {
                return Inbound::Unrouted;
            },
        },
        None => {
            return Inbound::Unrouted;
        },
    };
    if value_get(envelope, "id").is_some() {
        return Inbound::Unrouted;
    }
    let payload = match value_get(envelope, "params") {
        Some(params) => unwrap_params(params),
        None => value_null(),
    };
    Inbound::Notification { method: method.to_owned(), payload }
}

} // verus!
