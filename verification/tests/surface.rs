use rpc_bridge::call::CallError;
use rpc_bridge::events::Detail;
use rpc_bridge::events::HostEvent;
use rpc_bridge::events::LogLine;
use rpc_bridge::events::Stage;
use rpc_bridge::events::ToggleStage;
use rpc_bridge::framing::ReadPhase;
use rpc_bridge::surface::append_decimal;
use rpc_bridge::surface::call_error_words;
use rpc_bridge::surface::detail_words;
use rpc_bridge::surface::event_parts;
use rpc_bridge::surface::log_level_word;
use rpc_bridge::surface::log_message_words;
use rpc_bridge::surface::stage_word;
use rpc_bridge::surface::toggle_word;
use serde_json::Value;

type Event = HostEvent<String, Vec<u8>, Value>;
type Line = LogLine<String, Vec<u8>>;
type Failure = CallError<String, Vec<u8>, Value>;

fn json(text: &str) -> Value {
    serde_json::from_str(text).expect("test value")
}

fn emitted(event: Event) -> (String, Value) {
    event_parts(event)
}

fn logged(line: Line) -> (String, String) {
    (log_level_word(&line).to_string(), log_message_words(&line))
}

#[test]
fn stages_and_toggles_have_their_names() {
    assert_eq!(stage_word(Stage::Hello), "hello");
    assert_eq!(stage_word(Stage::InitSubscribe), "init_subscribe");
    assert_eq!(stage_word(Stage::ReadHeader), "read_header");
    assert_eq!(stage_word(Stage::ParseHeader), "parse_header");
    assert_eq!(stage_word(Stage::ReadBody), "read_body");
    assert_eq!(stage_word(Stage::DecodeJson), "decode_json");
    assert_eq!(toggle_word(ToggleStage::Init), "init");
    assert_eq!(toggle_word(ToggleStage::Toggle), "toggle");
}

#[test]
fn append_decimal_writes_the_digits() {
    for (n, text) in [(0u64, "0"), (7, "7"), (10, "10"), (16000, "16000"), (u64::MAX, "18446744073709551615")] {
        let mut out = "n=".to_string();
        append_decimal(&mut out, n);
        assert_eq!(out, format!("n={text}"));
    }
}

#[test]
fn lifecycle_events_have_fixed_names_and_payloads() {
    assert_eq!(
        emitted(Event::Disconnected { error: "no pipe".to_string(), retry_in_ms: 1000 }),
        ("bridge_disconnected".to_string(), json(r#"{"error":"no pipe","retry_in_ms":1000}"#))
    );
    assert_eq!(
        emitted(Event::Handshake),
        ("bridge_handshake".to_string(), json(r#"{"stage":"hello"}"#))
    );
    assert_eq!(
        emitted(Event::Subscribe { toggle: ToggleStage::Init, enable: true }),
        ("bridge_subscribe".to_string(), json(r#"{"stage":"init","enable":true}"#))
    );
    assert_eq!(
        emitted(Event::Subscribe { toggle: ToggleStage::Toggle, enable: false }),
        ("bridge_subscribe".to_string(), json(r#"{"stage":"toggle","enable":false}"#))
    );
    assert_eq!(
        emitted(Event::SubscribeAck { toggle: ToggleStage::Init, ok: false }),
        ("bridge_subscribe_ack".to_string(), json(r#"{"stage":"init","ok":false}"#))
    );
    assert_eq!(
        emitted(Event::SubscribeAck { toggle: ToggleStage::Toggle, ok: true }),
        ("bridge_subscribe_ack".to_string(), json(r#"{"stage":"toggle","ok":true}"#))
    );
    assert_eq!(
        emitted(Event::Received { method: "metrics".to_string() }),
        ("bridge_rx".to_string(), json(r#"{"method":"metrics","has_id":false}"#))
    );
}

#[test]
fn a_notification_is_emitted_under_its_method_with_its_payload() {
    assert_eq!(
        emitted(Event::Notification {
            method: "metrics".to_string(),
            payload: json(r#"{"memory":{"total_mb":16000,"used_mb":8000}}"#),
        }),
        ("metrics".to_string(), json(r#"{"memory":{"total_mb":16000,"used_mb":8000}}"#))
    );
}

#[test]
fn error_events_name_the_stage_and_say_what_went_wrong() {
    assert_eq!(
        emitted(Event::Error { stage: Stage::Hello, detail: Detail::Refused }),
        ("bridge_error".to_string(), json(r#"{"stage":"hello","error":"hello error"}"#))
    );
    assert_eq!(
        emitted(Event::Error { stage: Stage::Hello, detail: Detail::Closed(ReadPhase::Body) }),
        (
            "bridge_error".to_string(),
            json(r#"{"stage":"hello","error":"connection closed while reading body"}"#)
        )
    );
    assert_eq!(
        emitted(Event::Error { stage: Stage::InitSubscribe, detail: Detail::NoLength }),
        (
            "bridge_error".to_string(),
            json(r#"{"stage":"init_subscribe","error":"missing or zero Content-Length"}"#)
        )
    );
    assert_eq!(
        emitted(Event::Error { stage: Stage::ReadHeader, detail: Detail::Closed(ReadPhase::Header) }),
        (
            "bridge_error".to_string(),
            json(r#"{"stage":"read_header","error":"connection closed while reading header"}"#)
        )
    );
    assert_eq!(
        emitted(Event::Error { stage: Stage::ReadHeader, detail: Detail::Host("reset".to_string()) }),
        ("bridge_error".to_string(), json(r#"{"stage":"read_header","error":"reset"}"#))
    );
    assert_eq!(
        emitted(Event::Error { stage: Stage::ParseHeader, detail: Detail::NoLength }),
        (
            "bridge_error".to_string(),
            json(r#"{"stage":"parse_header","error":"missing or zero content-length"}"#)
        )
    );
    assert_eq!(
        emitted(Event::Error { stage: Stage::ReadBody, detail: Detail::Closed(ReadPhase::Body) }),
        ("bridge_error".to_string(), json(r#"{"stage":"read_body","error":"connection closed"}"#))
    );
}

#[test]
fn a_decode_error_event_shows_the_start_of_the_body() {
    assert_eq!(
        emitted(Event::Error {
            stage: Stage::DecodeJson,
            detail: Detail::Undecodable { header: b"Content-Length: 5\r\n\r\n".to_vec(), body: b"a\nb\xff".to_vec() },
        }),
        ("bridge_error".to_string(), json("{\"stage\":\"decode_json\",\"body_preview\":\"a\\nb\u{fffd}\"}"))
    );
    assert_eq!(
        emitted(Event::Error {
            stage: Stage::Hello,
            detail: Detail::Undecodable { header: b"Content-Length: 2\r\n\r\n".to_vec(), body: b"a\n".to_vec() },
        }),
        (
            "bridge_error".to_string(),
            Value::Object(
                [
                    ("stage".to_string(), Value::from("hello")),
                    (
                        "error".to_string(),
                        Value::from(
                            "decode json-rpc response (header=\"Content-Length: 2\\r\\n\\r\\n\", body_preview=\"a\\n\")"
                        )
                    ),
                ]
                .into_iter()
                .collect()
            )
        )
    );
}

#[test]
fn details_have_their_words() {
    let host: Detail<String, Vec<u8>> = Detail::Host("os error 2".to_string());
    assert_eq!(detail_words(&host), "os error 2");
    let closed: Detail<String, Vec<u8>> = Detail::Closed(ReadPhase::Header);
    assert_eq!(detail_words(&closed), "connection closed while reading header");
    let body: Detail<String, Vec<u8>> = Detail::Closed(ReadPhase::Body);
    assert_eq!(detail_words(&body), "connection closed while reading body");
    let none: Detail<String, Vec<u8>> = Detail::NoLength;
    assert_eq!(detail_words(&none), "missing or zero Content-Length");
    let refused: Detail<String, Vec<u8>> = Detail::Refused;
    assert_eq!(detail_words(&refused), "hello error");
}

#[test]
fn record_lines_have_their_levels_and_messages() {
    let lines: Vec<(Line, &str, &str)> = vec![
        (Line::Disconnected("away".to_string()), "WARN", "bridge disconnected: away"),
        (Line::HelloFailed(Detail::Refused), "ERROR", "bridge hello failed: hello error"),
        (Line::HelloOk, "INFO", "bridge hello ok"),
        (
            Line::SubscribeAck { toggle: ToggleStage::Init, enable: false, ok: true },
            "INFO",
            "bridge subscribe(init) ack ok=true",
        ),
        (
            Line::SubscribeAck { toggle: ToggleStage::Toggle, enable: false, ok: true },
            "INFO",
            "bridge subscribe(toggle enable=false) ack ok=true",
        ),
        (
            Line::SubscribeAck { toggle: ToggleStage::Toggle, enable: true, ok: false },
            "INFO",
            "bridge subscribe(toggle enable=true) ack ok=false",
        ),
        (
            Line::SubscribeFailed(Detail::Closed(ReadPhase::Header)),
            "ERROR",
            "bridge subscribe(init) failed: connection closed while reading header",
        ),
        (Line::NoLength, "ERROR", "bridge parse_header: missing or zero content-length"),
        (
            Line::ReadBodyFailed(Detail::Closed(ReadPhase::Body)),
            "ERROR",
            "bridge read_body: connection closed",
        ),
        (
            Line::ReadBodyFailed(Detail::Host("reset".to_string())),
            "ERROR",
            "bridge read_body error: reset",
        ),
        (Line::DecodeFailed, "ERROR", "bridge decode_json failed"),
        (
            Line::Memory { total_mb: 16000, used_mb: 8000, at: 1700000000123 },
            "MEM",
            "mem total_mb=16000 used_mb=8000 ts=1700000000123",
        ),
    ];
    for (line, level, message) in lines {
        assert_eq!(logged(line), (level.to_string(), message.to_string()));
    }
}

#[test]
fn failed_calls_are_reported_in_words() {
    let cases: Vec<(Failure, &str)> = vec![
        (Failure::ConnectOpenFailed("open named pipe p".to_string()), "open named pipe p"),
        (Failure::Io("broken pipe".to_string()), "broken pipe"),
        (Failure::ConnectionClosed(ReadPhase::Header), "connection closed while reading header"),
        (Failure::ConnectionClosed(ReadPhase::Body), "connection closed while reading body"),
        (Failure::Framing, "missing or zero Content-Length"),
        (
            Failure::Decode { header: b"Content-Length: 3\r\n\r\n".to_vec(), body: b"x\ry".to_vec() },
            "decode json-rpc response (header=\"Content-Length: 3\\r\\n\\r\\n\", body_preview=\"x\\ry\")",
        ),
        (Failure::MalformedResponse, "rpc response missing result"),
        (
            Failure::Remote(json(r#"{"code":-32601,"message":"no such method"}"#)),
            "rpc error: {\"code\":-32601,\"message\":\"no such method\"}",
        ),
        (Failure::Join("task panicked".to_string()), "rpc task join error: task panicked"),
    ];
    for (failure, words) in cases {
        assert_eq!(call_error_words(&failure), words);
    }
}

#[test]
fn decode_context_quotes_what_is_shown() {
    assert_eq!(
        rpc_bridge::surface::decode_context("H: 1\\r\\n", "{\"a\""),
        "decode json-rpc response (header=\"H: 1\\r\\n\", body_preview=\"{\"a\"\")"
    );
    assert_eq!(
        rpc_bridge::surface::decode_context("", ""),
        "decode json-rpc response (header=\"\", body_preview=\"\")"
    );
}

#[test]
fn a_failed_call_is_recorded_with_its_method() {
    assert_eq!(
        rpc_bridge::surface::call_failure_words("snapshot", &Failure::MalformedResponse),
        "rpc_call snapshot failed: rpc response missing result"
    );
    assert_eq!(
        rpc_bridge::surface::call_failure_words("snapshot", &Failure::Io("reset".to_string())),
        "rpc_call snapshot failed: reset"
    );
    assert_eq!(
        rpc_bridge::surface::call_failure_words("snapshot", &Failure::Join("cancelled".to_string())),
        "rpc task join error: cancelled"
    );
}
