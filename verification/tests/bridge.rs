use rpc_bridge::bridge::Bridge;
use rpc_bridge::bridge::BridgeState;
use rpc_bridge::bridge::Step;
use rpc_bridge::decoder::read_frame;
use rpc_bridge::decoder::Frame;
use rpc_bridge::events::copy_detail;
use rpc_bridge::events::describe_fault;
use rpc_bridge::events::Arrival;
use rpc_bridge::events::Command;
use rpc_bridge::events::Detail;
use rpc_bridge::events::Effect;
use rpc_bridge::events::HostEvent;
use rpc_bridge::events::LogLine;
use rpc_bridge::events::ReadFault;
use rpc_bridge::events::Stage;
use rpc_bridge::events::ToggleStage;
use rpc_bridge::framing::encode_frame;
use rpc_bridge::framing::FrameError;
use rpc_bridge::framing::ReadPhase;
use rpc_bridge::subscription::SubscriptionState;
use serde_json::Value;

fn json(text: &str) -> Value {
    serde_json::from_str(text).expect("test value")
}

fn inbound(body: &str) -> Result<Frame, ReadFault<String>> {
    Ok(read_frame(&encode_frame(body.as_bytes())).expect("test frame"))
}

fn ok_response() -> Result<Frame, ReadFault<String>> {
    inbound(r#"{"jsonrpc":"2.0","id":1,"result":{"ok":true}}"#)
}

fn shown(step: &Step) -> Vec<String> {
    step.effects.iter().map(|e| format!("{:?}", e)).collect()
}

fn request_of(step: &Step) -> Value {
    match &step.command {
        Command::Exchange(bytes) => {
            let frame = read_frame(bytes).expect("a framed request");
            assert_eq!(frame.header.len() + frame.body.len(), bytes.len());
            serde_json::from_slice(&frame.body).expect("a json request")
        }
        other => panic!("no exchange: {:?}", other),
    }
}

fn streaming() -> Bridge {
    Bridge { state: BridgeState::Streaming }
}

#[test]
fn the_bridge_starts_by_opening_the_channel() {
    let (bridge, step) = Bridge::start();
    assert_eq!(bridge.state, BridgeState::Disconnected);
    assert!(step.effects.is_empty());
    assert!(matches!(step.command, Command::Open));
}

#[test]
fn a_failed_open_is_told_and_slept_on() {
    let (mut bridge, _) = Bridge::start();
    let step = bridge.open_failed("no such pipe".to_string());
    assert_eq!(bridge.state, BridgeState::Waiting);
    assert!(matches!(step.command, Command::Sleep(1000)));
    assert_eq!(
        shown(&step),
        vec![
            "Emit(Disconnected { error: \"no such pipe\", retry_in_ms: 1000 })".to_string(),
            "Log(Disconnected(\"no such pipe\"))".to_string(),
        ]
    );
    let again = bridge.woke();
    assert_eq!(bridge.state, BridgeState::Disconnected);
    assert!(again.effects.is_empty());
    assert!(matches!(again.command, Command::Open));
}

#[test]
fn an_open_channel_begins_the_handshake() {
    let (mut bridge, _) = Bridge::start();
    let step = bridge.opened(77);
    assert_eq!(bridge.state, BridgeState::Handshaking);
    assert_eq!(shown(&step), vec!["Emit(Handshake)".to_string()]);
    assert_eq!(
        request_of(&step),
        json(
            r#"{"jsonrpc":"2.0","id":77,"method":"hello","params":[{"app_version":"tauri-bridge","protocol_version":1,"token":"dev","capabilities":["metrics_stream"]}]}"#
        )
    );
}

#[test]
fn an_answered_handshake_sends_the_wanted_subscription() {
    let mut bridge = Bridge { state: BridgeState::Handshaking };
    let mut sub = SubscriptionState::new();
    let step = bridge.read(ok_response(), &mut sub, 78);
    assert_eq!(bridge.state, BridgeState::SubscriptionInit { enable: true });
    assert_eq!(
        shown(&step),
        vec![
            "Log(HelloOk)".to_string(),
            "Emit(Subscribe { toggle: Init, enable: true })".to_string(),
        ]
    );
    assert_eq!(
        request_of(&step),
        json(r#"{"jsonrpc":"2.0","id":78,"method":"subscribe_metrics","params":[{"enable":true}]}"#)
    );
    assert_eq!(sub, SubscriptionState::new());
}

#[test]
fn the_init_toggle_reflects_what_is_wanted_and_leaves_it_owed() {
    let mut bridge = Bridge { state: BridgeState::Handshaking };
    let mut sub = SubscriptionState::new();
    sub.set_subscribe(false);
    let step = bridge.read(ok_response(), &mut sub, 5);
    assert_eq!(bridge.state, BridgeState::SubscriptionInit { enable: false });
    assert_eq!(request_of(&step).get("params"), Some(&json(r#"[{"enable":false}]"#)));
    assert_eq!(sub, SubscriptionState { desired: false, dirty: true });
}

#[test]
fn a_refused_handshake_reconnects() {
    let mut bridge = Bridge { state: BridgeState::Handshaking };
    let mut sub = SubscriptionState::new();
    let step = bridge.read(inbound(r#"{"jsonrpc":"2.0","id":1,"error":{"code":1}}"#), &mut sub, 5);
    assert_eq!(bridge.state, BridgeState::Disconnected);
    assert!(matches!(step.command, Command::Open));
    assert_eq!(
        shown(&step),
        vec![
            "Log(HelloFailed(Refused))".to_string(),
            "Emit(Error { stage: Hello, detail: Refused })".to_string(),
        ]
    );
}

#[test]
fn a_handshake_without_result_counts_as_answered() {
    let mut bridge = Bridge { state: BridgeState::Handshaking };
    let mut sub = SubscriptionState::new();
    bridge.read(inbound(r#"{"jsonrpc":"2.0","id":1}"#), &mut sub, 5);
    assert_eq!(bridge.state, BridgeState::SubscriptionInit { enable: true });
}

#[test]
fn a_handshake_that_cannot_be_read_reconnects() {
    for (fault, detail) in [
        (ReadFault::Write("broken pipe".to_string()), "Host(\"broken pipe\")"),
        (ReadFault::Read(ReadPhase::Header, "timed out".to_string()), "Host(\"timed out\")"),
        (ReadFault::Frame(FrameError::ConnectionClosed(ReadPhase::Header)), "Closed(Header)"),
        (ReadFault::Frame(FrameError::ConnectionClosed(ReadPhase::Body)), "Closed(Body)"),
        (ReadFault::Frame(FrameError::Framing), "NoLength"),
    ] {
        let mut bridge = Bridge { state: BridgeState::Handshaking };
        let mut sub = SubscriptionState::new();
        let step = bridge.read(Err(fault), &mut sub, 5);
        assert_eq!(bridge.state, BridgeState::Disconnected);
        assert!(matches!(step.command, Command::Open));
        assert_eq!(
            shown(&step),
            vec![
                format!("Log(HelloFailed({detail}))"),
                format!("Emit(Error {{ stage: Hello, detail: {detail} }})"),
            ]
        );
    }
}

#[test]
fn a_handshake_answer_that_is_no_response_reconnects_with_previews() {
    let mut bridge = Bridge { state: BridgeState::Handshaking };
    let mut sub = SubscriptionState::new();
    let step = bridge.read(inbound("oops"), &mut sub, 5);
    assert_eq!(bridge.state, BridgeState::Disconnected);
    match &step.effects[1] {
        Effect::Emit(HostEvent::Error { stage: Stage::Hello, detail: Detail::Undecodable { header, body } }) => {
            assert_eq!(header, &b"Content-Length: 4\r\n\r\n".to_vec());
            assert_eq!(body, &b"oops".to_vec());
        }
        other => panic!("wrong effect: {:?}", other),
    }
    assert!(matches!(&step.effects[0], Effect::Log(LogLine::HelloFailed(Detail::Undecodable { .. }))));
    assert_eq!(step.effects.len(), 2);
}

#[test]
fn an_answered_init_toggle_starts_streaming() {
    let mut bridge = Bridge { state: BridgeState::SubscriptionInit { enable: true } };
    let mut sub = SubscriptionState::new();
    let step = bridge.read(ok_response(), &mut sub, 5);
    assert_eq!(bridge.state, BridgeState::Streaming);
    assert!(matches!(step.command, Command::AwaitFrame));
    assert_eq!(
        shown(&step),
        vec![
            "Emit(SubscribeAck { toggle: Init, ok: true })".to_string(),
            "Log(SubscribeAck { toggle: Init, enable: true, ok: true })".to_string(),
        ]
    );
}

#[test]
fn an_init_toggle_answered_with_an_error_value_still_counts() {
    let mut bridge = Bridge { state: BridgeState::SubscriptionInit { enable: true } };
    let mut sub = SubscriptionState::new();
    bridge.read(inbound(r#"{"jsonrpc":"2.0","id":1,"error":"no"}"#), &mut sub, 5);
    assert_eq!(bridge.state, BridgeState::Streaming);
}

#[test]
fn a_failed_init_toggle_reconnects() {
    let mut bridge = Bridge { state: BridgeState::SubscriptionInit { enable: false } };
    let mut sub = SubscriptionState::new();
    let step = bridge.read(
        Err(ReadFault::Frame(FrameError::ConnectionClosed(ReadPhase::Header))),
        &mut sub,
        5,
    );
    assert_eq!(bridge.state, BridgeState::Disconnected);
    assert!(matches!(step.command, Command::Open));
    assert_eq!(
        shown(&step),
        vec![
            "Emit(SubscribeAck { toggle: Init, ok: false })".to_string(),
            "Log(SubscribeAck { toggle: Init, enable: false, ok: false })".to_string(),
            "Log(SubscribeFailed(Closed(Header)))".to_string(),
            "Emit(Error { stage: InitSubscribe, detail: Closed(Header) })".to_string(),
        ]
    );
}

#[test]
fn a_toggle_owed_after_the_init_toggle_goes_out_before_any_frame() {
    let mut bridge = Bridge { state: BridgeState::SubscriptionInit { enable: true } };
    let mut sub = SubscriptionState::new();
    sub.set_subscribe(false);
    let step = bridge.read(ok_response(), &mut sub, 9);
    assert_eq!(bridge.state, BridgeState::Toggling { enable: false });
    assert_eq!(sub, SubscriptionState { desired: false, dirty: false });
    assert_eq!(
        shown(&step),
        vec![
            "Emit(SubscribeAck { toggle: Init, ok: true })".to_string(),
            "Log(SubscribeAck { toggle: Init, enable: true, ok: true })".to_string(),
            "Emit(Subscribe { toggle: Toggle, enable: false })".to_string(),
        ]
    );
    assert_eq!(
        request_of(&step),
        json(r#"{"jsonrpc":"2.0","id":9,"method":"subscribe_metrics","params":[{"enable":false}]}"#)
    );
}

#[test]
fn toggles_coalesce_into_the_last_one() {
    let mut bridge = streaming();
    let mut sub = SubscriptionState::new();
    sub.set_subscribe(true);
    sub.set_subscribe(false);
    let step = bridge.read(inbound(r#"{"jsonrpc":"2.0","id":3,"result":1}"#), &mut sub, 11);
    assert_eq!(bridge.state, BridgeState::Toggling { enable: false });
    assert_eq!(shown(&step), vec!["Emit(Subscribe { toggle: Toggle, enable: false })".to_string()]);
    assert_eq!(request_of(&step).get("params"), Some(&json(r#"[{"enable":false}]"#)));
    let after = bridge.read(ok_response(), &mut sub, 12);
    assert_eq!(bridge.state, BridgeState::Streaming);
    assert!(matches!(after.command, Command::AwaitFrame));
    assert_eq!(
        shown(&after),
        vec![
            "Emit(SubscribeAck { toggle: Toggle, ok: true })".to_string(),
            "Log(SubscribeAck { toggle: Toggle, enable: false, ok: true })".to_string(),
        ]
    );
    let next = bridge.read(inbound(r#"{"jsonrpc":"2.0","id":4,"result":1}"#), &mut sub, 13);
    assert!(next.effects.is_empty());
    assert!(matches!(next.command, Command::AwaitFrame));
}

#[test]
fn a_failed_toggle_is_reported_and_streaming_goes_on() {
    let mut bridge = Bridge { state: BridgeState::Toggling { enable: true } };
    let mut sub = SubscriptionState::new();
    let step = bridge.read(Err(ReadFault::Write("broken".to_string())), &mut sub, 5);
    assert_eq!(bridge.state, BridgeState::Streaming);
    assert!(matches!(step.command, Command::AwaitFrame));
    assert_eq!(
        shown(&step),
        vec![
            "Emit(SubscribeAck { toggle: Toggle, ok: false })".to_string(),
            "Log(SubscribeAck { toggle: Toggle, enable: true, ok: false })".to_string(),
        ]
    );
}

#[test]
fn a_metrics_notification_reaches_the_host_unwrapped() {
    let mut bridge = streaming();
    let mut sub = SubscriptionState::new();
    let step = bridge.read(
        inbound(
            r#"{"jsonrpc":"2.0","method":"metrics","params":[{"memory":{"total_mb":16000,"used_mb":8000}}]}"#,
        ),
        &mut sub,
        1234,
    );
    assert_eq!(bridge.state, BridgeState::Streaming);
    assert!(matches!(step.command, Command::AwaitFrame));
    assert_eq!(step.effects.len(), 3);
    assert!(matches!(&step.effects[0], Effect::Emit(HostEvent::Received { method }) if method == "metrics"));
    assert!(matches!(
        &step.effects[1],
        Effect::Log(LogLine::Memory { total_mb: 16000, used_mb: 8000, at: 1234 })
    ));
    match &step.effects[2] {
        Effect::Emit(HostEvent::Notification { method, payload }) => {
            assert_eq!(method, "metrics");
            assert_eq!(payload, &json(r#"{"memory":{"total_mb":16000,"used_mb":8000}}"#));
        }
        other => panic!("wrong effect: {:?}", other),
    }
}

#[test]
fn only_metrics_with_memory_figures_are_recorded() {
    let mut bridge = streaming();
    let mut sub = SubscriptionState::new();
    let other = bridge.read(
        inbound(r#"{"method":"state","params":[{"memory":{"total_mb":1,"used_mb":1}}]}"#),
        &mut sub,
        1,
    );
    assert_eq!(other.effects.len(), 2);
    assert!(matches!(&other.effects[0], Effect::Emit(HostEvent::Received { method }) if method == "state"));
    assert!(matches!(&other.effects[1], Effect::Emit(HostEvent::Notification { .. })));
    let bare = bridge.read(inbound(r#"{"method":"metrics","params":[{"cpu":3}]}"#), &mut sub, 1);
    assert_eq!(bare.effects.len(), 2);
    let none = bridge.read(inbound(r#"{"method":"metrics"}"#), &mut sub, 1);
    assert_eq!(none.effects.len(), 2);
    assert!(matches!(
        &none.effects[1],
        Effect::Emit(HostEvent::Notification { payload: Value::Null, .. })
    ));
}

#[test]
fn a_response_while_streaming_is_consumed_without_an_event() {
    let mut bridge = streaming();
    let mut sub = SubscriptionState::new();
    let step = bridge.read(inbound(r#"{"jsonrpc":"2.0","id":42,"result":{"ok":true}}"#), &mut sub, 5);
    assert_eq!(bridge.state, BridgeState::Streaming);
    assert!(step.effects.is_empty());
    assert!(matches!(step.command, Command::AwaitFrame));
}

#[test]
fn a_body_that_is_no_json_is_told_and_streaming_goes_on() {
    let mut bridge = streaming();
    let mut sub = SubscriptionState::new();
    let step = bridge.read(inbound("{not json"), &mut sub, 5);
    assert_eq!(bridge.state, BridgeState::Streaming);
    assert!(matches!(step.command, Command::AwaitFrame));
    assert_eq!(step.effects.len(), 2);
    match &step.effects[0] {
        Effect::Emit(HostEvent::Error { stage: Stage::DecodeJson, detail: Detail::Undecodable { header, body } }) => {
            assert_eq!(header, &b"Content-Length: 9\r\n\r\n".to_vec());
            assert_eq!(body, &b"{not json".to_vec());
        }
        other => panic!("wrong effect: {:?}", other),
    }
    assert!(matches!(&step.effects[1], Effect::Log(LogLine::DecodeFailed)));
}

#[test]
fn a_failed_read_while_streaming_names_its_stage_and_reconnects() {
    for (fault, effects) in [
        (
            ReadFault::Frame(FrameError::ConnectionClosed(ReadPhase::Header)),
            vec!["Emit(Error { stage: ReadHeader, detail: Closed(Header) })"],
        ),
        (
            ReadFault::Read(ReadPhase::Header, "reset".to_string()),
            vec!["Emit(Error { stage: ReadHeader, detail: Host(\"reset\") })"],
        ),
        (
            ReadFault::Write("reset".to_string()),
            vec!["Emit(Error { stage: ReadHeader, detail: Host(\"reset\") })"],
        ),
        (
            ReadFault::Frame(FrameError::Framing),
            vec!["Emit(Error { stage: ParseHeader, detail: NoLength })", "Log(NoLength)"],
        ),
        (
            ReadFault::Frame(FrameError::ConnectionClosed(ReadPhase::Body)),
            vec![
                "Emit(Error { stage: ReadBody, detail: Closed(Body) })",
                "Log(ReadBodyFailed(Closed(Body)))",
            ],
        ),
        (
            ReadFault::Read(ReadPhase::Body, "reset".to_string()),
            vec![
                "Emit(Error { stage: ReadBody, detail: Host(\"reset\") })",
                "Log(ReadBodyFailed(Host(\"reset\")))",
            ],
        ),
    ] {
        let mut bridge = streaming();
        let mut sub = SubscriptionState::new();
        sub.set_subscribe(false);
        let step = bridge.read(Err(fault), &mut sub, 5);
        assert_eq!(bridge.state, BridgeState::Disconnected);
        assert!(matches!(step.command, Command::Open));
        assert_eq!(shown(&step), effects);
        assert_eq!(sub, SubscriptionState { desired: false, dirty: true });
    }
}

#[test]
fn an_outcome_out_of_turn_reconnects() {
    let mut sub = SubscriptionState::new();
    for state in [BridgeState::Disconnected, BridgeState::Waiting] {
        let mut bridge = Bridge { state };
        let step = bridge.read(ok_response(), &mut sub, 5);
        assert_eq!(bridge.state, BridgeState::Disconnected);
        assert!(step.effects.is_empty());
        assert!(matches!(step.command, Command::Open));
    }
    for state in [BridgeState::Waiting, BridgeState::Handshaking, BridgeState::Streaming] {
        let mut bridge = Bridge { state };
        let step = bridge.opened(5);
        assert_eq!(bridge.state, BridgeState::Disconnected);
        assert!(step.effects.is_empty());
        assert!(matches!(step.command, Command::Open));
        let mut bridge = Bridge { state };
        let step = bridge.open_failed("x".to_string());
        assert_eq!(bridge.state, BridgeState::Disconnected);
        assert!(step.effects.is_empty());
        assert!(matches!(step.command, Command::Open));
    }
}

#[test]
fn a_whole_session_from_open_to_reconnect() {
    let (mut bridge, first) = Bridge::start();
    let mut sub = SubscriptionState::new();
    assert!(matches!(first.command, Command::Open));
    assert!(matches!(bridge.open_failed("away".to_string()).command, Command::Sleep(1000)));
    assert!(matches!(bridge.woke().command, Command::Open));
    assert!(matches!(bridge.opened(1).command, Command::Exchange(_)));
    assert!(matches!(bridge.read(ok_response(), &mut sub, 2).command, Command::Exchange(_)));
    assert!(matches!(bridge.read(ok_response(), &mut sub, 3).command, Command::AwaitFrame));
    assert!(matches!(
        bridge.read(inbound(r#"{"method":"metrics","params":[1]}"#), &mut sub, 4).command,
        Command::AwaitFrame
    ));
    sub.set_subscribe(false);
    assert!(matches!(
        bridge.read(inbound(r#"{"method":"metrics","params":[2]}"#), &mut sub, 5).command,
        Command::Exchange(_)
    ));
    assert!(matches!(bridge.read(ok_response(), &mut sub, 6).command, Command::AwaitFrame));
    let lost = bridge.read(
        Err(ReadFault::Frame(FrameError::ConnectionClosed(ReadPhase::Header))),
        &mut sub,
        7,
    );
    assert!(matches!(lost.command, Command::Open));
    assert_eq!(bridge.state, BridgeState::Disconnected);
    let again = bridge.opened(8);
    assert_eq!(bridge.state, BridgeState::Handshaking);
    assert!(matches!(again.command, Command::Exchange(_)));
    let init = bridge.read(ok_response(), &mut sub, 9);
    assert_eq!(request_of(&init).get("params"), Some(&json(r#"[{"enable":false}]"#)));
}

#[test]
fn describe_fault_names_stage_and_detail() {
    assert!(matches!(
        describe_fault(ReadFault::Frame(FrameError::Framing)),
        (Stage::ParseHeader, Detail::NoLength)
    ));
    assert!(matches!(
        describe_fault(ReadFault::Read(ReadPhase::Body, "e".to_string())),
        (Stage::ReadBody, Detail::Host(text)) if text == "e"
    ));
}

#[test]
fn copy_detail_copies() {
    let detail: Detail<String, Vec<u8>> =
        Detail::Undecodable { header: b"h".to_vec(), body: b"b".to_vec() };
    assert_eq!(format!("{:?}", copy_detail(&detail)), format!("{:?}", detail));
    let host: Detail<String, Vec<u8>> = Detail::Host("words".to_string());
    assert_eq!(format!("{:?}", copy_detail(&host)), "Host(\"words\")");
}

#[test]
fn the_toggle_stages_are_two() {
    assert_ne!(ToggleStage::Init, ToggleStage::Toggle);
}

#[test]
fn arrived_decides_on_what_has_arrived() {
    let mut bridge = streaming();
    let mut sub = SubscriptionState::new();
    let step = bridge.arrived(
        Arrival::Document {
            header: b"h".to_vec(),
            body: b"b".to_vec(),
            document: json(r#"{"method":"tick","params":[{"n":1}]}"#),
        },
        &mut sub,
        3,
    );
    assert_eq!(
        step.effects,
        vec![
            Effect::Emit(HostEvent::Received { method: "tick".to_string() }),
            Effect::Emit(HostEvent::Notification { method: "tick".to_string(), payload: json(r#"{"n":1}"#) }),
        ]
    );
    assert_eq!(step.command, Command::AwaitFrame);
    let step = bridge.arrived(
        Arrival::Undecodable { header: b"h".to_vec(), body: b"b".to_vec() },
        &mut sub,
        4,
    );
    assert_eq!(
        step.effects,
        vec![
            Effect::Emit(HostEvent::Error {
                stage: Stage::DecodeJson,
                detail: Detail::Undecodable { header: b"h".to_vec(), body: b"b".to_vec() },
            }),
            Effect::Log(LogLine::DecodeFailed),
        ]
    );
    assert_eq!(bridge.state, BridgeState::Streaming);
    let mut bridge = Bridge { state: BridgeState::Handshaking };
    let step = bridge.arrived(
        Arrival::Document { header: b"h".to_vec(), body: b"b".to_vec(), document: json("{}") },
        &mut sub,
        5,
    );
    assert_eq!(bridge.state, BridgeState::Disconnected);
    assert_eq!(
        step.effects,
        vec![
            Effect::Log(LogLine::HelloFailed(Detail::Undecodable { header: b"h".to_vec(), body: b"b".to_vec() })),
            Effect::Emit(HostEvent::Error {
                stage: Stage::Hello,
                detail: Detail::Undecodable { header: b"h".to_vec(), body: b"b".to_vec() },
            }),
        ]
    );
    assert_eq!(step.command, Command::Open);
}
