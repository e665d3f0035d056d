use std::collections::VecDeque;
use std::io::Read;
use std::io::Write;

use rpc_bridge::bridge::Bridge;
use rpc_bridge::bridge::BridgeState;
use rpc_bridge::call::Call;
use rpc_bridge::call::CallError;
use rpc_bridge::decoder::read_frame;
use rpc_bridge::decoder::Decoding;
use rpc_bridge::decoder::Frame;
use rpc_bridge::decoder::FrameDecoder;
use rpc_bridge::events::Command;
use rpc_bridge::events::Effect;
use rpc_bridge::events::HostEvent;
use rpc_bridge::events::ReadFault;
use rpc_bridge::framing::encode_frame;
use rpc_bridge::framing::FrameError;
use rpc_bridge::framing::ReadPhase;
use rpc_bridge::subscription::SubscriptionState;
use serde_json::Value;

/// A connection whose peer has already said all it will say, handed out in
/// pieces of at most `piece` bytes.
struct Scripted {
    inbound: VecDeque<u8>,
    piece: usize,
    written: Vec<u8>,
    reads: Vec<usize>,
}

impl Scripted {
    fn new(inbound: &[u8], piece: usize) -> Scripted {
        Scripted { inbound: inbound.iter().copied().collect(), piece, written: Vec::new(), reads: Vec::new() }
    }
}

impl Read for Scripted {
    fn read(&mut self, buf: &mut [u8]) -> std::io::Result<usize> {
        self.reads.push(buf.len());
        let n = buf.len().min(self.piece).min(self.inbound.len());
        for slot in buf.iter_mut().take(n) {
            *slot = self.inbound.pop_front().unwrap();
        }
        Ok(n)
    }
}

impl Write for Scripted {
    fn write(&mut self, buf: &[u8]) -> std::io::Result<usize> {
        self.written.extend_from_slice(buf);
        Ok(buf.len())
    }

    fn flush(&mut self) -> std::io::Result<()> {
        Ok(())
    }
}

fn read_one(stream: &mut Scripted) -> Result<Frame, ReadFault<String>> {
    let mut decoder = FrameDecoder::new();
    let mut chunk = vec![0u8; 4096];
    loop {
        let want = decoder.want().min(chunk.len());
        let n = match stream.read(&mut chunk[..want]) {
            Ok(n) => n,
            Err(error) => return Err(ReadFault::Read(decoder.phase(), error.to_string())),
        };
        match decoder.feed(&chunk[..n]) {
            Decoding::Reading(next) => decoder = next,
            Decoding::Frame(frame) => return Ok(frame),
            Decoding::Failed(error) => return Err(ReadFault::Frame(error)),
        }
    }
}

fn exchange(stream: &mut Scripted, request: &[u8]) -> Result<Frame, ReadFault<String>> {
    stream.write_all(request).unwrap();
    stream.flush().unwrap();
    read_one(stream)
}

fn json(text: &str) -> Value {
    serde_json::from_str(text).expect("test value")
}

fn framed(body: &str) -> Vec<u8> {
    encode_frame(body.as_bytes())
}

#[test]
fn a_frame_is_read_with_one_byte_reads_in_the_header_only() {
    let mut wire = framed(r#"{"jsonrpc":"2.0","id":1,"result":1}"#);
    wire.extend_from_slice(b"next");
    let mut stream = Scripted::new(&wire, 1000);
    let frame = read_one(&mut stream).unwrap();
    assert_eq!(frame.body, br#"{"jsonrpc":"2.0","id":1,"result":1}"#.to_vec());
    let header_len = frame.header.len();
    assert!(stream.reads[..header_len].iter().all(|&n| n == 1));
    assert_eq!(stream.reads[header_len..], [frame.body.len()]);
    assert_eq!(stream.inbound.iter().copied().collect::<Vec<u8>>(), b"next".to_vec());
}

#[test]
fn a_body_that_comes_in_pieces_is_read_whole() {
    let body = "x".repeat(1000);
    let mut stream = Scripted::new(&framed(&body), 7);
    let frame = read_one(&mut stream).unwrap();
    assert_eq!(frame.body, body.into_bytes());
    assert!(stream.reads.iter().all(|&n| n >= 1));
}

#[test]
fn a_stream_that_closes_is_told_apart_from_a_bad_header() {
    let wire = framed("0123456789");
    let mut in_header = Scripted::new(&wire[..10], 100);
    assert!(matches!(
        read_one(&mut in_header),
        Err(ReadFault::Frame(FrameError::ConnectionClosed(ReadPhase::Header)))
    ));
    let mut in_body = Scripted::new(&wire[..wire.len() - 1], 100);
    assert!(matches!(
        read_one(&mut in_body),
        Err(ReadFault::Frame(FrameError::ConnectionClosed(ReadPhase::Body)))
    ));
    let mut zero = Scripted::new(b"Content-Length: 0\r\n\r\n", 100);
    assert!(matches!(read_one(&mut zero), Err(ReadFault::Frame(FrameError::Framing))));
    let mut none = Scripted::new(b"Content-Type: json\r\n\r\n{}", 100);
    assert!(matches!(read_one(&mut none), Err(ReadFault::Frame(FrameError::Framing))));
}

#[test]
fn a_captured_frame_parses_to_the_same_value_after_reframing() {
    let text = r#"{"jsonrpc":"2.0","id":7,"result":{"list":[1,2.5,"x",null,true],"nested":{"k":"v"}}}"#;
    let wire = framed(text);
    let frame = read_frame(&wire).unwrap();
    let value: Value = serde_json::from_slice(&frame.body).unwrap();
    assert_eq!(value, json(text));
    let again = encode_frame(&frame.body);
    assert_eq!(again, wire);
    let reread = read_frame(&again).unwrap();
    assert_eq!(reread.header, frame.header);
    assert_eq!(serde_json::from_slice::<Value>(&reread.body).unwrap(), value);
}

#[test]
fn a_call_runs_from_request_to_result() {
    let call = Call::begin("snapshot", Some(json(r#"{"modules":["cpu"]}"#)), 10_000);
    let mut stream = Scripted::new(&framed(r#"{"jsonrpc":"2.0","id":1,"result":{"cpu":3}}"#), 5);
    let outcome = match call.opened() {
        Command::Exchange(request) => exchange(&mut stream, &request),
        other => panic!("no exchange: {:?}", other),
    };
    assert_eq!(stream.written, call.request);
    let sent = read_frame(&stream.written).unwrap();
    let sent: Value = serde_json::from_slice(&sent.body).unwrap();
    assert_eq!(sent.get("method"), Some(&json("\"snapshot\"")));
    assert_eq!(sent.get("params"), Some(&json(r#"[{"modules":["cpu"]}]"#)));
    assert_eq!(call.read(outcome).unwrap(), json(r#"{"cpu":3}"#));
}

#[test]
fn a_call_whose_peer_hangs_up_sees_a_closed_connection() {
    let call = Call::begin("m", None, 10_000);
    let mut stream = Scripted::new(b"Content-Length: 20\r\n\r\n{\"jsonrpc\"", 64);
    let outcome = exchange(&mut stream, &call.request);
    assert!(matches!(call.read(outcome), Err(CallError::ConnectionClosed(ReadPhase::Body))));
}

#[test]
fn the_bridge_runs_a_session_over_one_connection() {
    let mut inbound = Vec::new();
    inbound.extend_from_slice(&framed(r#"{"jsonrpc":"2.0","id":1,"result":{"hello":"ok"}}"#));
    inbound.extend_from_slice(&framed(r#"{"jsonrpc":"2.0","id":2,"result":true}"#));
    inbound.extend_from_slice(&framed(
        r#"{"jsonrpc":"2.0","method":"metrics","params":[{"memory":{"total_mb":16000,"used_mb":8000}}]}"#,
    ));
    inbound.extend_from_slice(&framed("garbage"));
    inbound.extend_from_slice(&framed(r#"{"jsonrpc":"2.0","id":3,"result":false}"#));
    inbound.extend_from_slice(&framed(r#"{"jsonrpc":"2.0","method":"state","params":["a","b"]}"#));
    let mut stream = Scripted::new(&inbound, 13);

    let mut sub = SubscriptionState::new();
    let (mut bridge, mut step) = Bridge::start();
    let mut opens = 0;
    let mut emitted: Vec<(String, Value)> = Vec::new();
    let mut stages: Vec<String> = Vec::new();
    let mut now = 100;
    loop {
        for effect in step.effects {
            match effect {
                Effect::Emit(HostEvent::Notification { method, payload }) => emitted.push((method, payload)),
                Effect::Emit(HostEvent::Error { stage, .. }) => stages.push(format!("{:?}", stage)),
                _ => {}
            }
        }
        now += 1;
        step = match step.command {
            Command::Open => {
                opens += 1;
                if opens > 1 {
                    break;
                }
                bridge.opened(now)
            }
            Command::Sleep(_) => bridge.woke(),
            Command::Exchange(request) => {
                let outcome = exchange(&mut stream, &request);
                bridge.read(outcome, &mut sub, now)
            }
            Command::AwaitFrame => {
                if emitted.len() == 1 && sub.desired {
                    sub.set_subscribe(true);
                    sub.set_subscribe(false);
                }
                let outcome = read_one(&mut stream);
                bridge.read(outcome, &mut sub, now)
            }
        };
    }
    assert_eq!(bridge.state, BridgeState::Disconnected);
    assert_eq!(
        emitted,
        vec![
            ("metrics".to_string(), json(r#"{"memory":{"total_mb":16000,"used_mb":8000}}"#)),
            ("state".to_string(), json(r#"["a","b"]"#)),
        ]
    );
    assert_eq!(stages, vec!["DecodeJson".to_string(), "ReadHeader".to_string()]);

    let mut requests = Vec::new();
    let mut rest: &[u8] = &stream.written;
    while !rest.is_empty() {
        let frame = read_frame(rest).unwrap();
        rest = &rest[frame.header.len() + frame.body.len()..];
        requests.push(serde_json::from_slice::<Value>(&frame.body).unwrap());
    }
    let methods: Vec<&str> = requests.iter().map(|r| r["method"].as_str().unwrap()).collect();
    assert_eq!(methods, vec!["hello", "subscribe_metrics", "subscribe_metrics"]);
    assert_eq!(requests[1]["params"], json(r#"[{"enable":true}]"#));
    assert_eq!(requests[2]["params"], json(r#"[{"enable":false}]"#));
    assert_eq!(sub, SubscriptionState { desired: false, dirty: false });
}
