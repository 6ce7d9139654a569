use hyprism_bridge::codec::InboundMessage;
use hyprism_bridge::connection::{begin_invoke, conclude, WaitOutcome};
use hyprism_bridge::dispatch::{
    decode_payload, dispatch, dispatch_line, envelope_json, event_name, event_script, step,
    Envelope, LoopAction, LoopState, WorkerEvent,
};
use hyprism_bridge::error::BridgeError;
use hyprism_bridge::registry::WaiterRegistry;
use hyprism_bridge::waiter::ReplySlot;
use serde_json::Value;
use tokio::sync::oneshot;
use tokio::sync::oneshot::error::TryRecvError;

fn json(text: &str) -> Value {
    serde_json::from_str(text).unwrap()
}

fn emit(channel: &str, payload: Option<&str>) -> InboundMessage {
    InboundMessage {
        kind: "emit".to_string(),
        channel: channel.to_string(),
        payload: payload.map(|p| p.to_string()),
    }
}

fn reply_line(channel: &str, payload: &str) -> Vec<u8> {
    let body = format!(
        "{{\"type\":\"emit\",\"channel\":{},\"payload\":{}}}",
        serde_json::to_string(channel).unwrap(),
        serde_json::to_string(payload).unwrap()
    );
    format!("@@HYPRISM_IPC@@{body}\n").into_bytes()
}

#[test]
fn decode_payload_parses_the_inner_text() {
    assert_eq!(decode_payload(&Some("{\"pong\":true}".to_string())), json(r#"{"pong":true}"#));
    assert_eq!(decode_payload(&Some("[1,2]".to_string())), json("[1,2]"));
    assert_eq!(decode_payload(&Some("\"text\"".to_string())), Value::from("text"));
}

#[test]
fn decode_payload_falls_back_to_null() {
    assert_eq!(decode_payload(&None), Value::Null);
    assert_eq!(decode_payload(&Some("not json".to_string())), Value::Null);
    assert_eq!(decode_payload(&Some(String::new())), Value::Null);
    assert_eq!(decode_payload(&Some("null".to_string())), Value::Null);
}

#[test]
fn invoke_ping_resolves_to_pong() {
    let mut registry: WaiterRegistry<ReplySlot> = WaiterRegistry::new();
    let (tx, mut rx) = oneshot::channel::<Value>();
    let text = begin_invoke(&mut registry, "ping".to_string(), Some(json(r#"{"id":1}"#)), tx)
        .unwrap();
    assert_eq!(text, "{\"type\":\"invoke\",\"channel\":\"ping\",\"payload\":{\"id\":1}}\n");
    assert_eq!(rx.try_recv(), Err(TryRecvError::Empty));
    let envelope = dispatch_line(&mut registry, &reply_line("ping:reply", "{\"pong\":true}"))
        .unwrap();
    assert_eq!(envelope.channel, "ping:reply");
    assert_eq!(envelope.payload, json(r#"{"pong": true}"#));
    assert!(envelope.resolved_pending_invoke);
    let delivered = rx.try_recv().unwrap();
    assert_eq!(conclude(WaitOutcome::Delivered(delivered)).unwrap(), json(r#"{"pong": true}"#));
    assert_eq!(registry.pending("ping:reply"), 0);
}

#[test]
fn invoke_ping_without_reply_times_out() {
    let mut registry: WaiterRegistry<ReplySlot> = WaiterRegistry::new();
    let (tx, mut rx) = oneshot::channel::<Value>();
    begin_invoke(&mut registry, "ping".to_string(), Some(json(r#"{"id":1}"#)), tx).unwrap();
    assert!(dispatch_line(&mut registry, b"worker is busy\n").is_none());
    assert_eq!(rx.try_recv(), Err(TryRecvError::Empty));
    assert!(matches!(conclude(WaitOutcome::TimedOut), Err(BridgeError::InvokeTimeout)));
    assert_eq!(registry.pending("ping:reply"), 1);
}

#[test]
fn two_status_invocations_resolve_in_order() {
    let mut registry: WaiterRegistry<ReplySlot> = WaiterRegistry::new();
    let (tx_a, mut rx_a) = oneshot::channel::<Value>();
    let (tx_b, mut rx_b) = oneshot::channel::<Value>();
    begin_invoke(&mut registry, "status".to_string(), None, tx_a).unwrap();
    begin_invoke(&mut registry, "status".to_string(), None, tx_b).unwrap();
    let first = dispatch_line(&mut registry, &reply_line("status:reply", "1")).unwrap();
    assert!(first.resolved_pending_invoke);
    assert_eq!(rx_a.try_recv(), Ok(Value::from(1)));
    assert_eq!(rx_b.try_recv(), Err(TryRecvError::Empty));
    let second = dispatch_line(&mut registry, &reply_line("status:reply", "2")).unwrap();
    assert!(second.resolved_pending_invoke);
    assert_eq!(rx_b.try_recv(), Ok(Value::from(2)));
    let third = dispatch_line(&mut registry, &reply_line("status:reply", "3")).unwrap();
    assert!(!third.resolved_pending_invoke);
}

#[test]
fn replies_on_distinct_channels_are_independent() {
    let mut registry: WaiterRegistry<ReplySlot> = WaiterRegistry::new();
    let (tx_a, mut rx_a) = oneshot::channel::<Value>();
    let (tx_b, mut rx_b) = oneshot::channel::<Value>();
    begin_invoke(&mut registry, "a".to_string(), None, tx_a).unwrap();
    begin_invoke(&mut registry, "b".to_string(), None, tx_b).unwrap();
    dispatch_line(&mut registry, &reply_line("b:reply", "\"for b\"")).unwrap();
    assert_eq!(rx_a.try_recv(), Err(TryRecvError::Empty));
    assert_eq!(rx_b.try_recv(), Ok(Value::from("for b")));
    assert_eq!(registry.pending("a:reply"), 1);
    dispatch_line(&mut registry, &reply_line("a:reply", "\"for a\"")).unwrap();
    assert_eq!(rx_a.try_recv(), Ok(Value::from("for a")));
}

#[test]
fn unmarked_line_changes_nothing() {
    let mut registry: WaiterRegistry<ReplySlot> = WaiterRegistry::new();
    let (tx, mut rx) = oneshot::channel::<Value>();
    registry.enqueue("ping:reply".to_string(), tx);
    let line = b"{\"type\":\"emit\",\"channel\":\"ping:reply\",\"payload\":\"1\"}\n";
    assert!(dispatch_line(&mut registry, line).is_none());
    assert!(dispatch_line(&mut registry, b"IPC@@{}").is_none());
    assert_eq!(registry.pending("ping:reply"), 1);
    assert_eq!(rx.try_recv(), Err(TryRecvError::Empty));
}

#[test]
fn empty_and_blank_lines_are_skipped() {
    let mut registry: WaiterRegistry<ReplySlot> = WaiterRegistry::new();
    assert!(dispatch_line(&mut registry, b"").is_none());
    assert!(dispatch_line(&mut registry, b"\n").is_none());
    assert!(dispatch_line(&mut registry, b" \t\r\n").is_none());
}

#[test]
fn line_is_trimmed_before_decoding() {
    let mut registry: WaiterRegistry<ReplySlot> = WaiterRegistry::new();
    let line = "  \t@@HYPRISM_IPC@@{\"type\":\"emit\",\"channel\":\"c\",\"payload\":\"7\"}\u{a0}\r\n";
    let envelope = dispatch_line(&mut registry, line.as_bytes()).unwrap();
    assert_eq!(envelope.channel, "c");
    assert_eq!(envelope.payload, Value::from(7));
}

#[test]
fn malformed_bytes_are_decoded_lossily() {
    let mut registry: WaiterRegistry<ReplySlot> = WaiterRegistry::new();
    let mut line = b"@@HYPRISM_IPC@@{\"type\":\"emit\",\"channel\":\"c".to_vec();
    line.push(0xff);
    line.extend_from_slice(b"\"}\n");
    let envelope = dispatch_line(&mut registry, &line).unwrap();
    assert_eq!(envelope.channel, "c\u{fffd}");
    assert_eq!(envelope.payload, Value::Null);
    assert!(dispatch_line(&mut registry, &[0xff, 0xfe, b'\n']).is_none());
}

#[test]
fn malformed_protocol_line_is_dropped() {
    let mut registry: WaiterRegistry<ReplySlot> = WaiterRegistry::new();
    let (tx, mut rx) = oneshot::channel::<Value>();
    registry.enqueue("c".to_string(), tx);
    assert!(dispatch_line(&mut registry, b"@@HYPRISM_IPC@@{\"type\":\"emit\",\"channel\":").is_none());
    assert!(dispatch_line(&mut registry, b"@@HYPRISM_IPC@@{\"type\":\"emit\",\"channel\":\"c\",\"payload\":5}").is_none());
    assert_eq!(registry.pending("c"), 1);
    assert_eq!(rx.try_recv(), Err(TryRecvError::Empty));
}

#[test]
fn other_kinds_are_not_dispatched() {
    let mut registry: WaiterRegistry<ReplySlot> = WaiterRegistry::new();
    let (tx, mut rx) = oneshot::channel::<Value>();
    registry.enqueue("c".to_string(), tx);
    let line = b"@@HYPRISM_IPC@@{\"type\":\"log\",\"channel\":\"c\",\"payload\":\"1\"}";
    assert!(dispatch_line(&mut registry, line).is_none());
    let upper = b"@@HYPRISM_IPC@@{\"type\":\"EMIT\",\"channel\":\"c\",\"payload\":\"1\"}";
    assert!(dispatch_line(&mut registry, upper).is_none());
    let message =
        InboundMessage { kind: "invoke".to_string(), channel: "c".to_string(), payload: None };
    assert!(dispatch(&mut registry, message).is_none());
    assert_eq!(registry.pending("c"), 1);
    assert_eq!(rx.try_recv(), Err(TryRecvError::Empty));
}

#[test]
fn emit_without_waiter_is_still_published() {
    let mut registry: WaiterRegistry<ReplySlot> = WaiterRegistry::new();
    let envelope = dispatch(&mut registry, emit("news", Some("{\"n\":1}"))).unwrap();
    assert_eq!(envelope.channel, "news");
    assert_eq!(envelope.payload, json(r#"{"n":1}"#));
    assert!(!envelope.resolved_pending_invoke);
}

#[test]
fn emit_without_payload_delivers_null() {
    let mut registry: WaiterRegistry<ReplySlot> = WaiterRegistry::new();
    let (tx, mut rx) = oneshot::channel::<Value>();
    registry.enqueue("c".to_string(), tx);
    let envelope = dispatch(&mut registry, emit("c", None)).unwrap();
    assert_eq!(envelope.payload, Value::Null);
    assert!(envelope.resolved_pending_invoke);
    assert_eq!(rx.try_recv(), Ok(Value::Null));
}

#[test]
fn waiter_and_envelope_get_the_same_value() {
    let mut registry: WaiterRegistry<ReplySlot> = WaiterRegistry::new();
    let (tx, mut rx) = oneshot::channel::<Value>();
    registry.enqueue("c".to_string(), tx);
    let envelope = dispatch(&mut registry, emit("c", Some("{\"a\":[1,{\"b\":null}]}"))).unwrap();
    assert_eq!(rx.try_recv().unwrap(), envelope.payload);
    assert_eq!(envelope.payload, json(r#"{"a":[1,{"b":null}]}"#));
}

#[test]
fn stale_waiter_takes_the_next_reply() {
    let mut registry: WaiterRegistry<ReplySlot> = WaiterRegistry::new();
    let (stale, gone) = oneshot::channel::<Value>();
    begin_invoke(&mut registry, "ping".to_string(), None, stale).unwrap();
    drop(gone);
    let (fresh, mut rx) = oneshot::channel::<Value>();
    begin_invoke(&mut registry, "ping".to_string(), None, fresh).unwrap();
    let envelope = dispatch_line(&mut registry, &reply_line("ping:reply", "1")).unwrap();
    assert!(envelope.resolved_pending_invoke);
    assert_eq!(rx.try_recv(), Err(TryRecvError::Empty));
    assert_eq!(registry.pending("ping:reply"), 1);
}

#[test]
fn envelope_json_has_three_members_in_order() {
    let envelope = Envelope {
        channel: "ping:reply".to_string(),
        payload: json(r#"{"pong":true}"#),
        resolved_pending_invoke: true,
    };
    assert_eq!(
        envelope_json(&envelope).unwrap(),
        r#"{"channel":"ping:reply","payload":{"pong":true},"resolvedPendingInvoke":true}"#
    );
    let envelope = Envelope {
        channel: "a\"b".to_string(),
        payload: Value::Null,
        resolved_pending_invoke: false,
    };
    assert_eq!(
        envelope_json(&envelope).unwrap(),
        r#"{"channel":"a\"b","payload":null,"resolvedPendingInvoke":false}"#
    );
}

#[test]
fn envelope_json_is_what_serde_writes_for_the_object() {
    let envelope = Envelope {
        channel: "c".to_string(),
        payload: json(r#"[1,"two",{"three":3.5}]"#),
        resolved_pending_invoke: false,
    };
    let mut object = serde_json::Map::new();
    object.insert("channel".to_string(), Value::from("c"));
    object.insert("payload".to_string(), envelope.payload.clone());
    object.insert("resolvedPendingInvoke".to_string(), Value::Bool(false));
    let expected = serde_json::to_string(&Value::Object(object)).unwrap();
    assert_eq!(envelope_json(&envelope).unwrap(), expected);
}

#[test]
fn event_script_wraps_the_detail() {
    assert_eq!(event_name(), "hyprism:bridge:event");
    assert_eq!(
        event_script("{\"channel\":\"c\"}"),
        "window.dispatchEvent(new CustomEvent('hyprism:bridge:event', { detail: {\"channel\":\"c\"} }));"
    );
}

#[test]
fn step_publishes_an_emit() {
    let mut registry: WaiterRegistry<ReplySlot> = WaiterRegistry::new();
    let (tx, mut rx) = oneshot::channel::<Value>();
    registry.enqueue("c:reply".to_string(), tx);
    let event = WorkerEvent::Stdout(reply_line("c:reply", "true"));
    match step(LoopState::Running, &mut registry, event) {
        (LoopState::Running, LoopAction::Publish(envelope)) => {
            assert_eq!(envelope.channel, "c:reply");
            assert_eq!(envelope.payload, Value::Bool(true));
            assert!(envelope.resolved_pending_invoke);
        }
        _ => panic!("an emit must be published"),
    }
    assert_eq!(rx.try_recv(), Ok(Value::Bool(true)));
}

#[test]
fn step_skips_noise_and_other_events() {
    let mut registry: WaiterRegistry<ReplySlot> = WaiterRegistry::new();
    let noise = WorkerEvent::Stdout(b"listening\n".to_vec());
    assert!(matches!(
        step(LoopState::Running, &mut registry, noise),
        (LoopState::Running, LoopAction::Skip)
    ));
    assert!(matches!(
        step(LoopState::Running, &mut registry, WorkerEvent::Other),
        (LoopState::Running, LoopAction::Skip)
    ));
}

#[test]
fn step_never_parses_diagnostics() {
    let mut registry: WaiterRegistry<ReplySlot> = WaiterRegistry::new();
    let (tx, mut rx) = oneshot::channel::<Value>();
    registry.enqueue("c:reply".to_string(), tx);
    let event = WorkerEvent::Stderr(reply_line("c:reply", "true"));
    assert!(matches!(
        step(LoopState::Running, &mut registry, event),
        (LoopState::Running, LoopAction::Diagnose)
    ));
    assert_eq!(registry.pending("c:reply"), 1);
    assert_eq!(rx.try_recv(), Err(TryRecvError::Empty));
}

#[test]
fn step_stops_on_exit_and_on_close() {
    let mut registry: WaiterRegistry<ReplySlot> = WaiterRegistry::new();
    assert!(matches!(
        step(LoopState::Running, &mut registry, WorkerEvent::Terminated),
        (LoopState::Terminated, LoopAction::Stop)
    ));
    assert!(matches!(
        step(LoopState::Running, &mut registry, WorkerEvent::Closed),
        (LoopState::Terminated, LoopAction::Stop)
    ));
}

#[test]
fn terminated_loop_dispatches_nothing() {
    let mut registry: WaiterRegistry<ReplySlot> = WaiterRegistry::new();
    let (tx, mut rx) = oneshot::channel::<Value>();
    registry.enqueue("c:reply".to_string(), tx);
    let events = vec![
        WorkerEvent::Stdout(reply_line("c:reply", "true")),
        WorkerEvent::Stderr(b"x".to_vec()),
        WorkerEvent::Terminated,
        WorkerEvent::Closed,
        WorkerEvent::Other,
    ];
    for event in events {
        assert!(matches!(
            step(LoopState::Terminated, &mut registry, event),
            (LoopState::Terminated, LoopAction::Skip)
        ));
    }
    assert_eq!(registry.pending("c:reply"), 1);
    assert_eq!(rx.try_recv(), Err(TryRecvError::Empty));
}
