use std::sync::mpsc;

use mqtt_client::classify::ClassifiedValue;
use mqtt_client::events::{OutputChannel, StatusEvent};
use mqtt_client::gate::CancellationGate;
use mqtt_client::request::ConnectionRequest;
use mqtt_client::session::{Action, Session, SessionState, StreamItem};

fn channel() -> (OutputChannel, mpsc::Receiver<StatusEvent>) {
    let (tx, rx) = mpsc::channel::<StatusEvent>();
    (OutputChannel::new(tx), rx)
}

fn plain_request(url: &str, topic: Option<&str>) -> ConnectionRequest {
    ConnectionRequest::new(
        url.to_string(),
        topic.map(|t| t.to_string()),
        String::new(),
        String::new(),
    )
}

fn streaming_session(out: &OutputChannel, rx: &mpsc::Receiver<StatusEvent>) -> Session {
    let mut s = Session::new(plain_request("mqtt://broker.example", None));
    s.on_connect_result(Ok(()), out);
    s.on_subscribe_result(Ok(()), out);
    rx.try_recv().expect("connected event");
    s
}

#[test]
fn scenario_no_credentials_topic_absent_subscribes_wildcard() {
    let (out, rx) = channel();
    let mut s = Session::new(plain_request("mqtt://broker.example", None));
    assert_eq!(s.state(), SessionState::Connecting);
    let action = s.on_connect_result(Ok(()), &out);
    match action {
        Action::Subscribe { topic, qos } => {
            assert_eq!(topic, "#");
            assert_eq!(qos, 1);
        }
        _ => panic!("expected Subscribe"),
    }
    s.on_subscribe_result(Ok(()), &out);
    let first = rx.try_recv().expect("one event");
    assert_eq!(
        first.line,
        "[INFO] Connected to mqtt://broker.example with topic \"#\"."
    );
    assert_eq!(s.state(), SessionState::Streaming);
}

#[test]
fn scenario_connect_failure_emits_one_error_and_fails() {
    let (out, rx) = channel();
    let mut s = Session::new(plain_request("mqtt://unreachable.example", None));
    let action = s.on_connect_result(Err("connection refused".to_string()), &out);
    assert!(matches!(action, Action::Finish));
    assert_eq!(s.state(), SessionState::Failed);
    let only = rx.try_recv().expect("one error event");
    assert_eq!(
        only.line,
        "[ERROR] MQTT connection failed: connection refused."
    );
    assert!(rx.try_recv().is_err());
}

#[test]
fn scenario_message_emits_line_and_updates_snapshot() {
    let (out, rx) = channel();
    let mut s = streaming_session(&out, &rx);
    let action = s.on_stream_item(
        StreamItem::Message {
            topic: "sensors/1".to_string(),
            payload: b"{\"a\":1}".to_vec(),
        },
        &out,
    );
    assert!(matches!(action, Action::Await));
    let event = rx.try_recv().expect("message event");
    assert_eq!(event.line, "[sensors/1]\n{\"a\":1}");
    let expected = serde_json::from_str::<serde_json::Map<String, serde_json::Value>>(
        "{\"a\":1}",
    )
    .unwrap();
    match s.get("sensors/1") {
        Some(ClassifiedValue::Object(m)) => assert_eq!(*m, expected),
        _ => panic!("expected Object in snapshot"),
    }
}

#[test]
fn scenario_trigger_then_one_more_message_still_processed() {
    let (out, rx) = channel();
    let mut s = streaming_session(&out, &rx);
    let mut gate = CancellationGate::new();
    let action = s.poll_cancel(&gate, &out);
    assert!(matches!(action, Action::Await));
    gate.trigger();
    let action = s.on_stream_item(
        StreamItem::Message {
            topic: "t".to_string(),
            payload: b"late".to_vec(),
        },
        &out,
    );
    assert!(matches!(action, Action::Await));
    assert_eq!(rx.try_recv().expect("late message event").line, "[t]\nlate");
    match s.get("t") {
        Some(ClassifiedValue::Text(text)) => assert_eq!(text, "late"),
        _ => panic!("expected Text in snapshot"),
    }
    let action = s.poll_cancel(&gate, &out);
    assert!(matches!(action, Action::Finish));
    assert_eq!(s.state(), SessionState::Draining);
    assert_eq!(
        rx.try_recv().expect("stop event").line,
        "[INFO] Stop signal received."
    );
    s.close();
    assert_eq!(s.state(), SessionState::Closed);
    assert!(rx.try_recv().is_err());
}

#[test]
fn double_trigger_one_stop_acknowledgment() {
    let (out, rx) = channel();
    let mut s = streaming_session(&out, &rx);
    let mut gate = CancellationGate::new();
    gate.trigger();
    gate.trigger();
    let action = s.poll_cancel(&gate, &out);
    assert!(matches!(action, Action::Finish));
    assert_eq!(
        rx.try_recv().expect("stop event").line,
        "[INFO] Stop signal received."
    );
    assert!(rx.try_recv().is_err());
}

#[test]
fn stream_gap_warns_and_continues() {
    let (out, rx) = channel();
    let mut s = streaming_session(&out, &rx);
    let action = s.on_stream_item(StreamItem::Gap, &out);
    assert!(matches!(action, Action::Await));
    assert_eq!(
        rx.try_recv().expect("gap event").line,
        "[WARN] No message from the stream."
    );
    assert_eq!(s.state(), SessionState::Streaming);
}

#[test]
fn stream_exhausted_ends_session_without_event() {
    let (out, rx) = channel();
    let mut s = streaming_session(&out, &rx);
    let action = s.on_stream_item(StreamItem::Closed, &out);
    assert!(matches!(action, Action::Finish));
    assert_eq!(s.state(), SessionState::Draining);
    assert!(rx.try_recv().is_err());
    s.close();
    assert_eq!(s.state(), SessionState::Closed);
}

#[test]
fn client_build_failure_reported_once() {
    let (out, rx) = channel();
    let mut s = Session::new(plain_request("mqtt://broker.example", None));
    let action = s.on_client_error("no client", &out);
    assert!(matches!(action, Action::Finish));
    assert_eq!(s.state(), SessionState::Failed);
    assert_eq!(
        rx.try_recv().expect("client error event").line,
        "Error when creating async client: no client."
    );
    assert!(rx.try_recv().is_err());
}

#[test]
fn subscribe_failure_reported_once() {
    let (out, rx) = channel();
    let mut s = Session::new(plain_request("mqtt://broker.example", Some("private/#")));
    s.on_connect_result(Ok(()), &out);
    let action = s.on_subscribe_result(Err("not authorized".to_string()), &out);
    assert!(matches!(action, Action::Finish));
    assert_eq!(s.state(), SessionState::Failed);
    assert_eq!(
        rx.try_recv().expect("subscribe error event").line,
        "[ERROR] Failed to subscribe topic: not authorized."
    );
    assert!(rx.try_recv().is_err());
}

#[test]
fn connected_event_names_given_topic() {
    let (out, rx) = channel();
    let mut s = Session::new(plain_request("mqtt://broker.example", Some("sensors/#")));
    let action = s.on_connect_result(Ok(()), &out);
    match action {
        Action::Subscribe { topic, qos } => {
            assert_eq!(topic, "sensors/#");
            assert_eq!(qos, 1);
        }
        _ => panic!("expected Subscribe"),
    }
    s.on_subscribe_result(Ok(()), &out);
    assert_eq!(
        rx.try_recv().expect("connected event").line,
        "[INFO] Connected to mqtt://broker.example with topic \"sensors/#\"."
    );
}

#[test]
fn events_leave_in_arrival_order() {
    let (out, rx) = channel();
    let mut s = streaming_session(&out, &rx);
    s.on_stream_item(
        StreamItem::Message {
            topic: "a".to_string(),
            payload: b"1".to_vec(),
        },
        &out,
    );
    s.on_stream_item(StreamItem::Gap, &out);
    s.on_stream_item(
        StreamItem::Message {
            topic: "b".to_string(),
            payload: b"2".to_vec(),
        },
        &out,
    );
    assert_eq!(rx.try_recv().unwrap().line, "[a]\n1");
    assert_eq!(rx.try_recv().unwrap().line, "[WARN] No message from the stream.");
    assert_eq!(rx.try_recv().unwrap().line, "[b]\n2");
}
