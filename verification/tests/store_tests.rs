use mqtt_client::classify::ClassifiedValue;
use mqtt_client::gate::CancellationGate;
use mqtt_client::request::ConnectionRequest;
use mqtt_client::snapshot::SnapshotStore;

fn text(s: &str) -> ClassifiedValue {
    ClassifiedValue::Text(s.to_string())
}

fn expect_stored_text(store: &SnapshotStore, topic: &str, want: &str) {
    match store.get(topic) {
        Some(ClassifiedValue::Text(s)) => assert_eq!(s, want),
        _ => panic!("expected Text under {}", topic),
    }
}

#[test]
fn store_set_then_get() {
    let mut store = SnapshotStore::new();
    store.set("t".to_string(), text("one"));
    expect_stored_text(&store, "t", "one");
}

#[test]
fn store_set_overwrites_whole_value() {
    let mut store = SnapshotStore::new();
    let obj = serde_json::from_str::<serde_json::Map<String, serde_json::Value>>("{\"a\":1}")
        .unwrap();
    store.set("t".to_string(), ClassifiedValue::Object(obj));
    store.set("t".to_string(), text("two"));
    expect_stored_text(&store, "t", "two");
}

#[test]
fn store_get_missing_is_none() {
    let store = SnapshotStore::new();
    assert!(store.get("absent").is_none());
}

#[test]
fn store_keys_are_independent() {
    let mut store = SnapshotStore::new();
    store.set("a".to_string(), text("1"));
    store.set("b".to_string(), text("2"));
    store.set("a".to_string(), text("3"));
    expect_stored_text(&store, "a", "3");
    expect_stored_text(&store, "b", "2");
}

#[test]
fn gate_starts_unsignaled() {
    let gate = CancellationGate::new();
    assert!(!gate.is_signaled());
}

#[test]
fn gate_trigger_sets_signal() {
    let mut gate = CancellationGate::new();
    gate.trigger();
    assert!(gate.is_signaled());
}

#[test]
fn gate_trigger_twice_same_as_once() {
    let mut once = CancellationGate::new();
    once.trigger();
    let mut twice = CancellationGate::new();
    twice.trigger();
    twice.trigger();
    assert_eq!(once.is_signaled(), twice.is_signaled());
}

#[test]
fn request_partial_credentials_treated_as_absent() {
    let r = ConnectionRequest::new(
        "mqtt://h".to_string(),
        None,
        "user".to_string(),
        String::new(),
    );
    assert!(r.credentials.is_none());
    let r = ConnectionRequest::new(
        "mqtt://h".to_string(),
        None,
        String::new(),
        "pass".to_string(),
    );
    assert!(r.credentials.is_none());
}

#[test]
fn request_full_credentials_kept() {
    let r = ConnectionRequest::new(
        "mqtt://h".to_string(),
        None,
        "user".to_string(),
        "pass".to_string(),
    );
    let c = r.credentials.expect("credentials");
    assert_eq!(c.username, "user");
    assert_eq!(c.password, "pass");
}

#[test]
fn request_effective_topic_defaults_to_wildcard() {
    let r = ConnectionRequest::new("mqtt://h".to_string(), None, String::new(), String::new());
    assert_eq!(r.effective_topic(), "#");
}

#[test]
fn request_effective_topic_given() {
    let r = ConnectionRequest::new(
        "mqtt://h".to_string(),
        Some("sensors/#".to_string()),
        String::new(),
        String::new(),
    );
    assert_eq!(r.effective_topic(), "sensors/#");
}

#[test]
fn connect_settings_fixed_options() {
    let r = ConnectionRequest::new(
        "mqtt://h".to_string(),
        None,
        "u".to_string(),
        "p".to_string(),
    );
    let s = r.connect_settings();
    assert_eq!(s.keep_alive_secs, 30);
    assert_eq!(s.session_expiry_secs, 3600);
    assert!(s.clean_session);
    let c = s.credentials.expect("credentials");
    assert_eq!(c.username, "u");
    assert_eq!(c.password, "p");
}
