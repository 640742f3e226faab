use mqtt_client::request::ConnectionRequest;
use mqtt_client::worker::{AsyncHandler, AsyncHandlerMsg, HandlerAction};

fn request() -> ConnectionRequest {
    ConnectionRequest::new("mqtt://h".to_string(), None, String::new(), String::new())
}

#[test]
fn handler_start_launches_given_request() {
    let mut handler = AsyncHandler::init();
    match handler.update(AsyncHandlerMsg::Start(request())) {
        HandlerAction::Launch(r) => assert_eq!(r.url, "mqtt://h"),
        _ => panic!("expected Launch"),
    }
}

#[test]
fn handler_stop_before_start_ignored() {
    let mut handler = AsyncHandler::init();
    assert!(matches!(
        handler.update(AsyncHandlerMsg::Stop),
        HandlerAction::Ignore
    ));
}

#[test]
fn handler_stop_after_start_signals() {
    let mut handler = AsyncHandler::init();
    handler.update(AsyncHandlerMsg::Start(request()));
    assert!(matches!(
        handler.update(AsyncHandlerMsg::Stop),
        HandlerAction::SignalStop
    ));
}

#[test]
fn handler_forwards_received_lines() {
    let mut handler = AsyncHandler::init();
    match handler.update(AsyncHandlerMsg::MessageReceived("[a]\n1".to_string())) {
        HandlerAction::Forward(line) => assert_eq!(line, "[a]\n1"),
        _ => panic!("expected Forward"),
    }
}
