use vstd::prelude::*;

use vstd::string::StringExecFns;

verus! {

/// One outbound line of text from the session to the UI layer, tagged by
/// prefix convention (`[INFO]`, `[WARN]`, `[ERROR]`, or a `[topic]`
/// header for a received message).
pub struct StatusEvent {
    pub line: String,
}

impl View for StatusEvent {
    type V = Seq<char>;

    open spec fn view(&self) -> Seq<char> {
        self.line@
    }
}

/// The line reported when the broker client cannot even be built.
pub open spec fn client_error_line(error: Seq<char>) -> Seq<char> {
    ("Error when creating async client: ")@ + error + (".")@
}

/// The line reported when connecting to the broker fails.
pub open spec fn connect_error_line(error: Seq<char>) -> Seq<char> {
    ("[ERROR] MQTT connection failed: ")@ + error + (".")@
}

/// The line reported when subscribing fails.
pub open spec fn subscribe_error_line(error: Seq<char>) -> Seq<char> {
    ("[ERROR] Failed to subscribe topic: ")@ + error + (".")@
}

/// The line reported once connect and subscribe both succeeded: it names
/// the broker URL and the effective topic.
pub open spec fn connected_line(url: Seq<char>, topic: Seq<char>) -> Seq<char> {
    ("[INFO] Connected to ")@ + url + (" with topic \"")@ + topic + ("\".")@
}

/// The line reported for each received message: the topic in brackets,
/// then the payload decoded as text.
pub open spec fn message_line(topic: Seq<char>, text: Seq<char>) -> Seq<char> {
    ("[")@ + topic + ("]\n")@ + text
}

/// The line reported when the stream yields a gap instead of a message.
pub open spec fn gap_line() -> Seq<char> {
    ("[WARN] No message from the stream.")@
}

/// The line acknowledging the stop signal.
pub open spec fn stopped_line() -> Seq<char> {
    ("[INFO] Stop signal received.")@
}

pub fn client_error_event(error: &str) -> (r: StatusEvent)
    ensures
        r@ == client_error_line(error@),
{
    let mut line = String::from_str("Error when creating async client: ");
    line.append(error);
    line.append(".");
    StatusEvent { line }
}

pub fn connect_error_event(error: &str) -> (r: StatusEvent)
    ensures
        r@ == connect_error_line(error@),
{
    let mut line = String::from_str("[ERROR] MQTT connection failed: ");
    line.append(error);
    line.append(".");
    StatusEvent { line }
}

pub fn subscribe_error_event(error: &str) -> (r: StatusEvent)
    ensures
        r@ == subscribe_error_line(error@),
{
    let mut line = String::from_str("[ERROR] Failed to subscribe topic: ");
    line.append(error);
    line.append(".");
    StatusEvent { line }
}

pub fn connected_event(url: &str, topic: &str) -> (r: StatusEvent)
    ensures
        r@ == connected_line(url@, topic@),
{
    let mut line = String::from_str("[INFO] Connected to ");
    line.append(url);
    line.append(" with topic \"");
    line.append(topic);
    line.append("\".");
    StatusEvent { line }
}

pub fn message_event(topic: &str, text: &str) -> (r: StatusEvent)
    ensures
        r@ == message_line(topic@, text@),
{
    let mut line = String::from_str("[");
    line.append(topic);
    line.append("]\n");
    line.append(text);
    StatusEvent { line }
}

pub fn gap_event() -> (r: StatusEvent)
    ensures
        r@ == gap_line(),
{
    StatusEvent { line: String::from_str("[WARN] No message from the stream.") }
}

pub fn stopped_event() -> (r: StatusEvent)
    ensures
        r@ == stopped_line(),
{
    StatusEvent { line: String::from_str("[INFO] Stop signal received.") }
}

#[verifier::external_type_specification]
#[verifier::external_body]
#[verifier::reject_recursive_types(T)]
pub struct ExSender<T>(std::sync::mpsc::Sender<T>);

/// The one-directional conduit from the session to the UI layer. Sending
/// never blocks the session loop, and a delivery failure (the UI layer
/// gone) is swallowed: the session must not stall or crash because nobody
/// is listening.
pub struct OutputChannel {
    tx: std::sync::mpsc::Sender<StatusEvent>,
}

impl OutputChannel {
    /// Wrap the sending half of a channel whose receiving half the UI
    /// layer holds.
    pub fn new(tx: std::sync::mpsc::Sender<StatusEvent>) -> (r: OutputChannel) {
        OutputChannel { tx }
    }

    /// Relies on `std::sync::mpsc::Sender::send`: an in-process handoff on
    /// an unbounded queue that never blocks the caller; the error returned
    /// when the receiver is gone is discarded here.
    #[verifier::external_body]
    pub(crate) fn send(&self, event: StatusEvent) {
        let _ = self.tx.send(event);
    }
}

} // verus!
