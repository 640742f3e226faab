use vstd::prelude::*;

use crate::classify::{classify, spec_classify, ClassifiedValue};
use crate::events::{
    client_error_event, client_error_line, connect_error_event, connect_error_line,
    connected_event, connected_line, gap_event, gap_line, message_event, message_line,
    stopped_event, stopped_line, subscribe_error_event, subscribe_error_line, OutputChannel,
};
use crate::gate::CancellationGate;
use crate::json::{lossy_utf8, utf8_lossy};
use crate::request::{spec_effective_topic, ConnectSettings, ConnectionRequest};
use crate::snapshot::SnapshotStore;

verus! {

/// How many pending messages the broker stream buffers between delivery
/// and the consuming loop. The stream is opened with this bound before
/// subscribing, so no message is dropped between connect and subscribe.
pub const STREAM_BUFFER: usize = 300;

/// The delivery guarantee subscribed at: at least once.
pub const QOS_AT_LEAST_ONCE: u8 = 1;

/// Where the session stands. `Failed` is terminal and distinct from the
/// orderly `Draining` / `Closed` pair.
#[derive(Clone, Copy, PartialEq, Eq, Structural, Debug)]
pub enum SessionState {
    Connecting,
    Subscribing,
    Streaming,
    Draining,
    Closed,
    Failed,
}

/// What the surrounding loop must do next. The loop performs the action
/// against the broker and reports the outcome back as plain values. The
/// connect step itself has no action: it is always first, done with
/// `Session::connect_settings` against the request's URL, with an
/// auto-assigned client id and the stream opened at `STREAM_BUFFER` slots.
pub enum Action {
    /// Subscribe to the given filter at the given delivery guarantee.
    Subscribe { topic: String, qos: u8 },
    /// Pull the next item from the stream: the loop's sole suspension
    /// point.
    Await,
    /// Release the client and the execution context; the session is over.
    Finish,
}

/// What one pull from the broker stream came back with.
pub enum StreamItem {
    /// A message on `topic` carrying `payload`.
    Message { topic: String, payload: Vec<u8> },
    /// A transient gap signaled by the client, not the end of the stream.
    Gap,
    /// The stream is exhausted: the broker closed the connection.
    Closed,
}

/// The connection session. It owns the request it was started for, the
/// live snapshot its loop fills, and a ghost log of every line handed to
/// the output channel, in emission order.
pub struct Session {
    state: SessionState,
    request: ConnectionRequest,
    store: SnapshotStore,
    log: Ghost<Seq<Seq<char>>>,
}

impl Session {
    /// Where the session stands.
    pub closed spec fn spec_state(&self) -> SessionState {
        self.state
    }

    /// The request the session was started for; it never changes.
    pub closed spec fn spec_request(&self) -> ConnectionRequest {
        self.request
    }

    /// The live snapshot: topic to most recent classified value.
    pub closed spec fn spec_store(&self) -> Map<Seq<char>, ClassifiedValue> {
        self.store@
    }

    /// Every line handed to the output channel so far, in order.
    pub closed spec fn spec_log(&self) -> Seq<Seq<char>> {
        self.log@
    }

    pub open spec fn wf(&self) -> bool {
        self.spec_request().wf()
    }

    /// Begin a session: it starts out `Connecting`, with an empty snapshot
    /// and nothing emitted. The first thing the loop must do is connect
    /// with `connect_settings`.
    pub fn new(request: ConnectionRequest) -> (r: Session)
        requires
            request.wf(),
        ensures
            r.wf(),
            r.spec_state() == SessionState::Connecting,
            r.spec_request() == request,
            r.spec_store() == Map::<Seq<char>, ClassifiedValue>::empty(),
            r.spec_log() == Seq::<Seq<char>>::empty(),
    {
        Session {
            state: SessionState::Connecting,
            request,
            store: SnapshotStore::new(),
            log: Ghost(Seq::empty()),
        }
    }

    /// Where the session stands, for the loop's own dispatch.
    pub fn state(&self) -> (r: SessionState)
        ensures
            r == self.spec_state(),
    {
        self.state
    }

    /// Read access to the live snapshot.
    pub fn snapshot(&self) -> (r: &SnapshotStore)
        ensures
            r@ == self.spec_store(),
    {
        &self.store
    }

    /// Query the live snapshot for the most recent value on `topic`.
    pub fn get<'a>(&'a self, topic: &str) -> (r: Option<&'a ClassifiedValue>)
        ensures
            match r {
                Some(v) => self.spec_store().contains_key(topic@) && *v
                    == self.spec_store()[topic@],
                None => !self.spec_store().contains_key(topic@),
            },
    {
        self.store.get(topic)
    }

    /// The options this session connects with: keep-alive 30 s, session
    /// expiry 3600 s, clean session, the request's credentials if any.
    pub fn connect_settings(&self) -> (r: ConnectSettings)
        ensures
            r.keep_alive_secs == crate::request::KEEP_ALIVE_SECS,
            r.session_expiry_secs == crate::request::SESSION_EXPIRY_SECS,
            r.clean_session == true,
            r.credentials == self.spec_request().credentials,
    {
        self.request.connect_settings()
    }

    /// The broker client could not even be built: report it once and fail.
    /// Fatal for the session, never for the host process.
    pub fn on_client_error(&mut self, error: &str, out: &OutputChannel) -> (r: Action)
        requires
            old(self).spec_state() == SessionState::Connecting,
        ensures
            final(self).spec_state() == SessionState::Failed,
            final(self).spec_request() == old(self).spec_request(),
            final(self).spec_store() == old(self).spec_store(),
            final(self).spec_log() == old(self).spec_log().push(client_error_line(error@)),
            r is Finish,
    {
        let event = client_error_event(error);
        self.log = Ghost(self.log@.push(event@));
        out.send(event);
        self.state = SessionState::Failed;
        Action::Finish
    }

    /// The connect attempt came back. Success moves on to subscribing;
    /// failure is reported once and is fatal for the session, no retry.
    pub fn on_connect_result(&mut self, result: Result<(), String>, out: &OutputChannel) -> (r:
        Action)
        requires
            old(self).spec_state() == SessionState::Connecting,
        ensures
            final(self).spec_request() == old(self).spec_request(),
            final(self).spec_store() == old(self).spec_store(),
            match result {
                Ok(()) => {
                    &&& final(self).spec_state() == SessionState::Subscribing
                    &&& final(self).spec_log() == old(self).spec_log()
                    &&& (r matches Action::Subscribe { topic, qos } && topic@
                        == spec_effective_topic(old(self).spec_request().topic) && qos
                        == QOS_AT_LEAST_ONCE)
                },
                Err(e) => {
                    &&& final(self).spec_state() == SessionState::Failed
                    &&& final(self).spec_log() == old(self).spec_log().push(
                        connect_error_line(e@),
                    )
                    &&& r is Finish
                },
            },
    {
        match result {
            Ok(()) => {
                self.state = SessionState::Subscribing;
                let topic = self.request.effective_topic();
                Action::Subscribe { topic, qos: QOS_AT_LEAST_ONCE }
            },
            Err(e) => {
                let event = connect_error_event(e.as_str());
                self.log = Ghost(self.log@.push(event@));
                out.send(event);
                self.state = SessionState::Failed;
                Action::Finish
            },
        }
    }

    /// The subscribe attempt came back. Success is announced with the
    /// broker URL and the effective topic, and streaming begins; failure
    /// is reported once and is fatal for the session, no retry.
    pub fn on_subscribe_result(&mut self, result: Result<(), String>, out: &OutputChannel) -> (r:
        Action)
        requires
            old(self).spec_state() == SessionState::Subscribing,
        ensures
            final(self).spec_request() == old(self).spec_request(),
            final(self).spec_store() == old(self).spec_store(),
            match result {
                Ok(()) => {
                    &&& final(self).spec_state() == SessionState::Streaming
                    &&& final(self).spec_log() == old(self).spec_log().push(
                        connected_line(
                            old(self).spec_request().url@,
                            spec_effective_topic(old(self).spec_request().topic),
                        ),
                    )
                    &&& r is Await
                },
                Err(e) => {
                    &&& final(self).spec_state() == SessionState::Failed
                    &&& final(self).spec_log() == old(self).spec_log().push(
                        subscribe_error_line(e@),
                    )
                    &&& r is Finish
                },
            },
    {
        match result {
            Ok(()) => {
                let topic = self.request.effective_topic();
                let event = connected_event(self.request.url.as_str(), topic.as_str());
                self.log = Ghost(self.log@.push(event@));
                out.send(event);
                self.state = SessionState::Streaming;
                Action::Await
            },
            Err(e) => {
                let event = subscribe_error_event(e.as_str());
                self.log = Ghost(self.log@.push(event@));
                out.send(event);
                self.state = SessionState::Failed;
                Action::Finish
            },
        }
    }

    /// The once-per-iteration, non-blocking look at the stop signal,
    /// taken before pulling from the stream. Signaled: acknowledge and
    /// wind down. Not signaled: pull the next item. Cancellation is
    /// cooperative: a signal raised while a pull is in flight is only
    /// noticed here, on the next iteration.
    pub fn poll_cancel(&mut self, gate: &CancellationGate, out: &OutputChannel) -> (r: Action)
        requires
            old(self).spec_state() == SessionState::Streaming,
        ensures
            final(self).spec_request() == old(self).spec_request(),
            final(self).spec_store() == old(self).spec_store(),
            if gate@ {
                &&& final(self).spec_state() == SessionState::Draining
                &&& final(self).spec_log() == old(self).spec_log().push(stopped_line())
                &&& r is Finish
            } else {
                &&& final(self).spec_state() == SessionState::Streaming
                &&& final(self).spec_log() == old(self).spec_log()
                &&& r is Await
            },
    {
        if gate.is_signaled() {
            let event = stopped_event();
            self.log = Ghost(self.log@.push(event@));
            out.send(event);
            self.state = SessionState::Draining;
            Action::Finish
        } else {
            Action::Await
        }
    }

    /// Handle what one pull from the stream came back with. A message is
    /// emitted as a formatted line, in arrival order, and its classified
    /// value replaces the snapshot entry for its topic whole — both before
    /// the next pull starts. A gap is reported as a warning and the loop
    /// goes on. An exhausted stream winds the session down without an
    /// event.
    pub fn on_stream_item(&mut self, item: StreamItem, out: &OutputChannel) -> (r: Action)
        requires
            old(self).spec_state() == SessionState::Streaming,
        ensures
            final(self).spec_request() == old(self).spec_request(),
            match item {
                StreamItem::Message { topic, payload } => {
                    &&& final(self).spec_state() == SessionState::Streaming
                    &&& final(self).spec_log() == old(self).spec_log().push(
                        message_line(topic@, lossy_utf8(payload@)),
                    )
                    &&& final(self).spec_store() == old(self).spec_store().insert(
                        topic@,
                        final(self).spec_store()[topic@],
                    )
                    &&& final(self).spec_store()[topic@]@ == spec_classify(payload@)
                    &&& r is Await
                },
                StreamItem::Gap => {
                    &&& final(self).spec_state() == SessionState::Streaming
                    &&& final(self).spec_log() == old(self).spec_log().push(gap_line())
                    &&& final(self).spec_store() == old(self).spec_store()
                    &&& r is Await
                },
                StreamItem::Closed => {
                    &&& final(self).spec_state() == SessionState::Draining
                    &&& final(self).spec_log() == old(self).spec_log()
                    &&& final(self).spec_store() == old(self).spec_store()
                    &&& r is Finish
                },
            },
    {
        match item {
            StreamItem::Message { topic, payload } => {
                let text = utf8_lossy(payload.as_slice());
                let event = message_event(topic.as_str(), text.as_str());
                self.log = Ghost(self.log@.push(event@));
                out.send(event);
                let value = classify(payload.as_slice());
                self.store.set(topic, value);
                Action::Await
            },
            StreamItem::Gap => {
                let event = gap_event();
                self.log = Ghost(self.log@.push(event@));
                out.send(event);
                Action::Await
            },
            StreamItem::Closed => {
                self.state = SessionState::Draining;
                Action::Finish
            },
        }
    }

    /// Release the session: `Draining` becomes `Closed`. No method applies
    /// afterwards, so no further event is possible.
    pub fn close(&mut self)
        requires
            old(self).spec_state() == SessionState::Draining,
        ensures
            final(self).spec_state() == SessionState::Closed,
            final(self).spec_request() == old(self).spec_request(),
            final(self).spec_store() == old(self).spec_store(),
            final(self).spec_log() == old(self).spec_log(),
    {
        self.state = SessionState::Closed;
    }
}

/// Each loop iteration appends its one event to the end of the emitted
/// log: what was already emitted is never reordered or rewritten, so lines
/// leave in strict arrival order of the underlying stream.
pub proof fn lemma_log_append_preserves_prefix(log: Seq<Seq<char>>, line: Seq<char>)
    ensures
        log.push(line).len() == log.len() + 1,
        log.push(line)[log.len() as int] == line,
        forall|i: int| 0 <= i < log.len() ==> log.push(line)[i] == log[i],
{
}

} // verus!
