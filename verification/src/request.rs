use vstd::prelude::*;

use vstd::string::StringExecFns;

verus! {

/// The number of seconds of broker keep-alive the session asks for.
pub const KEEP_ALIVE_SECS: u64 = 30;

/// The session-expiry-interval property, in seconds, the session asks for.
pub const SESSION_EXPIRY_SECS: u64 = 3600;

/// A username/password pair. Well-formed only with both parts non-empty;
/// partial credentials are treated as absent at construction.
pub struct ProvidedCredentials {
    pub username: String,
    pub password: String,
}

impl ProvidedCredentials {
    pub open spec fn wf(&self) -> bool {
        self.username@.len() > 0 && self.password@.len() > 0
    }
}

impl Clone for ProvidedCredentials {
    fn clone(&self) -> (r: Self)
        ensures
            r == *self,
    {
        ProvidedCredentials { username: self.username.clone(), password: self.password.clone() }
    }
}

/// What one connection attempt is made from: the broker URL, an optional
/// subscription filter (absent means all topics), and optional credentials.
/// Immutable once built.
pub struct ConnectionRequest {
    pub url: String,
    pub topic: Option<String>,
    pub credentials: Option<ProvidedCredentials>,
}

/// The subscription filter a request leads to: its own topic if present,
/// else the all-topics wildcard.
pub open spec fn spec_effective_topic(topic: Option<String>) -> Seq<char> {
    match topic {
        Some(t) => t@,
        None => ("#")@,
    }
}

impl ConnectionRequest {
    pub open spec fn wf(&self) -> bool {
        &&& self.url@.len() > 0
        &&& (self.credentials matches Some(c) ==> c.wf())
    }

    /// Build a request. Credentials with an empty username or an empty
    /// password are treated as absent.
    pub fn new(url: String, topic: Option<String>, username: String, password: String) -> (r:
        Self)
        requires
            url@.len() > 0,
        ensures
            r.url == url,
            r.topic == topic,
            r.credentials == if username@.len() > 0 && password@.len() > 0 {
                Some(ProvidedCredentials { username, password })
            } else {
                None::<ProvidedCredentials>
            },
            r.wf(),
    {
        let credentials = if !username.as_str().is_empty() && !password.as_str().is_empty() {
            Some(ProvidedCredentials { username, password })
        } else {
            None
        };
        ConnectionRequest { url, topic, credentials }
    }

    /// The filter actually subscribed to.
    pub fn effective_topic(&self) -> (r: String)
        ensures
            r@ == spec_effective_topic(self.topic),
    {
        match &self.topic {
            Some(t) => t.clone(),
            None => String::from_str("#"),
        }
    }
}

/// The connection options the session applies, as plain values: keep-alive
/// interval, session-expiry-interval property, clean session, and the
/// request's credentials if any.
pub struct ConnectSettings {
    pub keep_alive_secs: u64,
    pub session_expiry_secs: u64,
    pub clean_session: bool,
    pub credentials: Option<ProvidedCredentials>,
}

impl ConnectionRequest {
    /// The options every connection attempt is made with: keep-alive 30 s,
    /// session expiry 3600 s, clean session, credentials passed through.
    pub fn connect_settings(&self) -> (r: ConnectSettings)
        ensures
            r.keep_alive_secs == KEEP_ALIVE_SECS,
            r.session_expiry_secs == SESSION_EXPIRY_SECS,
            r.clean_session == true,
            r.credentials == self.credentials,
    {
        let credentials = match &self.credentials {
            Some(c) => Some(c.clone()),
            None => None,
        };
        ConnectSettings {
            keep_alive_secs: KEEP_ALIVE_SECS,
            session_expiry_secs: SESSION_EXPIRY_SECS,
            clean_session: true,
            credentials,
        }
    }
}

} // verus!
