use vstd::prelude::*;

use crate::request::ConnectionRequest;

verus! {

/// A command for the session worker, from the UI layer or from the
/// running loop.
pub enum AsyncHandlerMsg {
    /// Launch a session for this request.
    Start(ConnectionRequest),
    /// Stop the running session, if one is running.
    Stop,
    /// A line the running session produced, to hand on to the display.
    MessageReceived(String),
}

/// What the surrounding runtime must do for a command.
pub enum HandlerAction {
    /// Spawn the session loop for this request on its own execution
    /// context, with a fresh cancellation gate.
    Launch(ConnectionRequest),
    /// Trigger the running session's cancellation gate.
    SignalStop,
    /// Nothing to do: no session was ever started.
    Ignore,
    /// Hand the line on to the display surface.
    Forward(String),
}

/// The session worker: the one place the UI layer sends its commands.
/// It decides what each command means given whether a session has been
/// launched; the surrounding runtime carries the decision out.
pub struct AsyncHandler {
    active: bool,
}

impl AsyncHandler {
    /// Whether a session has been launched (and its gate exists to signal).
    pub closed spec fn spec_active(&self) -> bool {
        self.active
    }

    /// A fresh worker has no session to stop.
    pub fn init() -> (r: Self)
        ensures
            !r.spec_active(),
    {
        AsyncHandler { active: false }
    }

    /// Decide what a command means. `Start` always launches (a new launch
    /// replaces the old session's gate); `Stop` signals only if something
    /// was launched, and is otherwise ignored rather than an error;
    /// received lines are forwarded unchanged.
    pub fn update(&mut self, msg: AsyncHandlerMsg) -> (r: HandlerAction)
        ensures
            match msg {
                AsyncHandlerMsg::Start(request) => {
                    &&& final(self).spec_active()
                    &&& (r matches HandlerAction::Launch(q) && q == request)
                },
                AsyncHandlerMsg::Stop => {
                    &&& final(self).spec_active() == old(self).spec_active()
                    &&& r == if old(self).spec_active() {
                        HandlerAction::SignalStop
                    } else {
                        HandlerAction::Ignore
                    }
                },
                AsyncHandlerMsg::MessageReceived(line) => {
                    &&& final(self).spec_active() == old(self).spec_active()
                    &&& (r matches HandlerAction::Forward(l) && l == line)
                },
            },
    {
        match msg {
            AsyncHandlerMsg::Start(request) => {
                self.active = true;
                HandlerAction::Launch(request)
            },
            AsyncHandlerMsg::Stop => {
                if self.active {
                    HandlerAction::SignalStop
                } else {
                    HandlerAction::Ignore
                }
            },
            AsyncHandlerMsg::MessageReceived(line) => HandlerAction::Forward(line),
        }
    }
}

} // verus!
