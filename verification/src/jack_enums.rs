//! Result and control values exchanged between the bridge and the application.

use vstd::prelude::*;

verus! {

/// Every way in which an operation on the engine can fail.
#[derive(Clone, Debug, PartialEq, Eq)]
pub enum JackErr {
    /// The engine refused to install a callback.
    CallbackRegistrationError,
    /// The engine refused to remove a callback.
    CallbackDeregistrationError,
    /// The two named ports are linked already.
    PortAlreadyConnected(String, String),
    /// The two named ports could not be linked.
    PortConnectionError(String, String),
    /// The link between two ports could not be removed.
    PortDisconnectionError,
    /// Input monitoring could not be switched.
    PortMonitorError,
    /// No port of the given name could be created.
    PortRegistrationError(String),
    /// The buffer size could not be changed.
    SetBufferSizeError,
    /// The engine has no timing information for the current cycle.
    TimeError,
}

/// The mathematical content of a `JackErr`: names are sequences of characters.
pub enum JackErrView {
    CallbackRegistrationError,
    CallbackDeregistrationError,
    PortAlreadyConnected(Seq<char>, Seq<char>),
    PortConnectionError(Seq<char>, Seq<char>),
    PortDisconnectionError,
    PortMonitorError,
    PortRegistrationError(Seq<char>),
    SetBufferSizeError,
    TimeError,
}

impl View for JackErr {
    type V = JackErrView;

    open spec fn view(&self) -> JackErrView {
        match self {
            JackErr::CallbackRegistrationError => JackErrView::CallbackRegistrationError,
            JackErr::CallbackDeregistrationError => JackErrView::CallbackDeregistrationError,
            JackErr::PortAlreadyConnected(a, b) => JackErrView::PortAlreadyConnected(a@, b@),
            JackErr::PortConnectionError(a, b) => JackErrView::PortConnectionError(a@, b@),
            JackErr::PortDisconnectionError => JackErrView::PortDisconnectionError,
            JackErr::PortMonitorError => JackErrView::PortMonitorError,
            JackErr::PortRegistrationError(name) => JackErrView::PortRegistrationError(name@),
            JackErr::SetBufferSizeError => JackErrView::SetBufferSizeError,
            JackErr::TimeError => JackErrView::TimeError,
        }
    }
}

/// The mathematical content of the result of an operation that hands nothing back.
pub open spec fn outcome_view(outcome: Result<(), JackErr>) -> Result<(), JackErrView> {
    match outcome {
        Ok(()) => Ok(()),
        Err(e) => Err(e@),
    }
}

/// What a handler tells the engine after a notification that it may veto.
#[derive(Clone, Copy, Debug, PartialEq, Eq, Hash, Structural)]
pub enum JackControl {
    /// Keep calling.
    Continue,
    /// Stop calling this client.
    Quit,
}

impl JackControl {
    /// The status code that stands for this answer on the engine's side:
    /// zero to go on, a non-zero code to stop.
    pub open spec fn spec_to_ffi(self) -> i32 {
        match self {
            JackControl::Continue => 0i32,
            JackControl::Quit => -1i32,
        }
    }

    #[verifier::when_used_as_spec(spec_to_ffi)]
    pub fn to_ffi(self) -> (code: i32)
        ensures
            code == self.spec_to_ffi(),
            (code == 0) <==> (self == JackControl::Continue),
    {
        match self {
            JackControl::Continue => 0,
            JackControl::Quit => -1,
        }
    }

    /// The engine goes on exactly where the handler said so: the code is
    /// zero for `Continue` and for nothing else, and two answers with the
    /// same code are the same answer.
    pub proof fn lemma_codes_tell_answers_apart(a: JackControl, b: JackControl)
        ensures
            a.spec_to_ffi() == 0 <==> a == JackControl::Continue,
            a.spec_to_ffi() != 0 <==> a == JackControl::Quit,
            a.spec_to_ffi() == b.spec_to_ffi() ==> a == b,
    {
    }
}

/// The direction of the signal path whose delay is to be reported.
#[derive(Clone, Copy, Debug, PartialEq, Eq, Hash, Structural)]
pub enum LatencyType {
    /// From a physical input to the port.
    Capture,
    /// From the port to a physical output.
    Playback,
}

} // verus!
