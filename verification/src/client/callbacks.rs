//! The application's handler, and the conversions between the engine's
//! callbacks and the handler's methods.
//!
//! The engine calls back with plain numbers and byte strings and a context
//! of its own choosing. For each kind of callback this file holds one
//! function that takes the context as the typed `HandlerState` it is,
//! decodes the arguments, calls the one method of the handler that the
//! callback stands for, and encodes the answer. None of them allocates.

use vstd::prelude::*;
use vstd::utf8::{decode_utf8, valid_utf8};

use crate::client::base::{JackClient, ProcessScope, WeakClient};
use crate::client::client_status::{is_status_bits, ClientStatus};
use crate::jack_enums::{JackControl, JackErr, JackErrView, LatencyType};
use crate::jack_utils::{text, text_of};
use crate::native::{capture_latency_mode, playback_latency_mode};
use crate::primitive_types::{JackFrames, JackPortId};

verus! {

/// What an application does when the engine notifies it. Every method has
/// a default that does nothing and lets the engine go on, so that an
/// application writes only the ones it cares about.
///
/// The engine calls `process` from its own real-time thread, never twice at
/// once, and may deliver the other notifications from another thread while
/// `process` runs: a handler shares its state under its own protection.
pub trait JackHandler: Send + Sync {
    /// Called once, in the thread that will run the other callbacks. It
    /// need not be fit for real time.
    fn thread_init(&self, _client: &WeakClient) {
    }

    /// Called when the engine shuts the client down. It runs like a signal
    /// handler: it must not block and must not allocate.
    fn shutdown(&self, _status: ClientStatus, _reason: &str) {
    }

    /// Called once per cycle. It must be fit for real time: no blocking,
    /// no lock that can be held elsewhere, no allocation. A handler that
    /// does not write it lets the engine go on.
    fn process(&self, _client: &WeakClient, _process_scope: &ProcessScope) -> (control: JackControl)
        default_ensures
            control == JackControl::Continue,
    {
        JackControl::Continue
    }

    /// Called when the engine enters or leaves freewheel mode.
    fn freewheel(&self, _client: &WeakClient, _is_freewheel_enabled: bool) {
    }

    /// Called when the size of the buffers handed to `process` is about to
    /// change. A handler that does not write it lets the engine go on.
    fn buffer_size(&self, _client: &WeakClient, _size: JackFrames) -> (control: JackControl)
        default_ensures
            control == JackControl::Continue,
    {
        JackControl::Continue
    }

    /// Called when the sample rate changes. A handler that does not write
    /// it lets the engine go on.
    fn sample_rate(&self, _client: &WeakClient, _srate: JackFrames) -> (control: JackControl)
        default_ensures
            control == JackControl::Continue,
    {
        JackControl::Continue
    }

    /// Called when a client appears or goes away.
    fn client_registration(&self, _client: &WeakClient, _name: &str, _is_registered: bool) {
    }

    /// Called when a port appears or goes away.
    fn port_registration(&self, _client: &WeakClient, _port_id: JackPortId, _is_registered: bool) {
    }

    /// Called when a port gets another name. A handler that does not write
    /// it lets the engine go on.
    fn port_rename(
        &self,
        _client: &WeakClient,
        _port_id: JackPortId,
        _old_name: &str,
        _new_name: &str,
    ) -> (control: JackControl)
        default_ensures
            control == JackControl::Continue,
    {
        JackControl::Continue
    }

    /// Called when two ports are linked or a link between them is removed.
    fn ports_connected(
        &self,
        _client: &WeakClient,
        _port_id_a: JackPortId,
        _port_id_b: JackPortId,
        _are_connected: bool,
    ) {
    }

    /// Called when the order in which the clients run has changed. A
    /// handler that does not write it lets the engine go on.
    fn graph_reorder(&self, _client: &WeakClient) -> (control: JackControl)
        default_ensures
            control == JackControl::Continue,
    {
        JackControl::Continue
    }

    /// Called when a cycle was not finished in time and data was lost. A
    /// handler that does not write it lets the engine go on.
    fn xrun(&self, _client: &WeakClient) -> (control: JackControl)
        default_ensures
            control == JackControl::Continue,
    {
        JackControl::Continue
    }

    /// Called when the delays of the signal paths have to be reported
    /// anew: once for each direction, each time it is needed.
    fn latency(&self, _client: &WeakClient, _mode: LatencyType) {
    }
}

/// A handler made of one function, which is called for every cycle. The
/// function is called through a shared reference, so whatever it changes
/// it changes under its own protection.
pub struct ProcessHandler<F: 'static + Send + Sync + Fn(&WeakClient, &ProcessScope) -> JackControl> {
    process: F,
}

impl<F: 'static + Send + Sync + Fn(&WeakClient, &ProcessScope) -> JackControl> ProcessHandler<F> {
    /// The function can be called for every client and every cycle.
    #[verifier::type_invariant]
    spec fn always_callable(&self) -> bool {
        forall|client: &WeakClient, scope: &ProcessScope|
            call_requires(self.process, (client, scope))
    }

    /// The function, as a value in contracts.
    pub closed spec fn spec_process(&self) -> F {
        self.process
    }

    /// The handler that answers every cycle with `f`.
    pub fn new(f: F) -> (handler: ProcessHandler<F>)
        requires
            forall|client: &WeakClient, scope: &ProcessScope| call_requires(f, (client, scope)),
        ensures
            handler.spec_process() == f,
    {
        ProcessHandler { process: f }
    }
}

impl<F: 'static + Send + Sync + Fn(&WeakClient, &ProcessScope) -> JackControl> JackHandler for ProcessHandler<F> {
    fn process(&self, client: &WeakClient, process_scope: &ProcessScope) -> (control: JackControl)
        ensures
            call_ensures(self.spec_process(), (client, process_scope), control),
    {
        proof {
            use_type_invariant(self);
        }
        (self.process)(client, process_scope)
    }
}

/// What the engine holds a handle to between registration and release: the
/// handler, and a reference to the connection it is registered with. It is
/// made once, when the callbacks are registered, and every callback gets
/// the same one.
pub struct HandlerState<T: JackHandler> {
    /// The application's handler.
    pub handler: T,
    /// The connection the callbacks come from.
    pub client: WeakClient,
}

impl<T: JackHandler> HandlerState<T> {
    /// The state for `handler` on the connection at `client_ptr`.
    pub fn new(handler: T, client_ptr: usize) -> (state: HandlerState<T>)
        ensures
            state.handler == handler,
            state.client == WeakClient::spec_from_raw(client_ptr),
            state.client.ptr() == client_ptr,
    {
        HandlerState { handler, client: WeakClient::from_raw(client_ptr) }
    }
}

/// Why a notification did not reach the handler.
#[derive(Clone, Copy, Debug, PartialEq, Eq, Structural)]
pub enum Undelivered {
    /// A name that came with it is not text.
    NotText,
    /// It asks for a latency direction that does not exist.
    UnknownLatencyMode,
}

/// The kinds of callback the engine knows.
#[derive(Clone, Copy, Debug, PartialEq, Eq, Hash, Structural)]
pub enum CallbackKind {
    ThreadInit,
    Shutdown,
    Process,
    Freewheel,
    BufferSize,
    SampleRate,
    ClientRegistration,
    PortRegistration,
    PortRename,
    PortConnect,
    GraphOrder,
    Xrun,
    Latency,
}

/// The text handed to `shutdown` where the engine's reason cannot be read.
pub const UNREADABLE_REASON: &'static str = "Failed to interpret error.";

/// The truth value of one of the engine's integers: zero is false, every
/// other number true.
pub open spec fn flag_of(value: i32) -> bool {
    value != 0
}

/// The bits of the status handed to `shutdown` for the engine's `code`: the
/// code itself where every bit of it has a meaning, and no bit otherwise.
pub open spec fn shutdown_bits(code: u32) -> u32 {
    if is_status_bits(code) {
        code
    } else {
        0
    }
}

/// The reason handed to `shutdown` for the bytes the engine gave: their
/// text where they are text, and `UNREADABLE_REASON` otherwise.
pub open spec fn shutdown_reason(reason: Seq<u8>) -> Seq<char> {
    match text_of(reason) {
        Some(t) => t,
        None => UNREADABLE_REASON@,
    }
}

/// The latency direction that the engine's `mode` stands for.
pub open spec fn latency_type_of(mode: u32) -> Option<LatencyType> {
    if mode == 0 {
        Some(LatencyType::Capture)
    } else if mode == 1 {
        Some(LatencyType::Playback)
    } else {
        None
    }
}

/// The callbacks that `register_callbacks` speaks of, in the order in which
/// they are installed: all the engine knows but the one for a renamed
/// port, which not every engine offers.
pub open spec fn wired() -> Seq<CallbackKind> {
    seq![
        CallbackKind::ThreadInit,
        CallbackKind::Shutdown,
        CallbackKind::Process,
        CallbackKind::Freewheel,
        CallbackKind::BufferSize,
        CallbackKind::SampleRate,
        CallbackKind::ClientRegistration,
        CallbackKind::PortRegistration,
        CallbackKind::PortConnect,
        CallbackKind::GraphOrder,
        CallbackKind::Xrun,
        CallbackKind::Latency,
    ]
}

/// Every kind of callback but the one for a renamed port is installed, and
/// each of them once.
pub proof fn lemma_wired_once(kind: CallbackKind)
    ensures
        wired().contains(kind) <==> kind != CallbackKind::PortRename,
        wired().no_duplicates(),
{
}

/// Whether every answer in `statuses` is the engine's zero for success.
pub open spec fn all_accepted(statuses: Seq<i32>) -> bool {
    forall|i: int| 0 <= i < statuses.len() ==> statuses[i] == 0
}

/// Decodes one of the engine's truth values.
pub fn flag(value: i32) -> (set: bool)
    ensures
        set == flag_of(value),
{
    value != 0
}

/// Decodes the status code that comes with a shutdown. A code with a bit
/// that has no meaning is read as the empty status: a shutdown is
/// delivered whatever it says.
pub fn shutdown_status(code: u32) -> (status: ClientStatus)
    ensures
        status@ == shutdown_bits(code),
        status.wf(),
{
    match ClientStatus::from_bits(code) {
        Some(status) => status,
        None => ClientStatus::empty(),
    }
}

/// Decodes the reason that comes with a shutdown, given as the bytes of
/// the native string. Bytes that are not text give `UNREADABLE_REASON`.
pub fn shutdown_text<'a>(reason: &'a [u8]) -> (decoded: &'a str)
    ensures
        decoded@ == shutdown_reason(reason@),
{
    match text(reason) {
        Some(t) => t,
        None => UNREADABLE_REASON,
    }
}

/// Decodes the engine's latency mode; `None` for a number that is none.
pub fn latency_type(mode: u32) -> (decoded: Option<LatencyType>)
    ensures
        decoded == latency_type_of(mode),
{
    if mode == capture_latency_mode() {
        Some(LatencyType::Capture)
    } else if mode == playback_latency_mode() {
        Some(LatencyType::Playback)
    } else {
        None
    }
}

/// The thread-init callback.
pub fn thread_init_callback<T: JackHandler>(state: &HandlerState<T>)
    ensures
        call_ensures(T::thread_init, (&state.handler, &state.client), ()),
{
    state.handler.thread_init(&state.client)
}

/// The shutdown callback. The handler gets the status that `code` encodes
/// and the reason that the bytes spell; what cannot be decoded is replaced
/// as `shutdown_bits` and `shutdown_reason` say, because a shutdown cannot
/// fail.
pub fn shutdown<T: JackHandler>(state: &HandlerState<T>, code: u32, reason: &[u8])
    ensures
        exists|status: ClientStatus, decoded: &str|
            status@ == shutdown_bits(code) && decoded@ == shutdown_reason(reason@)
                && #[trigger] call_ensures(T::shutdown, (&state.handler, status, decoded), ()),
{
    let status = shutdown_status(code);
    let decoded = shutdown_text(reason);
    state.handler.shutdown(status, decoded)
}

/// The process callback. The handler gets a scope made for this call,
/// whose frame count is exactly `n_frames`; the engine gets zero where the
/// handler wants to go on, and a non-zero code where it wants to stop.
pub fn process<T: JackHandler>(state: &HandlerState<T>, n_frames: JackFrames) -> (code: i32)
    ensures
        exists|scope: &ProcessScope, control: JackControl|
            {
                &&& scope.spec_n_frames() == n_frames
                &&& scope.spec_client_ptr() == state.client.ptr()
                &&& #[trigger] call_ensures(
                    T::process,
                    (&state.handler, &state.client, scope),
                    control,
                )
                &&& code == control.spec_to_ffi()
            },
{
    let scope = ProcessScope::from_raw(n_frames, state.client.as_ptr());
    state.handler.process(&state.client, &scope).to_ffi()
}

/// The freewheel callback: the handler learns whether the mode starts.
pub fn freewheel<T: JackHandler>(state: &HandlerState<T>, starting: i32)
    ensures
        call_ensures(T::freewheel, (&state.handler, &state.client, flag_of(starting)), ()),
{
    state.handler.freewheel(&state.client, flag(starting))
}

/// The buffer-size callback.
pub fn buffer_size<T: JackHandler>(state: &HandlerState<T>, n_frames: JackFrames) -> (code: i32)
    ensures
        exists|control: JackControl|
            #[trigger] call_ensures(
                T::buffer_size,
                (&state.handler, &state.client, n_frames),
                control,
            ) && code == control.spec_to_ffi(),
{
    state.handler.buffer_size(&state.client, n_frames).to_ffi()
}

/// The sample-rate callback.
pub fn sample_rate<T: JackHandler>(state: &HandlerState<T>, n_frames: JackFrames) -> (code: i32)
    ensures
        exists|control: JackControl|
            #[trigger] call_ensures(
                T::sample_rate,
                (&state.handler, &state.client, n_frames),
                control,
            ) && code == control.spec_to_ffi(),
{
    state.handler.sample_rate(&state.client, n_frames).to_ffi()
}

/// The client-registration callback. The name comes as the bytes of the
/// native string. Where they are text the handler gets it, with the truth
/// value of `register`; where they are not, the handler is not called.
pub fn client_registration<T: JackHandler>(
    state: &HandlerState<T>,
    name: &[u8],
    register: i32,
) -> (delivered: Result<(), Undelivered>)
    ensures
        delivered is Ok <==> valid_utf8(name@),
        delivered is Ok ==> exists|decoded: &str|
            decoded@ == decode_utf8(name@) && #[trigger] call_ensures(
                T::client_registration,
                (&state.handler, &state.client, decoded, flag_of(register)),
                (),
            ),
        delivered matches Err(e) ==> e == Undelivered::NotText,
{
    match text(name) {
        Some(decoded) => {
            state.handler.client_registration(&state.client, decoded, flag(register));
            Ok(())
        },
        None => Err(Undelivered::NotText),
    }
}

/// The port-registration callback.
pub fn port_registration<T: JackHandler>(
    state: &HandlerState<T>,
    port_id: JackPortId,
    register: i32,
)
    ensures
        call_ensures(
            T::port_registration,
            (&state.handler, &state.client, port_id, flag_of(register)),
            (),
        ),
{
    state.handler.port_registration(&state.client, port_id, flag(register))
}

/// The port-rename callback. Both names come as the bytes of native
/// strings. Where both are text the handler gets them and the engine gets
/// the code of the handler's answer; where one is not, the handler is not
/// called.
pub fn port_rename<T: JackHandler>(
    state: &HandlerState<T>,
    port_id: JackPortId,
    old_name: &[u8],
    new_name: &[u8],
) -> (code: Result<i32, Undelivered>)
    ensures
        code is Ok <==> valid_utf8(old_name@) && valid_utf8(new_name@),
        code matches Ok(c) ==> exists|old_text: &str, new_text: &str, control: JackControl|
            {
                &&& old_text@ == decode_utf8(old_name@)
                &&& new_text@ == decode_utf8(new_name@)
                &&& #[trigger] call_ensures(
                    T::port_rename,
                    (&state.handler, &state.client, port_id, old_text, new_text),
                    control,
                )
                &&& c == control.spec_to_ffi()
            },
        code matches Err(e) ==> e == Undelivered::NotText,
{
    match text(old_name) {
        Some(old_text) => match text(new_name) {
            Some(new_text) => {
                let control = state.handler.port_rename(&state.client, port_id, old_text, new_text);
                Ok(control.to_ffi())
            },
            None => Err(Undelivered::NotText),
        },
        None => Err(Undelivered::NotText),
    }
}

/// The port-connect callback.
pub fn port_connect<T: JackHandler>(
    state: &HandlerState<T>,
    port_id_a: JackPortId,
    port_id_b: JackPortId,
    connect: i32,
)
    ensures
        call_ensures(
            T::ports_connected,
            (&state.handler, &state.client, port_id_a, port_id_b, flag_of(connect)),
            (),
        ),
{
    state.handler.ports_connected(&state.client, port_id_a, port_id_b, flag(connect))
}

/// The graph-order callback.
pub fn graph_order<T: JackHandler>(state: &HandlerState<T>) -> (code: i32)
    ensures
        exists|control: JackControl|
            #[trigger] call_ensures(T::graph_reorder, (&state.handler, &state.client), control)
                && code == control.spec_to_ffi(),
{
    state.handler.graph_reorder(&state.client).to_ffi()
}

/// The xrun callback.
pub fn xrun<T: JackHandler>(state: &HandlerState<T>) -> (code: i32)
    ensures
        exists|control: JackControl|
            #[trigger] call_ensures(T::xrun, (&state.handler, &state.client), control) && code
                == control.spec_to_ffi(),
{
    state.handler.xrun(&state.client).to_ffi()
}

/// The latency callback. The handler gets the direction that `mode` stands
/// for; for a number that stands for none it is not called.
pub fn latency<T: JackHandler>(state: &HandlerState<T>, mode: u32) -> (delivered: Result<
    (),
    Undelivered,
>)
    ensures
        delivered is Ok <==> latency_type_of(mode) is Some,
        delivered is Ok ==> call_ensures(
            T::latency,
            (&state.handler, &state.client, latency_type_of(mode)->Some_0),
            (),
        ),
        delivered matches Err(e) ==> e == Undelivered::UnknownLatencyMode,
{
    match latency_type(mode) {
        Some(direction) => {
            state.handler.latency(&state.client, direction);
            Ok(())
        },
        None => Err(Undelivered::UnknownLatencyMode),
    }
}

/// Whether the engine accepted every request it answered with `statuses`.
fn accepted(statuses: &[i32]) -> (all: bool)
    ensures
        all == all_accepted(statuses@),
{
    let mut i: usize = 0;
    while i < statuses.len()
        invariant
            i <= statuses.len(),
            forall|j: int| 0 <= j < i ==> statuses@[j] == 0,
        decreases statuses.len() - i,
    {
        if statuses[i] != 0 {
            return false;
        }
        i += 1;
    }
    true
}

/// The callbacks to install, in order: `wired()`.
pub fn wired_callbacks() -> (kinds: Vec<CallbackKind>)
    ensures
        kinds@ == wired(),
{
    let mut kinds: Vec<CallbackKind> = Vec::new();
    kinds.push(CallbackKind::ThreadInit);
    kinds.push(CallbackKind::Shutdown);
    kinds.push(CallbackKind::Process);
    kinds.push(CallbackKind::Freewheel);
    kinds.push(CallbackKind::BufferSize);
    kinds.push(CallbackKind::SampleRate);
    kinds.push(CallbackKind::ClientRegistration);
    kinds.push(CallbackKind::PortRegistration);
    kinds.push(CallbackKind::PortConnect);
    kinds.push(CallbackKind::GraphOrder);
    kinds.push(CallbackKind::Xrun);
    kinds.push(CallbackKind::Latency);
    assert(kinds@ =~= wired());
    kinds
}

/// The result of taking the callbacks of a connection away, where
/// `statuses` holds the engine's answers to the removals, one for each
/// that has an answer: success where all are zero,
/// `JackErr::CallbackDeregistrationError` where one is not.
/// Whoever holds the `HandlerState` may release it only when no callback
/// can still be running.
pub fn clear_callbacks(statuses: &[i32]) -> (outcome: Result<(), JackErr>)
    ensures
        outcome is Ok <==> all_accepted(statuses@),
        outcome matches Err(e) ==> e@ == JackErrView::CallbackDeregistrationError,
{
    if accepted(statuses) {
        Ok(())
    } else {
        Err(JackErr::CallbackDeregistrationError)
    }
}

/// The result of installing the callbacks of `wired_callbacks` on a
/// connection, where `statuses` holds the engine's answers to the
/// installations, one for each that has an answer: success where all are
/// zero, `JackErr::CallbackRegistrationError` where one is not.
pub fn register_callbacks(statuses: &[i32]) -> (outcome: Result<(), JackErr>)
    ensures
        outcome is Ok <==> all_accepted(statuses@),
        outcome matches Err(e) ==> e@ == JackErrView::CallbackRegistrationError,
{
    if accepted(statuses) {
        Ok(())
    } else {
        Err(JackErr::CallbackRegistrationError)
    }
}

} // verus!
