//! What a client asks of the engine, and what it makes of the answers.
//!
//! Nothing here talks to the engine. Each operation takes the answer the
//! engine gave, as the plain value it came in, and turns it into a typed
//! result: no status code of the engine gets past this file.

use vstd::prelude::*;

use crate::jack_enums::{outcome_view, JackErr, JackErrView};
use crate::jack_utils::{text, text_of};
use crate::native::already_exists_status;
use crate::port::port_flags::{PortFlags, IS_INPUT, IS_OUTPUT};
use crate::port::{can_link, full_name_len, links, name_fits, Port, PortSpec, Unowned, UnownedPort};
use crate::primitive_types::{JackFrames, JackTime};

verus! {

/// The timing of one cycle, as the engine reports it.
#[derive(Clone, Copy, Debug, PartialEq, Eq, Structural)]
pub struct CycleTimes {
    /// The frame time at which the cycle started.
    pub current_frames: JackFrames,
    /// The time at which the cycle started, in microseconds.
    pub current_usecs: JackTime,
    /// The time at which the next cycle starts, in microseconds.
    pub next_usecs: JackTime,
    /// The length of a cycle in microseconds: the bit pattern of the single
    /// precision number the engine reports.
    pub period_usecs: u32,
}

/// What a handler can learn about the cycle it is called for. A scope is
/// made for one call of the process callback and means nothing after it.
#[derive(Debug)]
pub struct ProcessScope {
    client_ptr: usize,
    n_frames: JackFrames,
}

impl ProcessScope {
    /// The scope of a cycle of `n_frames` frames on the connection at `client_ptr`.
    pub closed spec fn spec_from_raw(n_frames: JackFrames, client_ptr: usize) -> ProcessScope {
        ProcessScope { client_ptr, n_frames }
    }

    /// The number of frames of the cycle, as a value in contracts.
    pub closed spec fn spec_n_frames(&self) -> JackFrames {
        self.n_frames
    }

    /// The address of the native connection, as a value in contracts.
    pub closed spec fn spec_client_ptr(&self) -> usize {
        self.client_ptr
    }

    /// A scope is nothing more than its frame count and its connection.
    pub proof fn lemma_from_raw(n_frames: JackFrames, client_ptr: usize)
        ensures
            Self::spec_from_raw(n_frames, client_ptr).spec_n_frames() == n_frames,
            Self::spec_from_raw(n_frames, client_ptr).spec_client_ptr() == client_ptr,
    {
    }

    /// The number of frames in the current cycle.
    #[inline(always)]
    pub fn n_frames(&self) -> (n_frames: JackFrames)
        ensures
            n_frames == self.spec_n_frames(),
    {
        self.n_frames
    }

    /// The timing of the current cycle, from what the engine answered when
    /// asked for it. `status` is `None` for an engine that cannot be asked
    /// at all. The result is the four values where the engine answered
    /// with zero, and `JackErr::TimeError` in every other case: that the
    /// timing cannot be had is a failure to report, not a fault.
    pub fn cycle_times(
        &self,
        status: Option<i32>,
        current_frames: JackFrames,
        current_usecs: JackTime,
        next_usecs: JackTime,
        period_usecs: u32,
    ) -> (times: Result<CycleTimes, JackErr>)
        ensures
            match times {
                Ok(t) => status == Some(0i32) && t == (CycleTimes {
                    current_frames,
                    current_usecs,
                    next_usecs,
                    period_usecs,
                }),
                Err(e) => status != Some(0i32) && e@ == JackErrView::TimeError,
            },
    {
        match status {
            Some(0) => Ok(CycleTimes { current_frames, current_usecs, next_usecs, period_usecs }),
            _ => Err(JackErr::TimeError),
        }
    }

    /// The address of the native connection.
    #[inline(always)]
    pub fn client_ptr(&self) -> (client_ptr: usize)
        ensures
            client_ptr == self.spec_client_ptr(),
    {
        self.client_ptr
    }

    /// The scope of a cycle of `n_frames` frames on the connection at
    /// `client_ptr`. The frame count of the scope is exactly `n_frames`.
    pub fn from_raw(n_frames: JackFrames, client_ptr: usize) -> (scope: ProcessScope)
        ensures
            scope == Self::spec_from_raw(n_frames, client_ptr),
            scope.spec_n_frames() == n_frames,
            scope.spec_client_ptr() == client_ptr,
    {
        ProcessScope { n_frames, client_ptr }
    }
}

/// A reference to a native connection that does not own it: nothing is
/// closed when it goes away.
#[derive(Debug)]
pub struct WeakClient(usize);

impl WeakClient {
    /// The reference to the connection at `client_ptr`, as a value in contracts.
    pub closed spec fn spec_from_raw(client_ptr: usize) -> WeakClient {
        WeakClient(client_ptr)
    }

    /// The address of the native connection, as a value in contracts.
    pub closed spec fn ptr(&self) -> usize {
        self.0
    }

    /// A reference to the connection at `client_ptr`.
    pub fn from_raw(client_ptr: usize) -> (client: WeakClient)
        ensures
            client == Self::spec_from_raw(client_ptr),
            client.ptr() == client_ptr,
    {
        WeakClient(client_ptr)
    }
}

impl JackClient for WeakClient {
    fn as_ptr(&self) -> (client_ptr: usize)
        ensures
            client_ptr == self.ptr(),
    {
        self.0
    }
}

/// What the engine is asked when ports are listed.
#[derive(Debug)]
pub struct PortsQuery<'a> {
    /// A pattern for the names of the ports; the empty pattern selects all.
    pub port_name_pattern: &'a str,
    /// A pattern for the type names of the ports; the empty pattern selects all.
    pub type_name_pattern: &'a str,
    /// The capabilities a port must have; zero selects all.
    pub flags: u32,
}

impl<'a> View for PortsQuery<'a> {
    type V = (Seq<char>, Seq<char>, u32);

    open spec fn view(&self) -> (Seq<char>, Seq<char>, u32) {
        (self.port_name_pattern@, self.type_name_pattern@, self.flags)
    }
}

/// What the engine is asked when a port is made.
#[derive(Debug)]
pub struct PortRequest<'a> {
    /// The short name of the port.
    pub port_name: &'a str,
    /// The name of the payload format.
    pub port_type: &'a str,
    /// The capabilities of the port, in the engine's encoding.
    pub flags: u32,
    /// The buffer size asked for.
    pub buffer_size: u64,
}

/// The pattern that stands for a selection that may be absent: no
/// selection is the empty pattern.
pub open spec fn pattern_of(pattern: Option<&str>) -> Seq<char> {
    match pattern {
        Some(p) => p@,
        None => Seq::empty(),
    }
}

/// The query for the ports that match two patterns, each of which may be
/// absent, and have the capabilities encoded in `flags`: both patterns and
/// the flags.
pub open spec fn ports_query(
    port_name_pattern: Option<&str>,
    type_name_pattern: Option<&str>,
    flags: u32,
) -> (Seq<char>, Seq<char>, u32) {
    (pattern_of(port_name_pattern), pattern_of(type_name_pattern), flags)
}

/// The result of asking the engine for a link from `source` to
/// `destination`, where `status` is its answer and `exists_status` the
/// answer by which it reports a link that exists already.
pub open spec fn connection_outcome(
    status: i32,
    exists_status: i32,
    source: Seq<char>,
    destination: Seq<char>,
) -> Result<(), JackErrView> {
    if status == 0 {
        Ok(())
    } else if status == exists_status {
        Err(JackErrView::PortAlreadyConnected(source, destination))
    } else {
        Err(JackErrView::PortConnectionError(source, destination))
    }
}

/// The result of asking the engine for a link between two ports of which
/// the specifications are known: ports that cannot be linked, by what they
/// declare, give the general failure whatever the engine answered, and for
/// the others the engine's answer decides.
pub open spec fn link_outcome(
    allowed: bool,
    status: i32,
    exists_status: i32,
    source: Seq<char>,
    destination: Seq<char>,
) -> Result<(), JackErrView> {
    if allowed {
        connection_outcome(status, exists_status, source, destination)
    } else {
        Err(JackErrView::PortConnectionError(source, destination))
    }
}

/// Turns the engine's answer to a request for a link into a result. Zero is
/// success. `exists_status` is the one failure that is told apart: the link
/// exists already. Every other answer is the general failure. Both failures
/// name the two ports.
pub fn connection_result(
    status: i32,
    exists_status: i32,
    source_port: &str,
    destination_port: &str,
) -> (outcome: Result<(), JackErr>)
    ensures
        outcome_view(outcome) == connection_outcome(
            status,
            exists_status,
            source_port@,
            destination_port@,
        ),
{
    if status == 0 {
        Ok(())
    } else if status == exists_status {
        Err(JackErr::PortAlreadyConnected(source_port.to_owned(), destination_port.to_owned()))
    } else {
        Err(JackErr::PortConnectionError(source_port.to_owned(), destination_port.to_owned()))
    }
}

/// A listing without any selection asks the engine the same thing every
/// time: both patterns empty and no flag set. Nothing that was asked
/// before or in between has a part in it.
pub proof fn lemma_unfiltered_query()
    ensures
        ports_query(None, None, 0) == (Seq::<char>::empty(), Seq::<char>::empty(), 0u32),
{
}

/// The engine's answers to a request for a link fall into three classes
/// that never overlap. Zero, and only zero, is success. The one answer that
/// says that the link exists already gives `PortAlreadyConnected` with the
/// names of both ports, and never the general error. Every other answer
/// gives `PortConnectionError` with the names of both ports.
pub proof fn lemma_connection_outcomes(
    status: i32,
    exists_status: i32,
    source: Seq<char>,
    destination: Seq<char>,
)
    ensures
        connection_outcome(status, exists_status, source, destination) is Ok <==> status == 0,
        connection_outcome(status, exists_status, source, destination) == Err::<(), JackErrView>(
            JackErrView::PortAlreadyConnected(source, destination),
        ) <==> status != 0 && status == exists_status,
        connection_outcome(status, exists_status, source, destination) == Err::<(), JackErrView>(
            JackErrView::PortConnectionError(source, destination),
        ) <==> status != 0 && status != exists_status,
{
}

/// Between an output port and an input port of one payload type the
/// engine's answer alone decides: the link is made where it answers zero,
/// and a second request for it, which it answers with `exists_status`, is
/// told apart from every other failure.
pub proof fn lemma_valid_pair_follows_engine(
    source_type: Seq<char>,
    source_flags: u32,
    destination_type: Seq<char>,
    destination_flags: u32,
    status: i32,
    exists_status: i32,
    source: Seq<char>,
    destination: Seq<char>,
)
    requires
        can_link(source_type, source_flags, destination_type, destination_flags),
    ensures
        link_outcome(
            can_link(source_type, source_flags, destination_type, destination_flags),
            status,
            exists_status,
            source,
            destination,
        ) == connection_outcome(status, exists_status, source, destination),
        status == 0 ==> connection_outcome(status, exists_status, source, destination) is Ok,
        status != 0 && status == exists_status ==> connection_outcome(
            status,
            exists_status,
            source,
            destination,
        ) == Err::<(), JackErrView>(JackErrView::PortAlreadyConnected(source, destination)),
{
}

/// Two ports of different payload types are never linked, and neither are
/// two output ports or two input ports: whatever the engine answers, the
/// result is the general connection error with the names of both ports.
pub proof fn lemma_mismatch_never_links(
    source_type: Seq<char>,
    source_flags: u32,
    destination_type: Seq<char>,
    destination_flags: u32,
    status: i32,
    exists_status: i32,
    source: Seq<char>,
    destination: Seq<char>,
)
    requires
        source_type != destination_type || source_flags & IS_OUTPUT != IS_OUTPUT
            || destination_flags & IS_INPUT != IS_INPUT,
    ensures
        link_outcome(
            can_link(source_type, source_flags, destination_type, destination_flags),
            status,
            exists_status,
            source,
            destination,
        ) == Err::<(), JackErrView>(JackErrView::PortConnectionError(source, destination)),
{
}

/// The value by which the engine is told to switch input monitoring on or off.
pub fn monitor_request(enable_monitor: bool) -> (onoff: i32)
    ensures
        onoff == (if enable_monitor { 1i32 } else { 0i32 }),
{
    if enable_monitor {
        1
    } else {
        0
    }
}

/// The port the engine found, if it found one: a null address is no port.
fn found_port(client_ptr: usize, port_ptr: usize) -> (port: Option<UnownedPort>)
    ensures
        port is Some <==> port_ptr != 0,
        port matches Some(p) ==> p.spec_client_ptr() == client_ptr && p.spec_as_ptr() == port_ptr,
{
    if port_ptr == 0 {
        None
    } else {
        Some(Port::from_raw(Unowned {  }, client_ptr, port_ptr))
    }
}

/// What every handle of a native connection can do, the owning one and the
/// weak one alike. A method that stands for a request to the engine takes
/// the engine's answer as its last arguments.
pub trait JackClient: Sized {
    /// The address of the native connection.
    fn as_ptr(&self) -> usize;

    /// The name of the client, from the bytes the engine gave for it;
    /// `None` where they are not text.
    fn name<'a>(&self, name: &'a [u8]) -> (decoded: Option<&'a str>)
        ensures
            (match decoded {
                Some(s) => Some(s@),
                None => None,
            }) == text_of(name@),
    {
        text(name)
    }

    /// The result of a request to change the buffer size: success where
    /// `status` is zero, `JackErr::SetBufferSizeError` otherwise.
    fn set_buffer_size(&self, status: i32) -> (outcome: Result<(), JackErr>)
        ensures
            outcome is Ok <==> status == 0,
            outcome matches Err(e) ==> e@ == JackErrView::SetBufferSizeError,
    {
        if status == 0 {
            Ok(())
        } else {
            Err(JackErr::SetBufferSizeError)
        }
    }

    /// What to ask the engine for a list of ports. A pattern that is absent
    /// becomes the empty pattern, which selects on nothing, and the flags
    /// go in their native encoding. The query depends on the arguments
    /// alone: the same selection is the same query, whenever it is made.
    fn ports<'a>(
        &self,
        port_name_pattern: Option<&'a str>,
        type_name_pattern: Option<&'a str>,
        flags: PortFlags,
    ) -> (query: PortsQuery<'a>)
        ensures
            query@ == ports_query(port_name_pattern, type_name_pattern, flags@),
    {
        proof {
            reveal_strlit("");
        }
        let port_name_pattern: &'a str = match port_name_pattern {
            Some(p) => p,
            None => "",
        };
        let type_name_pattern: &'a str = match type_name_pattern {
            Some(p) => p,
            None => "",
        };
        PortsQuery { port_name_pattern, type_name_pattern, flags: flags.bits() }
    }

    /// What to ask the engine for a port called `port_name` of the kind
    /// `port_spec`, for the client whose name is `client_name`. A port
    /// whose full name would be longer than `max_name_len` bytes is not
    /// asked for: it is refused here, with the error that names it.
    /// Otherwise the request holds what the specification declares.
    fn port_request<'a, PS: PortSpec>(
        &self,
        client_name: &str,
        port_name: &'a str,
        port_spec: &'a PS,
        max_name_len: usize,
    ) -> (request: Result<PortRequest<'a>, JackErr>)
        ensures
            request is Ok <==> full_name_len(client_name, port_name) <= max_name_len,
            request matches Ok(r) ==> r.port_name@ == port_name@ && exists|
                port_type: &str,
                flags: PortFlags,
            |
                {
                    &&& #[trigger] call_ensures(PS::jack_port_type, (port_spec,), port_type)
                    &&& #[trigger] call_ensures(PS::jack_flags, (port_spec,), flags)
                    &&& call_ensures(PS::jack_buffer_size, (port_spec,), r.buffer_size)
                    &&& r.port_type@ == port_type@
                    &&& r.flags == flags@
                },
            request matches Err(e) ==> e@ == JackErrView::PortRegistrationError(port_name@),
    {
        if name_fits(client_name, port_name, max_name_len) {
            let port_type = port_spec.jack_port_type();
            let flags = port_spec.jack_flags();
            let buffer_size = port_spec.jack_buffer_size();
            Ok(PortRequest { port_name, port_type, flags: flags.bits(), buffer_size })
        } else {
            Err(JackErr::PortRegistrationError(port_name.to_owned()))
        }
    }

    /// The result of a request to make a port called `port_name` of the
    /// kind `port_spec`, where `port_ptr` is the address the engine
    /// answered with. A null address is the engine's refusal, for a name
    /// that is too long or taken already: the error names the port. Any
    /// other address is the new port, reached through this client's
    /// connection.
    fn register_port<PS: PortSpec>(&self, port_name: &str, port_spec: PS, port_ptr: usize) -> (port:
        Result<Port<PS>, JackErr>)
        ensures
            match port {
                Ok(p) => {
                    &&& port_ptr != 0
                    &&& p.spec_of() == port_spec
                    &&& call_ensures(Self::as_ptr, (self,), p.spec_client_ptr())
                    &&& p.spec_as_ptr() == port_ptr
                },
                Err(e) => port_ptr == 0 && e@ == JackErrView::PortRegistrationError(port_name@),
            },
    {
        if port_ptr == 0 {
            Err(JackErr::PortRegistrationError(port_name.to_owned()))
        } else {
            Ok(Port::from_raw(port_spec, self.as_ptr(), port_ptr))
        }
    }

    /// The port the engine found for an identifier: `None` where it
    /// answered with the null address.
    fn port_by_id(&self, port_ptr: usize) -> (port: Option<UnownedPort>)
        ensures
            port is Some <==> port_ptr != 0,
            port matches Some(p) ==> call_ensures(Self::as_ptr, (self,), p.spec_client_ptr())
                && p.spec_as_ptr() == port_ptr,
    {
        found_port(self.as_ptr(), port_ptr)
    }

    /// The port the engine found for a name: `None` where it answered with
    /// the null address.
    fn port_by_name(&self, port_ptr: usize) -> (port: Option<UnownedPort>)
        ensures
            port is Some <==> port_ptr != 0,
            port matches Some(p) ==> call_ensures(Self::as_ptr, (self,), p.spec_client_ptr())
                && p.spec_as_ptr() == port_ptr,
    {
        found_port(self.as_ptr(), port_ptr)
    }

    /// Whether a port belongs to this client, from the engine's answer:
    /// one means that it does, every other answer that it does not.
    fn is_mine(&self, answer: i32) -> (mine: bool)
        ensures
            mine == (answer == 1),
    {
        answer == 1
    }

    /// The result of a request to switch input monitoring for a named
    /// port: success where `status` is zero, `JackErr::PortMonitorError`
    /// otherwise.
    fn request_monitor_by_name(&self, status: i32) -> (outcome: Result<(), JackErr>)
        ensures
            outcome is Ok <==> status == 0,
            outcome matches Err(e) ==> e@ == JackErrView::PortMonitorError,
    {
        if status == 0 {
            Ok(())
        } else {
            Err(JackErr::PortMonitorError)
        }
    }

    /// The result of a request to link the port named `source_port` to the
    /// port named `destination_port`, where `status` is the engine's
    /// answer. Zero is success, and nothing else is. One answer means that
    /// the link exists already, and gives `JackErr::PortAlreadyConnected`;
    /// every other one gives `JackErr::PortConnectionError`. Which answer
    /// that one is the platform decides; `connection_result` is this
    /// function with that answer as an argument.
    fn connect_ports_by_name(&self, source_port: &str, destination_port: &str, status: i32) -> (outcome:
        Result<(), JackErr>)
        ensures
            outcome is Ok <==> status == 0,
            exists|exists_status: i32|
                outcome_view(outcome) == #[trigger] connection_outcome(
                    status,
                    exists_status,
                    source_port@,
                    destination_port@,
                ),
    {
        connection_result(status, already_exists_status(), source_port, destination_port)
    }

    /// The result of a request to link `source_port` to
    /// `destination_port`, which go by the names `source_name` and
    /// `destination_name`, where `status` is the engine's answer. Ports
    /// that declare different payload types, a source that gives no data
    /// out and a destination that takes none in are never linked: for
    /// them the result is `JackErr::PortConnectionError`, whatever the
    /// answer was. For the others it is that of `connect_ports_by_name`.
    fn connect_ports<A: PortSpec, B: PortSpec>(
        &self,
        source_port: &Port<A>,
        source_name: &str,
        destination_port: &Port<B>,
        destination_name: &str,
        status: i32,
    ) -> (outcome: Result<(), JackErr>)
        ensures
            exists|
                source_type: &str,
                source_flags: PortFlags,
                destination_type: &str,
                destination_flags: PortFlags,
                exists_status: i32,
            |
                #![trigger
                    call_ensures(A::jack_port_type, (&source_port.spec_of(),), source_type),
                    call_ensures(A::jack_flags, (&source_port.spec_of(),), source_flags),
                    call_ensures(B::jack_port_type, (&destination_port.spec_of(),), destination_type),
                    call_ensures(B::jack_flags, (&destination_port.spec_of(),), destination_flags),
                    connection_outcome(status, exists_status, source_name@, destination_name@)]
                {
                    &&& call_ensures(A::jack_port_type, (&source_port.spec_of(),), source_type)
                    &&& call_ensures(A::jack_flags, (&source_port.spec_of(),), source_flags)
                    &&& call_ensures(
                        B::jack_port_type,
                        (&destination_port.spec_of(),),
                        destination_type,
                    )
                    &&& call_ensures(B::jack_flags, (&destination_port.spec_of(),), destination_flags)
                    &&& outcome_view(outcome) == link_outcome(
                        can_link(
                            source_type@,
                            source_flags@,
                            destination_type@,
                            destination_flags@,
                        ),
                        status,
                        exists_status,
                        source_name@,
                        destination_name@,
                    )
                },
    {
        let source_type = source_port.spec().jack_port_type();
        let source_flags = source_port.spec().jack_flags();
        let destination_type = destination_port.spec().jack_port_type();
        let destination_flags = destination_port.spec().jack_flags();
        let exists_status = already_exists_status();
        if links(source_type, source_flags, destination_type, destination_flags) {
            connection_result(status, exists_status, source_name, destination_name)
        } else {
            proof {
                // The platform's answer for a link that exists plays no part here,
                // but the contract names it.
                let _witness = connection_outcome(
                    status,
                    exists_status,
                    source_name@,
                    destination_name@,
                );
            }
            Err(JackErr::PortConnectionError(source_name.to_owned(), destination_name.to_owned()))
        }
    }

    /// The result of a request to remove the link between two named
    /// ports: success where `status` is zero,
    /// `JackErr::PortDisconnectionError` otherwise.
    fn disconnect_ports_by_name(&self, status: i32) -> (outcome: Result<(), JackErr>)
        ensures
            outcome is Ok <==> status == 0,
            outcome matches Err(e) ==> e@ == JackErrView::PortDisconnectionError,
    {
        if status == 0 {
            Ok(())
        } else {
            Err(JackErr::PortDisconnectionError)
        }
    }
}

} // verus!
