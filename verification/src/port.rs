//! Ports: the named, typed endpoints of a client.

pub mod port_flags;

use vstd::prelude::*;
use vstd::string::StringSliceAdditionalSpecFns;

use crate::jack_utils::same_text;
use crate::port::port_flags::{IS_INPUT, IS_OUTPUT};

pub use port_flags::PortFlags;

verus! {

/// The length in bytes of the full name of a port, which is the name of its
/// client, a colon, and the port's own short name.
pub open spec fn full_name_len(client_name: &str, port_name: &str) -> nat {
    client_name.spec_bytes().len() + 1 + port_name.spec_bytes().len()
}

/// Whether the engine links a port of type `source_type` and capabilities
/// `source_flags` to one of `destination_type` and `destination_flags`, as
/// far as the ports themselves decide it: the types are the same, the
/// source gives data out and the destination takes data in.
pub open spec fn can_link(
    source_type: Seq<char>,
    source_flags: u32,
    destination_type: Seq<char>,
    destination_flags: u32,
) -> bool {
    &&& source_type == destination_type
    &&& source_flags & IS_OUTPUT == IS_OUTPUT
    &&& destination_flags & IS_INPUT == IS_INPUT
}

/// The longest full name an engine admits, in bytes, where its names take
/// up to `name_size` bytes with the terminator that ends them.
pub open spec fn max_name_len_of(name_size: i32) -> nat {
    if name_size > 0 {
        (name_size - 1) as nat
    } else {
        0
    }
}

/// Computes `max_name_len_of`.
pub fn max_name_len(name_size: i32) -> (max: usize)
    ensures
        max == max_name_len_of(name_size),
{
    if name_size > 0 {
        (name_size - 1) as usize
    } else {
        0
    }
}

/// Whether the full name of the port `port_name` of the client
/// `client_name` is at most `max_len` bytes long.
pub fn name_fits(client_name: &str, port_name: &str, max_len: usize) -> (fits: bool)
    ensures
        fits == (full_name_len(client_name, port_name) <= max_len),
{
    let client_len: usize = client_name.as_bytes().len();
    let port_len: usize = port_name.as_bytes().len();
    client_len < max_len && port_len <= max_len - client_len - 1
}

/// Decides `can_link` for two sets of declarations.
pub fn links(
    source_type: &str,
    source_flags: PortFlags,
    destination_type: &str,
    destination_flags: PortFlags,
) -> (allowed: bool)
    ensures
        allowed == can_link(source_type@, source_flags@, destination_type@, destination_flags@),
{
    same_text(source_type, destination_type) && source_flags.bits() & IS_OUTPUT == IS_OUTPUT
        && destination_flags.bits() & IS_INPUT == IS_INPUT
}

/// What a kind of port declares of itself: the name of its payload format,
/// its capabilities, and the buffer size it asks for.
pub trait PortSpec: Sized {
    /// The name by which the engine knows the payload format.
    fn jack_port_type(&self) -> &str;

    /// The capabilities of the port, its direction among them.
    fn jack_flags(&self) -> PortFlags;

    /// The buffer size to ask for; the engine ignores it for its built-in formats.
    fn jack_buffer_size(&self) -> u64;
}

/// The specification of a port of which only the identity is known, such as
/// a port of another client. It declares nothing, so no port can be made of it.
#[derive(Clone, Copy, Debug, PartialEq, Eq, Structural)]
pub struct Unowned {}

/// A port that was looked up, not made.
pub type UnownedPort = Port<Unowned>;

/// One port of the engine. It holds its specification, the address of the
/// native connection it was reached through, and the address of the native port.
#[derive(Debug)]
pub struct Port<PS> {
    spec: PS,
    client_ptr: usize,
    port_ptr: usize,
}

impl<PS> Port<PS> {
    /// The specification, as a value in contracts.
    pub closed spec fn spec_of(&self) -> PS {
        self.spec
    }

    /// The address of the native connection, as a value in contracts.
    pub closed spec fn spec_client_ptr(&self) -> usize {
        self.client_ptr
    }

    /// The address of the native port, as a value in contracts.
    pub closed spec fn spec_as_ptr(&self) -> usize {
        self.port_ptr
    }

    /// The port at `port_ptr`, reached through the connection at `client_ptr`.
    pub fn from_raw(spec: PS, client_ptr: usize, port_ptr: usize) -> (port: Port<PS>)
        ensures
            port.spec_of() == spec,
            port.spec_client_ptr() == client_ptr,
            port.spec_as_ptr() == port_ptr,
    {
        Port { spec, client_ptr, port_ptr }
    }

    /// The specification the port was made or found with.
    pub fn spec(&self) -> (spec: &PS)
        ensures
            *spec == self.spec_of(),
    {
        &self.spec
    }

    /// The address of the native connection.
    pub fn client_ptr(&self) -> (client_ptr: usize)
        ensures
            client_ptr == self.spec_client_ptr(),
    {
        self.client_ptr
    }

    /// The address of the native port.
    pub fn as_ptr(&self) -> (port_ptr: usize)
        ensures
            port_ptr == self.spec_as_ptr(),
    {
        self.port_ptr
    }
}

} // verus!
