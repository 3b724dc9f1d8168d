//! Transport protocols and port numbers for network probes.

use vstd::prelude::*;

verus! {

/// The transport layer over which a service is probed.
#[derive(Clone, Copy, PartialEq, Eq, Structural, Debug, Hash)]
pub enum Transport {
    Tcp,
    Udp,
}

/// A transport protocol paired with a 16-bit port number.
///
/// The valid port range `[0, 65535]` is enforced by the representation: no
/// wider or negative port can be constructed. A value is immutable once
/// built; the constructors fix both fields for good.
#[derive(Clone, Copy, PartialEq, Eq, Structural, Debug, Hash)]
pub struct PortType {
    transport: Transport,
    port: u16,
}

impl PortType {
    /// The transport this port speaks.
    pub closed spec fn spec_transport(&self) -> Transport {
        self.transport
    }

    /// The numeric port.
    pub closed spec fn spec_port(&self) -> u16 {
        self.port
    }

    /// Builds a TCP port.
    pub fn new_tcp(port: u16) -> (r: PortType)
        ensures
            r.spec_transport() == Transport::Tcp,
            r.spec_port() == port,
    {
        PortType { transport: Transport::Tcp, port }
    }

    /// Builds a UDP port.
    pub fn new_udp(port: u16) -> (r: PortType)
        ensures
            r.spec_transport() == Transport::Udp,
            r.spec_port() == port,
    {
        PortType { transport: Transport::Udp, port }
    }

    /// Reads the transport back.
    pub fn transport(&self) -> (r: Transport)
        ensures
            r == self.spec_transport(),
    {
        self.transport
    }

    /// Reads the numeric port back.
    pub fn port(&self) -> (r: u16)
        ensures
            r == self.spec_port(),
    {
        self.port
    }
}

/// Law: every constructible port value lies in the 16-bit port range
/// `[0, 65535]`, and its transport is exactly one of the enumerated
/// transports. Out-of-range ports are rejected at construction by the
/// representation itself.
pub proof fn lemma_port_in_range(p: PortType)
    ensures
        0 <= p.spec_port() <= 65535,
        p.spec_transport() == Transport::Tcp || p.spec_transport() == Transport::Udp,
{
}

} // verus!
