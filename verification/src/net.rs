use vstd::prelude::*;

verus! {

/// An IP address held as plain numbers, so that address arithmetic in the
/// session logic can be reasoned about; the surrounding code converts to and
/// from the operating system's socket address types.
#[derive(Clone, Copy, Debug, PartialEq, Eq, Structural)]
pub enum HostIp {
    /// The four dotted octets of an IPv4 address.
    V4(u8, u8, u8, u8),
    /// The eight 16-bit segments of an IPv6 address.
    V6(u16, u16, u16, u16, u16, u16, u16, u16),
}

impl HostIp {
    /// Whether the address designates a multicast group: `224.0.0.0/4` for
    /// IPv4, `ff00::/8` for IPv6.
    pub open spec fn spec_is_multicast(self) -> bool {
        match self {
            HostIp::V4(a, _, _, _) => 224 <= a <= 239,
            HostIp::V6(s0, _, _, _, _, _, _, _) => s0 / 256 == 0xff,
        }
    }

    pub fn is_multicast(&self) -> (r: bool)
        ensures
            r == self.spec_is_multicast(),
    {
        match self {
            HostIp::V4(a, _, _, _) => 224 <= *a && *a <= 239,
            HostIp::V6(s0, _, _, _, _, _, _, _) => *s0 / 256 == 0xff,
        }
    }
}

/// A UDP endpoint: an IP address plus a port.
#[derive(Clone, Copy, Debug, PartialEq, Eq, Structural)]
pub struct Endpoint {
    pub ip: HostIp,
    pub port: u16,
}

impl Endpoint {
    pub fn new(ip: HostIp, port: u16) -> (e: Endpoint)
        ensures
            e == (Endpoint { ip, port }),
    {
        Endpoint { ip, port }
    }

    /// The same host reached at another port.
    pub fn with_port(&self, port: u16) -> (e: Endpoint)
        ensures
            e == (Endpoint { ip: self.ip, port }),
    {
        Endpoint { ip: self.ip, port }
    }
}

} // verus!
