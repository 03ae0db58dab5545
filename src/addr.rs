use vstd::prelude::*;

verus! {

/// An IP address held as plain integers.
#[derive(Clone, Copy, Debug, PartialEq, Eq, Structural)]
pub enum IpAddr {
    /// The four octets of an IPv4 address, most significant first.
    V4(u8, u8, u8, u8),
    /// An IPv6 address as one 128-bit number, most significant group first.
    V6(u128),
}

/// A socket address to bind: an IP address and a port.
#[derive(Clone, Copy, Debug, PartialEq, Eq, Structural)]
pub struct SockAddr {
    pub ip: IpAddr,
    pub port: u16,
}

impl SockAddr {
    pub fn new(ip: IpAddr, port: u16) -> (r: SockAddr)
        ensures
            r.ip == ip,
            r.port == port,
    {
        SockAddr { ip, port }
    }
}

} // verus!
