//! Socket addresses as plain values.

use vstd::prelude::*;

verus! {

/// An IP address of either family, held as the number that its bytes make
/// in network order.
#[derive(Clone, Copy, Debug, PartialEq, Eq, Hash, Structural)]
pub enum IpAddr {
    V4(u32),
    V6(u128),
}

/// The address of a socket: an IP address and a port.
#[derive(Clone, Copy, Debug, PartialEq, Eq, Hash, Structural)]
pub struct SocketAddr {
    pub ip: IpAddr,
    pub port: u16,
}

/// The number that four bytes make, the first one the most significant.
pub open spec fn ipv4_bits(a: u8, b: u8, c: u8, d: u8) -> int {
    a * 0x100_0000 + b * 0x1_0000 + c * 0x100 + d
}

impl SocketAddr {
    /// The IPv4 address `a.b.c.d` with the given port.
    pub fn v4(a: u8, b: u8, c: u8, d: u8, port: u16) -> (addr: Self)
        ensures
            ipv4_bits(a, b, c, d) <= u32::MAX,
            addr == (SocketAddr { ip: IpAddr::V4(ipv4_bits(a, b, c, d) as u32), port }),
    {
        let ip: u32 = (a as u32) * 0x100_0000 + (b as u32) * 0x1_0000 + (c as u32) * 0x100 + (
        d as u32);
        SocketAddr { ip: IpAddr::V4(ip), port }
    }

    /// The IPv6 address whose sixteen bytes make the number `bits`, with the
    /// given port.
    pub fn v6(bits: u128, port: u16) -> (addr: Self)
        ensures
            addr == (SocketAddr { ip: IpAddr::V6(bits), port }),
    {
        SocketAddr { ip: IpAddr::V6(bits), port }
    }

    /// Whether the address is of the IPv4 family.
    pub fn is_ipv4(&self) -> (yes: bool)
        ensures
            yes == (self.ip is V4),
    {
        match self.ip {
            IpAddr::V4(_) => true,
            IpAddr::V6(_) => false,
        }
    }
}

} // verus!
