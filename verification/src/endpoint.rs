use vstd::prelude::*;

verus! {

/// An IP address, v4 or v6, held as plain integers.
#[derive(Clone, Copy, Debug, PartialEq, Eq, Structural)]
pub enum IpAddress {
    /// The four octets of an IPv4 address, in network order.
    V4(u8, u8, u8, u8),
    /// The sixteen octets of an IPv6 address, packed big-endian.
    V6(u128),
}

/// An immutable service endpoint: an address and a port.
#[derive(Clone, Copy, Debug, PartialEq, Eq, Structural)]
pub struct Endpoint {
    /// The resolved address of the instance.
    pub address: IpAddress,
    /// The port the instance listens on.
    pub port: u16,
}

} // verus!
