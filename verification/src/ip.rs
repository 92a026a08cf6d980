//! IP addresses of candidate peers.
//!
//! An address is held as plain integers: the four octets of an IPv4 address,
//! or the eight segments of an IPv6 address, each read big-endian. Its textual
//! form is parsed and printed at the edge of the library, by `std::net`.
use vstd::prelude::*;

verus! {

/// An IPv4 or IPv6 address. Ordered as `std::net::IpAddr` orders addresses:
/// every IPv4 address before every IPv6 address, each family numerically.
#[derive(Copy, Clone, PartialEq, Eq, Structural, Hash, PartialOrd, Ord, Debug)]
pub enum IpAddress {
    V4(u32),
    V6(u128),
}

impl IpAddress {
    /// The IPv4 address `a.b.c.d`.
    pub fn v4(a: u8, b: u8, c: u8, d: u8) -> (ip: IpAddress)
        ensures
            ip == IpAddress::V4(
                ((a as int) * 0x100_0000 + (b as int) * 0x1_0000 + (c as int) * 0x100 + d as int) as u32,
            ),
    {
        IpAddress::V4((a as u32) * 0x100_0000 + (b as u32) * 0x1_0000 + (c as u32) * 0x100 + d as u32)
    }

    /// Whether two addresses are the same address.
    pub fn same_as(&self, other: &IpAddress) -> (r: bool)
        ensures
            r == (*self == *other),
    {
        *self == *other
    }
}

} // verus!
