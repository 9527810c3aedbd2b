//! Multicast membership structures: a join or leave hands the option table
//! a pair of (group, interface selector), the interface selector being an
//! address for IPv4 and an interface index for IPv6.

use vstd::prelude::*;

use crate::addr::{
    spec_to_in6_addr, spec_to_in_addr, to_in6_addr, to_in_addr, In6Addr, InAddr, Ipv4Addr,
    Ipv6Addr,
};

verus! {

/// The native IPv4 membership structure: multicast group and the address of
/// the interface that joins it.
#[derive(Clone, Copy, Debug, PartialEq, Eq, Structural)]
pub struct IpMreq {
    pub imr_multiaddr: InAddr,
    pub imr_interface: InAddr,
}

/// The native IPv6 membership structure: multicast group and the index of
/// the interface that joins it.
#[derive(Clone, Copy, Debug, PartialEq, Eq, Structural)]
pub struct Ipv6Mreq {
    pub ipv6mr_multiaddr: In6Addr,
    pub ipv6mr_interface: u32,
}

/// Builds the native IPv4 membership structure for a (group, interface)
/// pair; the same structure serves join and leave, under different option
/// names.
pub fn ip_mreq(multiaddr: &Ipv4Addr, interface: &Ipv4Addr) -> (r: IpMreq)
    ensures
        r.imr_multiaddr == spec_to_in_addr(*multiaddr),
        r.imr_interface == spec_to_in_addr(*interface),
{
    IpMreq { imr_multiaddr: to_in_addr(multiaddr), imr_interface: to_in_addr(interface) }
}

/// Builds the native IPv6 membership structure for a (group, interface
/// index) pair; the same structure serves join and leave, under different
/// option names.
pub fn ipv6_mreq(multiaddr: &Ipv6Addr, interface: u32) -> (r: Ipv6Mreq)
    ensures
        r.ipv6mr_multiaddr == spec_to_in6_addr(*multiaddr),
        r.ipv6mr_interface == interface,
{
    Ipv6Mreq { ipv6mr_multiaddr: to_in6_addr(multiaddr), ipv6mr_interface: interface }
}

} // verus!
