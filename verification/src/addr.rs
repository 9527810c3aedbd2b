//! Address codec: lossless, reversible conversion between host address
//! values and the native address-field layout.
//!
//! The native IPv4 address field is one 32-bit word that always holds the
//! four octets in network order; on the (little-endian) host this means the
//! first octet sits in the low byte. The native IPv6 address field is a run
//! of sixteen bytes, which the host also exposes as eight 16-bit words, each
//! word holding two network-order bytes. Both conversions are stated and
//! proved to be exact inverses of each other.

use vstd::prelude::*;
use vstd::arithmetic::div_mod::{
    lemma_fundamental_div_mod_converse_div, lemma_fundamental_div_mod_converse_mod,
};

verus! {

/// An IPv4 host address: four octets, first octet textually first
/// (`Ipv4Addr::new(127, 0, 0, 1)` is 127.0.0.1).
#[derive(Clone, Copy, Debug, PartialEq, Eq, Hash, Structural)]
pub struct Ipv4Addr {
    pub o0: u8,
    pub o1: u8,
    pub o2: u8,
    pub o3: u8,
}

impl Ipv4Addr {
    pub fn new(o0: u8, o1: u8, o2: u8, o3: u8) -> (r: Ipv4Addr)
        ensures
            r == (Ipv4Addr { o0, o1, o2, o3 }),
    {
        Ipv4Addr { o0, o1, o2, o3 }
    }
}

/// An IPv6 host address: eight 16-bit segments, highest-order segment first
/// (`Ipv6Addr::new(0x2000, 1, 2, 3, 4, 5, 6, 7)` is 2000:1:2:3:4:5:6:7).
#[derive(Clone, Copy, Debug, PartialEq, Eq, Hash, Structural)]
pub struct Ipv6Addr {
    pub s0: u16,
    pub s1: u16,
    pub s2: u16,
    pub s3: u16,
    pub s4: u16,
    pub s5: u16,
    pub s6: u16,
    pub s7: u16,
}

impl Ipv6Addr {
    pub fn new(
        s0: u16,
        s1: u16,
        s2: u16,
        s3: u16,
        s4: u16,
        s5: u16,
        s6: u16,
        s7: u16,
    ) -> (r: Ipv6Addr)
        ensures
            r == (Ipv6Addr { s0, s1, s2, s3, s4, s5, s6, s7 }),
    {
        Ipv6Addr { s0, s1, s2, s3, s4, s5, s6, s7 }
    }
}

/// The native IPv4 address field: one 32-bit word holding the four octets
/// in network order (low byte first on the little-endian host).
#[derive(Clone, Copy, Debug, PartialEq, Eq, Structural)]
pub struct InAddr {
    pub s_addr: u32,
}

/// The native IPv6 address field, seen as the host exposes it: eight 16-bit
/// words, each holding two consecutive network-order bytes (the earlier byte
/// in the low half).
#[derive(Clone, Copy, Debug, PartialEq, Eq, Structural)]
pub struct In6Addr {
    pub w0: u16,
    pub w1: u16,
    pub w2: u16,
    pub w3: u16,
    pub w4: u16,
    pub w5: u16,
    pub w6: u16,
    pub w7: u16,
}

/// The native word for the four octets: first octet in the low byte.
pub open spec fn spec_to_in_addr(addr: Ipv4Addr) -> InAddr {
    InAddr {
        s_addr: (addr.o0 + addr.o1 * 0x100 + addr.o2 * 0x1_0000 + addr.o3 * 0x100_0000) as u32,
    }
}

/// The four octets read back out of the native word, low byte first.
pub open spec fn spec_from_in_addr(in_addr: InAddr) -> Ipv4Addr {
    Ipv4Addr {
        o0: (in_addr.s_addr % 0x100) as u8,
        o1: (in_addr.s_addr / 0x100 % 0x100) as u8,
        o2: (in_addr.s_addr / 0x1_0000 % 0x100) as u8,
        o3: (in_addr.s_addr / 0x100_0000) as u8,
    }
}

/// Encodes an IPv4 host address into the native address field.
pub fn to_in_addr(addr: &Ipv4Addr) -> (r: InAddr)
    ensures
        r == spec_to_in_addr(*addr),
{
    InAddr {
        s_addr: addr.o0 as u32
            + addr.o1 as u32 * 0x100
            + addr.o2 as u32 * 0x1_0000
            + addr.o3 as u32 * 0x100_0000,
    }
}

/// Decodes the native address field back into an IPv4 host address.
pub fn from_in_addr(in_addr: InAddr) -> (r: Ipv4Addr)
    ensures
        r == spec_from_in_addr(in_addr),
{
    Ipv4Addr {
        o0: (in_addr.s_addr % 0x100) as u8,
        o1: (in_addr.s_addr / 0x100 % 0x100) as u8,
        o2: (in_addr.s_addr / 0x1_0000 % 0x100) as u8,
        o3: (in_addr.s_addr / 0x100_0000) as u8,
    }
}

/// Decoding the native form produced by encoding an IPv4 host address
/// returns the original address, for every representable address.
pub proof fn lemma_ipv4_round_trip(addr: Ipv4Addr)
    ensures
        spec_from_in_addr(spec_to_in_addr(addr)) == addr,
{
    let x = addr.o0 + addr.o1 * 0x100 + addr.o2 * 0x1_0000 + addr.o3 * 0x100_0000;
    lemma_fundamental_div_mod_converse_mod(x, 0x100, addr.o1 + addr.o2 * 0x100 + addr.o3 * 0x1_0000, addr.o0 as int);
    lemma_fundamental_div_mod_converse_div(x, 0x100, addr.o1 + addr.o2 * 0x100 + addr.o3 * 0x1_0000, addr.o0 as int);
    let q1 = addr.o1 + addr.o2 * 0x100 + addr.o3 * 0x1_0000;
    lemma_fundamental_div_mod_converse_mod(q1, 0x100, addr.o2 + addr.o3 * 0x100, addr.o1 as int);
    lemma_fundamental_div_mod_converse_div(q1, 0x100, addr.o2 + addr.o3 * 0x100, addr.o1 as int);
    lemma_fundamental_div_mod_converse_div(x, 0x1_0000, addr.o2 + addr.o3 * 0x100, addr.o0 + addr.o1 * 0x100);
    let q2 = addr.o2 + addr.o3 * 0x100;
    lemma_fundamental_div_mod_converse_mod(q2, 0x100, addr.o3 as int, addr.o2 as int);
    lemma_fundamental_div_mod_converse_div(x, 0x100_0000, addr.o3 as int, addr.o0 + addr.o1 * 0x100 + addr.o2 * 0x1_0000);
}

/// One native word of an IPv6 address: the segment's two network-order
/// bytes, earlier (high-order) byte in the low half. Its own inverse.
pub open spec fn spec_word(s: u16) -> u16 {
    (s % 0x100 * 0x100 + s / 0x100) as u16
}

/// The native IPv6 address field for eight host segments.
pub open spec fn spec_to_in6_addr(addr: Ipv6Addr) -> In6Addr {
    In6Addr {
        w0: spec_word(addr.s0),
        w1: spec_word(addr.s1),
        w2: spec_word(addr.s2),
        w3: spec_word(addr.s3),
        w4: spec_word(addr.s4),
        w5: spec_word(addr.s5),
        w6: spec_word(addr.s6),
        w7: spec_word(addr.s7),
    }
}

/// The eight host segments read back out of the native field.
pub open spec fn spec_from_in6_addr(in6_addr: In6Addr) -> Ipv6Addr {
    Ipv6Addr {
        s0: spec_word(in6_addr.w0),
        s1: spec_word(in6_addr.w1),
        s2: spec_word(in6_addr.w2),
        s3: spec_word(in6_addr.w3),
        s4: spec_word(in6_addr.w4),
        s5: spec_word(in6_addr.w5),
        s6: spec_word(in6_addr.w6),
        s7: spec_word(in6_addr.w7),
    }
}

/// Swaps a segment's two bytes, putting the network-order (big-endian)
/// earlier byte in the low half of the native word.
fn word_of(s: u16) -> (r: u16)
    ensures
        r == spec_word(s),
{
    s % 0x100 * 0x100 + s / 0x100
}

/// Encodes an IPv6 host address into the native address field.
pub fn to_in6_addr(addr: &Ipv6Addr) -> (r: In6Addr)
    ensures
        r == spec_to_in6_addr(*addr),
{
    In6Addr {
        w0: word_of(addr.s0),
        w1: word_of(addr.s1),
        w2: word_of(addr.s2),
        w3: word_of(addr.s3),
        w4: word_of(addr.s4),
        w5: word_of(addr.s5),
        w6: word_of(addr.s6),
        w7: word_of(addr.s7),
    }
}

/// Decodes the native address field back into an IPv6 host address.
pub fn from_in6_addr(in6_addr: In6Addr) -> (r: Ipv6Addr)
    ensures
        r == spec_from_in6_addr(in6_addr),
{
    Ipv6Addr {
        s0: word_of(in6_addr.w0),
        s1: word_of(in6_addr.w1),
        s2: word_of(in6_addr.w2),
        s3: word_of(in6_addr.w3),
        s4: word_of(in6_addr.w4),
        s5: word_of(in6_addr.w5),
        s6: word_of(in6_addr.w6),
        s7: word_of(in6_addr.w7),
    }
}

/// Swapping a segment's bytes twice gives the segment back.
proof fn lemma_word_involution(s: u16)
    ensures
        spec_word(spec_word(s)) == s,
{
    let w = s % 0x100 * 0x100 + s / 0x100;
    lemma_fundamental_div_mod_converse_mod(w, 0x100, (s % 0x100) as int, (s / 0x100) as int);
    lemma_fundamental_div_mod_converse_div(w, 0x100, (s % 0x100) as int, (s / 0x100) as int);
}

/// Decoding the native form produced by encoding an IPv6 host address
/// returns the original address, for every representable address.
pub proof fn lemma_ipv6_round_trip(addr: Ipv6Addr)
    ensures
        spec_from_in6_addr(spec_to_in6_addr(addr)) == addr,
{
    lemma_word_involution(addr.s0);
    lemma_word_involution(addr.s1);
    lemma_word_involution(addr.s2);
    lemma_word_involution(addr.s3);
    lemma_word_involution(addr.s4);
    lemma_word_involution(addr.s5);
    lemma_word_involution(addr.s6);
    lemma_word_involution(addr.s7);
}

} // verus!
