//! The portable address buffer, on its decode side: whatever address bytes
//! a native call reports — a connection's peer on accept, the local or
//! remote name of a socket, a datagram's source — are copied out, exactly
//! as many bytes as the call reported, into an immutable value that carries
//! them together with their length.
//!
//! The native storage structure is large enough for any address family, so
//! a call can never report more bytes than [`MAX_ADDR_LEN`]; a caller that
//! would pass more has hit a logic defect, not a runtime condition, and the
//! copy refuses it by precondition rather than by an error value.

use vstd::prelude::*;
use vstd::slice::slice_to_vec;

use crate::{AF_INET, AF_INET6};

verus! {

/// The size of the native address storage structure: the largest number of
/// address bytes any native call can report.
pub const MAX_ADDR_LEN: usize = 128;

/// The address family tag an address buffer carries in its first native
/// word.
#[derive(Clone, Copy, Debug, PartialEq, Eq, Structural)]
pub enum Family {
    V4,
    V6,
    Unspec,
}

/// The family tag for a native family word.
pub open spec fn spec_family_of(word: u16) -> Family {
    if word == AF_INET {
        Family::V4
    } else if word == AF_INET6 {
        Family::V6
    } else {
        Family::Unspec
    }
}

/// An address in native form: a byte buffer of at most [`MAX_ADDR_LEN`]
/// bytes plus its logical length, immutable once constructed. The first two
/// bytes, when present, hold the address family word in host order (low
/// byte first).
#[derive(Debug)]
pub struct SockAddr {
    bytes: Vec<u8>,
}

impl SockAddr {
    /// The stored address bytes; the sequence's length is the logical
    /// length.
    pub closed spec fn view(&self) -> Seq<u8> {
        self.bytes@
    }

    /// Every constructed address fits the native storage structure.
    pub open spec fn wf(&self) -> bool {
        self@.len() <= MAX_ADDR_LEN
    }

    /// The native family word stored in the first two bytes, or zero where
    /// the buffer is too short to hold one.
    pub open spec fn spec_family_word(&self) -> int {
        if self@.len() < 2 {
            0int
        } else {
            self@[0] + self@[1] * 0x100
        }
    }

    /// Copies exactly the reported bytes out of a native address structure.
    /// Reporting more bytes than the native storage holds is a logic
    /// defect, ruled out before the call.
    pub fn from_raw_parts(buf: &[u8]) -> (r: SockAddr)
        requires
            buf@.len() <= MAX_ADDR_LEN,
        ensures
            r@ == buf@,
            r.wf(),
    {
        SockAddr { bytes: slice_to_vec(buf) }
    }

    /// The logical length: how many address bytes the native call reported.
    pub fn len(&self) -> (r: usize)
        ensures
            r == self@.len(),
    {
        self.bytes.len()
    }

    /// Read-only view of the stored native-format bytes, for handing to a
    /// native call; no copy is made.
    pub fn as_bytes(&self) -> (r: &Vec<u8>)
        ensures
            r@ == self@,
    {
        &self.bytes
    }

    /// The native family word out of the first two bytes, low byte first;
    /// zero where the buffer is shorter than the word.
    pub fn family_word(&self) -> (r: u16)
        ensures
            r == self.spec_family_word(),
    {
        if self.bytes.len() < 2 {
            0
        } else {
            self.bytes[0] as u16 + self.bytes[1] as u16 * 0x100
        }
    }

    /// The family tag this address carries.
    pub fn family(&self) -> (r: Family)
        ensures
            r == spec_family_of(self.spec_family_word() as u16),
    {
        let word = self.family_word();
        if word == AF_INET {
            Family::V4
        } else if word == AF_INET6 {
            Family::V6
        } else {
            Family::Unspec
        }
    }
}

} // verus!
