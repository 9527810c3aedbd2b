//! Portable socket primitive layer: the pure translation half of a
//! per-operating-system socket backend.
//!
//! The host OS interface is irregular: each option has its own payload
//! structure, "no timeout" has a sentinel value, and some error codes denote
//! benign conditions. This crate holds the verified rules that map portable
//! values onto the native encodings and the native return codes back onto a
//! small, uniform outcome model. The thin layer that issues the actual
//! system calls lives outside the library and is compiled only on the host
//! OS it targets.

use vstd::prelude::*;

pub mod addr;
pub mod dur;
pub mod keepalive;
pub mod linger;
pub mod multicast;
pub mod outcome;
pub mod sockaddr;

pub use addr::{from_in6_addr, from_in_addr, to_in6_addr, to_in_addr};
pub use addr::{In6Addr, InAddr, Ipv4Addr, Ipv6Addr};
pub use addr::{lemma_ipv4_round_trip, lemma_ipv6_round_trip};
pub use dur::{dur2ms, dur_ms, ms2dur, Dur};
pub use dur::{lemma_duration_codec_edges, lemma_duration_round_trip};
pub use keepalive::{dur2keepalive, keepalive2dur, lemma_keepalive_round_trip, TcpKeepalive};
pub use linger::{dur2linger, lemma_linger_round_trip, linger2dur, Linger};
pub use outcome::{clamp, clamp_count, decode_bool, decode_bool_byte, encode_bool, encode_bool_byte};
pub use outcome::{decode_recv, decode_recv_from_vectored, decode_recv_vectored};
pub use outcome::{decode_send, decode_send_vectored, decode_take_error};
pub use outcome::{lemma_benign_codes_never_error, lemma_bool_option_symmetry};
pub use outcome::{lemma_shutdown_reads_as_zero, lemma_truncation_flagged};
pub use multicast::{ip_mreq, ipv6_mreq, IpMreq, Ipv6Mreq};
pub use sockaddr::{Family, SockAddr, MAX_ADDR_LEN};

verus! {

/// Outcome model for every native call: either the call succeeded, or it
/// failed with the OS-specific error code, or the caller asked for something
/// this layer rejects locally (a zero-length timeout).
#[derive(Clone, Copy, Debug, PartialEq, Eq, Structural)]
pub enum SockError {
    /// A native call reported failure; carries the raw OS error code.
    System(i32),
    /// Raised locally, never by the OS: the caller passed a zero duration
    /// where the OS sentinel for zero already means "no timeout".
    InvalidInput,
}

/// Native sentinel returned by byte-count calls on failure.
pub const SOCKET_ERROR: i32 = -1;

/// Native error code: the socket has been shut down for this direction.
pub const WSAESHUTDOWN: i32 = 10058;

/// Native error code: a received datagram was larger than the buffer.
pub const WSAEMSGSIZE: i32 = 10040;

/// Native sentinel for a timeout that never fires.
pub const INFINITE: u32 = 0xFFFF_FFFF;

/// Native receive flag requesting that data stay in the receive queue.
pub const MSG_PEEK: i32 = 0x2;

/// Truncation flag for [`RecvFlags`]. The host OS has no such flag of its
/// own: it is set by this layer when a vectored receive reports
/// [`WSAEMSGSIZE`], so that callers see one uniform truncation indicator.
pub const MSG_TRUNC: i32 = 0x1;

/// Native code disabling the read direction of a socket.
pub const SD_RECEIVE: i32 = 0;

/// Native code disabling the write direction of a socket.
pub const SD_SEND: i32 = 1;

/// Native code disabling both directions of a socket.
pub const SD_BOTH: i32 = 2;

/// Native family word for IPv4 addresses.
pub const AF_INET: u16 = 2;

/// Native family word for IPv6 addresses.
pub const AF_INET6: u16 = 23;

/// Which direction of a connected socket to disable.
#[derive(Clone, Copy, Debug, PartialEq, Eq, Structural)]
pub enum Shutdown {
    Read,
    Write,
    Both,
}

/// Maps a shutdown request onto the native direction code.
pub fn shutdown_how(how: Shutdown) -> (r: i32)
    ensures
        r == match how {
            Shutdown::Read => SD_RECEIVE,
            Shutdown::Write => SD_SEND,
            Shutdown::Both => SD_BOTH,
        },
{
    match how {
        Shutdown::Read => SD_RECEIVE,
        Shutdown::Write => SD_SEND,
        Shutdown::Both => SD_BOTH,
    }
}

/// Flags attached to the outcome of a vectored receive.
#[derive(Clone, Copy, Debug, PartialEq, Eq, Structural)]
pub struct RecvFlags(pub i32);

impl RecvFlags {
    /// True when the received datagram was larger than the buffers given,
    /// so only a prefix of it was delivered.
    pub fn is_truncated(&self) -> (r: bool)
        ensures
            r == (self.0 & MSG_TRUNC != 0),
    {
        self.0 & MSG_TRUNC != 0
    }
}

} // verus!
