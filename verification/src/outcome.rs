//! Outcome normalization: maps the raw results of the native I/O calls onto
//! the uniform outcome model.
//!
//! Two native error conditions are deliberately reinterpreted as success: a
//! receive on a socket already shut down for reading counts as a read of
//! zero bytes (the same state a graceful peer close leaves behind), and a
//! datagram larger than the buffers given counts as a successful partial
//! read with the truncation flag set. Every other native failure is carried
//! to the caller unchanged, as [`SockError::System`] with the raw code.
//!
//! Each function here takes the native call's return value — and, where the
//! call can fail, the error code fetched after it — and yields the portable
//! outcome. The byte-count calls report failure as a negative return; the
//! vectored calls report failure as any nonzero return.

use vstd::prelude::*;

use crate::{RecvFlags, SockError, MSG_TRUNC, WSAEMSGSIZE, WSAESHUTDOWN};

verus! {

/// The portable outcome of a byte-count receive: a shutdown read direction
/// reads as zero bytes, any other failure keeps its code.
pub open spec fn spec_decode_recv(ret: i32, err: i32) -> Result<usize, SockError> {
    if ret >= 0 {
        Ok(ret as usize)
    } else if err == WSAESHUTDOWN {
        Ok(0usize)
    } else {
        Err(SockError::System(err))
    }
}

/// Maps a byte-count receive's raw return and error code onto the portable
/// outcome. The peek path decodes the same way: the flag it passes only
/// tells the OS to leave the data queued.
pub fn decode_recv(ret: i32, err: i32) -> (r: Result<usize, SockError>)
    ensures
        r == spec_decode_recv(ret, err),
{
    if ret >= 0 {
        Ok(ret as usize)
    } else if err == WSAESHUTDOWN {
        Ok(0)
    } else {
        Err(SockError::System(err))
    }
}

/// The portable outcome of a byte-count send: no reinterpreted conditions,
/// a failure keeps its code.
pub open spec fn spec_decode_send(ret: i32, err: i32) -> Result<usize, SockError> {
    if ret >= 0 {
        Ok(ret as usize)
    } else {
        Err(SockError::System(err))
    }
}

/// Maps a byte-count send's raw return and error code onto the portable
/// outcome.
pub fn decode_send(ret: i32, err: i32) -> (r: Result<usize, SockError>)
    ensures
        r == spec_decode_send(ret, err),
{
    if ret >= 0 {
        Ok(ret as usize)
    } else {
        Err(SockError::System(err))
    }
}

/// The portable outcome of a vectored receive: zero return is plain
/// success; a shutdown read direction reads as zero bytes; an oversized
/// datagram reads as the bytes that fit, with the truncation flag set.
pub open spec fn spec_decode_recv_vectored(ret: i32, nread: u32, err: i32) -> Result<
    (usize, RecvFlags),
    SockError,
> {
    if ret == 0 {
        Ok((nread as usize, RecvFlags(0)))
    } else if err == WSAESHUTDOWN {
        Ok((0usize, RecvFlags(0)))
    } else if err == WSAEMSGSIZE {
        Ok((nread as usize, RecvFlags(MSG_TRUNC)))
    } else {
        Err(SockError::System(err))
    }
}

/// Maps a vectored receive's raw return, byte count and error code onto the
/// portable outcome.
pub fn decode_recv_vectored(ret: i32, nread: u32, err: i32) -> (r: Result<
    (usize, RecvFlags),
    SockError,
>)
    ensures
        r == spec_decode_recv_vectored(ret, nread, err),
{
    if ret == 0 {
        Ok((nread as usize, RecvFlags(0)))
    } else if err == WSAESHUTDOWN {
        Ok((0, RecvFlags(0)))
    } else if err == WSAEMSGSIZE {
        Ok((nread as usize, RecvFlags(MSG_TRUNC)))
    } else {
        Err(SockError::System(err))
    }
}

/// The portable outcome of a vectored datagram receive with source address.
/// Only the oversized-datagram condition is reinterpreted here: this path
/// keeps no explicit check for the shutdown condition, exactly as the
/// non-vectored datagram paths keep theirs.
pub open spec fn spec_decode_recv_from_vectored(ret: i32, nread: u32, err: i32) -> Result<
    (usize, RecvFlags),
    SockError,
> {
    if ret == 0 {
        Ok((nread as usize, RecvFlags(0)))
    } else if err == WSAEMSGSIZE {
        Ok((nread as usize, RecvFlags(MSG_TRUNC)))
    } else {
        Err(SockError::System(err))
    }
}

/// Maps a vectored datagram receive's raw return, byte count and error code
/// onto the portable outcome.
pub fn decode_recv_from_vectored(ret: i32, nread: u32, err: i32) -> (r: Result<
    (usize, RecvFlags),
    SockError,
>)
    ensures
        r == spec_decode_recv_from_vectored(ret, nread, err),
{
    if ret == 0 {
        Ok((nread as usize, RecvFlags(0)))
    } else if err == WSAEMSGSIZE {
        Ok((nread as usize, RecvFlags(MSG_TRUNC)))
    } else {
        Err(SockError::System(err))
    }
}

/// The portable outcome of a vectored send: zero return is success with the
/// count sent, anything else keeps its code.
pub open spec fn spec_decode_send_vectored(ret: i32, nsent: u32, err: i32) -> Result<
    usize,
    SockError,
> {
    if ret == 0 {
        Ok(nsent as usize)
    } else {
        Err(SockError::System(err))
    }
}

/// Maps a vectored send's raw return, byte count and error code onto the
/// portable outcome.
pub fn decode_send_vectored(ret: i32, nsent: u32, err: i32) -> (r: Result<usize, SockError>)
    ensures
        r == spec_decode_send_vectored(ret, nsent, err),
{
    if ret == 0 {
        Ok(nsent as usize)
    } else {
        Err(SockError::System(err))
    }
}

/// The pending error read off a socket: zero means none is pending.
pub open spec fn spec_decode_take_error(raw: i32) -> Option<SockError> {
    if raw == 0 {
        None
    } else {
        Some(SockError::System(raw))
    }
}

/// Maps the raw pending-error option value onto an optional error.
pub fn decode_take_error(raw: i32) -> (r: Option<SockError>)
    ensures
        r == spec_decode_take_error(raw),
{
    if raw == 0 {
        None
    } else {
        Some(SockError::System(raw))
    }
}

/// Caps a buffer length at the largest transfer size one native call can
/// take; longer buffers are clamped, never rejected.
pub fn clamp(input: usize) -> (r: i32)
    ensures
        r == if input > i32::MAX {
            i32::MAX as int
        } else {
            input as int
        },
        0 <= r <= input,
{
    if input > i32::MAX as usize {
        i32::MAX
    } else {
        input as i32
    }
}

/// Caps the number of buffers handed to one vectored native call at the
/// largest count the call's 32-bit parameter can carry; longer sequences
/// are clamped, never rejected.
pub fn clamp_count(input: usize) -> (r: u32)
    ensures
        r == if input > u32::MAX {
            u32::MAX as int
        } else {
            input as int
        },
        r <= input,
{
    if input > u32::MAX as usize {
        u32::MAX
    } else {
        input as u32
    }
}

/// The native word for a boolean option value.
pub open spec fn spec_encode_bool(v: bool) -> i32 {
    if v {
        1i32
    } else {
        0i32
    }
}

/// The boolean read back from a native option word: anything nonzero is
/// true.
pub open spec fn spec_decode_bool(raw: i32) -> bool {
    raw != 0
}

/// Encodes a boolean option value as the native word.
pub fn encode_bool(v: bool) -> (r: i32)
    ensures
        r == spec_encode_bool(v),
{
    if v {
        1
    } else {
        0
    }
}

/// Decodes a native option word as a boolean.
pub fn decode_bool(raw: i32) -> (r: bool)
    ensures
        r == spec_decode_bool(raw),
{
    raw != 0
}

/// The native byte for a boolean option whose payload is one byte wide.
pub open spec fn spec_encode_bool_byte(v: bool) -> i8 {
    if v {
        1i8
    } else {
        0i8
    }
}

/// The boolean read back from a one-byte option payload.
pub open spec fn spec_decode_bool_byte(raw: i8) -> bool {
    raw != 0
}

/// Encodes a boolean option value as a one-byte payload.
pub fn encode_bool_byte(v: bool) -> (r: i8)
    ensures
        r == spec_encode_bool_byte(v),
{
    if v {
        1
    } else {
        0
    }
}

/// Decodes a one-byte option payload as a boolean.
pub fn decode_bool_byte(raw: i8) -> (r: bool)
    ensures
        r == spec_decode_bool_byte(raw),
{
    raw != 0
}

/// A receive after the read direction was shut down is a successful read of
/// zero bytes, never an error — on the plain path and on the vectored path
/// with its explicit check alike.
pub proof fn lemma_shutdown_reads_as_zero(ret: i32, nread: u32)
    ensures
        ret < 0 ==> spec_decode_recv(ret, WSAESHUTDOWN) == Ok::<usize, SockError>(0usize),
        ret != 0 ==> spec_decode_recv_vectored(ret, nread, WSAESHUTDOWN) == Ok::<
            (usize, RecvFlags),
            SockError,
        >((0usize, RecvFlags(0))),
{
}

/// A datagram larger than the buffers given is a successful partial read
/// with the truncation flag set, never an error; a plain success leaves the
/// flag clear.
pub proof fn lemma_truncation_flagged(ret: i32, nread: u32)
    ensures
        ret != 0 ==> spec_decode_recv_vectored(ret, nread, WSAEMSGSIZE) == Ok::<
            (usize, RecvFlags),
            SockError,
        >((nread as usize, RecvFlags(MSG_TRUNC))),
        ret != 0 ==> spec_decode_recv_from_vectored(ret, nread, WSAEMSGSIZE) == Ok::<
            (usize, RecvFlags),
            SockError,
        >((nread as usize, RecvFlags(MSG_TRUNC))),
        RecvFlags(MSG_TRUNC).0 & MSG_TRUNC != 0,
        RecvFlags(0).0 & MSG_TRUNC == 0,
{
    assert(1i32 & 1i32 == 1i32) by (bit_vector);
    assert(0i32 & 1i32 == 0i32) by (bit_vector);
}

/// The reinterpreted conditions never surface as errors: no receive outcome
/// carries the shutdown code where the path checks for it, and no vectored
/// receive outcome carries the oversized-datagram code. The datagram path
/// with a source address keeps no shutdown check, so only the oversize code
/// is absorbed there.
pub proof fn lemma_benign_codes_never_error(ret: i32, nread: u32, err: i32)
    ensures
        spec_decode_recv(ret, err) != Err::<usize, SockError>(SockError::System(WSAESHUTDOWN)),
        spec_decode_recv_vectored(ret, nread, err) != Err::<(usize, RecvFlags), SockError>(
            SockError::System(WSAESHUTDOWN),
        ),
        spec_decode_recv_vectored(ret, nread, err) != Err::<(usize, RecvFlags), SockError>(
            SockError::System(WSAEMSGSIZE),
        ),
        spec_decode_recv_from_vectored(ret, nread, err) != Err::<(usize, RecvFlags), SockError>(
            SockError::System(WSAEMSGSIZE),
        ),
{
}

/// Encoding a boolean option value and decoding the result gives the value
/// back, for both payload widths.
pub proof fn lemma_bool_option_symmetry(v: bool)
    ensures
        spec_decode_bool(spec_encode_bool(v)) == v,
        spec_decode_bool_byte(spec_encode_bool_byte(v)) == v,
{
}

} // verus!
