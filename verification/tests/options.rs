use sockprim::{clamp, clamp_count, decode_bool, decode_bool_byte, encode_bool, encode_bool_byte};
use sockprim::{decode_recv, decode_recv_from_vectored, decode_recv_vectored};
use sockprim::{decode_send, decode_send_vectored, decode_take_error};
use sockprim::{dur2keepalive, dur2linger, dur2ms, keepalive2dur, linger2dur, ms2dur};
use sockprim::{shutdown_how, Shutdown};
use sockprim::{Dur, Linger, RecvFlags, SockError, TcpKeepalive};
use sockprim::{INFINITE, MSG_PEEK, MSG_TRUNC, SD_BOTH, SD_RECEIVE, SD_SEND, WSAEMSGSIZE, WSAESHUTDOWN};

#[test]
fn duration_none_round_trips_to_none() {
    assert_eq!(dur2ms(None), Ok(0));
    assert_eq!(ms2dur(0), None);
}

#[test]
fn duration_zero_is_invalid_input() {
    assert_eq!(dur2ms(Some(Dur::new(0, 0))), Err(SockError::InvalidInput));
}

#[test]
fn duration_rounds_up_to_whole_milliseconds() {
    assert_eq!(dur2ms(Some(Dur::new(0, 1))), Ok(1));
    assert_eq!(dur2ms(Some(Dur::new(2, 500_000_000))), Ok(2500));
    assert_eq!(dur2ms(Some(Dur::new(2, 500_000_001))), Ok(2501));
    assert_eq!(dur2ms(Some(Dur::new(2, 499_999_999))), Ok(2500));
}

#[test]
fn duration_saturates_to_infinite() {
    assert_eq!(dur2ms(Some(Dur::from_secs(5_000_000))), Ok(INFINITE));
    assert_eq!(dur2ms(Some(Dur::from_secs(u64::MAX))), Ok(INFINITE));
    // The largest duration below the saturation point encodes exactly.
    assert_eq!(dur2ms(Some(Dur::from_millis(u32::MAX as u64))), Ok(u32::MAX));
}

#[test]
fn duration_round_trip_is_within_one_millisecond() {
    let d = Dur::new(1, 234_567_890);
    let ms = dur2ms(Some(d)).unwrap();
    assert_eq!(ms, 1235);
    assert_eq!(ms2dur(ms), Some(Dur::new(1, 235_000_000)));
    // Re-encoding the decoded value is stable.
    assert_eq!(dur2ms(ms2dur(ms)), Ok(ms));
}

#[test]
fn linger_none_disables() {
    assert_eq!(dur2linger(None), Linger { l_onoff: 0, l_linger: 0 });
    assert_eq!(linger2dur(Linger { l_onoff: 0, l_linger: 0 }), None);
    assert_eq!(linger2dur(Linger { l_onoff: 0, l_linger: 77 }), None);
}

#[test]
fn linger_truncates_to_whole_seconds() {
    let enc = dur2linger(Some(Dur::new(3, 900_000_000)));
    assert_eq!(enc, Linger { l_onoff: 1, l_linger: 3 });
    assert_eq!(linger2dur(enc), Some(Dur::from_secs(3)));
}

#[test]
fn linger_saturates_to_field_width() {
    let enc = dur2linger(Some(Dur::from_secs(70_000)));
    assert_eq!(enc, Linger { l_onoff: 1, l_linger: u16::MAX });
}

#[test]
fn keepalive_round_trips_within_one_millisecond() {
    let enc = dur2keepalive(Some(Dur::new(2, 500_000_000))).unwrap();
    assert_eq!(
        enc,
        TcpKeepalive { onoff: 1, keepalivetime: 2500, keepaliveinterval: 2500 }
    );
    assert_eq!(keepalive2dur(enc), Some(Dur::new(2, 500_000_000)));

    // A sub-millisecond part comes back rounded up, one millisecond away at
    // most.
    let enc = dur2keepalive(Some(Dur::new(2, 500_000_001))).unwrap();
    assert_eq!(keepalive2dur(enc), Some(Dur::new(2, 501_000_000)));
}

#[test]
fn keepalive_none_round_trips_to_none() {
    let enc = dur2keepalive(None).unwrap();
    assert_eq!(enc, TcpKeepalive { onoff: 0, keepalivetime: 0, keepaliveinterval: 0 });
    assert_eq!(keepalive2dur(enc), None);
}

#[test]
fn keepalive_zero_interval_reads_as_none() {
    assert_eq!(
        keepalive2dur(TcpKeepalive { onoff: 1, keepalivetime: 5, keepaliveinterval: 0 }),
        None
    );
}

#[test]
fn keepalive_zero_duration_is_invalid_input() {
    assert_eq!(dur2keepalive(Some(Dur::new(0, 0))), Err(SockError::InvalidInput));
}

#[test]
fn boolean_options_are_symmetric() {
    assert_eq!(encode_bool(true), 1);
    assert_eq!(encode_bool(false), 0);
    assert!(decode_bool(encode_bool(true)));
    assert!(!decode_bool(encode_bool(false)));
    assert_eq!(encode_bool_byte(true), 1);
    assert_eq!(encode_bool_byte(false), 0);
    assert!(decode_bool_byte(encode_bool_byte(true)));
    assert!(!decode_bool_byte(encode_bool_byte(false)));
}

#[test]
fn boolean_decode_accepts_any_nonzero() {
    assert!(decode_bool(-7));
    assert!(decode_bool(2));
    assert!(!decode_bool(0));
    assert!(decode_bool_byte(-1));
    assert!(!decode_bool_byte(0));
}

#[test]
fn recv_after_shutdown_is_zero_bytes_not_an_error() {
    assert_eq!(decode_recv(-1, WSAESHUTDOWN), Ok(0));
    // The vectored path with the explicit check behaves the same.
    assert_eq!(
        decode_recv_vectored(-1, 3, WSAESHUTDOWN),
        Ok((0, RecvFlags(0)))
    );
}

#[test]
fn recv_success_and_failure() {
    assert_eq!(decode_recv(5, 0), Ok(5));
    assert_eq!(decode_recv(0, 0), Ok(0));
    assert_eq!(decode_recv(-1, 10054), Err(SockError::System(10054)));
}

#[test]
fn truncated_datagram_is_flagged_success() {
    // A datagram of N bytes into buffers holding only M < N: the OS reports
    // the oversize condition with M bytes delivered; the outcome is M bytes
    // and the truncation flag, no error.
    let m: u32 = 5;
    let out = decode_recv_vectored(-1, m, WSAEMSGSIZE).unwrap();
    assert_eq!(out.0, m as usize);
    assert!(out.1.is_truncated());

    let out = decode_recv_from_vectored(-1, m, WSAEMSGSIZE).unwrap();
    assert_eq!(out.0, m as usize);
    assert!(out.1.is_truncated());
}

#[test]
fn untruncated_datagram_is_unflagged() {
    let out = decode_recv_vectored(0, 7, 0).unwrap();
    assert_eq!(out.0, 7);
    assert!(!out.1.is_truncated());
    let out = decode_recv_from_vectored(0, 7, 0).unwrap();
    assert_eq!(out.0, 7);
    assert!(!out.1.is_truncated());
}

#[test]
fn vectored_recv_other_errors_propagate() {
    assert_eq!(
        decode_recv_vectored(-1, 0, 10061),
        Err(SockError::System(10061))
    );
    // The datagram-with-source path keeps no shutdown check of its own.
    assert_eq!(
        decode_recv_from_vectored(-1, 0, WSAESHUTDOWN),
        Err(SockError::System(WSAESHUTDOWN))
    );
}

#[test]
fn send_outcomes() {
    assert_eq!(decode_send(8, 0), Ok(8));
    assert_eq!(decode_send(-1, 10035), Err(SockError::System(10035)));
    assert_eq!(decode_send_vectored(0, 9, 0), Ok(9));
    assert_eq!(decode_send_vectored(-1, 9, 10035), Err(SockError::System(10035)));
}

#[test]
fn take_error_reads_pending_code() {
    assert_eq!(decode_take_error(0), None);
    assert_eq!(decode_take_error(10061), Some(SockError::System(10061)));
}

#[test]
fn clamp_caps_at_native_transfer_size() {
    assert_eq!(clamp(10), 10);
    assert_eq!(clamp(i32::MAX as usize), i32::MAX);
    assert_eq!(clamp(i32::MAX as usize + 1), i32::MAX);
    assert_eq!(clamp(usize::MAX), i32::MAX);
}

#[test]
fn shutdown_direction_codes() {
    assert_eq!(shutdown_how(Shutdown::Read), SD_RECEIVE);
    assert_eq!(shutdown_how(Shutdown::Write), SD_SEND);
    assert_eq!(shutdown_how(Shutdown::Both), SD_BOTH);
}

#[test]
fn flag_values_are_distinct() {
    assert_eq!(MSG_TRUNC, 0x1);
    assert_eq!(MSG_PEEK, 0x2);
    assert!(RecvFlags(MSG_TRUNC).is_truncated());
    assert!(!RecvFlags(0).is_truncated());
    assert!(!RecvFlags(MSG_PEEK).is_truncated());
}

#[test]
fn clamp_count_caps_at_native_count_width() {
    assert_eq!(clamp_count(0), 0);
    assert_eq!(clamp_count(3), 3);
    assert_eq!(clamp_count(usize::MAX), u32::MAX);
}
