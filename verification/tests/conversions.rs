//! Tests of the error-code mapping, the duration conversions, and the
//! verified decisions of the synchronous socket surface.
use nng_aio::{
    contains_nul, duration_to_ms, ms_to_duration, nonblock_flag, result_for_status, send_outcome,
    timeout_to_ms, validate_address, Error, Message, DURATION_INFINITE, FLAG_NONBLOCK,
    MAX_DURATION_MS,
};

#[test]
fn every_known_status_code_maps_to_its_error() {
    let table: Vec<(u32, Error)> = vec![
        (1, Error::Interrupted),
        (2, Error::OutOfMemory),
        (3, Error::InvalidInput),
        (4, Error::Busy),
        (5, Error::TimedOut),
        (6, Error::ConnectionRefused),
        (7, Error::Closed),
        (8, Error::TryAgain),
        (9, Error::NotSupported),
        (10, Error::AddressInUse),
        (11, Error::IncorrectState),
        (12, Error::EntryNotFound),
        (13, Error::Protocol),
        (14, Error::DestUnreachable),
        (15, Error::AddressInvalid),
        (16, Error::PermissionDenied),
        (17, Error::MessageTooLarge),
        (18, Error::ConnectionAborted),
        (19, Error::ConnectionReset),
        (20, Error::Canceled),
        (21, Error::OutOfFiles),
        (22, Error::OutOfSpace),
        (23, Error::ResourceExists),
        (24, Error::ReadOnly),
        (25, Error::WriteOnly),
        (26, Error::Crypto),
        (27, Error::PeerAuthentication),
        (28, Error::NoArgument),
        (29, Error::Ambiguous),
        (30, Error::BadType),
        (1000, Error::Internal),
    ];
    for (code, expected) in table {
        assert_eq!(Error::from_code(code), expected);
    }
}

#[test]
fn tagged_ranges_carry_the_inner_code() {
    assert_eq!(Error::from_code(0x1000_0000), Error::SystemErr(0));
    assert_eq!(Error::from_code(0x1000_0071), Error::SystemErr(0x71));
    assert_eq!(Error::from_code(0x2000_0000), Error::TransportErr(0));
    assert_eq!(Error::from_code(0x2fff_ffff), Error::TransportErr(0x0fff_ffff));
}

#[test]
fn unrecognized_codes_come_back_verbatim() {
    assert_eq!(Error::from_code(0), Error::Unknown(0));
    assert_eq!(Error::from_code(31), Error::Unknown(31));
    assert_eq!(Error::from_code(999), Error::Unknown(999));
    assert_eq!(Error::from_code(0x3000_0000), Error::Unknown(0x3000_0000));
}

#[test]
fn status_zero_is_success_and_everything_else_is_an_error() {
    assert_eq!(result_for_status(0), Ok(()));
    assert_eq!(result_for_status(5), Err(Error::TimedOut));
    assert_eq!(result_for_status(0x2000_0009), Err(Error::TransportErr(9)));
}

#[test]
fn durations_convert_exactly_and_saturate() {
    assert_eq!(duration_to_ms(0, 0), 0);
    assert_eq!(duration_to_ms(1, 500), 1500);
    assert_eq!(duration_to_ms(0, 999), 999);
    assert_eq!(duration_to_ms(2_147_483, 646), 2_147_483_646);
    // One millisecond more reaches the largest representable count.
    assert_eq!(duration_to_ms(2_147_483, 647), MAX_DURATION_MS);
    assert_eq!(duration_to_ms(2_147_484, 0), MAX_DURATION_MS);
    assert_eq!(duration_to_ms(u64::MAX, 999), MAX_DURATION_MS);
}

#[test]
fn no_timeout_means_an_infinite_engine_duration() {
    assert_eq!(timeout_to_ms(None), DURATION_INFINITE);
    assert_eq!(timeout_to_ms(Some((0, 50))), 50);
    assert_eq!(timeout_to_ms(Some((60, 0))), 60_000);
}

#[test]
fn engine_durations_convert_back() {
    assert_eq!(ms_to_duration(DURATION_INFINITE), None);
    assert_eq!(ms_to_duration(0), Some((0, 0)));
    assert_eq!(ms_to_duration(1500), Some((1, 500)));
    assert_eq!(ms_to_duration(MAX_DURATION_MS), Some((2_147_483, 647)));
}

#[test]
fn the_nonblocking_flag_is_set_only_when_asked() {
    assert_eq!(nonblock_flag(true), FLAG_NONBLOCK);
    assert_eq!(nonblock_flag(false), 0);
}

#[test]
fn addresses_with_embedded_zero_bytes_are_rejected() {
    assert!(!contains_nul(b"inproc://example"));
    assert!(contains_nul(b"inproc://ex\0ample"));
    assert!(contains_nul(b"\0"));
    assert!(!contains_nul(b""));
    assert_eq!(validate_address(b"tcp://127.0.0.1:5555"), Ok(()));
    assert_eq!(validate_address(b"tcp://\0"), Err(Error::AddressInvalid));
}

#[test]
fn a_refused_synchronous_send_returns_the_message_unchanged() {
    let msg = Message::from_bytes(vec![10, 20, 30]);
    match send_outcome(8, msg) {
        Err((back, e)) => {
            assert_eq!(back.into_bytes(), vec![10, 20, 30]);
            assert_eq!(e, Error::TryAgain);
        }
        Ok(()) => panic!("a nonzero status is a failure"),
    }
    let consumed = Message::from_bytes(vec![1]);
    assert!(send_outcome(0, consumed).is_ok());
}

#[test]
fn message_buffers_keep_their_bytes() {
    let empty = Message::new();
    assert!(empty.is_empty());
    assert_eq!(empty.len(), 0);
    let msg = Message::from_bytes(vec![5, 6, 7, 8]);
    assert!(!msg.is_empty());
    assert_eq!(msg.len(), 4);
    assert_eq!(msg.as_bytes(), &vec![5, 6, 7, 8]);
    assert_eq!(msg.into_bytes(), vec![5, 6, 7, 8]);
}
