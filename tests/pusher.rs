use pusher::detector::{BreakCounter, SerialAction, SIGNAL_BYTE};
use pusher::dispatch::{classify_token, forward_byte, EventSource, CONTROL_BYTE, SERIAL_TOKEN, STDIN_TOKEN};
use pusher::header::{decode_header, encode_header, LENGTH_LIMIT};
use pusher::session::{is_ack, Phase, Session, ACK_ROUNDS};
use pusher::PusherErrors;

/// Feeds serial bytes to the counter and returns what it asked for.
fn feed(counter: &mut BreakCounter, bytes: &[u8]) -> Vec<SerialAction> {
    bytes.iter().map(|b| counter.on_serial_byte(*b)).collect()
}

/// Takes a session from its header to the end of its acknowledgment rounds,
/// delivering the given bytes in each round.
fn handshake(session: &mut Session, rounds: &[&[u8]]) -> (Vec<u8>, Result<bool, PusherErrors>) {
    let header = session.send_header().expect("announceable length");
    session.header_flushed();
    let mut outcome = Ok(false);
    for round in rounds {
        for b in round.iter() {
            session.receive_ack_byte(*b);
        }
        outcome = session.end_ack_round();
        if outcome != Ok(false) {
            break;
        }
    }
    (header, outcome)
}

/// Drains every payload byte the session hands out.
fn stream(session: &mut Session) -> Vec<u8> {
    let mut wire = Vec::new();
    while let Some(b) = session.next_payload_byte() {
        wire.push(b);
    }
    wire
}

#[test]
fn header_encodes_little_endian() {
    assert_eq!(encode_header(1024), Ok(vec![0x00, 0x04, 0x00, 0x00]));
    assert_eq!(encode_header(0), Ok(vec![0x00, 0x00, 0x00, 0x00]));
    assert_eq!(encode_header(0x1234_5678), Ok(vec![0x78, 0x56, 0x34, 0x12]));
    assert_eq!(encode_header(0xffff_fffe), Ok(vec![0xfe, 0xff, 0xff, 0xff]));
}

#[test]
fn header_round_trip() {
    for len in [0u64, 1, 255, 256, 1024, 65_535, 65_536, 0x00ab_cdef, 0x1234_5678, 0xffff_fffe] {
        let bytes = encode_header(len).unwrap();
        assert_eq!(decode_header(&bytes), Some(len as u32));
    }
}

#[test]
fn header_refuses_too_large() {
    assert_eq!(LENGTH_LIMIT, 0xffff_ffff);
    assert_eq!(encode_header(0xffff_ffff), Err(PusherErrors::ImageTooLarge(0xffff_ffff)));
    assert_eq!(encode_header(0x1_0000_0000), Err(PusherErrors::ImageTooLarge(0x1_0000_0000)));
}

#[test]
fn decode_needs_four_bytes() {
    assert_eq!(decode_header(&[1, 2, 3]), None);
    assert_eq!(decode_header(&[1, 2, 3, 4, 5]), None);
    assert_eq!(decode_header(&[0x01, 0x02, 0x03, 0x04]), Some(0x0403_0201));
}

#[test]
fn three_signals_trigger() {
    let mut counter = BreakCounter::new();
    let actions = feed(&mut counter, &[SIGNAL_BYTE, SIGNAL_BYTE, SIGNAL_BYTE]);
    assert_eq!(
        actions,
        vec![SerialAction::Echo(SIGNAL_BYTE), SerialAction::Echo(SIGNAL_BYTE), SerialAction::Trigger]
    );
    assert_eq!(counter.breaks(), 0);
}

#[test]
fn interleaved_bytes_do_not_reset_counter() {
    let mut counter = BreakCounter::new();
    let actions = feed(&mut counter, &[3, b'h', b'i', 3, b'\n', 3, b'x']);
    assert_eq!(
        actions,
        vec![
            SerialAction::Echo(3),
            SerialAction::Echo(b'h'),
            SerialAction::Echo(b'i'),
            SerialAction::Echo(3),
            SerialAction::Echo(b'\n'),
            SerialAction::Trigger,
            SerialAction::Echo(b'x'),
        ]
    );
    assert_eq!(counter.breaks(), 0);
}

#[test]
fn counter_stays_below_three() {
    let mut counter = BreakCounter::new();
    let mut triggers = 0;
    for i in 0..20u8 {
        assert!(counter.breaks() < 3);
        let b = if i % 2 == 0 { SIGNAL_BYTE } else { b'a' };
        if counter.on_serial_byte(b) == SerialAction::Trigger {
            triggers += 1;
            assert_eq!(counter.breaks(), 0);
        }
    }
    // ten signal bytes: three requests, one signal left over
    assert_eq!(triggers, 3);
    assert_eq!(counter.breaks(), 1);
}

#[test]
fn ack_must_be_exact() {
    assert!(is_ack(&[0x4f, 0x4b]));
    assert!(!is_ack(&[0x4f]));
    assert!(!is_ack(&[0x4b, 0x4f]));
    assert!(!is_ack(&[0x4f, 0x4b, 0x00]));
    assert!(!is_ack(&[]));
}

#[test]
fn scenario_full_transfer() {
    let image: Vec<u8> = (0..1024u32).map(|i| (i * 7 % 251) as u8).collect();
    let mut counter = BreakCounter::new();
    let actions = feed(&mut counter, &[3, 3, 3]);
    assert_eq!(actions[2], SerialAction::Trigger);

    let mut session = Session::new(image.len() as u64);
    assert_eq!(session.phase(), Phase::Idle);
    let (header, outcome) = handshake(&mut session, &[&[0x4f, 0x4b]]);
    assert_eq!(header, vec![0x00, 0x04, 0x00, 0x00]);
    assert_eq!(outcome, Ok(true));
    assert_eq!(session.phase(), Phase::Streaming);
    assert_eq!(session.load_image(image.clone()), Ok(()));
    let wire = stream(&mut session);
    assert_eq!(wire, image);
    assert_eq!(session.bytes_sent(), 1024);
    assert_eq!(session.phase(), Phase::Done);
}

#[test]
fn scenario_handshake_timeout() {
    let mut session = Session::new(1024);
    let silent: &[u8] = &[];
    let (header, outcome) = handshake(&mut session, &[silent, silent]);
    assert_eq!(header, vec![0x00, 0x04, 0x00, 0x00]);
    assert_eq!(outcome, Err(PusherErrors::HandshakeTimeout));
    assert_eq!(session.phase(), Phase::Failed);
    assert_eq!(session.bytes_sent(), 0);
}

#[test]
fn handshake_gives_up_after_all_rounds() {
    let mut session = Session::new(10);
    session.send_header().unwrap();
    session.header_flushed();
    for _ in 1..ACK_ROUNDS {
        assert_eq!(session.end_ack_round(), Ok(false));
        assert_eq!(session.phase(), Phase::AwaitingAck);
    }
    assert_eq!(session.end_ack_round(), Err(PusherErrors::HandshakeTimeout));
}

#[test]
fn unexpected_ack_fails() {
    let mut session = Session::new(16);
    let (_, outcome) = handshake(&mut session, &[&[0x4f, 0x4b, 0x00], &[]]);
    assert_eq!(outcome, Err(PusherErrors::UnexpectedAck(vec![0x4f, 0x4b, 0x00])));
    assert_eq!(session.phase(), Phase::Failed);
    assert_eq!(session.bytes_sent(), 0);

    let mut reversed = Session::new(16);
    let (_, outcome) = handshake(&mut reversed, &[&[0x4b, 0x4f], &[]]);
    assert_eq!(outcome, Err(PusherErrors::UnexpectedAck(vec![0x4b, 0x4f])));

    let mut half = Session::new(16);
    let (_, outcome) = handshake(&mut half, &[&[0x4f], &[]]);
    assert_eq!(outcome, Err(PusherErrors::UnexpectedAck(vec![0x4f])));
}

#[test]
fn ack_split_over_rounds() {
    let mut session = Session::new(2);
    let (_, outcome) = handshake(&mut session, &[&[0x4f], &[0x4b]]);
    assert_eq!(outcome, Ok(true));
    assert_eq!(session.load_image(vec![9, 8]), Ok(()));
    assert_eq!(stream(&mut session), vec![9, 8]);
    assert_eq!(session.phase(), Phase::Done);
}

#[test]
fn scenario_empty_image() {
    let mut session = Session::new(0);
    let (header, outcome) = handshake(&mut session, &[&[0x4f, 0x4b]]);
    assert_eq!(header, vec![0x00, 0x00, 0x00, 0x00]);
    assert_eq!(outcome, Ok(true));
    assert_eq!(session.load_image(Vec::new()), Ok(()));
    assert_eq!(session.next_payload_byte(), None);
    assert_eq!(session.bytes_sent(), 0);
    assert_eq!(session.phase(), Phase::Done);
}

#[test]
fn scenario_image_too_large() {
    let mut session = Session::new(0xffff_ffff);
    assert_eq!(session.send_header(), Err(PusherErrors::ImageTooLarge(0xffff_ffff)));
    assert_eq!(session.phase(), Phase::Failed);
    assert_eq!(session.bytes_sent(), 0);
}

#[test]
fn image_must_match_header() {
    let mut session = Session::new(4);
    let (_, outcome) = handshake(&mut session, &[&[0x4f, 0x4b]]);
    assert_eq!(outcome, Ok(true));
    assert_eq!(
        session.load_image(vec![1, 2, 3]),
        Err(PusherErrors::ImageLengthMismatch { expected: 4, found: 3 })
    );
    assert_eq!(session.phase(), Phase::Failed);
    assert_eq!(session.bytes_sent(), 0);
}

#[test]
fn forwarding_is_identity() {
    for b in 0..=255u8 {
        if b == CONTROL_BYTE {
            assert_eq!(forward_byte(b), None);
        } else {
            assert_eq!(forward_byte(b), Some(b));
        }
    }
}

#[test]
fn tokens_name_sources() {
    assert_eq!(classify_token(SERIAL_TOKEN), EventSource::Serial);
    assert_eq!(classify_token(STDIN_TOKEN), EventSource::Interactive);
    assert_eq!(classify_token(7), EventSource::Unknown);
}
