use nearby_transfer::channel::ack_outcome;
use nearby_transfer::channel::open_frame;
use nearby_transfer::channel::read_encrypted;
use nearby_transfer::channel::seal_frame;
use nearby_transfer::channel::sentinel_frame;
use nearby_transfer::errors::TransferError;
use nearby_transfer::handshake::initiator_start;
use nearby_transfer::handshake::initiator_finish;
use nearby_transfer::handshake::plain_frame;
use nearby_transfer::handshake::responder_finish;
use nearby_transfer::handshake::responder_start;

/// Run the 3-message handshake in memory and hand back both transport
/// states: the initiator's and the responder's.
fn handshake_pair() -> (snow::TransportState, snow::TransportState) {
    let (hs_i, msg1) = initiator_start().expect("initiator start");
    let (hs_r, msg2) = responder_start(&msg1).expect("responder start");
    let (t_i, msg3) = initiator_finish(hs_i, &msg2).expect("initiator finish");
    let t_r = responder_finish(hs_r, &msg3).expect("responder finish");
    (t_i, t_r)
}

#[test]
fn handshake_frames_carry_their_length() {
    let (_, msg1) = initiator_start().expect("initiator start");
    let framed = plain_frame(&msg1);
    assert_eq!(framed.len(), msg1.len() + 2);
    let declared = ((framed[0] as usize) << 8) | framed[1] as usize;
    assert_eq!(declared, msg1.len());
    assert_eq!(&framed[2..], &msg1[..]);
}

#[test]
fn transport_states_interoperate_in_both_directions() {
    let (mut t_i, mut t_r) = handshake_pair();
    let forward = b"from initiator to responder".to_vec();
    let frame = seal_frame(&mut t_i, &forward).expect("seal");
    let opened = open_frame(&mut t_r, &frame[2..]).expect("open");
    assert_eq!(opened, forward);

    let back = b"from responder to initiator".to_vec();
    let frame = seal_frame(&mut t_r, &back).expect("seal");
    let opened = open_frame(&mut t_i, &frame[2..]).expect("open");
    assert_eq!(opened, back);
}

#[test]
fn seal_then_open_round_trips_and_hides_the_payload() {
    let (mut t_i, mut t_r) = handshake_pair();
    let message = b"round trip me".to_vec();
    let frame = seal_frame(&mut t_i, &message).expect("seal");
    // The ciphertext is the payload plus the 16-byte tag, and differs
    // from the plaintext.
    assert_eq!(frame.len(), message.len() + 2 + 16);
    assert_ne!(&frame[2..2 + message.len()], &message[..]);
    let opened = open_frame(&mut t_r, &frame[2..]).expect("open");
    assert_eq!(opened, message);
}

#[test]
fn corrupted_ciphertext_fails_to_open() {
    let (mut t_i, mut t_r) = handshake_pair();
    let message = b"integrity matters".to_vec();
    let mut frame = seal_frame(&mut t_i, &message).expect("seal");
    frame[5] ^= 0x40;
    let r = open_frame(&mut t_r, &frame[2..]);
    assert_eq!(r, Err(TransferError::Framing));
}

#[test]
fn oversized_payload_is_refused() {
    let (mut t_i, _) = handshake_pair();
    let too_big = vec![0u8; 65520];
    let r = seal_frame(&mut t_i, &too_big);
    assert_eq!(r, Err(TransferError::Framing));
    // The largest payload that fits one frame is accepted.
    let fits = vec![0u8; 65519];
    assert!(seal_frame(&mut t_i, &fits).is_ok());
}

#[test]
fn sentinel_is_two_zero_bytes() {
    assert_eq!(sentinel_frame(), vec![0, 0]);
}

#[test]
fn reading_a_sentinel_consumes_only_the_prefix() {
    let (mut t_i, mut t_r) = handshake_pair();
    let mut stream = sentinel_frame();
    // Trailing bytes after the sentinel must stay untouched.
    let frame = seal_frame(&mut t_i, &b"after".to_vec()).expect("seal");
    stream.extend_from_slice(&frame);
    let (payload, pos) = read_encrypted(&mut t_r, &stream, 0).expect("read sentinel");
    assert_eq!(payload.len(), 0);
    assert_eq!(pos, 2);
    let (payload, pos) = read_encrypted(&mut t_r, &stream, pos).expect("read data");
    assert_eq!(payload, b"after".to_vec());
    assert_eq!(pos, stream.len());
}

#[test]
fn truncated_stream_fails_the_read() {
    let (mut t_i, mut t_r) = handshake_pair();
    let frame = seal_frame(&mut t_i, &b"cut short".to_vec()).expect("seal");
    let stream = frame[..frame.len() - 1].to_vec();
    let r = read_encrypted(&mut t_r, &stream, 0);
    assert_eq!(r, Err(TransferError::Framing));
    let r = read_encrypted(&mut t_r, &vec![0x00], 0);
    assert_eq!(r, Err(TransferError::Framing));
}

#[test]
fn a_garbage_handshake_message_fails() {
    // Too short to carry the ephemeral key.
    let truncated = vec![0x42u8; 10];
    assert_eq!(responder_start(&truncated).err(), Some(TransferError::Handshake));
    // Long enough, but its encrypted parts cannot verify.
    let garbage = vec![0x42u8; 96];
    let (hs_i, _) = initiator_start().expect("initiator start");
    assert_eq!(
        initiator_finish(hs_i, &garbage).err(),
        Some(TransferError::Handshake)
    );
}

#[test]
fn ack_accepts_only_the_sentinel() {
    assert_eq!(ack_outcome(0), Ok(()));
    assert_eq!(ack_outcome(1), Err(TransferError::Protocol));
    assert_eq!(ack_outcome(65535), Err(TransferError::Protocol));
}
