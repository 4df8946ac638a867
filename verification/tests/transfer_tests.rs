//! End-to-end transfers run in memory: the sender's plan seals frames
//! into one byte stream through a real handshake, and the receiver
//! session consumes that stream frame by frame.

use nearby_transfer::admission::ReceiveStatus;
use nearby_transfer::channel::read_encrypted;
use nearby_transfer::channel::seal_frame;
use nearby_transfer::channel::sentinel_frame;
use nearby_transfer::handshake::initiator_start;
use nearby_transfer::handshake::initiator_finish;
use nearby_transfer::handshake::responder_finish;
use nearby_transfer::handshake::responder_start;
use nearby_transfer::receiver::RecvAction;
use nearby_transfer::receiver::RecvPhase;
use nearby_transfer::receiver::RecvSession;
use nearby_transfer::records::FileReceiveRecord;
use nearby_transfer::sender::header_payloads;
use nearby_transfer::sender::body_chunks;
use nearby_transfer::sender::next_chunk_len;
use nearby_transfer::stream::admit_from_stream;
use nearby_transfer::stream::receive_content;
use nearby_transfer::stream::StreamAdmission;
use nearby_transfer::stream::StreamReceipt;

fn handshake_pair() -> (snow::TransportState, snow::TransportState) {
    let (hs_i, msg1) = initiator_start().expect("initiator start");
    let (hs_r, msg2) = responder_start(&msg1).expect("responder start");
    let (t_i, msg3) = initiator_finish(hs_i, &msg2).expect("initiator finish");
    let t_r = responder_finish(hs_r, &msg3).expect("responder finish");
    (t_i, t_r)
}

/// Seal one whole transfer into a byte stream, as the sender would put
/// it on the wire.
fn sender_stream(
    t: &mut snow::TransportState,
    identity: &str,
    name: &str,
    body: &[u8],
) -> Vec<u8> {
    let mut stream = Vec::new();
    let headers = header_payloads(identity, &name.as_bytes().to_vec(), body.len() as u64)
        .expect("headers");
    for payload in &headers {
        stream.extend_from_slice(&seal_frame(t, payload).expect("seal header"));
    }
    let mut sent: u64 = 0;
    for chunk in body_chunks(&body.to_vec()) {
        // The chunk planner and the chunk splitter agree step by step.
        assert_eq!(chunk.len() as u64, next_chunk_len(body.len() as u64, sent));
        stream.extend_from_slice(&seal_frame(t, &chunk).expect("seal chunk"));
        sent += chunk.len() as u64;
    }
    assert_eq!(sent, body.len() as u64);
    stream.extend_from_slice(&sentinel_frame());
    stream
}

/// Drive a receiver session over a sender's stream, collecting the body
/// it would write to disk; on completion hand back the record.
fn drive_receiver(
    t: &mut snow::TransportState,
    mode: ReceiveStatus,
    whitelisted: bool,
    peer: &str,
    save_path: &str,
    stream: &[u8],
) -> (Option<FileReceiveRecord>, Vec<u8>, usize) {
    let input = stream.to_vec();
    let mut pos = 0;
    let mut body = Vec::new();
    let mut session = RecvSession::new(mode, String::from(peer));
    loop {
        let (payload, next) = read_encrypted(t, &input, pos).expect("read frame");
        pos = next;
        let action = if payload.is_empty() {
            session.on_sentinel()
        } else {
            match session.phase() {
                RecvPhase::AwaitIdentity => session.on_identity(payload),
                RecvPhase::AwaitNameLen => session.on_name_len(payload),
                RecvPhase::AwaitName => session.on_name(payload),
                RecvPhase::AwaitSize => session.on_size(payload),
                RecvPhase::AwaitBody => {
                    let action = session.on_chunk(payload.len() as u64);
                    if action == RecvAction::StoreChunk || action == RecvAction::Complete {
                        body.extend_from_slice(&payload);
                    }
                    action
                }
                other => panic!("no frame expected in phase {:?}", other),
            }
        };
        match action {
            RecvAction::Proceed | RecvAction::StoreChunk => {}
            RecvAction::CheckWhitelist => {
                assert_eq!(session.on_whitelist(whitelisted), if whitelisted {
                    RecvAction::Proceed
                } else {
                    RecvAction::Reject
                });
                if !whitelisted {
                    return (None, body, pos);
                }
            }
            RecvAction::Complete => {
                let record = session.take_record(String::from(save_path));
                return (Some(record), body, pos);
            }
            RecvAction::Reject => return (None, body, pos),
            RecvAction::CloseEarly => return (None, body, pos),
            RecvAction::Fail(e) => panic!("transfer failed: {:?}", e),
        }
    }
}

#[test]
fn a_ten_megabyte_file_arrives_intact_under_open_mode() {
    let (mut t_i, mut t_r) = handshake_pair();
    let identity: String = std::iter::repeat('I').take(64).collect();
    let size = 10485760usize;
    let mut source = vec![0u8; size];
    for (i, b) in source.iter_mut().enumerate() {
        *b = (i % 251) as u8;
    }
    let stream = sender_stream(&mut t_i, &identity, "big.bin", &source);
    let (record, body, _) = drive_receiver(
        &mut t_r,
        ReceiveStatus::Open,
        false,
        "::1",
        "/downloads/big.bin",
        &stream,
    );
    let record = record.expect("completed transfer");
    assert_eq!(record.filename, "big.bin");
    assert_eq!(record.file_size, 10485760);
    assert_eq!(record.sender_identity, identity);
    assert_eq!(record.sender_ipv6, "::1");
    assert_eq!(record.save_path, "/downloads/big.bin");
    assert_eq!(body, source);
}

#[test]
fn an_unlisted_identity_under_collect_mode_stores_nothing() {
    let (mut t_i, mut t_r) = handshake_pair();
    let identity: String = std::iter::repeat('I').take(64).collect();
    let source = vec![7u8; 4096];
    let stream = sender_stream(&mut t_i, &identity, "big.bin", &source);
    let (record, body, consumed) = drive_receiver(
        &mut t_r,
        ReceiveStatus::Collect,
        false,
        "::1",
        "/downloads/big.bin",
        &stream,
    );
    // The sender is turned away with the sentinel: no record, no file
    // bytes, and nothing read past the identity frame.
    assert!(record.is_none());
    assert!(body.is_empty());
    assert_eq!(consumed, 2 + 64 + 16);
}

#[test]
fn the_stream_driver_delivers_the_same_transfer() {
    let (mut t_i, mut t_r) = handshake_pair();
    let identity: String = std::iter::repeat('S').take(64).collect();
    let source: Vec<u8> = (0..200000u32).map(|i| (i % 13) as u8).collect();
    let stream = sender_stream(&mut t_i, &identity, "driver.bin", &source);
    let mut session = RecvSession::new(ReceiveStatus::Open, String::from("::1"));
    let (admission, pos) =
        admit_from_stream(&mut t_r, &mut session, &stream, 0).expect("admission");
    assert_eq!(admission, StreamAdmission::Admitted);
    let (receipt, _) = receive_content(
        &mut t_r,
        session,
        &stream,
        pos,
        String::from("/downloads/driver.bin"),
    )
    .expect("content");
    match receipt {
        StreamReceipt::Completed(record, body) => {
            assert_eq!(record.filename, "driver.bin");
            assert_eq!(record.file_size, 200000);
            assert_eq!(record.sender_identity, identity);
            assert_eq!(body, source);
        }
        StreamReceipt::ClosedEarly => panic!("expected a completed transfer"),
    }
}

#[test]
fn the_stream_driver_turns_a_closed_receiver_away() {
    let (mut t_i, mut t_r) = handshake_pair();
    let identity: String = std::iter::repeat('S').take(64).collect();
    let stream = sender_stream(&mut t_i, &identity, "driver.bin", &[1, 2, 3]);
    let mut session = RecvSession::new(ReceiveStatus::Closed, String::from("::1"));
    let (admission, pos) =
        admit_from_stream(&mut t_r, &mut session, &stream, 0).expect("admission");
    assert_eq!(admission, StreamAdmission::Rejected);
    // Nothing is read past the identity frame.
    assert_eq!(pos, 2 + 64 + 16);
}

#[test]
fn a_sentinel_in_place_of_the_identity_closes_cleanly() {
    let (_, mut t_r) = handshake_pair();
    // The peer says goodbye before presenting an identity; trailing
    // bytes must stay unread.
    let mut stream = sentinel_frame();
    stream.extend_from_slice(&[0xab, 0xcd, 0xef]);
    let mut session = RecvSession::new(ReceiveStatus::Open, String::from("::1"));
    let (admission, pos) =
        admit_from_stream(&mut t_r, &mut session, &stream, 0).expect("admission");
    assert_eq!(admission, StreamAdmission::ClosedEarly);
    assert_eq!(pos, 2);
    assert_eq!(session.phase(), RecvPhase::AwaitIdentity);
}

#[test]
fn a_sentinel_in_place_of_the_filename_length_closes_cleanly() {
    let (mut t_i, mut t_r) = handshake_pair();
    let identity: String = std::iter::repeat('S').take(64).collect();
    let mut stream = Vec::new();
    stream.extend_from_slice(
        &seal_frame(&mut t_i, identity.as_bytes()).expect("seal identity"),
    );
    stream.extend_from_slice(&sentinel_frame());
    let mut session = RecvSession::new(ReceiveStatus::Open, String::from("::1"));
    let (admission, pos) =
        admit_from_stream(&mut t_r, &mut session, &stream, 0).expect("admission");
    assert_eq!(admission, StreamAdmission::Admitted);
    let (receipt, consumed) =
        receive_content(&mut t_r, session, &stream, pos, String::from("/downloads/x"))
            .expect("content");
    assert!(matches!(receipt, StreamReceipt::ClosedEarly));
    assert_eq!(consumed, pos + 2);
}

#[test]
fn an_empty_file_travels_as_headers_and_sentinel_alone() {
    let (mut t_i, mut t_r) = handshake_pair();
    let identity: String = std::iter::repeat('e').take(64).collect();
    let stream = sender_stream(&mut t_i, &identity, "nothing.txt", &[]);
    let (record, body, _) = drive_receiver(
        &mut t_r,
        ReceiveStatus::Open,
        true,
        "::1",
        "/downloads/nothing.txt",
        &stream,
    );
    let record = record.expect("completed transfer");
    assert_eq!(record.file_size, 0);
    assert!(body.is_empty());
}
