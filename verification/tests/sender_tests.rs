use nearby_transfer::errors::TransferError;
use nearby_transfer::sender::header_payloads;
use nearby_transfer::sender::next_chunk_len;
use nearby_transfer::sender::summarize;
use nearby_transfer::sender::FileSender;
use nearby_transfer::wire::be_to_u64;

#[test]
fn headers_follow_the_wire_order() {
    let identity: String = std::iter::repeat('t').take(64).collect();
    let name = "data.bin".as_bytes().to_vec();
    let headers = header_payloads(&identity, &name, 12345).expect("headers");
    assert_eq!(headers.len(), 4);
    assert_eq!(headers[0], identity.as_bytes().to_vec());
    assert_eq!(be_to_u64(&headers[1]), name.len() as u64);
    assert_eq!(headers[2], name);
    assert_eq!(be_to_u64(&headers[3]), 12345);
}

#[test]
fn a_wrong_length_identity_aborts_before_any_write() {
    let name = "data.bin".as_bytes().to_vec();
    let short: String = std::iter::repeat('t').take(63).collect();
    assert_eq!(
        header_payloads(&short, &name, 1),
        Err(TransferError::IdentityInvalid)
    );
    let long: String = std::iter::repeat('t').take(65).collect();
    assert_eq!(
        header_payloads(&long, &name, 1),
        Err(TransferError::IdentityInvalid)
    );
}

#[test]
fn chunks_cover_the_body_exactly() {
    assert_eq!(next_chunk_len(0, 0), 0);
    assert_eq!(next_chunk_len(100, 0), 100);
    assert_eq!(next_chunk_len(32768, 0), 32768);
    assert_eq!(next_chunk_len(32769, 0), 32768);
    assert_eq!(next_chunk_len(32769, 32768), 1);
    // Walking a body with the planner always lands exactly on the size.
    let size: u64 = 10485760 + 7;
    let mut sent: u64 = 0;
    let mut chunks: u64 = 0;
    loop {
        let n = next_chunk_len(size, sent);
        if n == 0 {
            break;
        }
        sent += n;
        chunks += 1;
    }
    assert_eq!(sent, size);
    assert_eq!(chunks, size / 32768 + 1);
}

#[test]
fn an_empty_target_defaults_to_the_local_host() {
    assert_eq!(nearby_transfer::sender::effective_target(""), "::1");
    assert_eq!(nearby_transfer::sender::effective_target("fe80::2"), "fe80::2");
    assert_eq!(nearby_transfer::sender::effective_target("::1"), "::1");
}

#[test]
fn chunk_lists_partition_the_body() {
    let body: Vec<u8> = (0..70000u32).map(|i| (i % 251) as u8).collect();
    let chunks = nearby_transfer::sender::body_chunks(&body);
    assert_eq!(chunks.len(), 3);
    assert_eq!(chunks[0].len(), 32768);
    assert_eq!(chunks[1].len(), 32768);
    assert_eq!(chunks[2].len(), 4464);
    let mut glued = Vec::new();
    for c in &chunks {
        glued.extend_from_slice(c);
    }
    assert_eq!(glued, body);
    assert!(nearby_transfer::sender::body_chunks(&Vec::new()).is_empty());
}

#[test]
fn outbound_slots_stop_at_five() {
    let mut s = FileSender::new();
    for _ in 0..5 {
        assert!(s.try_acquire_slot());
    }
    // The sixth transfer must wait until a slot frees.
    assert!(!s.try_acquire_slot());
    s.release_slot();
    assert!(s.try_acquire_slot());
}

#[test]
fn batch_counts_add_up() {
    let results = vec![
        (String::from("a"), Ok(())),
        (String::from("b"), Err(TransferError::Io)),
        (String::from("c"), Ok(())),
        (String::from("d"), Err(TransferError::Handshake)),
        (String::from("e"), Err(TransferError::Incomplete)),
    ];
    assert_eq!(summarize(&results), (2, 3));
    assert_eq!(summarize(&Vec::new()), (0, 0));
    let all_ok = vec![(String::from("a"), Ok(())), (String::from("b"), Ok(()))];
    assert_eq!(summarize(&all_ok), (2, 0));
}
