use protofish::datagram::{datagrams_for_write, encode_datagram, parse_datagram, split_chunks};

#[test]
fn test_short_datagram_discarded() {
    // A 7-byte datagram is shorter than its stream-id prefix: dropped,
    // without raising.
    assert!(parse_datagram(&[1, 2, 3, 4, 5, 6, 7]).is_none());
    assert!(parse_datagram(&[]).is_none());
    // Exactly 8 bytes is a datagram with an empty payload.
    let parsed = parse_datagram(&5u64.to_le_bytes()).unwrap();
    assert_eq!(parsed.0, 5);
    assert!(parsed.1.is_empty());
}

#[test]
fn test_datagram_round_trip() {
    let d = encode_datagram(77, b"payload");
    assert_eq!(d.len(), 8 + 7);
    let (id, payload) = parse_datagram(&d).unwrap();
    assert_eq!(id, 77);
    assert_eq!(payload, b"payload");
}

#[test]
fn test_chunk_count() {
    // 200 bytes with 100-byte datagrams leave 92 payload bytes per
    // datagram: three datagrams.
    let data: Vec<u8> = (0..200u8).collect();
    let datagrams = datagrams_for_write(3, &data, 100);
    assert_eq!(datagrams.len(), 3);
    assert_eq!(datagrams[0].len(), 100);
    assert_eq!(datagrams[1].len(), 100);
    assert_eq!(datagrams[2].len(), 8 + 16);

    // A write that fits one datagram produces one.
    let datagrams = datagrams_for_write(3, &data[..92], 100);
    assert_eq!(datagrams.len(), 1);

    // An empty write produces none.
    let datagrams = datagrams_for_write(3, &[], 100);
    assert_eq!(datagrams.len(), 0);
}

#[test]
fn test_chunks_spell_the_data() {
    let data: Vec<u8> = (0..=255u8).map(|b| b.wrapping_mul(7)).collect();
    let chunks = split_chunks(&data, 60);
    assert_eq!(chunks.len(), 5);
    let mut joined: Vec<u8> = Vec::new();
    for c in &chunks {
        assert!(!c.is_empty() && c.len() <= 60);
        joined.extend_from_slice(c);
    }
    assert_eq!(joined, data);
}

#[test]
fn test_unreliable_transfer_prefix() {
    // 200 bytes written; the receiver reassembles the routed datagrams in
    // order and reads its first 100 bytes: the prefix of what was written.
    let data: Vec<u8> = (0..200u8).map(|b| b.wrapping_add(13)).collect();
    let datagrams = datagrams_for_write(11, &data, 100);
    let mut pipe: Vec<u8> = Vec::new();
    for d in &datagrams {
        let (id, payload) = parse_datagram(d).unwrap();
        assert_eq!(id, 11);
        pipe.extend_from_slice(&payload);
    }
    assert_eq!(&pipe[..100], &data[..100]);
    assert_eq!(pipe, data);
}
