use protofish::framing::{decode_frames, encode_frame};
use protofish::schema::{ArbitaryData, Message, Payload};

fn arb_message(context_id: u64, content: &[u8]) -> Message {
    Message {
        context_id,
        payload: Payload::ArbitaryData(ArbitaryData { content: content.to_vec() }),
    }
}

#[test]
fn test_frame_stream_round_trip() {
    let messages = vec![
        arb_message(0, b"muffin"),
        arb_message(2, b""),
        Message { context_id: 4, payload: Payload::Keepalive },
        arb_message(0, b"muffinmuffin"),
    ];
    let mut stream: Vec<u8> = Vec::new();
    for m in &messages {
        stream.extend_from_slice(&encode_frame(m.clone()));
    }
    let decoded = decode_frames(&stream);
    assert_eq!(decoded, messages);
}

#[test]
fn test_frame_layout() {
    let frame = encode_frame(Message { context_id: 1, payload: Payload::Okay });
    // Body: 8 bytes of context id, a presence byte, a variant tag.
    assert_eq!(frame.len(), 8 + 10);
    assert_eq!(&frame[0..8], &10u64.to_le_bytes());
}

#[test]
fn test_reader_skips_undecodable_frame() {
    let first = encode_frame(arb_message(0, b"before"));
    let last = encode_frame(arb_message(0, b"after"));
    // A frame whose body is three garbage bytes: length prefix 3, then junk.
    let mut stream: Vec<u8> = Vec::new();
    stream.extend_from_slice(&first);
    stream.extend_from_slice(&3u64.to_le_bytes());
    stream.extend_from_slice(&[0xDE, 0xAD, 0xBE]);
    stream.extend_from_slice(&last);
    let decoded = decode_frames(&stream);
    assert_eq!(decoded, vec![arb_message(0, b"before"), arb_message(0, b"after")]);
}

#[test]
fn test_reader_stops_at_partial_frame() {
    let first = encode_frame(arb_message(9, b"whole"));
    let mut stream = first.clone();
    let second = encode_frame(arb_message(9, b"partial"));
    stream.extend_from_slice(&second[..second.len() - 1]);
    let decoded = decode_frames(&stream);
    assert_eq!(decoded, vec![arb_message(9, b"whole")]);
}

#[test]
fn test_empty_stream_yields_nothing() {
    assert!(decode_frames(&[]).is_empty());
}
