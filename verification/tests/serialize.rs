use protofish::schema::{
    ArbitaryData, BenchmarkStart, ClientHello, Error, ErrorType, IntegrityType, Message, Payload,
    ServerHello, StreamClose, StreamCreateMeta, StreamOpen,
};
use protofish::serialize::{deserialize_message, serialize_message};

fn round_trip(m: Message) -> Message {
    let bytes = serialize_message(m);
    deserialize_message(&bytes).unwrap()
}

#[test]
fn test_serialize() {
    let d = Message {
        context_id: 42,
        payload: Payload::ClientHello(ClientHello {
            version: protofish::schema::current_version(),
            resume_connection_token: None,
        }),
    };

    let bytes = serialize_message(d.clone());

    let value = deserialize_message(bytes.as_ref()).unwrap();

    assert_eq!(value.context_id, d.context_id);
}

#[test]
fn test_round_trip_client_hello() {
    let m = Message {
        context_id: 7,
        payload: Payload::ClientHello(ClientHello {
            version: protofish::schema::current_version(),
            resume_connection_token: Some(vec![9, 8, 7]),
        }),
    };
    assert_eq!(round_trip(m.clone()), m);
}

#[test]
fn test_round_trip_server_hello() {
    let m = Message {
        context_id: 0,
        payload: Payload::ServerHello(ServerHello {
            version: protofish::schema::current_version(),
            ok: true,
            connection_token: Some(vec![0xAB; 32]),
            message: None,
        }),
    };
    assert_eq!(round_trip(m.clone()), m);

    let m = Message {
        context_id: 1,
        payload: Payload::ServerHello(ServerHello {
            version: protofish::schema::current_version(),
            ok: false,
            connection_token: None,
            message: Some(String::from("Resume connection is not supported.")),
        }),
    };
    assert_eq!(round_trip(m.clone()), m);
}

#[test]
fn test_round_trip_unit_payloads() {
    for payload in [Payload::Okay, Payload::Keepalive, Payload::Close, Payload::BenchmarkEnd] {
        let m = Message { context_id: 123456789, payload };
        assert_eq!(round_trip(m.clone()), m);
    }
}

#[test]
fn test_round_trip_error() {
    let m = Message {
        context_id: 3,
        payload: Payload::Error(Error {
            error_type: ErrorType::Timeout,
            message: String::from("Request timed out"),
        }),
    };
    assert_eq!(round_trip(m.clone()), m);
}

#[test]
fn test_round_trip_error_unicode_message() {
    let m = Message {
        context_id: 3,
        payload: Payload::Error(Error {
            error_type: ErrorType::Unspecified,
            message: String::from("zeitüberschreitung — 時間切れ"),
        }),
    };
    assert_eq!(round_trip(m.clone()), m);
}

#[test]
fn test_round_trip_streams_and_benchmark() {
    let m = Message {
        context_id: 4,
        payload: Payload::StreamOpen(StreamOpen {
            stream_id: 99,
            meta: StreamCreateMeta { integrity_type: IntegrityType::Unreliable },
        }),
    };
    assert_eq!(round_trip(m.clone()), m);

    let m = Message { context_id: 5, payload: Payload::StreamClose(StreamClose { stream_id: 99 }) };
    assert_eq!(round_trip(m.clone()), m);

    let m = Message {
        context_id: 6,
        payload: Payload::BenchmarkStart(BenchmarkStart {
            integrity_type: IntegrityType::Reliable,
            byte_count: 1 << 40,
        }),
    };
    assert_eq!(round_trip(m.clone()), m);
}

#[test]
fn test_round_trip_arbitary_data() {
    let m = Message {
        context_id: 2,
        payload: Payload::ArbitaryData(ArbitaryData { content: (0..=255).collect() }),
    };
    assert_eq!(round_trip(m.clone()), m);

    let m = Message {
        context_id: 2,
        payload: Payload::ArbitaryData(ArbitaryData { content: Vec::new() }),
    };
    assert_eq!(round_trip(m.clone()), m);
}

#[test]
fn test_deserialize_rejects_garbage() {
    // Too short for a context id.
    assert!(deserialize_message(&[1, 2, 3]).is_none());
    // Unknown payload variant tag.
    let mut bytes = serialize_message(Message { context_id: 0, payload: Payload::Okay });
    let tag_index = 9;
    bytes[tag_index] = 200;
    assert!(deserialize_message(&bytes).is_none());
    // Trailing bytes after a whole message.
    let mut bytes = serialize_message(Message { context_id: 0, payload: Payload::Okay });
    bytes.push(0);
    assert!(deserialize_message(&bytes).is_none());
    // Truncated body.
    let bytes = serialize_message(Message {
        context_id: 0,
        payload: Payload::ArbitaryData(ArbitaryData { content: vec![1, 2, 3] }),
    });
    assert!(deserialize_message(&bytes[..bytes.len() - 1]).is_none());
    // A string field that is not valid UTF-8 after decoding.
    let good = serialize_message(Message {
        context_id: 0,
        payload: Payload::Error(Error {
            error_type: ErrorType::Unspecified,
            message: String::from("ab"),
        }),
    });
    let mut bad = good.clone();
    let last = bad.len() - 1;
    bad[last] = 0xFF;
    assert!(deserialize_message(&bad).is_none());
    assert!(deserialize_message(&good).is_some());
}
