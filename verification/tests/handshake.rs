use protofish::arbitrary::{
    arb_read_payload, arb_write_payload, interpret_stream_open, make_message, stream_open_payload,
};
use protofish::dispatch::FrameRouter;
use protofish::errors::{ArbError, ConnectionError};
use protofish::framing::{decode_frames, encode_frame};
use protofish::handshake::{
    accept_event_stream, client_hello_payload, generate_connection_token, interpret_server_hello,
    server_handshake_reply,
};
use protofish::schema::{IntegrityType, Payload, ServerHello};
use protofish::utp::UTPEvent;

#[test]
fn test_connection_token_length() {
    let token = generate_connection_token();
    assert_eq!(token.len(), 32);
}

#[test]
fn test_happy_handshake() {
    // Client builds its hello; the bytes cross the wire; the server
    // accepts with a fresh 32-byte token; the client reads the token back.
    let hello = client_hello_payload(None);
    let frame = encode_frame(make_message(0, hello));
    let at_server = decode_frames(&frame);
    assert_eq!(at_server.len(), 1);
    assert_eq!(at_server[0].context_id, 0);

    let token = generate_connection_token();
    let reply = server_handshake_reply(at_server[0].payload.clone(), token.clone()).unwrap();
    assert!(reply.ok);
    assert_eq!(reply.connection_token.as_deref(), Some(&token[..]));
    assert_eq!(reply.message, None);

    let frame = encode_frame(make_message(0, Payload::ServerHello(reply)));
    let at_client = decode_frames(&frame);
    let got = interpret_server_hello(at_client[0].payload.clone()).unwrap();
    assert_eq!(got, token);
}

#[test]
fn test_resume_rejection() {
    // A ClientHello presenting a resume token — even an empty one — is
    // declined, and connect surfaces a handshake rejection.
    let hello = client_hello_payload(Some(vec![]));
    let reply = server_handshake_reply(hello, generate_connection_token()).unwrap();
    assert!(!reply.ok);
    assert_eq!(reply.connection_token, None);
    assert_eq!(reply.message.as_deref(), Some("Resume connection is not supported."));

    let client_outcome = interpret_server_hello(Payload::ServerHello(reply));
    match client_outcome {
        Err(ConnectionError::HandshakeReject(msg)) => {
            assert_eq!(msg, "Resume connection is not supported.");
        }
        other => panic!("expected a handshake rejection, got {:?}", other),
    }
}

#[test]
fn test_server_rejects_non_hello() {
    let outcome = server_handshake_reply(Payload::Keepalive, generate_connection_token());
    match outcome {
        Err(ConnectionError::MalformedPayload(msg, payload)) => {
            assert_eq!(msg, "expected ClientHello");
            assert!(matches!(payload, Payload::Keepalive));
        }
        other => panic!("expected a malformed payload error, got {:?}", other),
    }
}

#[test]
fn test_client_rejects_missing_token() {
    let reply = ServerHello {
        version: protofish::schema::current_version(),
        ok: true,
        connection_token: None,
        message: None,
    };
    match interpret_server_hello(Payload::ServerHello(reply)) {
        Err(ConnectionError::MalformedData(msg)) => {
            assert_eq!(msg, "connection token is not provided");
        }
        other => panic!("expected a malformed data error, got {:?}", other),
    }
}

#[test]
fn test_client_rejects_non_server_hello() {
    match interpret_server_hello(Payload::Okay) {
        Err(ConnectionError::MalformedPayload(msg, payload)) => {
            assert_eq!(msg, "expected ServerHello");
            assert!(matches!(payload, Payload::Okay));
        }
        other => panic!("expected a malformed payload error, got {:?}", other),
    }
}

#[test]
fn test_accept_event() {
    assert_eq!(accept_event_stream(UTPEvent::NewStream(3)), Ok(3));
    assert_eq!(
        accept_event_stream(UTPEvent::UnexpectedClose),
        Err(ConnectionError::ClosedStream)
    );
}

#[test]
fn test_echo_over_arbitrary_context() {
    // Server writes "muffin" on a fresh context; client reads it, answers
    // "muffinmuffin"; server reads that back. Bytes cross the codec and
    // the frame router both ways.
    let mut client_router = FrameRouter::new();

    let server_write = encode_frame(make_message(1, arb_write_payload(b"muffin".to_vec())));
    client_router.dispatch_all(decode_frames(&server_write));

    let seed = client_router.next_context_message().unwrap();
    assert_eq!(seed.context_id, 1);
    let got = arb_read_payload(seed.payload).unwrap();
    assert_eq!(got, b"muffin");

    let mut reply = got.clone();
    reply.extend_from_slice(&got);
    let client_write = encode_frame(make_message(1, arb_write_payload(reply)));

    let mut server_router = FrameRouter::new();
    server_router.subscribe_context(1, None);
    server_router.dispatch_all(decode_frames(&client_write));
    let echoed = arb_read_payload(server_router.read_context(1).unwrap()).unwrap();
    assert_eq!(echoed, b"muffinmuffin");
}

#[test]
fn test_stream_open_announcement() {
    // Opening a reliable sub-stream announces its id and integrity class;
    // the peer resolves exactly those.
    let p = stream_open_payload(40, IntegrityType::Reliable);
    let frame = encode_frame(make_message(2, p));
    let at_peer = decode_frames(&frame);
    let (stream_id, integrity) = interpret_stream_open(at_peer[0].payload.clone()).unwrap();
    assert_eq!(stream_id, 40);
    assert_eq!(integrity, IntegrityType::Reliable);
}

#[test]
fn test_wrong_variant_leaves_context_usable() {
    match arb_read_payload(Payload::Keepalive) {
        Err(ArbError::UnexpectedData(msg)) => assert_eq!(msg, "expected ArbitaryData"),
        other => panic!("expected an unexpected-data error, got {:?}", other),
    }
    match interpret_stream_open(Payload::Okay) {
        Err(ArbError::UnexpectedData(_)) => {}
        other => panic!("expected an unexpected-data error, got {:?}", other),
    }
}
