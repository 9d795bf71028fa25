use protofish::dispatch::FrameRouter;
use protofish::schema::{ArbitaryData, Message, Payload};
use protofish::utp::UTPError;

fn arb(context_id: u64, content: &[u8]) -> Message {
    Message {
        context_id,
        payload: Payload::ArbitaryData(ArbitaryData { content: content.to_vec() }),
    }
}

#[test]
fn test_dispatch_to_subscriber() {
    let mut router = FrameRouter::new();
    router.subscribe_context(4, None);
    router.dispatch(arb(4, b"hello"));
    // The frame went to the mailbox, not the pending queue.
    assert_eq!(router.read_context(4), Some(arb(4, b"hello").payload));
    assert!(router.next_context_message().is_none());
}

#[test]
fn test_dispatch_to_pending() {
    let mut router = FrameRouter::new();
    router.subscribe_context(4, None);
    router.dispatch(arb(6, b"new"));
    // The frame went, in full, to the pending queue.
    assert!(router.read_context(4).is_none());
    assert_eq!(router.next_context_message(), Some(arb(6, b"new")));
    assert!(router.next_context_message().is_none());
}

#[test]
fn test_subscribe_with_initial_payload() {
    let mut router = FrameRouter::new();
    let seed = arb(8, b"seed");
    router.subscribe_context(8, Some(seed.payload.clone()));
    assert_eq!(router.read_context(8), Some(seed.payload));
    assert!(router.read_context(8).is_none());
}

#[test]
fn test_mailbox_order() {
    let mut router = FrameRouter::new();
    router.subscribe_context(2, None);
    for i in 0..10u8 {
        router.dispatch(arb(2, &[i]));
    }
    for i in 0..10u8 {
        assert_eq!(router.read_context(2), Some(arb(2, &[i]).payload));
    }
}

#[test]
fn test_unsubscribe_falls_through() {
    let mut router = FrameRouter::new();
    router.subscribe_context(2, None);
    router.unsubscribe_context(2);
    router.dispatch(arb(2, b"late"));
    assert_eq!(router.next_context_message(), Some(arb(2, b"late")));
}

#[test]
fn test_concurrent_contexts_no_cross_talk() {
    // Three contexts, each carrying its own 10-byte payload; every mailbox
    // sees exactly its own bytes, in order, and nothing of the others.
    let mut router = FrameRouter::new();
    for id in [0u64, 2, 4] {
        router.subscribe_context(id, None);
    }
    let mut messages = Vec::new();
    for round in 0..3u8 {
        for id in [0u64, 2, 4] {
            let body: Vec<u8> = (0..10u8).map(|b| b + round * 10 + id as u8).collect();
            messages.push(arb(id, &body));
        }
    }
    router.dispatch_all(messages.clone());
    for id in [0u64, 2, 4] {
        for round in 0..3u8 {
            let expected: Vec<u8> = (0..10u8).map(|b| b + round * 10 + id as u8).collect();
            assert_eq!(router.read_context(id), Some(Payload::ArbitaryData(ArbitaryData {
                content: expected,
            })));
        }
        assert!(router.read_context(id).is_none());
    }
    assert!(router.next_context_message().is_none());
}

#[test]
fn test_handle_recv_outcomes() {
    let mut router = FrameRouter::new();
    router.subscribe_context(0, None);

    // A decoded message is dispatched, and reading continues.
    assert!(router.handle_recv(Ok(Some(arb(0, b"x")))));
    assert_eq!(router.read_context(0), Some(arb(0, b"x").payload));

    // A frame that did not decode is dropped; reading continues.
    assert!(router.handle_recv(Ok(None)));
    assert!(router.read_context(0).is_none());

    // A warning continues; a fatal error or end-of-stream stops the loop.
    assert!(router.handle_recv(Err(UTPError::Warn(String::from("slow")))));
    assert!(!router.handle_recv(Err(UTPError::Fatal(String::from("broken")))));
    assert!(!router.handle_recv(Err(UTPError::Io(String::from("eof")))));
}
