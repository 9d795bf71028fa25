use protofish::counter::ContextCounter;

#[test]
fn test_context_counter_server() {
    let mut c = ContextCounter::new(true);

    assert_eq!(c.next_context_id(), 1);
    assert_eq!(c.next_context_id(), 3);
}

#[test]
fn test_context_counter_client() {
    let mut c = ContextCounter::new(false);

    assert_eq!(c.next_context_id(), 0);
    assert_eq!(c.next_context_id(), 2);
}

#[test]
fn test_context_counter_parity_run() {
    let mut c = ContextCounter::new(false);
    let mut prev = c.next_context_id();
    for _ in 0..100 {
        let next = c.next_context_id();
        assert_eq!(next % 2, 0);
        assert_eq!(next, prev + 2);
        prev = next;
    }

    let mut s = ContextCounter::new(true);
    let mut prev = s.next_context_id();
    for _ in 0..100 {
        let next = s.next_context_id();
        assert_eq!(next % 2, 1);
        assert_eq!(next, prev + 2);
        prev = next;
    }
}

#[test]
fn test_context_counter_wrap() {
    let mut c = ContextCounter { is_server: true, counter: u64::MAX - 2 };
    assert_eq!(c.next_context_id(), 1);
    assert_eq!(c.next_context_id(), 1);
    assert_eq!(c.next_context_id(), 3);

    let mut c = ContextCounter { is_server: false, counter: u64::MAX - 1 };
    assert_eq!(c.next_context_id(), 2);
    assert_eq!(c.next_context_id(), 2);
    assert_eq!(c.next_context_id(), 4);
}
