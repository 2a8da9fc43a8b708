use stk500::StkError;
use stk500::correlator::{DeliverOutcome, Programmer, RaceOutcome, resolve_race};

#[test]
fn call_then_deliver_resolves() {
    let mut p = Programmer::new();
    assert!(p.is_idle());
    let wire = p.get_sync();
    assert_eq!(wire, vec![0x30, 0x20]);
    assert!(!p.is_idle());
    match p.deliver(vec![0x14, 0x10]) {
        DeliverOutcome::Resolved(payload) => assert_eq!(payload, Vec::<u8>::new()),
        _ => panic!("expected the call to resolve"),
    }
    assert!(p.is_idle());
}

#[test]
fn deliver_in_chunks() {
    let mut p = Programmer::new();
    p.sign_on();
    // expects 9 bytes: INSYNC + 7 inner + OK
    assert!(matches!(p.deliver(vec![0x14, b'A', b'V', b'R']), DeliverOutcome::Pending));
    assert!(matches!(p.deliver(vec![b' ', b'S', b'T']), DeliverOutcome::Pending));
    match p.deliver(vec![b'K', 0x10]) {
        DeliverOutcome::Resolved(payload) => assert_eq!(payload, b"AVR STK".to_vec()),
        _ => panic!("expected the call to resolve"),
    }
    assert!(p.is_idle());
}

#[test]
fn framing_error_fails_call_and_frees_slot() {
    let mut p = Programmer::new();
    p.get_sync();
    match p.deliver(vec![0x15, 0x10]) {
        DeliverOutcome::Failed(e) => assert_eq!(e, StkError::FramingError),
        _ => panic!("expected a framing failure"),
    }
    // back to idle: a next call proceeds normally
    assert!(p.is_idle());
    let wire = p.read_sign();
    assert_eq!(wire, vec![0x75, 0x20]);
    match p.deliver(vec![0x14, 0xAA, 0xBB, 0xCC, 0x10]) {
        DeliverOutcome::Resolved(payload) => assert_eq!(payload, vec![0xAA, 0xBB, 0xCC]),
        _ => panic!("expected the call to resolve"),
    }
}

#[test]
fn timeout_restores_idle_for_next_call() {
    let mut p = Programmer::new();
    p.get_sync();
    assert!(!p.is_idle());
    // the deadline passes with no deliver(): the wrapper forces idle
    p.on_timeout();
    assert!(p.is_idle());
    // a subsequent call on the same correlator succeeds normally
    let wire = p.get_sync();
    assert_eq!(wire, vec![0x30, 0x20]);
    match p.deliver(vec![0x14, 0x10]) {
        DeliverOutcome::Resolved(payload) => assert_eq!(payload, Vec::<u8>::new()),
        _ => panic!("expected the call to resolve"),
    }
}

#[test]
fn timeout_discards_stale_bytes() {
    let mut p = Programmer::new();
    p.sign_on();
    assert!(matches!(p.deliver(vec![0x14, b'A']), DeliverOutcome::Pending));
    p.on_timeout();
    // the two stale bytes are gone: the next frame stands alone
    p.get_sync();
    match p.deliver(vec![0x14, 0x10]) {
        DeliverOutcome::Resolved(payload) => assert_eq!(payload, Vec::<u8>::new()),
        _ => panic!("expected the call to resolve"),
    }
}

#[test]
fn deliver_before_first_call_only_buffers() {
    // no command was ever encoded, so there is no expected window to decode
    let mut p = Programmer::new();
    assert!(matches!(p.deliver(vec![0x14, 0x10]), DeliverOutcome::Pending));
    assert!(p.is_idle());
}

#[test]
fn stale_frame_while_idle_is_discarded() {
    let mut p = Programmer::new();
    p.sign_on();
    p.on_timeout();
    // the full late response straggles in while idle: decoded and discarded
    let late = vec![0x14, b'A', b'V', b'R', b' ', b'S', b'T', b'K', 0x10];
    assert!(matches!(p.deliver(late), DeliverOutcome::Pending));
    assert!(p.is_idle());
    // the next call is answered by its own frame alone
    let wire = p.get_sync();
    assert_eq!(wire, vec![0x30, 0x20]);
    match p.deliver(vec![0x14, 0x10]) {
        DeliverOutcome::Resolved(payload) => assert_eq!(payload, Vec::<u8>::new()),
        _ => panic!("expected the call to resolve"),
    }
}

#[test]
fn stale_bad_frame_while_idle_is_discarded() {
    let mut p = Programmer::new();
    p.sign_on();
    p.on_timeout();
    // a complete frame with a bad leading byte while idle: no call to fail,
    // the buffer is cleared all the same
    let late = vec![0x15, 0, 0, 0, 0, 0, 0, 0, 0x10];
    assert!(matches!(p.deliver(late), DeliverOutcome::Pending));
    assert!(p.is_idle());
    p.get_sync();
    match p.deliver(vec![0x14, 0x10]) {
        DeliverOutcome::Resolved(payload) => assert_eq!(payload, Vec::<u8>::new()),
        _ => panic!("expected the call to resolve"),
    }
}

#[test]
fn command_wire_bytes() {
    let mut p = Programmer::new();
    assert_eq!(p.enter_prog_mode(), vec![0x50, 0x20]);
    p.on_timeout();
    assert_eq!(p.leave_prog_mode(), vec![0x51, 0x20]);
    p.on_timeout();
    assert_eq!(p.load_address(0x0060), vec![0x55, 0x60, 0x00, 0x20]);
    p.on_timeout();
    assert_eq!(
        p.prog_page('E', &vec![0x01, 0x02]),
        vec![0x64, 0x00, 0x02, b'E', 0x01, 0x02, 0x20]
    );
    p.on_timeout();
    let wire = p.set_device(&None);
    assert_eq!(wire.len(), 22);
    assert_eq!(wire[0], 0x42);
    assert_eq!(wire[1], 0x86);
    assert_eq!(wire[21], 0x20);
    p.on_timeout();
    let wire = p.set_device_ext(&None);
    assert_eq!(wire, vec![0x45, 0x05, 0x04, 0xd7, 0xc2, 0x00, 0x20]);
}

#[test]
fn race_resolution() {
    assert_eq!(resolve_race(RaceOutcome::Response(vec![7, 8])), Ok(vec![7, 8]));
    assert_eq!(
        resolve_race(RaceOutcome::CallFailed(StkError::FramingError)),
        Err(StkError::FramingError)
    );
    assert_eq!(resolve_race(RaceOutcome::DeadlineElapsed), Err(StkError::Timeout));
    assert_eq!(resolve_race(RaceOutcome::TimerFailed), Err(StkError::TransportError));
}
