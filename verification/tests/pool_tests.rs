use echo_lib::pool::PermitPool;
use echo_lib::session::{EchoSession, ReadOutcome, SessionAction, SessionState};

#[test]
fn new_pool_has_all_permits_free() {
    let p = PermitPool::new(5);
    assert_eq!(p.capacity, 5);
    assert_eq!(p.available, 5);
}

#[test]
fn concurrency_bound_holds() {
    let mut p = PermitPool::new(2);
    assert!(p.try_acquire());
    assert!(p.try_acquire());
    // The pool is at capacity: the next attempt is refused.
    assert!(!p.try_acquire());
    assert_eq!(p.available, 0);
    p.release();
    assert!(p.try_acquire());
}

#[test]
fn permit_conservation_on_every_exit_path() {
    let mut p = PermitPool::new(1);

    // Clean disconnect.
    assert!(p.try_acquire());
    let mut s = EchoSession::new();
    let a = s.on_read(ReadOutcome::Chunk(Vec::new()));
    assert!(matches!(a, SessionAction::Finish));
    p.release();
    assert_eq!(p.available, 1);

    // Read retry exhaustion.
    assert!(p.try_acquire());
    let mut s = EchoSession::new();
    for _ in 0..3 {
        let _ = s.on_read(ReadOutcome::Failed);
    }
    let a = s.on_read(ReadOutcome::Failed);
    assert!(matches!(a, SessionAction::Finish));
    p.release();
    assert_eq!(p.available, 1);

    // Write failure.
    assert!(p.try_acquire());
    let mut s = EchoSession::new();
    let _ = s.on_read(ReadOutcome::Chunk(b"x".to_vec()));
    let a = s.on_write(false);
    assert!(matches!(a, SessionAction::Finish));
    p.release();
    assert_eq!(p.available, 1);
}

#[test]
fn third_connection_waits_for_a_disconnect() {
    // Capacity 2, three connection attempts: two are admitted at once and
    // start echoing, the third only after one of the first two disconnects.
    let mut p = PermitPool::new(2);

    assert!(p.try_acquire());
    let mut s1 = EchoSession::new();
    assert!(p.try_acquire());
    let mut s2 = EchoSession::new();
    assert!(!p.try_acquire());

    // Both admitted sessions echo: "ping" comes back exactly.
    for s in [&mut s1, &mut s2] {
        let a = s.on_read(ReadOutcome::Chunk(b"ping".to_vec()));
        match a {
            SessionAction::Echo(bytes) => assert_eq!(bytes, b"ping".to_vec()),
            _ => panic!("expected an echo of the chunk"),
        }
        let _ = s.on_write(true);
    }

    // The first session's peer disconnects; its permit is released.
    let a = s1.on_read(ReadOutcome::Chunk(Vec::new()));
    assert!(matches!(a, SessionAction::Finish));
    assert_eq!(s1.state, SessionState::ClosedClean);
    p.release();

    // Only now is the third attempt admitted.
    assert!(p.try_acquire());
}
