use echo_lib::mux::{mux_step, MuxAction, MuxEvent};

#[test]
fn outbound_line_is_transmitted_verbatim() {
    let a = mux_step(MuxEvent::Outbound(b"hello server".to_vec()));
    match a {
        MuxAction::Transmit(bytes) => assert_eq!(bytes, b"hello server".to_vec()),
        _ => panic!("expected the line to be transmitted"),
    }
}

#[test]
fn inbound_bytes_are_shown_verbatim() {
    let a = mux_step(MuxEvent::Inbound(b"echoed".to_vec()));
    match a {
        MuxAction::Show(bytes) => assert_eq!(bytes, b"echoed".to_vec()),
        _ => panic!("expected the bytes to be shown"),
    }
}

#[test]
fn server_close_stops_the_loop_cleanly() {
    let a = mux_step(MuxEvent::Inbound(Vec::new()));
    assert!(matches!(a, MuxAction::Stop));
}

#[test]
fn read_failure_stops_the_loop() {
    let a = mux_step(MuxEvent::ReadFailed);
    assert!(matches!(a, MuxAction::Stop));
}

#[test]
fn write_failure_stops_the_loop() {
    let a = mux_step(MuxEvent::WriteFailed);
    assert!(matches!(a, MuxAction::Stop));
}
