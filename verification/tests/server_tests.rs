use echo_lib::client::Client;
use echo_lib::server::{acceptor_decision, AcceptDecision, AcceptEvent, Server};

#[test]
fn server_new_keeps_its_parameters() {
    let s = Server::new(7210, "127.0.0.1", 1000);
    assert_eq!(s.port, 7210);
    assert_eq!(s.host, "127.0.0.1");
    assert_eq!(s.max_connections.capacity, 1000);
    assert_eq!(s.max_connections.available, 1000);
}

#[test]
fn acceptor_spawns_a_session_for_each_arrival() {
    assert_eq!(acceptor_decision(&AcceptEvent::Incoming), AcceptDecision::SpawnSession);
}

#[test]
fn acceptor_survives_a_transient_accept_failure() {
    assert_eq!(acceptor_decision(&AcceptEvent::AcceptFailed), AcceptDecision::Retry);
}

#[test]
fn acceptor_treats_a_closed_pool_as_fatal() {
    assert_eq!(acceptor_decision(&AcceptEvent::PoolClosed), AcceptDecision::Shutdown);
}

#[test]
fn client_new_keeps_its_parameters() {
    let c = Client::new(7210, "127.0.0.1");
    assert_eq!(c.port, 7210);
    assert_eq!(c.host, "127.0.0.1");
}
