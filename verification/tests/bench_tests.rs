use echo_lib::{summarize_outcomes, BenchClient};

#[test]
fn new_keeps_address_and_size() {
    let c = BenchClient::new("127.0.0.1:7210", 64);
    assert_eq!(c.server_addr(), "127.0.0.1:7210");
    assert_eq!(c.payload_size(), 64);
}

#[test]
fn payload_has_exactly_the_configured_size() {
    let c = BenchClient::new("127.0.0.1:7210", 32);
    let p = c.generate_payload();
    assert_eq!(p.len(), 32);
}

#[test]
fn empty_payload_is_empty() {
    let c = BenchClient::new("127.0.0.1:7210", 0);
    let p = c.generate_payload();
    assert!(p.is_empty());
}

#[test]
fn summary_counts_errors_and_keeps_latency_order() {
    let outcomes = vec![Some(5u128), None, Some(7u128), None];
    let r = summarize_outcomes(&outcomes);
    assert_eq!(r.total_requests, 4);
    assert_eq!(r.errors, 2);
    assert_eq!(r.latencies, vec![5u128, 7u128]);
}

#[test]
fn summary_of_no_requests_is_empty() {
    let outcomes: Vec<Option<u128>> = Vec::new();
    let r = summarize_outcomes(&outcomes);
    assert_eq!(r.total_requests, 0);
    assert_eq!(r.errors, 0);
    assert!(r.latencies.is_empty());
}
