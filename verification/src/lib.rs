pub mod client;
pub mod mux;
pub mod payload;
pub mod pool;
pub mod queue;
pub mod server;
pub mod session;

use vstd::prelude::*;

verus! {

/// Fixed size of the scratch buffer each echo session reads into; one read
/// never hands the session more than this many bytes.
pub const BUF_CAPACITY: usize = 1024;

/// Echo benchmark driver: connects to a server, sends a payload of random
/// bytes, and measures how long the echo takes to come back. The socket work
/// and the clock belong to the I/O layer; here live the payload and the
/// bookkeeping of the measured outcomes.
#[derive(Debug, Clone)]
pub struct BenchClient {
    server_addr: String,
    payload_size: usize,
}

impl BenchClient {
    /// The address this driver targets.
    pub closed spec fn spec_server_addr(self) -> Seq<char> {
        self.server_addr@
    }

    /// The number of payload bytes each request sends.
    pub closed spec fn spec_payload_size(self) -> usize {
        self.payload_size
    }

    pub fn new(server_addr: &str, payload_size: usize) -> (c: Self)
        ensures
            c.spec_server_addr() == server_addr@,
            c.spec_payload_size() == payload_size,
    {
        Self { server_addr: String::from_str(server_addr), payload_size }
    }

    pub fn server_addr(&self) -> (r: &String)
        ensures
            r@ == self.spec_server_addr(),
    {
        &self.server_addr
    }

    pub fn payload_size(&self) -> (n: usize)
        ensures
            n == self.spec_payload_size(),
    {
        self.payload_size
    }

    /// Generate a random payload of the configured size. The bytes are
    /// random; their number is exact.
    pub fn generate_payload(&self) -> (p: bytes::Bytes)
        ensures
            payload::bytes_contents(p).len() == self.spec_payload_size(),
    {
        let n = self.payload_size;
        let mut buf = payload::fresh_buffer(n);
        let mut i: usize = 0;
        while i < n
            invariant
                i <= n,
                payload::buffer_contents(buf).len() == i,
            decreases n - i,
        {
            let v = payload::random_byte();
            payload::append_byte(&mut buf, v);
            i = i + 1;
        }
        payload::freeze_buffer(buf)
    }
}

/// The round-trip times of the requests that succeeded, kept in request
/// order.
pub open spec fn ok_latencies(s: Seq<Option<u128>>) -> Seq<u128>
    decreases s.len(),
{
    if s.len() == 0 {
        Seq::empty()
    } else {
        ok_latencies(s.drop_last()) + (match s.last() {
            Some(t) => seq![t],
            None => Seq::empty(),
        })
    }
}

/// How many requests failed.
pub open spec fn error_count(s: Seq<Option<u128>>) -> nat
    decreases s.len(),
{
    if s.len() == 0 {
        0
    } else {
        error_count(s.drop_last()) + (if s.last() is None {
            1nat
        } else {
            0nat
        })
    }
}

/// Every request is counted exactly once: the failures and the recorded
/// latencies together account for the whole batch.
pub proof fn lemma_outcome_partition(s: Seq<Option<u128>>)
    ensures
        error_count(s) + ok_latencies(s).len() == s.len(),
    decreases s.len(),
{
    if s.len() > 0 {
        lemma_outcome_partition(s.drop_last());
    }
}

/// What one benchmark run reports.
#[derive(Debug)]
pub struct BenchResult {
    pub total_requests: usize,
    pub errors: usize,
    pub latencies: Vec<u128>,
}

/// Fold the per-request outcomes of a concurrent batch into the report: the
/// total is the batch size, every failed request is counted as one error, and
/// the latencies of the successful ones are kept in request order.
pub fn summarize_outcomes(outcomes: &Vec<Option<u128>>) -> (r: BenchResult)
    ensures
        r.total_requests == outcomes@.len(),
        r.errors == error_count(outcomes@),
        r.latencies@ == ok_latencies(outcomes@),
{
    let total = outcomes.len();
    let mut latencies: Vec<u128> = Vec::new();
    let mut errors: usize = 0;
    let mut i: usize = 0;
    while i < total
        invariant
            i <= total,
            total == outcomes@.len(),
            errors == error_count(outcomes@.take(i as int)),
            latencies@ == ok_latencies(outcomes@.take(i as int)),
        decreases total - i,
    {
        proof {
            lemma_outcome_partition(outcomes@.take(i as int));
            assert(outcomes@.take(i as int + 1).drop_last() =~= outcomes@.take(i as int));
            assert(outcomes@.take(i as int + 1).last() == outcomes@[i as int]);
        }
        match outcomes[i] {
            Some(t) => {
                latencies.push(t);
                proof {
                    assert(latencies@ =~= ok_latencies(outcomes@.take(i as int + 1)));
                }
            },
            None => {
                errors = errors + 1;
            },
        }
        i = i + 1;
    }
    proof {
        assert(outcomes@.take(total as int) =~= outcomes@);
    }
    BenchResult { total_requests: total, errors, latencies }
}

} // verus!
