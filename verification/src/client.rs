use vstd::prelude::*;

verus! {

/// The interactive client's fixed target: one server address, set once at
/// startup. The client never reconnects; the live connection and its two
/// split halves belong to the I/O layer.
pub struct Client {
    pub port: u16,
    pub host: String,
}

impl Client {
    /// A client that will connect to `host_str:port`.
    pub fn new(port: u16, host_str: &str) -> (c: Client)
        ensures
            c.port == port,
            c.host@ == host_str@,
    {
        Client { port, host: String::from_str(host_str) }
    }
}

} // verus!
