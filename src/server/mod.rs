//! The rendezvous server: its tag directory and the decisions of each
//! control channel.
use vstd::prelude::*;

pub mod cache;
pub mod channel;

verus! {

/// Seconds between two keep-alive pings queued for a registrant.
pub const KEEPALIVE_PERIOD_SECS: u64 = 5;

/// Seconds between two answers to a subscription.
pub const SUBSCRIPTION_PERIOD_SECS: u64 = 1;

/// Seconds that a party waits for the reply to a handshake frame.
pub const HANDSHAKE_TIMEOUT_SECS: u64 = 3;

/// A rendezvous server, before it starts listening.
#[derive(Debug)]
pub struct Server {
    port: String,
}

impl Server {
    pub closed spec fn port(&self) -> Seq<char> {
        self.port@
    }

    /// A server that will listen on `port`.
    pub fn new(port: &str) -> (r: Server)
        ensures
            r.port() == port@,
    {
        Server { port: port.to_owned() }
    }

    pub fn get_port(&self) -> (r: &str)
        ensures
            r@ == self.port(),
    {
        self.port.as_str()
    }
}

} // verus!
