//! Control protocol, tag directory and session decisions of a NAT-traversal
//! TCP relay: a rendezvous server pairs agent connections with registrant
//! connections that share a correlation id and splices them into one pipe.
use vstd::prelude::*;

pub mod buffer;
pub mod client;
pub mod frame;
pub mod server;

verus! {

/// Address family of a transport address.
#[derive(Clone, Copy, Debug, PartialEq, Eq, Structural)]
pub enum Protocol {
    V4,
    V6,
}

/// Free-form key/value annotations of a registrant.
#[derive(Clone, Debug)]
pub struct MetaData {
    pub inner: std::collections::HashMap<String, String>,
}

impl Default for MetaData {
    fn default() -> (r: MetaData)
        ensures
            r.inner@ == Map::<String, String>::empty(),
    {
        MetaData { inner: std::collections::HashMap::new() }
    }
}

} // verus!
