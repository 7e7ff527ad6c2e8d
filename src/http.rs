//! The HTTP front: the port the server listens on.
use vstd::prelude::*;

verus! {

/// The HTTP server's configuration.
#[derive(Clone, Copy, Debug)]
pub struct Http {
    pub port: u16,
}

impl Http {
    pub fn new(port: u16) -> (r: Http)
        ensures
            r.port == port,
    {
        Http { port }
    }
}

} // verus!
