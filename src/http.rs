use vstd::prelude::*;

verus! {

/// The read-only status endpoint's settings.
#[derive(Debug)]
pub struct WebServer {
    listen_address: String,
}

impl WebServer {
    pub fn new(listen_address: String) -> (r: WebServer)
        ensures
            r.listen_address() == listen_address,
    {
        WebServer { listen_address }
    }

    pub closed spec fn listen_address(&self) -> String {
        self.listen_address
    }

    /// The `host:port` the endpoint listens on.
    pub fn address(&self) -> (r: &String)
        ensures
            *r == self.listen_address(),
    {
        &self.listen_address
    }
}

} // verus!
