//! The configuration of the HTTP server.

use vstd::prelude::*;
use vstd::string::StringExecFns;

verus! {

/// Where the server listens. The port is taken as it was configured and is
/// not read again.
#[derive(Debug)]
pub struct HttpServerConfig {
    port: String,
}

impl View for HttpServerConfig {
    type V = Seq<char>;

    closed spec fn view(&self) -> Seq<char> {
        self.port@
    }
}

/// The address to listen on for the port `port`: every interface.
pub open spec fn listen_address(port: Seq<char>) -> Seq<char> {
    "0.0.0.0:"@ + port
}

impl HttpServerConfig {
    pub fn new(port: &str) -> (config: Self)
        ensures
            config@ == port@,
    {
        Self { port: port.to_owned() }
    }

    pub fn port(&self) -> (port: &str)
        ensures
            port@ == self@,
    {
        self.port.as_str()
    }

    /// The address that the listener is bound to.
    pub fn address(&self) -> (address: String)
        ensures
            address@ == listen_address(self@),
    {
        let mut address = "0.0.0.0:".to_owned();
        address.append(self.port.as_str());
        address
    }
}

} // verus!
