//! Settings of the remote-control socket.

use vstd::prelude::*;
use crate::text::{numbered, spec_decimal};

verus! {

/// The port that the remote-control socket listens on.
#[derive(Clone, Copy, Debug, PartialEq, Eq, Structural)]
pub struct NetworkConfiguration {
    pub port: u16,
}

impl NetworkConfiguration {
    pub fn get_port(&self) -> (port: u16)
        ensures
            port == self.port,
    {
        self.port
    }

    /// The address to bind: the loopback address and the port.
    pub fn get_address(&self) -> (address: String)
        ensures
            address@ == "127.0.0.1:"@ + spec_decimal(self.port as nat),
    {
        numbered("127.0.0.1:", self.port as u64)
    }
}

impl Default for NetworkConfiguration {
    fn default() -> (configuration: Self)
        ensures
            configuration.port == 3751,
    {
        NetworkConfiguration { port: 3751 }
    }
}

} // verus!
