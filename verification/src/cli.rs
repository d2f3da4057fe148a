//! Startup configuration: the bind address for the listener socket.

use vstd::prelude::*;

verus! {

/// The socket configuration the monitor starts with: a host address and a
/// UDP port, independently configurable.
pub struct Args {
    pub address: String,
    pub port: u16,
}

/// The default port the listener binds to.
pub const DEFAULT_PORT: u16 = 9000;

impl Args {
    pub fn new(address: String, port: u16) -> (r: Args)
        ensures
            r.address == address,
            r.port == port,
    {
        Args { address, port }
    }
}

impl Default for Args {
    /// The default trust boundary: listen on the local loopback interface only.
    fn default() -> (r: Args)
        ensures
            r.address@ == "127.0.0.1"@,
            r.port == DEFAULT_PORT,
    {
        Args { address: String::from_str("127.0.0.1"), port: DEFAULT_PORT }
    }
}

} // verus!
