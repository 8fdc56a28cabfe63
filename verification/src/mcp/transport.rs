//! The transport of the protocol.

use vstd::prelude::*;

verus! {

/// The transport over standard input and output. It holds nothing: the
/// streams belong to the process.
#[derive(Debug, Clone, Copy, Default)]
pub struct StdioTransport;

impl StdioTransport {
    /// The transport.
    pub fn new() -> (r: StdioTransport)
        ensures
            r == StdioTransport,
    {
        StdioTransport
    }
}

} // verus!
