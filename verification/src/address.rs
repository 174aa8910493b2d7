//! Socket addresses as plain values.

use vstd::prelude::*;

verus! {

/// A socket address to listen on: an internet address and a port.
///
/// The value is plain data. It is fixed when the proxy state is built and is
/// handed out unchanged whenever a listening socket has to be bound. Port zero
/// asks the system for an ephemeral port.
#[derive(Clone, Copy, Debug, PartialEq, Eq)]
pub enum BindAddress {
    /// An IPv4 address, its four octets in network order, and a port.
    V4 { octets: [u8; 4], port: u16 },
    /// An IPv6 address, its eight segments in network order, a port, and the
    /// flow information and scope identifier that travel with it.
    V6 { segments: [u16; 8], port: u16, flowinfo: u32, scope_id: u32 },
}

} // verus!
