//! Socket addresses as plain values.

use vstd::prelude::*;

verus! {

/// An IP socket address. Two addresses are equal exactly when every field is.
#[derive(Clone, Copy, Debug, PartialEq, Eq, Structural)]
pub enum Addr {
    /// IPv4 address (big-endian octets as one integer) and port.
    V4 { octets: u32, port: u16 },
    /// IPv6 address (big-endian octets as one integer), port, flow
    /// information and scope identifier.
    V6 { segments: u128, port: u16, flowinfo: u32, scope_id: u32 },
}

/// The address pair that accompanies a datagram handed to the engine.
#[derive(Clone, Copy, Debug, PartialEq, Eq, Structural)]
pub struct RecvInfo {
    /// Address the datagram was sent from.
    pub from: Addr,
    /// Local address of the socket that received it.
    pub to: Addr,
}

/// Where and when the engine wants an outgoing packet sent.
#[derive(Clone, Copy, Debug, PartialEq, Eq, Structural)]
pub struct SendInfo {
    /// Local address the packet is to be sent from.
    pub from: Addr,
    /// Destination address.
    pub to: Addr,
    /// Requested transmit time in nanoseconds on the monotonic clock, if any.
    pub at: Option<u64>,
}

} // verus!
