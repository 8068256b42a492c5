//! Interpreting what a receive call returned.

use crate::addr::Addr;
use crate::failure::RecvFault;
use vstd::prelude::*;

verus! {

/// A control message attached to a received datagram.
#[derive(Clone, Copy, Debug, PartialEq, Eq, Structural)]
pub enum ControlMessage {
    /// Size of the segments that the kernel coalesced into the payload.
    UdpGroSegments(i32),
    /// Any other control message.
    Other,
}

/// What one receive call returned, as the kernel reported it.
#[derive(Debug)]
pub struct Datagram {
    /// Number of payload bytes written into the buffer.
    pub bytes: usize,
    /// Source address, if the kernel reported a usable one.
    pub address: Option<Addr>,
    /// Control messages, in the order in which the kernel listed them.
    pub control: Vec<ControlMessage>,
}

/// A received payload: its length, where it came from, and the size of the
/// segments it consists of (zero: the payload is one segment).
#[derive(Clone, Copy, Debug, PartialEq, Eq, Structural)]
pub struct Received {
    /// Number of payload bytes.
    pub len: usize,
    /// Address the payload was sent from.
    pub from: Addr,
    /// Size of the segments the payload consists of; zero: one segment.
    pub segment_size: usize,
}

/// The low 16 bits of a number, read as an unsigned number.
pub open spec fn low16(value: int) -> nat {
    (value % 0x1_0000) as nat
}

/// Whether every control message states a segment size.
pub open spec fn only_segment_sizes(control: Seq<ControlMessage>) -> bool {
    forall|i: int| 0 <= i < control.len() ==> control[i] is UdpGroSegments
}

/// The segment size that control messages state: the low 16 bits of the last
/// message's value, and zero when there is no message.
pub open spec fn stated_segment_size(control: Seq<ControlMessage>) -> nat {
    if control.len() > 0 && control.last() is UdpGroSegments {
        low16(control.last()->UdpGroSegments_0 as int)
    } else {
        0
    }
}

/// The result of a receive with coalescing, given what the kernel reported.
pub open spec fn gro_result(datagram: Datagram) -> Result<Received, RecvFault> {
    if !only_segment_sizes(datagram.control@) {
        Err(RecvFault::UnexpectedControlMessage)
    } else if datagram.address is None {
        Err(RecvFault::MissingAddress)
    } else {
        Ok(
            Received {
                len: datagram.bytes,
                from: datagram.address->Some_0,
                segment_size: stated_segment_size(datagram.control@) as usize,
            },
        )
    }
}

/// The result of a plain receive: the payload is one segment of its own
/// length.
pub open spec fn plain_result(datagram: Datagram) -> Result<Received, RecvFault> {
    match datagram.address {
        Some(from) => Ok(Received { len: datagram.bytes, from, segment_size: datagram.bytes }),
        None => Err(RecvFault::MissingAddress),
    }
}

/// The result of a receive on a socket with or without coalescing.
pub open spec fn recv_result(datagram: Datagram, enable_gro: bool) -> Result<Received, RecvFault> {
    if enable_gro {
        gro_result(datagram)
    } else {
        plain_result(datagram)
    }
}

/// The low 16 bits of `value`, as an unsigned number.
fn truncate_to_16(value: i32) -> (r: usize)
    ensures
        r == low16(value as int),
{
    if value >= 0 {
        (value % 0x1_0000) as usize
    } else {
        let shifted: i64 = value as i64 + 0x1_0000_0000;
        (shifted % 0x1_0000) as usize
    }
}

/// Reads the segment size from the control messages of a datagram. Returns
/// `None` when a message of another kind is among them.
pub fn segment_size_of(control: &Vec<ControlMessage>) -> (r: Option<usize>)
    ensures
        r.is_some() == only_segment_sizes(control@),
        r matches Some(size) ==> size == stated_segment_size(control@),
{
    let mut size: usize = 0;
    let mut i: usize = 0;
    while i < control.len()
        invariant
            i <= control.len(),
            only_segment_sizes(control@.take(i as int)),
            size == stated_segment_size(control@.take(i as int)),
        decreases control.len() - i,
    {
        match control[i] {
            ControlMessage::UdpGroSegments(value) => {
                size = truncate_to_16(value);
            },
            ControlMessage::Other => {
                return None;
            },
        }
        i = i + 1;
        proof {
            let prefix = control@.take(i as int);
            assert(prefix.last() == control@[i - 1]);
            assert forall|j: int| 0 <= j < prefix.len() implies prefix[j] is UdpGroSegments by {
                if j < i - 1 {
                    assert(control@.take(i - 1)[j] == prefix[j]);
                }
            }
        }
    }
    proof {
        assert(control@.take(i as int) == control@);
    }
    Some(size)
}

/// Interprets a receive with coalescing: the payload length, the source
/// address and the segment size that the control messages state. Fails when
/// a control message of another kind is attached, else when the source
/// address is missing.
pub fn recv_from_gro(datagram: &Datagram) -> (r: Result<Received, RecvFault>)
    ensures
        r == gro_result(*datagram),
{
    match segment_size_of(&datagram.control) {
        None => Err(RecvFault::UnexpectedControlMessage),
        Some(segment_size) => match datagram.address {
            None => Err(RecvFault::MissingAddress),
            Some(from) => Ok(Received { len: datagram.bytes, from, segment_size }),
        },
    }
}

/// Interprets what a receive call returned. With coalescing enabled the
/// segment size comes from the control messages; without, the payload is one
/// segment and the segment size equals its length.
pub fn recv_from(datagram: &Datagram, enable_gro: bool) -> (r: Result<Received, RecvFault>)
    ensures
        r == recv_result(*datagram, enable_gro),
        !enable_gro ==> (r matches Ok(received) ==> received.segment_size == received.len),
{
    if enable_gro {
        recv_from_gro(datagram)
    } else {
        match datagram.address {
            Some(from) => Ok(
                Received { len: datagram.bytes, from, segment_size: datagram.bytes },
            ),
            None => Err(RecvFault::MissingAddress),
        }
    }
}

} // verus!
