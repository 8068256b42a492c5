//! What the loop knows of one bound UDP socket: its local address and the
//! offload features that were enabled on it.

use crate::addr::{Addr, SendInfo};
use crate::failure::RecvFault;
use crate::recvfrom::{recv_from, recv_result, Datagram, Received};
use vstd::prelude::*;

verus! {

/// Segment size with which send segmentation is probed on a fresh socket.
pub const GSO_PROBE_SEGMENT_SIZE: usize = 9000;

/// Segment size with which the platform's support for send segmentation is
/// probed.
pub const GSO_SUPPORT_PROBE_SEGMENT_SIZE: usize = 1500;

/// The three optional offload features of a socket.
#[derive(Clone, Copy, Debug, PartialEq, Eq, Structural)]
pub struct Offloads {
    /// Receive coalescing.
    pub gro: bool,
    /// Kernel send pacing by transmit time.
    pub pacing: bool,
    /// Send segmentation.
    pub gso: bool,
}

/// How a buffer is handed to the kernel for sending.
#[derive(Clone, Copy, Debug, PartialEq, Eq, Structural)]
pub struct SendPlan {
    /// Size of the segments that the kernel is to split the buffer into, or
    /// `None` to send the buffer as it is.
    pub segment_size: Option<usize>,
    /// Transmit time to attach, in nanoseconds on the monotonic clock.
    pub tx_time: Option<u64>,
}

/// A bound UDP socket, without its handle.
#[derive(Clone, Copy, Debug, PartialEq, Eq, Structural)]
pub struct Socket {
    local_addr: Addr,
    enable_gro: bool,
    enable_pacing: bool,
    enable_gso: bool,
}

impl Socket {
    /// The address the socket is bound to.
    pub closed spec fn spec_local_addr(&self) -> Addr {
        self.local_addr
    }

    /// The features that are enabled on the socket.
    pub closed spec fn spec_offloads(&self) -> Offloads {
        Offloads { gro: self.enable_gro, pacing: self.enable_pacing, gso: self.enable_gso }
    }

    /// The send plan for a packet on this socket: segmentation by the kernel
    /// when send segmentation is enabled, and the packet's transmit time when
    /// pacing is enabled and the packet has one.
    pub open spec fn send_plan(&self, send_info: SendInfo, segment_size: usize) -> SendPlan {
        SendPlan {
            segment_size: if self.spec_offloads().gso {
                Some(segment_size)
            } else {
                None
            },
            tx_time: if self.spec_offloads().pacing {
                send_info.at
            } else {
                None
            },
        }
    }

    /// The features to try to enable on a fresh socket: each one that is not
    /// disabled.
    pub fn wanted(disable_gro: bool, disable_pacing: bool, disable_gso: bool) -> (w: Offloads)
        ensures
            w == (Offloads { gro: !disable_gro, pacing: !disable_pacing, gso: !disable_gso }),
    {
        Offloads { gro: !disable_gro, pacing: !disable_pacing, gso: !disable_gso }
    }

    /// Describes a socket that was bound at `local_addr`. `accepted` tells,
    /// for each feature that was tried, whether the kernel accepted it. A
    /// feature is enabled when it is not disabled and was accepted.
    pub fn bind(
        local_addr: Addr,
        disable_gro: bool,
        disable_pacing: bool,
        disable_gso: bool,
        accepted: Offloads,
    ) -> (socket: Socket)
        ensures
            socket.spec_local_addr() == local_addr,
            socket.spec_offloads() == (Offloads {
                gro: !disable_gro && accepted.gro,
                pacing: !disable_pacing && accepted.pacing,
                gso: !disable_gso && accepted.gso,
            }),
    {
        Socket {
            local_addr,
            enable_gro: !disable_gro && accepted.gro,
            enable_pacing: !disable_pacing && accepted.pacing,
            enable_gso: !disable_gso && accepted.gso,
        }
    }

    /// The address the socket is bound to.
    #[verifier::when_used_as_spec(spec_local_addr)]
    pub fn local_addr(&self) -> (addr: Addr)
        ensures
            addr == self.spec_local_addr(),
    {
        self.local_addr
    }

    /// The features that are enabled on the socket.
    #[verifier::when_used_as_spec(spec_offloads)]
    pub fn offloads(&self) -> (o: Offloads)
        ensures
            o == self.spec_offloads(),
    {
        Offloads { gro: self.enable_gro, pacing: self.enable_pacing, gso: self.enable_gso }
    }

    /// Interprets what a receive call on this socket returned.
    pub fn recv(&self, datagram: &Datagram) -> (r: Result<Received, RecvFault>)
        ensures
            r == recv_result(*datagram, self.spec_offloads().gro),
            !self.spec_offloads().gro ==> (r matches Ok(received) ==> received.segment_size
                == received.len),
    {
        recv_from(datagram, self.enable_gro)
    }

    /// Decides how a packet of the engine is handed to the kernel.
    pub fn send(&self, send_info: &SendInfo, segment_size: usize) -> (plan: SendPlan)
        ensures
            plan == self.send_plan(*send_info, segment_size),
    {
        SendPlan {
            segment_size: if self.enable_gso {
                Some(segment_size)
            } else {
                None
            },
            tx_time: if self.enable_pacing {
                send_info.at
            } else {
                None
            },
        }
    }
}

} // verus!
