//! The vocabulary of the loop: what the driver reports, what it is asked to
//! do next, and the small decisions that the loop is made of.

use crate::addr::{Addr, RecvInfo, SendInfo};
use crate::failure::{EngineError, Fault, IoFailure, Note, QuicheError};
use crate::recvfrom::Datagram;
use crate::socket::SendPlan;
use crate::timeout::Timeout;
use vstd::prelude::*;

verus! {

/// An outgoing packet that the engine wrote into the buffer.
#[derive(Clone, Copy, Debug, PartialEq, Eq, Structural)]
pub struct Packet {
    /// Number of bytes written.
    pub total: usize,
    /// Where from, where to and when to send them.
    pub send_info: SendInfo,
    /// Size of the segments the bytes consist of.
    pub segment_size: usize,
}

/// What the driver reports to the loop.
#[derive(Debug)]
pub enum Input {
    /// Whether the engine has packets queued, and the engine's timeout.
    Status { pending_sends: bool, engine_timeout: Option<Timeout> },
    /// How the poll ended.
    Polled(Result<(), IoFailure>),
    /// The tokens that the poll found ready, in the poller's order, and
    /// whether the engine has packets queued.
    Ready { tokens: Vec<usize>, pending_sends: bool },
    /// A hook or the engine's timeout handling has returned.
    Done,
    /// What a receive on the socket returned.
    Received(Result<Datagram, IoFailure>),
    /// What the engine made of a segment.
    Processed(Result<(), EngineError>),
    /// The engine's next outgoing packet.
    Packet(Result<Packet, EngineError>),
    /// How sending a packet ended.
    Sent(Result<usize, IoFailure>),
    /// The engine has collected its garbage; whether it accepts inbound
    /// connections, and how many connections it has.
    Collected { is_server: bool, num_conns: usize },
}

/// What the driver is asked to do next. Each operation is answered by one
/// kind of [`Input`].
#[derive(Clone, Copy, Debug, PartialEq, Eq, Structural)]
pub enum Action {
    /// Ask the engine for its status; answer with [`Input::Status`].
    QueryEngine,
    /// Poll for at most this long, or without limit; answer with
    /// [`Input::Polled`].
    Poll(Option<Timeout>),
    /// Run the pre-receive hook, then collect the ready tokens; answer with
    /// [`Input::Ready`].
    PreHook,
    /// Let the engine handle its timeout; answer with [`Input::Done`].
    EngineTimeout,
    /// Receive on the socket with this slot id; answer with
    /// [`Input::Received`].
    Receive { key: usize },
    /// Hand bytes `start..end` of the receive buffer to the engine; answer
    /// with [`Input::Processed`].
    Deliver { start: usize, end: usize, info: RecvInfo },
    /// Run the external-event hook, if there is one, with the value of the
    /// descriptor under this token; answer with [`Input::Done`].
    External { token: usize },
    /// Run the post-receive hook; answer with [`Input::Done`].
    PostHook,
    /// Ask the engine for its next outgoing packet; answer with
    /// [`Input::Packet`].
    NextPacket,
    /// Send the first `len` bytes of the buffer to `to` on the socket with
    /// this slot id, as the plan says; answer with [`Input::Sent`].
    Transmit { key: usize, len: usize, to: Addr, plan: SendPlan },
    /// Let the engine collect its garbage; answer with [`Input::Collected`].
    CollectGarbage,
    /// The loop has ended normally.
    Stop,
    /// The loop has ended on a fatal condition.
    Abort(Fault),
}

/// The result of a step: the next operation, and what to log.
#[derive(Clone, Copy, Debug, PartialEq, Eq, Structural)]
pub struct Outcome {
    /// The operation that the driver is to perform next.
    pub action: Action,
    /// What happened in the step that is worth a log line, if anything.
    pub note: Option<Note>,
}

/// The socket that is being drained, and the position in the ready list at
/// which the loop goes on afterwards.
#[derive(Clone, Copy, Debug, PartialEq, Eq, Structural)]
pub struct Drain {
    /// Index in the ready list of the event after this one.
    pub next: usize,
    /// Slot id of the socket.
    pub key: usize,
    /// Local address of the socket.
    pub local: Addr,
    /// Whether the socket receives with coalescing.
    pub gro: bool,
}

/// The payload whose segments are being delivered.
#[derive(Clone, Copy, Debug, PartialEq, Eq, Structural)]
pub struct Payload {
    /// Address the payload was sent from.
    pub from: Addr,
    /// Number of bytes in the receive buffer.
    pub len: usize,
    /// Size of the segments the payload consists of; zero: one segment.
    pub segment_size: usize,
}

/// Where the loop stands: which answer it waits for.
#[derive(Clone, Copy, Debug, PartialEq, Eq, Structural)]
pub enum Stage {
    /// At the start of an iteration, waiting for the engine's status.
    Idle,
    /// Waiting for the poll to end.
    Polling { timeout: Option<Timeout> },
    /// Waiting for the pre-receive hook and the ready tokens.
    PreHook,
    /// Waiting for the engine to handle its timeout.
    TimingOut,
    /// Waiting for a receive on a socket.
    Draining(Drain),
    /// Waiting for the engine to process bytes `start..end` of a payload.
    Delivering { drain: Drain, payload: Payload, start: usize, end: usize },
    /// Waiting for the external-event hook; `next` is the index in the ready
    /// list of the event after this one.
    External { next: usize },
    /// Waiting for the post-receive hook.
    PostHook,
    /// Waiting for the engine's next outgoing packet.
    Sending,
    /// Waiting for a packet to be sent.
    Transmitting,
    /// Waiting for the engine to collect its garbage.
    Housekeeping,
    /// The loop has ended.
    Terminated,
}

/// The states of the loop. An iteration passes through the first four in
/// this order.
#[derive(Clone, Copy, Debug, PartialEq, Eq, Structural)]
pub enum Phase {
    /// The poll timeout is computed and the loop waits for readiness.
    Polling,
    /// Ready events are handled, between the two hooks.
    Dispatching,
    /// The engine's outgoing packets are sent.
    Sending,
    /// The engine reclaims what closed connections held.
    Housekeeping,
    /// The loop has ended.
    Terminated,
}

impl Phase {
    /// The state that follows in an iteration.
    pub open spec fn successor(self) -> Phase {
        match self {
            Phase::Polling => Phase::Dispatching,
            Phase::Dispatching => Phase::Sending,
            Phase::Sending => Phase::Housekeeping,
            Phase::Housekeeping => Phase::Polling,
            Phase::Terminated => Phase::Terminated,
        }
    }
}

impl Stage {
    /// The state of the loop that a stage belongs to.
    pub open spec fn spec_phase(self) -> Phase {
        match self {
            Stage::Idle | Stage::Polling { .. } | Stage::PreHook => Phase::Polling,
            Stage::TimingOut
            | Stage::Draining(_)
            | Stage::Delivering { .. }
            | Stage::External { .. }
            | Stage::PostHook => Phase::Dispatching,
            Stage::Sending | Stage::Transmitting => Phase::Sending,
            Stage::Housekeeping => Phase::Housekeeping,
            Stage::Terminated => Phase::Terminated,
        }
    }

    /// The state of the loop that this stage belongs to.
    #[verifier::when_used_as_spec(spec_phase)]
    pub fn phase(self) -> (phase: Phase)
        ensures
            phase == self.spec_phase(),
    {
        match self {
            Stage::Idle | Stage::Polling { .. } | Stage::PreHook => Phase::Polling,
            Stage::TimingOut
            | Stage::Draining(_)
            | Stage::Delivering { .. }
            | Stage::External { .. }
            | Stage::PostHook => Phase::Dispatching,
            Stage::Sending | Stage::Transmitting => Phase::Sending,
            Stage::Housekeeping => Phase::Housekeeping,
            Stage::Terminated => Phase::Terminated,
        }
    }
}

/// An outcome without a note.
pub open spec fn plain(action: Action) -> Outcome {
    Outcome { action, note: None }
}

/// What follows from the end of a poll.
#[derive(Clone, Copy, Debug, PartialEq, Eq, Structural)]
pub enum PollVerdict {
    /// The poll returned: go on with the iteration.
    Proceed,
    /// The poll was interrupted by a signal: poll again.
    Retry,
    /// The poll failed: the loop cannot go on.
    Fatal,
}

/// What follows from the end of a poll: an interrupted poll is retried, any
/// other failure is fatal.
pub open spec fn poll_verdict(result: Result<(), IoFailure>) -> PollVerdict {
    match result {
        Ok(()) => PollVerdict::Proceed,
        Err(IoFailure::Interrupted) => PollVerdict::Retry,
        Err(_) => PollVerdict::Fatal,
    }
}

/// Decides what follows from the end of a poll.
pub fn classify_poll(result: Result<(), IoFailure>) -> (verdict: PollVerdict)
    ensures
        verdict == poll_verdict(result),
{
    match result {
        Ok(()) => PollVerdict::Proceed,
        Err(IoFailure::Interrupted) => PollVerdict::Retry,
        Err(_) => PollVerdict::Fatal,
    }
}

/// Whether an iteration handles the engine's timeout instead of events: when
/// no event is ready and the engine has nothing queued to send.
pub open spec fn is_idle(ready: nat, pending_sends: bool) -> bool {
    ready == 0 && !pending_sends
}

/// What follows from the engine's answer to a segment.
#[derive(Clone, Copy, Debug, PartialEq, Eq, Structural)]
pub enum SegmentVerdict {
    /// Go on with the next segment of the payload.
    Next(Option<Note>),
    /// Leave the remaining segments of the payload.
    Leave(Note),
    /// The loop cannot go on.
    Abort(Fault),
}

/// What follows from the engine's answer to a segment. A segment that the
/// engine accepted, or rejected for its header, its connection identifier or
/// its token, or on which the protocol library failed, is followed by the
/// next one. When the engine would block, the rest of the payload is left.
/// Any other error is fatal.
pub open spec fn segment_verdict(result: Result<(), EngineError>) -> SegmentVerdict {
    match result {
        Ok(()) => SegmentVerdict::Next(None),
        Err(EngineError::InvalidHeader) => SegmentVerdict::Next(Some(Note::InvalidHeader)),
        Err(EngineError::UnknownConnId) => SegmentVerdict::Next(Some(Note::UnknownConnId)),
        Err(EngineError::InvalidAddrToken) => SegmentVerdict::Next(None),
        Err(EngineError::InvalidConnId) => SegmentVerdict::Next(None),
        Err(EngineError::QuicheRecvFailed) => SegmentVerdict::Next(Some(Note::QuicheRecvFailed)),
        Err(EngineError::Io(IoFailure::WouldBlock)) => SegmentVerdict::Leave(
            Note::EngineWouldBlock,
        ),
        Err(EngineError::Io(_)) => SegmentVerdict::Abort(Fault::EngineIo),
        Err(_) => SegmentVerdict::Abort(Fault::EngineReceive),
    }
}

/// Decides what follows from the engine's answer to a segment.
pub fn classify_segment(result: Result<(), EngineError>) -> (verdict: SegmentVerdict)
    ensures
        verdict == segment_verdict(result),
{
    match result {
        Ok(()) => SegmentVerdict::Next(None),
        Err(EngineError::InvalidHeader) => SegmentVerdict::Next(Some(Note::InvalidHeader)),
        Err(EngineError::UnknownConnId) => SegmentVerdict::Next(Some(Note::UnknownConnId)),
        Err(EngineError::InvalidAddrToken) => SegmentVerdict::Next(None),
        Err(EngineError::InvalidConnId) => SegmentVerdict::Next(None),
        Err(EngineError::QuicheRecvFailed) => SegmentVerdict::Next(Some(Note::QuicheRecvFailed)),
        Err(EngineError::Io(IoFailure::WouldBlock)) => SegmentVerdict::Leave(
            Note::EngineWouldBlock,
        ),
        Err(EngineError::Io(_)) => SegmentVerdict::Abort(Fault::EngineIo),
        Err(_) => SegmentVerdict::Abort(Fault::EngineReceive),
    }
}

/// What follows from the engine's answer to a request for a packet.
#[derive(Clone, Copy, Debug, PartialEq, Eq, Structural)]
pub enum PacketVerdict {
    /// The engine produced a packet: send it.
    Send(Packet),
    /// The engine has nothing more to send.
    Exhausted,
    /// The loop cannot go on.
    Fatal,
}

/// What follows from the engine's answer to a request for a packet: "done"
/// ends the sending, any other error is fatal.
pub open spec fn packet_verdict(result: Result<Packet, EngineError>) -> PacketVerdict {
    match result {
        Ok(packet) => PacketVerdict::Send(packet),
        Err(EngineError::Quiche(QuicheError::Done)) => PacketVerdict::Exhausted,
        Err(_) => PacketVerdict::Fatal,
    }
}

/// Decides what follows from the engine's answer to a request for a packet.
pub fn classify_packet(result: Result<Packet, EngineError>) -> (verdict: PacketVerdict)
    ensures
        verdict == packet_verdict(result),
{
    match result {
        Ok(packet) => PacketVerdict::Send(packet),
        Err(EngineError::Quiche(QuicheError::Done)) => PacketVerdict::Exhausted,
        Err(_) => PacketVerdict::Fatal,
    }
}

/// The note for the end of a send: a failure is logged, and nothing else
/// follows from it.
pub open spec fn sent_note(result: Result<usize, IoFailure>) -> Option<Note> {
    match result {
        Ok(_) => None,
        Err(_) => Some(Note::SendFailed),
    }
}

/// Whether the loop ends after housekeeping: when the engine accepts no
/// inbound connections and has no connection left.
pub open spec fn is_finished(is_server: bool, num_conns: usize) -> bool {
    !is_server && num_conns == 0
}

/// Decides whether the loop ends after housekeeping.
pub fn should_stop(is_server: bool, num_conns: usize) -> (stop: bool)
    ensures
        stop == is_finished(is_server, num_conns),
{
    !is_server && num_conns == 0
}

} // verus!
