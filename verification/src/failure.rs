//! The ways in which outside operations fail, as far as the loop tells them
//! apart.

use vstd::prelude::*;

verus! {

/// Kind of an I/O error.
#[derive(Clone, Copy, Debug, PartialEq, Eq, Structural)]
pub enum IoFailure {
    /// The operation would block: no data, or no buffer space, right now.
    WouldBlock,
    /// The operation was interrupted by a signal.
    Interrupted,
    /// Any other I/O error.
    Other,
}

/// Error of the underlying protocol library.
#[derive(Clone, Copy, Debug, PartialEq, Eq, Structural)]
pub enum QuicheError {
    /// There is nothing more to do.
    Done,
    /// Any other error.
    Other,
}

/// Error reported by the protocol engine.
#[derive(Clone, Copy, Debug, PartialEq, Eq, Structural)]
pub enum EngineError {
    /// The user asked for the loop to stop.
    CloseByUser,
    /// The packet header could not be parsed.
    InvalidHeader,
    /// The packet names a connection that the engine does not know.
    UnknownConnId,
    /// The packet's connection identifier is not valid.
    InvalidConnId,
    /// The packet's address-validation token is not valid.
    InvalidAddrToken,
    /// An I/O error.
    Io(IoFailure),
    /// The protocol library failed to process the packet.
    QuicheRecvFailed,
    /// Another error of the protocol library.
    Quiche(QuicheError),
    /// Any other error.
    Other,
}

/// A receive result that the loop cannot work with.
#[derive(Clone, Copy, Debug, PartialEq, Eq, Structural)]
pub enum RecvFault {
    /// The kernel attached a control message other than the segment size.
    UnexpectedControlMessage,
    /// The kernel reported no usable source address.
    MissingAddress,
}

/// A condition that ends the loop abnormally.
#[derive(Clone, Copy, Debug, PartialEq, Eq, Structural)]
pub enum Fault {
    /// Polling failed with an error other than an interrupt.
    Poll,
    /// A ready token has no event descriptor.
    UnknownToken,
    /// An event descriptor names a socket that is not registered.
    UnknownSocket,
    /// Receiving on a socket failed with an error other than would-block.
    Receive,
    /// A receive returned something that cannot be interpreted.
    Malformed(RecvFault),
    /// The engine reported an I/O error other than would-block for a segment.
    EngineIo,
    /// The engine reported an error for a segment that has no handling.
    EngineReceive,
    /// The engine failed to produce an outgoing packet.
    EngineSend,
    /// The engine wants to send from an address that no socket is bound to.
    UnknownSource,
    /// The input does not answer the operation that was asked for.
    OutOfTurn,
}

/// Severity of a log line.
#[derive(Clone, Copy, Debug, PartialEq, Eq, Structural)]
pub enum Severity {
    /// What is expected in normal operation.
    Trace,
    /// What is skipped as a matter of routine.
    Debug,
    /// What is serious, though the loop goes on.
    Error,
}

/// Something worth a log line that happened in a step and did not end the
/// loop.
#[derive(Clone, Copy, Debug, PartialEq, Eq, Structural)]
pub enum Note {
    /// Polling was interrupted and is retried.
    PollInterrupted,
    /// The socket has no more datagrams.
    RecvWouldBlock,
    /// The engine would block on a segment; the rest of the datagram is left.
    EngineWouldBlock,
    /// A segment's header did not parse; the segment is skipped.
    InvalidHeader,
    /// A segment names an unknown connection; the segment is skipped.
    UnknownConnId,
    /// The protocol library failed on a segment; the segment is skipped.
    QuicheRecvFailed,
    /// Sending a packet failed; the packet is dropped.
    SendFailed,
}

impl Note {
    /// Severity at which the note is logged.
    pub open spec fn spec_severity(self) -> Severity {
        match self {
            Note::PollInterrupted => Severity::Trace,
            Note::RecvWouldBlock => Severity::Trace,
            Note::EngineWouldBlock => Severity::Trace,
            Note::UnknownConnId => Severity::Debug,
            Note::InvalidHeader => Severity::Error,
            Note::QuicheRecvFailed => Severity::Error,
            Note::SendFailed => Severity::Error,
        }
    }

    /// Severity at which the note is logged: trace for what is expected,
    /// debug for what is skipped routinely, error for what is serious.
    #[verifier::when_used_as_spec(spec_severity)]
    pub fn severity(self) -> (s: Severity)
        ensures
            s == self.spec_severity(),
    {
        match self {
            Note::PollInterrupted => Severity::Trace,
            Note::RecvWouldBlock => Severity::Trace,
            Note::EngineWouldBlock => Severity::Trace,
            Note::UnknownConnId => Severity::Debug,
            Note::InvalidHeader => Severity::Error,
            Note::QuicheRecvFailed => Severity::Error,
            Note::SendFailed => Severity::Error,
        }
    }
}

} // verus!
