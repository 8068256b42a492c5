//! The decision core of an event loop that drives a QUIC endpoint over UDP
//! sockets with receive coalescing, send segmentation and send pacing.
//!
//! Nothing in this crate performs I/O. A driver owns the operating-system
//! handles, the poller and the protocol engine. It performs the operation
//! that [`Runner::run`] asks for, and feeds the result back as the next
//! input:
//!
//! ```text
//! let mut action = Action::QueryEngine;
//! loop {
//!     let input = perform(action);      // poll, receive, send, call the engine
//!     action = runner.run(input).action;
//! }
//! ```
//!
//! The loop ends with [`step::Action::Stop`] or [`step::Action::Abort`].

pub mod addr;
pub mod failure;
pub mod laws;
pub mod recvfrom;
pub mod registry;
pub mod runner;
pub mod segment;
pub mod slots;
pub mod socket;
pub mod sockets;
pub mod step;
pub mod timeout;

pub use addr::{Addr, RecvInfo, SendInfo};
pub use recvfrom::recv_from;
pub use registry::{Event, Registry};
pub use runner::Runner;
pub use socket::Socket;
pub use sockets::MioSockets;
pub use step::{Action, Input, Outcome, Stage};
pub use timeout::{next_timeout, Timeout};
