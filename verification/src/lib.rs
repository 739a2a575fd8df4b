//! Transport and logging rules of an editor event logger.
//!
//! The logger talks to a host editor over two one-way byte pipes. It sends a
//! short handshake of remote-procedure-call requests, then appends every
//! non-empty message that arrives to a text log, one line per message, until
//! the inbound pipe reports end-of-stream.
//!
//! This crate holds every decision of that exchange and leaves the system
//! calls to the program around it:
//!
//! * [`channel`] names the ends of the two pipes;
//! * [`request`] builds and encodes the outbound requests;
//! * [`outbound`] tracks a frame across partial writes;
//! * [`inbound`] classifies reads, buffers frames and renders log lines;
//! * [`listener`] sequences the whole exchange as a state machine;
//! * [`history`] states what holds of a listener over any sequence of events.

pub mod channel;
pub mod outbound;
pub mod request;
pub mod inbound;
pub mod listener;
pub mod history;
