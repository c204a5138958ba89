//! A link-layer software bridge: frames captured on one network interface are
//! parsed, filtered by a pluggable policy, handed through a bounded FIFO
//! queue, and transmitted verbatim on a second interface.
//!
//! This crate holds the verified core of that pipeline: the Ethernet II frame
//! model, the filtering policy, the bounded forwarding queue, and the
//! per-iteration step functions of the capture and transmit loops. The
//! surrounding process (interface lookup, capture/transmit capabilities,
//! logging, task scheduling) stays outside and drives these steps.

pub mod filter;
pub mod frame;
pub mod laws;
pub mod pipeline;
pub mod queue;

pub use filter::FilterPolicy;
pub use frame::EthernetFrame;
pub use pipeline::CaptureOutcome;
pub use queue::ForwardingQueue;
