//! Bridges an edge watcher and a structured-log encoder to a byte-stream
//! transport through a single-slot, last-write-wins mailbox.
//!
//! - `packet`: the fixed-capacity message.
//! - `mailbox`: the slot that producers signal into and the one consumer
//!   takes from.
//! - `encoder`: the shared log-frame encoder and its reentrancy lock.
//! - `edge`: the message that an edge on the input gives.
//! - `writer`: what the packet writer does after each event.

pub mod edge;
pub mod encoder;
pub mod mailbox;
pub mod packet;
pub mod writer;
