//! A verified fragment of a microkernel's I/O layer: a minimal TCP responder
//! and a framebuffer device behind one stream-like resource contract.
//!
//! The responder converts one inbound segment into zero or one outbound
//! segments, with no connection state: raw bytes decode into a segment
//! (`codec`), an Internet checksum is computed over a synthesized
//! pseudo-header (`checksum`), and a SYN or PSH segment to the served port
//! earns a fully synthesized reply (`respond`). The display device answers
//! write, seek and sync against a double-buffered surface (`display`)
//! through the capability contract every resource shares (`resource`).
//!
//! Collaborators of the surrounding kernel — the random number generator
//! behind a fresh initial sequence number, the HTTP response generator, the
//! hardware surface behind the display — stay outside: the library takes
//! their results as plain values and is verified for every value they could
//! hand in.

pub mod net;
pub mod checksum;
pub mod codec;
pub mod respond;
pub mod resource;
pub mod display;
pub mod text;
