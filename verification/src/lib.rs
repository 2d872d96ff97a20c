//! Host/target protocol for staging the contents of an external SPI flash
//! chip through a microcontroller's RAM, coordinated over a debug probe.
//!
//! The target publishes a 12-byte descriptor naming its flash size, staging
//! buffer size and transfer direction; host and target then hand a single
//! RAM buffer back and forth, one chunk at a time, synchronised by a one-word
//! binary semaphore. This crate holds the descriptor codec, the symbol and
//! plan validation, and both sides of the handshake as verified state
//! machines; a thin binary performs the probe and file I/O around them.

pub mod chunks;
pub mod cli;
pub mod descriptor;
pub mod direction;
pub mod errors;
pub mod host;
pub mod image;
pub mod plan;
pub mod target;
