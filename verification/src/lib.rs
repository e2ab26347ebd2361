//! Recovery of the creation bytecode of a deployed contract, and byte-precise
//! slicing of the ABI-encoded constructor arguments appended to its tail.
//!
//! The decision logic is verified here; the explorer and chain-provider
//! clients that feed it are external collaborators and hand in plain values.

pub mod bytes;
pub mod locator;
pub mod model;
pub mod splitter;
