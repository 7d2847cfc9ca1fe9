//! A relay that runs submitted source code and streams its output back.
//!
//! The crate holds the decisions of one connection and leaves every read,
//! write and process call to its driver: the framing and decoding of the
//! request, the naming of the workspace, the multiplexer that interleaves the
//! two output streams with the exit of the process, and the lifecycle that
//! removes the workspace on every path.

pub mod error;
pub mod varint;
pub mod message;
pub mod frame;
pub mod workspace;
pub mod relay;
pub mod trace;
pub mod session;
pub mod lifecycle;
pub mod listener;
