//! Session management for a native runtime compiler of GPU kernels.
//!
//! The native compiler is a stateful service behind a fixed binary interface.
//! Every call into it reports a numeric status, and every variable-length
//! output is fetched in two steps: ask for the size, then fill a buffer of
//! that size. This crate holds the part of a binding that can go wrong without
//! the compiler itself being at fault: the classification of the status codes,
//! the size-then-fill protocol, and the life cycle of a compiler session.
//!
//! The native calls themselves are handed in by the caller as closures that
//! return the raw status together with whatever the call wrote. The crate
//! decides which call is made, with which arguments, and what the replies mean.

pub mod buffer;
pub mod error;
pub mod program;
pub mod version;

pub use buffer::{Artifact, OutputError};
pub use error::{NvrtcError, NvrtcResult};
pub use program::NvrtcProgram;
pub use version::version;
