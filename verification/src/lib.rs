//! Sidecar worker supervision logic.
//!
//! The library resolves the filesystem locations of a helper ("worker")
//! executable and an optional external transcoder binary, builds the worker's
//! argument vector, parses the worker's readiness announcement from its
//! standard-output lines, and keeps the shared runtime record (announced port,
//! chosen data directory) that query handlers read.
//!
//! Filesystem probes, process spawning and stream reading are performed by the
//! surrounding application, which hands their outcomes to the functions here
//! as plain values.

pub mod locate;
pub mod paths;
pub mod platform;
pub mod protocol;
pub mod runtime;
pub mod text;
