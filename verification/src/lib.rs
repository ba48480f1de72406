//! Provisioning of a remotely hosted execution environment and one code
//! execution against it, as verified decision logic.
//!
//! The crate holds every rule of the two chained protocols: which lines of a
//! build stream carry an event, which events end the build, how a kernel is
//! requested and how the answer is read, which inbound session messages end
//! the wait for a result, and in which order the coordinator asks for network
//! work. The network work itself is done by the caller, who hands each
//! outcome back as a plain value.

pub mod build_stream;
pub mod coordinator;
pub mod environment;
pub mod launch;
pub mod lines;
pub mod phase;
pub mod session;
pub mod watch;
