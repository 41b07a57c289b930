//! Supervision core for a desktop client's local backend server.
//!
//! The library owns the decision logic of a one-shot process supervisor:
//! whether a server must be launched (liveness probing is the host's job,
//! the decision on its result is ours), which process handle is owned, and
//! what a shutdown must signal. The host shell performs the actual probe,
//! spawn and terminate calls and feeds their plain results back in.

pub mod config;
pub mod greeting;
pub mod supervisor;
