//! Verified core of a sandboxed package-build runtime.
//!
//! A host process launches a purpose-built init inside a set of fresh Linux
//! namespaces and drives it over a pair of anonymous pipes carrying a
//! length-prefixed binary protocol.  This crate holds the verified logic of
//! that runtime: the frame codec, the typed operation codes for both
//! directions, the subordinate-id mapping rules, the namespace setup plan,
//! and the state machine of the in-sandbox init.  The surrounding process
//! machinery (pipes, forks, mounts, exec) lives outside and consults this
//! crate for every decision.

pub mod codec;
pub mod git;
pub mod id_map;
pub mod images;
pub mod init;
pub mod num;
pub mod protocol;
pub mod release;
pub mod session;
pub mod setup;
pub mod spec_sh;
pub mod specs;
pub mod text;
