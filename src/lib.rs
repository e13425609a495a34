//! Planning core of a launcher that runs a game server from a shared,
//! read-only installation inside a private mount namespace.
//!
//! Everything here is pure: the library decides which paths to create,
//! which bind mounts to perform and in what order, what to seed on the
//! first run, how to set up the user namespace and which program to run.
//! Performing those actions is left to the caller.
pub mod path;
pub mod plan;
pub mod eco;
pub mod satisfactory;
pub mod seed;
pub mod isolate;
pub mod handoff;
