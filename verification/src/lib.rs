//! Supervision of the local sync helper process, and discovery of vault files.
//!
//! Nothing in this crate performs I/O. Every operation that the desktop
//! application carries out against the outside world (spawning the helper,
//! probing its health endpoint, sleeping, killing it, reading a directory) is
//! requested here as a plain value and answered with a plain value, so that
//! every decision between two such operations is a verified function.

pub mod error;
pub mod health;
pub mod events;
pub mod state;
pub mod sync;
pub mod runs;
pub mod vaults;
