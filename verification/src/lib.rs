//! Interactive teaching markers for a robot visualisation client, and the
//! coordinate-frame bookkeeping that follows the edits a user makes to them.
//!
//! The crate holds the decisions: which frames a static broadcast carries,
//! what transform a marker edit turns into, in what order queued transforms
//! leave, and what a marker looks like. Sockets, clocks, timers and threads
//! belong to the program around it, which hands in plain values.

pub mod broadcast;
pub mod failure;
pub mod frame;
pub mod geometry;
pub mod marker;
pub mod message;
pub mod relay;
pub mod server;
pub mod session;

pub use server::TeachingMarkerServer;
