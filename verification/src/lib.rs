//! Connection manager for serial-over-radio links.
//!
//! The library owns the registry of active connections, decides what each
//! public operation (connect, send, disconnect) does to that registry, and
//! drives the per-connection receive loop as a state machine.  Everything
//! that blocks — the transport itself, timers, threads, the UI event bus —
//! lives outside the library and only hands plain values in and out.

pub mod discovery;
pub mod errors;
pub mod events;
pub mod laws;
pub mod manager;
pub mod recv_loop;
pub mod registry;
