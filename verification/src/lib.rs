//! Hook-and-bridge engine for an in-process extension that attaches to a
//! running native host, redirects one of its control-flow paths through a
//! replacement function, and registers new commands and UI surfaces through
//! the host's own extension interface.
//!
//! Everything here works on plain values: addresses are `u64`, native
//! argument buffers are owned strings, outside calls are actions handed to
//! a driving loop and outcomes taken back as events. The thin layer that
//! touches real process memory lives outside this crate and drives these
//! state machines.

pub mod errors;
pub mod field;
pub mod hook;
pub mod registry;
pub mod setup;
pub mod sim;
pub mod state;
pub mod surface;
pub mod textfmt;
