//! A verified core for a small desktop window-management shell.
//!
//! The library models the command surface a frontend drives — create a
//! window under a unique label, close it, change its visual state — and the
//! applier that maps a loosely-typed configuration payload onto window
//! properties. The native windowing calls themselves live outside this
//! crate; the contracts here pin down every decision the shell makes.

pub mod config;
pub mod window;
pub mod manager;
