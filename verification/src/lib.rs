//! Verified driver core for the ILI9488 display controller family.
//!
//! The core covers the three parts of such a driver that must be bit-exact:
//! the power-up register sequence with its timing, the addressing-mode and
//! pixel-format payloads derived from the caller's configuration, and the
//! serialization of typed colors into the byte layout the controller's
//! memory-write command expects.  Every interface action a driver operation
//! performs is recorded in order by a [`dcs::Dcs`] channel, and each
//! operation's contract states the exact trace it appends; unverified glue
//! replays a trace onto a real bus, delay provider, and reset pin.

pub mod builder;
pub mod color;
pub mod dcs;
pub mod error;
pub mod laws;
pub mod models;
pub mod options;
