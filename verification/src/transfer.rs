//! Revisions of a game, and how one process hands them to the next.

pub mod consistency;
pub mod delta;
pub mod delta_laws;
pub mod fault;
pub mod handover;
pub mod payload;
pub mod version;
