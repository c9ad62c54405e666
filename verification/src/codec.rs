//! The plugin wire format: a grammar for values, and the codecs built on it.

pub mod grammar;
pub mod binary;
pub mod wire;
pub mod maps;
pub mod item;
pub mod basic;
pub mod world;
pub mod placement;
pub mod event;
pub mod session;
pub mod capability;
pub mod message;
pub mod exact;
pub mod auth;
pub mod storage;
pub mod protocol;
pub mod gameplay;
pub mod sizes;
pub mod effect;
pub mod host_blob;
pub mod admin;
pub mod admin_ui;
pub mod admin_transport;
pub mod admin_surface;
pub mod layout_laws;
pub mod message_laws;
pub mod admission_laws;
