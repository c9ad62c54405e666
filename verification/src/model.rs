//! The world: blocks and chunks, items and inventories, players and what happens to them.

pub mod block;
pub mod capability;
pub mod chunk;
pub mod chunk_text;
pub mod effect;
pub mod event;
pub mod event_view;
pub mod ids;
pub mod inventory;
pub mod item;
pub mod names;
pub mod place_laws;
pub mod player;
pub mod sameness;
pub mod session;
pub mod stored;
pub mod view;
