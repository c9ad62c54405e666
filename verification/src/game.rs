//! The state of a game: its world, entities and sessions, and what clients do to them.

pub mod click;
pub mod click_laws;
pub mod content;
pub mod join_laws;
pub mod login;
pub mod mutation;
pub mod player_laws;
pub mod pose;
pub mod pose_laws;
pub mod resync;
pub mod resync_laws;
pub mod session;
pub mod stacks;
pub mod state;
pub mod state_laws;
pub mod store;
pub mod sync;
pub mod terrain;
pub mod window_click;
