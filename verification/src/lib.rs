//! Verified core of a voxel game server: the RakNet transport rules, the world and
//! inventory model, the plugin wire codecs and the versioned core transfer format.

pub mod bytes;
pub mod codec;
pub mod game;
pub mod lists;
pub mod model;
pub mod numbers;
pub mod ordered;
pub mod plugin;
pub mod protocol_codec;
pub mod raknet;
pub mod text;
pub mod text_laws;
pub mod transfer;
