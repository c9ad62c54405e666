//! RakNet transport: wire format, sequence arithmetic, budgets, peers and the router.

pub mod acceptance_laws;
pub mod actor;
pub mod actor_laws;
pub mod address;
pub mod address_laws;
pub mod address_text;
pub mod answer_laws;
pub mod arrival_laws;
pub mod budget;
pub mod checkpoint_laws;
pub mod delivery_laws;
pub mod error;
pub mod frame_laws;
pub mod import_laws;
pub mod inbox;
pub mod link_laws;
pub mod offline_laws;
pub mod peer;
pub mod peer_laws;
pub mod peer_model;
pub mod reader;
pub mod record_laws;
pub mod refusal_laws;
pub mod resend_laws;
pub mod restore_laws;
pub mod route_laws;
pub mod router_laws;
pub mod sequence;
pub mod server;
pub mod snapshot;
pub mod timing;
pub mod window;
pub mod wire;
pub mod wire_laws;
