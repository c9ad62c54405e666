//! Connections of clients: their phases, protocols and first requests.

use crate::model::ids::{ConnectionId, EntityId, PlayerId};
use vstd::prelude::*;

verus! {

/// How far a connection has come.
#[derive(Clone, Copy, Debug, PartialEq, Eq, Structural)]
pub enum ConnectionPhase {
    Handshaking,
    Status,
    Login,
    Play,
}

/// How bytes are transported.
#[derive(Clone, Copy, Debug, PartialEq, Eq, Structural)]
pub enum TransportKind {
    Tcp,
    Udp,
}

/// How packets are told apart.
#[derive(Clone, Copy, Debug, PartialEq, Eq, Structural)]
pub enum WireFormatKind {
    MinecraftFramed,
    RawPacketStream,
}

/// Which edition of the game.
#[derive(Clone, Copy, Debug, PartialEq, Eq, Structural)]
pub enum Edition {
    Je,
    Be,
}

/// What a client wants after the handshake.
#[derive(Clone, Copy, Debug, PartialEq, Eq, Structural)]
pub enum HandshakeNextState {
    Status,
    Login,
}

/// A version of the game protocol.
#[derive(Debug, PartialEq, Eq)]
pub struct ProtocolDescriptor {
    pub adapter_id: String,
    pub transport: TransportKind,
    pub wire_format: WireFormatKind,
    pub edition: Edition,
    pub version_name: String,
    pub protocol_number: i32,
}

/// What a listener advertises.
#[derive(Debug, PartialEq, Eq)]
pub struct BedrockListenerDescriptor {
    pub game_version: String,
    pub raknet_version: u8,
}

/// What a handshake says.
#[derive(Debug, PartialEq, Eq)]
pub struct HandshakeIntent {
    pub edition: Edition,
    pub protocol_number: i32,
    pub server_host: String,
    pub server_port: u16,
    pub next_state: HandshakeNextState,
}

/// What a client asks before logging in.
#[derive(Clone, Copy, Debug, PartialEq, Eq, Structural)]
pub enum StatusRequest {
    Query,
    Ping { payload: i64 },
}

/// What a client sends to log in.
#[derive(Debug, PartialEq, Eq)]
pub enum LoginRequest {
    LoginStart { username: String },
    EncryptionResponse { shared_secret_encrypted: Vec<u8>, verify_token_encrypted: Vec<u8> },
    BedrockNetworkSettingsRequest { protocol_number: i32 },
    BedrockLogin {
        protocol_number: i32,
        display_name: String,
        chain_jwts: Vec<String>,
        client_data_jwt: String,
    },
}

/// What a server says of itself.
#[derive(Debug, PartialEq, Eq)]
pub struct ServerListStatus {
    pub version: ProtocolDescriptor,
    pub players_online: usize,
    pub max_players: usize,
    pub description: String,
}

/// For whom an event is written.
#[derive(Clone, Copy, Debug, PartialEq, Eq, Structural)]
pub struct PlayEncodingContext {
    pub player_id: PlayerId,
    pub entity_id: EntityId,
}

/// What a protocol plugin is told of a session.
#[derive(Clone, Copy, Debug, PartialEq, Eq, Structural)]
pub struct ProtocolSessionSnapshot {
    pub connection_id: ConnectionId,
    pub phase: ConnectionPhase,
    pub player_id: Option<PlayerId>,
    pub entity_id: Option<EntityId>,
}

/// A packet that was taken from a stream of bytes.
#[derive(Debug, PartialEq, Eq)]
pub struct WireFrameDecodeResult {
    pub bytes_consumed: usize,
    pub frame: Vec<u8>,
}

} // verus!
