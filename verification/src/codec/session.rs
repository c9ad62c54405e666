//! Connections and their protocols on the wire.

use crate::codec::basic::{decode_len, encode_len};
use crate::codec::binary::{Decoder, Encoder};
use crate::codec::grammar::{
    both, case, chosen, pair, tagged, unsigned, Cases, Format, ProtocolCodecError, Value,
};
use crate::codec::wire::{compound_rules, decode_bytes, encode_bytes, Wire};
use crate::model::ids::{ConnectionId, EntityId, PlayerId};
use crate::model::session::{
    BedrockListenerDescriptor, ConnectionPhase, Edition, HandshakeIntent, HandshakeNextState,
    LoginRequest, PlayEncodingContext, ProtocolDescriptor, ProtocolSessionSnapshot,
    ServerListStatus, StatusRequest, TransportKind, WireFormatKind, WireFrameDecodeResult,
};
use vstd::prelude::*;

verus! {

broadcast use compound_rules;

impl Wire for ProtocolDescriptor {
    open spec fn format() -> Format {
        pair(
            String::format(),
            pair(
                TransportKind::format(),
                pair(
                    WireFormatKind::format(),
                    pair(Edition::format(), pair(String::format(), i32::format())),
                ),
            ),
        )
    }

    open spec fn value(&self) -> Value {
        both(
            self.adapter_id.value(),
            both(
                self.transport.value(),
                both(
                    self.wire_format.value(),
                    both(
                        self.edition.value(),
                        both(self.version_name.value(), self.protocol_number.value()),
                    ),
                ),
            ),
        )
    }

    open spec fn encodable(&self) -> bool {
        self.transport.encodable() && self.wire_format.encodable() && self.edition.encodable()
    }

    fn encode(&self, encoder: &mut Encoder) -> (result: Result<(), ProtocolCodecError>) {
        self.adapter_id.encode(encoder)?;
        self.transport.encode(encoder)?;
        self.wire_format.encode(encoder)?;
        self.edition.encode(encoder)?;
        self.version_name.encode(encoder)?;
        self.protocol_number.encode(encoder)
    }

    fn decode(decoder: &mut Decoder<'_>) -> (result: Result<Self, ProtocolCodecError>) {
        let adapter_id = String::decode(decoder)?;
        let transport = TransportKind::decode(decoder)?;
        let wire_format = WireFormatKind::decode(decoder)?;
        let edition = Edition::decode(decoder)?;
        let version_name = String::decode(decoder)?;
        let protocol_number: i32 = i32::decode(decoder)?;
        Ok(
            ProtocolDescriptor {
                adapter_id,
                transport,
                wire_format,
                edition,
                version_name,
                protocol_number,
            },
        )
    }
}

impl Wire for BedrockListenerDescriptor {
    open spec fn format() -> Format {
        pair(String::format(), u8::format())
    }

    open spec fn value(&self) -> Value {
        both(self.game_version.value(), self.raknet_version.value())
    }

    open spec fn encodable(&self) -> bool {
        true
    }

    fn encode(&self, encoder: &mut Encoder) -> (result: Result<(), ProtocolCodecError>) {
        self.game_version.encode(encoder)?;
        self.raknet_version.encode(encoder)
    }

    fn decode(decoder: &mut Decoder<'_>) -> (result: Result<Self, ProtocolCodecError>) {
        let game_version = String::decode(decoder)?;
        let raknet_version: u8 = u8::decode(decoder)?;
        Ok(BedrockListenerDescriptor { game_version, raknet_version })
    }
}

impl Wire for HandshakeIntent {
    open spec fn format() -> Format {
        pair(
            Edition::format(),
            pair(
                i32::format(),
                pair(String::format(), pair(u16::format(), HandshakeNextState::format())),
            ),
        )
    }

    open spec fn value(&self) -> Value {
        both(
            self.edition.value(),
            both(
                self.protocol_number.value(),
                both(
                    self.server_host.value(),
                    both(self.server_port.value(), self.next_state.value()),
                ),
            ),
        )
    }

    open spec fn encodable(&self) -> bool {
        self.edition.encodable() && self.next_state.encodable()
    }

    fn encode(&self, encoder: &mut Encoder) -> (result: Result<(), ProtocolCodecError>) {
        self.edition.encode(encoder)?;
        self.protocol_number.encode(encoder)?;
        self.server_host.encode(encoder)?;
        self.server_port.encode(encoder)?;
        self.next_state.encode(encoder)
    }

    fn decode(decoder: &mut Decoder<'_>) -> (result: Result<Self, ProtocolCodecError>) {
        let edition = Edition::decode(decoder)?;
        let protocol_number: i32 = i32::decode(decoder)?;
        let server_host = String::decode(decoder)?;
        let server_port: u16 = u16::decode(decoder)?;
        let next_state = HandshakeNextState::decode(decoder)?;
        Ok(HandshakeIntent { edition, protocol_number, server_host, server_port, next_state })
    }
}

impl Wire for StatusRequest {
    open spec fn format() -> Format {
        tagged(
            case(
                1,
                Format::Unit,
                case(2, i64::format(), Cases::Otherwise("invalid status request")),
            ),
        )
    }

    open spec fn value(&self) -> Value {
        match self {
            StatusRequest::Query => chosen(1, Value::Unit),
            StatusRequest::Ping { payload } => chosen(2, payload.value()),
        }
    }

    open spec fn encodable(&self) -> bool {
        true
    }

    fn encode(&self, encoder: &mut Encoder) -> (result: Result<(), ProtocolCodecError>) {
        match self {
            StatusRequest::Query => {
                encoder.write_u8(1);
                Ok(())
            },
            StatusRequest::Ping { payload } => {
                encoder.write_u8(2);
                payload.encode(encoder)
            },
        }
    }

    fn decode(decoder: &mut Decoder<'_>) -> (result: Result<Self, ProtocolCodecError>) {
        let tag: u8 = decoder.read_u8()?;
        match tag {
            1 => Ok(StatusRequest::Query),
            2 => {
                let payload: i64 = i64::decode(decoder)?;
                Ok(StatusRequest::Ping { payload })
            },
            _ => Err(ProtocolCodecError::InvalidValue("invalid status request")),
        }
    }
}

impl Wire for LoginRequest {
    open spec fn format() -> Format {
        tagged(
            case(
                1,
                String::format(),
                case(
                    2,
                    pair(Format::Bytes, Format::Bytes),
                    case(
                        3,
                        i32::format(),
                        case(
                            4,
                            pair(
                                i32::format(),
                                pair(
                                    String::format(),
                                    pair(<Vec<String>>::format(), String::format()),
                                ),
                            ),
                            Cases::Otherwise("invalid login request"),
                        ),
                    ),
                ),
            ),
        )
    }

    open spec fn value(&self) -> Value {
        match self {
            LoginRequest::LoginStart { username } => chosen(1, username.value()),
            LoginRequest::EncryptionResponse {
                shared_secret_encrypted,
                verify_token_encrypted,
            } => chosen(
                2,
                both(Value::Bytes(shared_secret_encrypted@), Value::Bytes(verify_token_encrypted@)),
            ),
            LoginRequest::BedrockNetworkSettingsRequest { protocol_number } => chosen(
                3,
                protocol_number.value(),
            ),
            LoginRequest::BedrockLogin {
                protocol_number,
                display_name,
                chain_jwts,
                client_data_jwt,
            } => chosen(
                4,
                both(
                    protocol_number.value(),
                    both(display_name.value(), both(chain_jwts.value(), client_data_jwt.value())),
                ),
            ),
        }
    }

    open spec fn encodable(&self) -> bool {
        match self {
            LoginRequest::BedrockLogin {
                protocol_number,
                display_name,
                chain_jwts,
                client_data_jwt,
            } => chain_jwts.encodable(),
            _ => true,
        }
    }

    fn encode(&self, encoder: &mut Encoder) -> (result: Result<(), ProtocolCodecError>) {
        match self {
            LoginRequest::LoginStart { username } => {
                encoder.write_u8(1);
                username.encode(encoder)
            },
            LoginRequest::EncryptionResponse {
                shared_secret_encrypted,
                verify_token_encrypted,
            } => {
                encoder.write_u8(2);
                encode_bytes(shared_secret_encrypted, encoder)?;
                encode_bytes(verify_token_encrypted, encoder)
            },
            LoginRequest::BedrockNetworkSettingsRequest { protocol_number } => {
                encoder.write_u8(3);
                protocol_number.encode(encoder)
            },
            LoginRequest::BedrockLogin {
                protocol_number,
                display_name,
                chain_jwts,
                client_data_jwt,
            } => {
                encoder.write_u8(4);
                protocol_number.encode(encoder)?;
                display_name.encode(encoder)?;
                chain_jwts.encode(encoder)?;
                client_data_jwt.encode(encoder)
            },
        }
    }

    fn decode(decoder: &mut Decoder<'_>) -> (result: Result<Self, ProtocolCodecError>) {
        let tag: u8 = decoder.read_u8()?;
        match tag {
            1 => {
                let username = String::decode(decoder)?;
                Ok(LoginRequest::LoginStart { username })
            },
            2 => {
                let shared_secret_encrypted = decode_bytes(decoder)?;
                let verify_token_encrypted = decode_bytes(decoder)?;
                Ok(
                    LoginRequest::EncryptionResponse {
                        shared_secret_encrypted,
                        verify_token_encrypted,
                    },
                )
            },
            3 => {
                let protocol_number: i32 = i32::decode(decoder)?;
                Ok(LoginRequest::BedrockNetworkSettingsRequest { protocol_number })
            },
            4 => {
                let protocol_number: i32 = i32::decode(decoder)?;
                let display_name = String::decode(decoder)?;
                let chain_jwts = Vec::<String>::decode(decoder)?;
                let client_data_jwt = String::decode(decoder)?;
                Ok(
                    LoginRequest::BedrockLogin {
                        protocol_number,
                        display_name,
                        chain_jwts,
                        client_data_jwt,
                    },
                )
            },
            _ => Err(ProtocolCodecError::InvalidValue("invalid login request")),
        }
    }
}

impl Wire for ServerListStatus {
    open spec fn format() -> Format {
        pair(ProtocolDescriptor::format(), pair(unsigned(4), pair(unsigned(4), String::format())))
    }

    open spec fn value(&self) -> Value {
        both(
            self.version.value(),
            both(
                Value::Int(self.players_online as int),
                both(Value::Int(self.max_players as int), self.description.value()),
            ),
        )
    }

    open spec fn encodable(&self) -> bool {
        self.version.encodable()
    }

    fn encode(&self, encoder: &mut Encoder) -> (result: Result<(), ProtocolCodecError>) {
        self.version.encode(encoder)?;
        encode_len(self.players_online, encoder)?;
        encode_len(self.max_players, encoder)?;
        self.description.encode(encoder)
    }

    fn decode(decoder: &mut Decoder<'_>) -> (result: Result<Self, ProtocolCodecError>) {
        let version = ProtocolDescriptor::decode(decoder)?;
        let players_online: usize = decode_len(decoder)?;
        let max_players: usize = decode_len(decoder)?;
        let description = String::decode(decoder)?;
        Ok(ServerListStatus { version, players_online, max_players, description })
    }
}

impl Wire for PlayEncodingContext {
    open spec fn format() -> Format {
        pair(PlayerId::format(), EntityId::format())
    }

    open spec fn value(&self) -> Value {
        both(self.player_id.value(), self.entity_id.value())
    }

    open spec fn encodable(&self) -> bool {
        self.player_id.encodable() && self.entity_id.encodable()
    }

    fn encode(&self, encoder: &mut Encoder) -> (result: Result<(), ProtocolCodecError>) {
        self.player_id.encode(encoder)?;
        self.entity_id.encode(encoder)
    }

    fn decode(decoder: &mut Decoder<'_>) -> (result: Result<Self, ProtocolCodecError>) {
        let player_id = PlayerId::decode(decoder)?;
        let entity_id = EntityId::decode(decoder)?;
        Ok(PlayEncodingContext { player_id, entity_id })
    }
}

impl Wire for ProtocolSessionSnapshot {
    open spec fn format() -> Format {
        pair(
            ConnectionId::format(),
            pair(
                ConnectionPhase::format(),
                pair(<Option<PlayerId>>::format(), <Option<EntityId>>::format()),
            ),
        )
    }

    open spec fn value(&self) -> Value {
        both(
            self.connection_id.value(),
            both(self.phase.value(), both(self.player_id.value(), self.entity_id.value())),
        )
    }

    open spec fn encodable(&self) -> bool {
        self.connection_id.encodable() && self.phase.encodable() && self.player_id.encodable()
            && self.entity_id.encodable()
    }

    fn encode(&self, encoder: &mut Encoder) -> (result: Result<(), ProtocolCodecError>) {
        self.connection_id.encode(encoder)?;
        self.phase.encode(encoder)?;
        self.player_id.encode(encoder)?;
        self.entity_id.encode(encoder)
    }

    fn decode(decoder: &mut Decoder<'_>) -> (result: Result<Self, ProtocolCodecError>) {
        let connection_id = ConnectionId::decode(decoder)?;
        let phase = ConnectionPhase::decode(decoder)?;
        let player_id = Option::<PlayerId>::decode(decoder)?;
        let entity_id = Option::<EntityId>::decode(decoder)?;
        Ok(ProtocolSessionSnapshot { connection_id, phase, player_id, entity_id })
    }
}

impl Wire for WireFrameDecodeResult {
    open spec fn format() -> Format {
        pair(unsigned(4), Format::Bytes)
    }

    open spec fn value(&self) -> Value {
        both(Value::Int(self.bytes_consumed as int), Value::Bytes(self.frame@))
    }

    open spec fn encodable(&self) -> bool {
        true
    }

    fn encode(&self, encoder: &mut Encoder) -> (result: Result<(), ProtocolCodecError>) {
        encode_len(self.bytes_consumed, encoder)?;
        encode_bytes(&self.frame, encoder)
    }

    fn decode(decoder: &mut Decoder<'_>) -> (result: Result<Self, ProtocolCodecError>) {
        let bytes_consumed: usize = decode_len(decoder)?;
        let frame = decode_bytes(decoder)?;
        Ok(WireFrameDecodeResult { bytes_consumed, frame })
    }
}

} // verus!
