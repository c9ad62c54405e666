//! Compact messages between a host and its protocol plugins.

use revycraft::codec::binary::{PLUGIN_ENVELOPE_HEADER_LEN, PROTOCOL_FLAG_RESPONSE};
use revycraft::codec::grammar::ProtocolCodecError;
use revycraft::model::block::{BlockPos, DimensionId, Vec3, WorldMeta};
use revycraft::model::capability::{CapabilitySet, SessionCapabilitySet};
use revycraft::model::ids::{ConnectionId, EntityId, PlayerId, PluginGenerationId};
use revycraft::model::item::{OpaqueF32, OpaqueF64};
use revycraft::model::names::GameplayProfileId;
use revycraft::model::session::{
    ConnectionPhase, Edition, HandshakeIntent, HandshakeNextState, LoginRequest,
    PlayEncodingContext, StatusRequest, TransportKind,
};
use revycraft::plugin::abi::current_plugin_abi;
use revycraft::protocol_codec::types::{
    CoreCommand, CoreEvent, InventoryContainer, InventorySlot, ItemStack, PlayerInventory,
    PlayerSnapshot, ProtocolDescriptor, ProtocolSessionSnapshot, ServerListStatus,
};
use revycraft::protocol_codec::{
    decode_protocol_request, decode_protocol_response, encode_protocol_request,
    encode_protocol_response, ProtocolRequest, ProtocolResponse,
};

fn stack(key: &str, count: u8) -> ItemStack {
    ItemStack { key: key.to_string(), count, damage: 0 }
}

fn sample_player_id() -> PlayerId {
    PlayerId(42)
}

fn sample_player() -> PlayerSnapshot {
    let mut slots: Vec<Option<ItemStack>> = (0..45).map(|_| None).collect();
    slots[36] = Some(stack("minecraft:stone", 32));
    let bits = |value: f64| OpaqueF64(value.to_bits());
    PlayerSnapshot {
        id: sample_player_id(),
        username: "alice".to_string(),
        position: Vec3::new(bits(1.5), bits(64.0), bits(-3.25)),
        yaw: OpaqueF32(90.0_f32.to_bits()),
        pitch: OpaqueF32(15.0_f32.to_bits()),
        on_ground: true,
        dimension: DimensionId::Overworld,
        health: OpaqueF32(20.0_f32.to_bits()),
        food: 18,
        food_saturation: OpaqueF32(5.0_f32.to_bits()),
        inventory: PlayerInventory { slots, offhand: Some(stack("minecraft:shield", 1)) },
        selected_hotbar_slot: 2,
    }
}

fn sample_descriptor() -> ProtocolDescriptor {
    ProtocolDescriptor {
        adapter_id: "je-1_7_10".to_string(),
        transport: TransportKind::Tcp,
        edition: Edition::Je,
        version_name: "1.7.10".to_string(),
        protocol_number: 5,
    }
}

fn sample_event() -> CoreEvent {
    CoreEvent::PlayBootstrap {
        player: sample_player(),
        entity_id: EntityId(7),
        world_meta: WorldMeta {
            level_name: "world".to_string(),
            seed: 99,
            spawn: BlockPos::new(0, 64, 0),
            dimension: DimensionId::Overworld,
            age: 10,
            time: 20,
            level_type: "FLAT".to_string(),
            game_mode: 1,
            difficulty: 2,
            max_players: 20,
        },
        view_distance: 2,
    }
}

fn sample_command() -> CoreCommand {
    CoreCommand::CreativeInventorySet {
        player_id: sample_player_id(),
        slot: InventorySlot::Hotbar(1),
        stack: Some(stack("minecraft:glass", 16)),
    }
}

fn sample_session() -> ProtocolSessionSnapshot {
    ProtocolSessionSnapshot {
        phase: ConnectionPhase::Play,
        player_id: Some(sample_player_id()),
        entity_id: Some(EntityId(7)),
    }
}

fn decode_play() -> ProtocolRequest {
    ProtocolRequest::DecodePlay { player_id: sample_player_id(), frame: vec![1] }
}

#[test]
fn protocol_codec_protocol_header_rejects_wrong_version_kind_and_length() {
    let request =
        encode_protocol_request(&ProtocolRequest::Describe).expect("describe request should encode");

    let mut wrong_version = request.clone();
    wrong_version[0] = 9;
    let error = decode_protocol_request(&wrong_version).expect_err("wrong version should fail");
    assert!(matches!(
        error,
        ProtocolCodecError::InvalidEnvelope("plugin ABI version mismatch")
    ));

    let mut wrong_kind = request.clone();
    wrong_kind[4] = 9;
    let error = decode_protocol_request(&wrong_kind).expect_err("wrong kind should fail");
    assert!(matches!(error, ProtocolCodecError::InvalidPluginKind(9)));

    let mut wrong_length = request;
    wrong_length[8] = 99;
    let error = decode_protocol_request(&wrong_length).expect_err("wrong length should fail");
    assert!(matches!(
        error,
        ProtocolCodecError::InvalidEnvelope("payload length did not match message size")
    ));
}

#[test]
fn protocol_codec_protocol_header_layout_is_stable() {
    let request =
        encode_protocol_request(&ProtocolRequest::Describe).expect("describe request should encode");
    assert_eq!(request.len(), PLUGIN_ENVELOPE_HEADER_LEN);
    assert_eq!(&request[0..2], &current_plugin_abi().major.to_le_bytes());
    assert_eq!(&request[2..4], &current_plugin_abi().minor.to_le_bytes());
    assert_eq!(request[4], 1);
    assert_eq!(request[5], 1);
    assert_eq!(&request[6..8], &0_u16.to_le_bytes());
    assert_eq!(&request[8..12], &0_u32.to_le_bytes());
}

#[test]
fn protocol_codec_protocol_ops_round_trip_with_binary_codec() {
    let mut capabilities = CapabilitySet::new();
    let _ = capabilities.insert("protocol.je");
    let _ = capabilities.insert("runtime.reload.protocol");
    let requests_and_responses = vec![
        (ProtocolRequest::Describe, ProtocolResponse::Descriptor(sample_descriptor())),
        (ProtocolRequest::CapabilitySet, ProtocolResponse::CapabilitySet(capabilities)),
        (
            ProtocolRequest::TryRoute { frame: vec![1, 2, 3] },
            ProtocolResponse::HandshakeIntent(Some(HandshakeIntent {
                edition: Edition::Je,
                protocol_number: 5,
                server_host: "localhost".to_string(),
                server_port: 25565,
                next_state: HandshakeNextState::Login,
            })),
        ),
        (
            ProtocolRequest::DecodeStatus { frame: vec![9, 8, 7] },
            ProtocolResponse::StatusRequest(StatusRequest::Ping { payload: 99 }),
        ),
        (
            ProtocolRequest::DecodeLogin { frame: vec![6, 5, 4] },
            ProtocolResponse::LoginRequest(LoginRequest::EncryptionResponse {
                shared_secret_encrypted: vec![1, 2, 3, 4],
                verify_token_encrypted: vec![5, 6, 7, 8],
            }),
        ),
        (
            ProtocolRequest::EncodeStatusResponse {
                status: ServerListStatus {
                    version: sample_descriptor(),
                    players_online: 1,
                    max_players: 20,
                    description: "hello".to_string(),
                },
            },
            ProtocolResponse::Frame(vec![0, 1]),
        ),
        (
            ProtocolRequest::EncodeStatusPong { payload: 123 },
            ProtocolResponse::Frame(vec![2, 3]),
        ),
        (
            ProtocolRequest::EncodeDisconnect {
                phase: ConnectionPhase::Login,
                reason: "bye".to_string(),
            },
            ProtocolResponse::Frame(vec![4, 5]),
        ),
        (
            ProtocolRequest::EncodeEncryptionRequest {
                server_id: String::new(),
                public_key_der: vec![9, 8, 7, 6],
                verify_token: vec![5, 4, 3, 2],
            },
            ProtocolResponse::Frame(vec![6, 7]),
        ),
        (
            ProtocolRequest::EncodeLoginSuccess { player: sample_player() },
            ProtocolResponse::Frame(vec![8, 9]),
        ),
        (
            ProtocolRequest::DecodePlay { player_id: sample_player_id(), frame: vec![10, 11] },
            ProtocolResponse::CoreCommand(Some(sample_command())),
        ),
        (
            ProtocolRequest::EncodePlayEvent {
                event: sample_event(),
                context: PlayEncodingContext {
                    player_id: sample_player_id(),
                    entity_id: EntityId(7),
                },
            },
            ProtocolResponse::Frames(vec![vec![12], vec![13, 14]]),
        ),
        (
            ProtocolRequest::ExportSessionState { session: sample_session() },
            ProtocolResponse::SessionTransferBlob(vec![15, 16]),
        ),
        (
            ProtocolRequest::ImportSessionState { session: sample_session(), blob: vec![17, 18] },
            ProtocolResponse::Empty,
        ),
    ];

    for (request, response) in requests_and_responses {
        let encoded_request = encode_protocol_request(&request).expect("request should encode");
        let decoded_request =
            decode_protocol_request(&encoded_request).expect("request should decode");
        assert_eq!(decoded_request, request);

        let encoded_response =
            encode_protocol_response(&request, &response).expect("response should encode");
        assert_eq!(
            u16::from_le_bytes([encoded_response[6], encoded_response[7]]),
            PROTOCOL_FLAG_RESPONSE
        );
        let decoded_response = decode_protocol_response(&request, &encoded_response)
            .expect("response should decode");
        assert_eq!(decoded_response, response);
    }
}

#[test]
fn protocol_codec_malformed_payloads_fail_deterministically() {
    let response = encode_protocol_response(
        &decode_play(),
        &ProtocolResponse::CoreCommand(Some(sample_command())),
    )
    .expect("response should encode");
    let mut truncated = response.clone();
    let _ = truncated.pop();
    let error = decode_protocol_response(&decode_play(), &truncated)
        .expect_err("truncated payload should fail");
    assert!(matches!(
        error,
        ProtocolCodecError::InvalidEnvelope("payload length did not match message size")
    ));

    let mut bad_response_flag = response;
    bad_response_flag[6] = 0;
    bad_response_flag[7] = 0;
    let error = decode_protocol_response(&decode_play(), &bad_response_flag)
        .expect_err("missing response flag should fail");
    assert!(matches!(
        error,
        ProtocolCodecError::InvalidEnvelope("protocol response was missing response flag")
    ));
}

#[test]
fn protocol_codec_capability_and_session_support_types_round_trip() {
    let mut protocol = CapabilitySet::new();
    let _ = protocol.insert("protocol.je.1_12_2");
    let capability_set = SessionCapabilitySet {
        protocol,
        gameplay: CapabilitySet::new(),
        gameplay_profile: GameplayProfileId::new("canonical"),
        entity_id: None,
        protocol_generation: Some(PluginGenerationId(3)),
        gameplay_generation: Some(PluginGenerationId(4)),
    };
    assert!(capability_set.protocol.contains("protocol.je.1_12_2"));
    assert_eq!(capability_set.gameplay_profile.as_str(), "canonical");
    assert_eq!(capability_set.protocol_generation, Some(PluginGenerationId(3)));
    assert_eq!(capability_set.gameplay_generation, Some(PluginGenerationId(4)));
}

#[test]
fn protocol_codec_samples_cover_inventory_and_event_variants() {
    let event = CoreEvent::InventorySlotChanged {
        container: InventoryContainer::Player,
        slot: InventorySlot::Offhand,
        stack: Some(stack("minecraft:shield", 1)),
    };
    let request = ProtocolRequest::EncodePlayEvent {
        event,
        context: PlayEncodingContext { player_id: sample_player_id(), entity_id: EntityId(1) },
    };
    let encoded_request =
        encode_protocol_request(&request).expect("inventory event request should encode");
    let decoded_request =
        decode_protocol_request(&encoded_request).expect("inventory event request should decode");
    assert_eq!(decoded_request, request);

    let login_command = CoreCommand::LoginStart {
        connection_id: ConnectionId(1),
        username: "alice".to_string(),
        player_id: sample_player_id(),
    };
    let response = ProtocolResponse::CoreCommand(Some(login_command));
    let decode_play =
        ProtocolRequest::DecodePlay { player_id: sample_player_id(), frame: vec![0x10] };
    let encoded_response =
        encode_protocol_response(&decode_play, &response).expect("command should encode");
    let decoded_response =
        decode_protocol_response(&decode_play, &encoded_response).expect("command should decode");
    assert_eq!(decoded_response, response);
}
