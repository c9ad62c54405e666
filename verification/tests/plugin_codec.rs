//! Messages between a host and its plugins.

use revycraft::codec::admin::RuntimeReloadMode;
use revycraft::codec::admin_surface;
use revycraft::codec::admin_transport;
use revycraft::codec::admin_ui::{
    admin_ui_input_payload, admin_ui_output_payload, decode_admin_ui_input, decode_admin_ui_output,
    encode_admin_ui_input, encode_admin_ui_output, AdminPermission, AdminPrincipal, AdminRequest,
    AdminUiInput, AdminUiOpCode, AdminUiOutput,
};
use revycraft::codec::auth::{
    decode_auth_request, decode_auth_response, encode_auth_request, encode_auth_response,
    AuthDescriptor, AuthMode, AuthOpCode, AuthRequest, AuthResponse, BedrockAuthResult,
};
use revycraft::codec::binary::{
    Decoder, Encoder, PLUGIN_ENVELOPE_HEADER_LEN, PROTOCOL_FLAG_RESPONSE,
};
use revycraft::codec::gameplay::{
    decode_gameplay_request, decode_gameplay_response, encode_gameplay_request,
    encode_gameplay_response, GameplayDescriptor, GameplayRequest, GameplayResponse,
    GameplaySessionSnapshot,
};
use revycraft::codec::grammar::ProtocolCodecError;
use revycraft::codec::host_blob;
use revycraft::codec::protocol::{
    decode_protocol_request, decode_protocol_response, encode_protocol_request,
    encode_protocol_response, ProtocolRequest, ProtocolResponse,
};
use revycraft::codec::storage::{
    decode_storage_request, decode_storage_response, encode_storage_request,
    encode_storage_response, StorageDescriptor, StorageRequest, StorageResponse,
};
use revycraft::codec::wire::Wire;
use revycraft::game::login::default_player;
use revycraft::game::state::ServerCore;
use revycraft::game::store::CoreConfig;
use revycraft::model::block::{
    BlockFace, BlockPos, BlockState, ChunkPos, DimensionId, Vec3, WorldMeta,
};
use revycraft::model::capability::{
    CapabilityAnnouncement, CapabilitySet, CapabilityVocabulary, SessionCapabilitySet,
};
use revycraft::model::chunk::{ChunkColumn, ChunkSection};
use revycraft::model::effect::{
    GameplayCanEditBlockKey, GameplayEffect, GameplayEffectBatch,
};
use revycraft::model::event::{
    ContainerProperty, CoreCommand, CoreEvent, EventTarget, GameplayCommand, RuntimeCommand,
    TargetedEvent,
};
use revycraft::model::ids::{ConnectionId, EntityId, PlayerId, PluginGenerationId};
use revycraft::model::inventory::{InteractionHand, InventorySlot, PlayerInventory};
use revycraft::model::item::{ItemDataMap, ItemDataValue, ItemStack, OpaqueF32, OpaqueF64};
use revycraft::model::names::{
    AuthProfileId, BlockEntityKindId, ContainerKindId, ContainerPropertyKey, GameplayProfileId,
    PluginBuildTag, StorageProfileId,
};
use revycraft::model::player::{
    BlockEntityState, ContainerBlockEntityState, PlayerSnapshot, WorldSnapshot,
};
use revycraft::model::session::{
    BedrockListenerDescriptor, ConnectionPhase, Edition, HandshakeIntent, HandshakeNextState,
    LoginRequest, PlayEncodingContext, ProtocolDescriptor, ProtocolSessionSnapshot,
    ServerListStatus, StatusRequest, TransportKind, WireFormatKind, WireFrameDecodeResult,
};
use revycraft::ordered::OrderedMap;
use revycraft::plugin::abi::{current_plugin_abi, PluginKind};
use revycraft::plugin::contract;

fn vec3(x: f64, y: f64, z: f64) -> Vec3 {
    Vec3::new(OpaqueF64(x.to_bits()), OpaqueF64(y.to_bits()), OpaqueF64(z.to_bits()))
}

fn f32_of(value: f32) -> OpaqueF32 {
    OpaqueF32(value.to_bits())
}

fn vocabulary(tokens: &[&str]) -> CapabilityVocabulary {
    CapabilityVocabulary { tokens: tokens.iter().map(|token| token.to_string()).collect() }
}

fn protocol_vocabulary() -> CapabilityVocabulary {
    vocabulary(&["protocol.je", "protocol.je.340", "protocol.je.404", "runtime.reload.protocol"])
}

fn gameplay_vocabulary() -> CapabilityVocabulary {
    vocabulary(&["runtime.reload.gameplay"])
}

fn sample_player_id() -> PlayerId {
    PlayerId(42)
}

fn sample_player() -> PlayerSnapshot {
    let mut inventory = PlayerInventory::new_empty();
    let _ = inventory.set(36, Some(ItemStack::new("minecraft:stone", 32, 0)));
    inventory.offhand = Some(ItemStack::new("minecraft:shield", 1, 0));
    PlayerSnapshot {
        id: sample_player_id(),
        username: "alice".to_string(),
        position: vec3(1.5, 64.0, -3.25),
        yaw: f32_of(90.0),
        pitch: f32_of(15.0),
        on_ground: true,
        dimension: DimensionId::Overworld,
        health: f32_of(20.0),
        food: 18,
        food_saturation: f32_of(5.0),
        inventory,
        selected_hotbar_slot: 2,
    }
}

fn sample_world_meta() -> WorldMeta {
    WorldMeta {
        level_name: "world".to_string(),
        seed: 99,
        spawn: BlockPos::new(0, 64, 0),
        dimension: DimensionId::Overworld,
        age: 10,
        time: 20,
        level_type: "FLAT".to_string(),
        game_mode: 1,
        difficulty: 2,
        max_players: 20,
    }
}

fn player_container() -> ContainerKindId {
    ContainerKindId::new("canonical:player")
}

fn sample_descriptor() -> ProtocolDescriptor {
    ProtocolDescriptor {
        adapter_id: "je-5".to_string(),
        transport: TransportKind::Tcp,
        wire_format: WireFormatKind::MinecraftFramed,
        edition: Edition::Je,
        version_name: "1.7.10".to_string(),
        protocol_number: 5,
    }
}

fn sample_event() -> CoreEvent {
    CoreEvent::PlayBootstrap {
        player: sample_player(),
        entity_id: EntityId(7),
        world_meta: sample_world_meta(),
        view_distance: 2,
    }
}

fn sample_command() -> RuntimeCommand {
    RuntimeCommand::Core(CoreCommand::CreativeInventorySet {
        player_id: sample_player_id(),
        slot: InventorySlot::Hotbar(1),
        stack: Some(ItemStack::new("minecraft:glass", 16, 0)),
    })
}

fn sample_protocol_session() -> ProtocolSessionSnapshot {
    ProtocolSessionSnapshot {
        connection_id: ConnectionId(1),
        phase: ConnectionPhase::Play,
        player_id: Some(sample_player_id()),
        entity_id: Some(EntityId(7)),
    }
}

fn decode_play() -> ProtocolRequest {
    ProtocolRequest::DecodePlay { session: sample_protocol_session(), frame: vec![1] }
}

fn sample_protocol_round_trips() -> Vec<(ProtocolRequest, ProtocolResponse)> {
    let mut capabilities = CapabilitySet::new();
    let _ = capabilities.insert("protocol.je");
    let _ = capabilities.insert("runtime.reload.protocol");
    vec![
        (ProtocolRequest::Describe, ProtocolResponse::Descriptor(sample_descriptor())),
        (
            ProtocolRequest::DescribeBedrockListener,
            ProtocolResponse::BedrockListenerDescriptor(Some(BedrockListenerDescriptor {
                game_version: "1.26.0".to_string(),
                raknet_version: 11,
            })),
        ),
        (
            ProtocolRequest::CapabilitySet,
            ProtocolResponse::CapabilitySet(CapabilityAnnouncement::new(capabilities)),
        ),
        (
            ProtocolRequest::TryRoute { frame: vec![1, 2, 3] },
            ProtocolResponse::HandshakeIntent(Some(HandshakeIntent {
                edition: Edition::Je,
                protocol_number: 5,
                server_host: "localhost".to_string(),
                server_port: 25565,
                next_state: HandshakeNextState::Login,
            })),
        ),
        (
            ProtocolRequest::DecodeStatus { frame: vec![9, 8, 7] },
            ProtocolResponse::StatusRequest(StatusRequest::Ping { payload: 99 }),
        ),
        (
            ProtocolRequest::DecodeLogin { frame: vec![6, 5, 4] },
            ProtocolResponse::LoginRequest(LoginRequest::EncryptionResponse {
                shared_secret_encrypted: vec![1, 2, 3, 4],
                verify_token_encrypted: vec![5, 6, 7, 8],
            }),
        ),
        (
            ProtocolRequest::EncodeStatusResponse {
                status: ServerListStatus {
                    version: sample_descriptor(),
                    players_online: 1,
                    max_players: 20,
                    description: "hello".to_string(),
                },
            },
            ProtocolResponse::Frame(vec![0, 1]),
        ),
        (
            ProtocolRequest::EncodeStatusPong { payload: 123 },
            ProtocolResponse::Frame(vec![2, 3]),
        ),
        (
            ProtocolRequest::EncodeDisconnect {
                phase: ConnectionPhase::Login,
                reason: "bye".to_string(),
            },
            ProtocolResponse::Frame(vec![4, 5]),
        ),
        (
            ProtocolRequest::EncodeEncryptionRequest {
                server_id: String::new(),
                public_key_der: vec![9, 8, 7, 6],
                verify_token: vec![5, 4, 3, 2],
            },
            ProtocolResponse::Frame(vec![6, 7]),
        ),
        (
            ProtocolRequest::EncodeLoginSuccess { player: sample_player() },
            ProtocolResponse::Frame(vec![8, 9]),
        ),
        (
            ProtocolRequest::DecodePlay {
                session: sample_protocol_session(),
                frame: vec![10, 11],
            },
            ProtocolResponse::RuntimeCommand(Some(sample_command())),
        ),
        (
            ProtocolRequest::EncodePlayEvent {
                session: sample_protocol_session(),
                event: sample_event(),
                context: PlayEncodingContext {
                    player_id: sample_player_id(),
                    entity_id: EntityId(7),
                },
            },
            ProtocolResponse::Frames(vec![vec![12], vec![13, 14]]),
        ),
        (
            ProtocolRequest::ExportSessionState { session: sample_protocol_session() },
            ProtocolResponse::SessionTransferBlob(vec![15, 16]),
        ),
        (
            ProtocolRequest::ImportSessionState {
                session: sample_protocol_session(),
                blob: vec![17, 18],
            },
            ProtocolResponse::Empty,
        ),
        (
            ProtocolRequest::EncodeWireFrame { payload: vec![0xaa, 0xbb] },
            ProtocolResponse::Frame(vec![0x02, 0xaa, 0xbb]),
        ),
        (
            ProtocolRequest::TryDecodeWireFrame { buffer: vec![0x02, 0xcc, 0xdd, 0xee] },
            ProtocolResponse::WireFrameDecodeResult(Some(WireFrameDecodeResult {
                frame: vec![0xcc, 0xdd],
                bytes_consumed: 3,
            })),
        ),
    ]
}

#[test]
fn protocol_protocol_header_rejects_wrong_version_kind_and_length() {
    let request =
        encode_protocol_request(&ProtocolRequest::Describe).expect("describe request should encode");

    let mut wrong_version = request.clone();
    wrong_version[0..2].copy_from_slice(&2_u16.to_le_bytes());
    wrong_version[2..4].copy_from_slice(&0_u16.to_le_bytes());
    let error = decode_protocol_request(&wrong_version).expect_err("wrong version should fail");
    assert!(matches!(
        error,
        ProtocolCodecError::InvalidEnvelope("plugin ABI version mismatch")
    ));

    let mut wrong_kind = request.clone();
    wrong_kind[4] = 9;
    let error = decode_protocol_request(&wrong_kind).expect_err("wrong kind should fail");
    assert!(matches!(error, ProtocolCodecError::InvalidPluginKind(9)));

    let mut wrong_length = request;
    wrong_length[8] = 99;
    let error = decode_protocol_request(&wrong_length).expect_err("wrong length should fail");
    assert!(matches!(
        error,
        ProtocolCodecError::InvalidEnvelope("payload length did not match message size")
    ));
}

#[test]
fn protocol_protocol_header_layout_is_stable() {
    let request =
        encode_protocol_request(&ProtocolRequest::Describe).expect("describe request should encode");
    assert_eq!(request.len(), PLUGIN_ENVELOPE_HEADER_LEN);
    assert_eq!(&request[0..2], &current_plugin_abi().major.to_le_bytes());
    assert_eq!(&request[2..4], &current_plugin_abi().minor.to_le_bytes());
    assert_eq!(request[4], 1);
    assert_eq!(request[5], 1);
    assert_eq!(&request[6..8], &0_u16.to_le_bytes());
    assert_eq!(&request[8..12], &0_u32.to_le_bytes());
}

#[test]
fn protocol_protocol_ops_round_trip_with_binary_codec() {
    let vocabulary = protocol_vocabulary();
    for (request, response) in sample_protocol_round_trips() {
        let encoded_request = encode_protocol_request(&request).expect("request should encode");
        let decoded_request =
            decode_protocol_request(&encoded_request).expect("request should decode");
        assert_eq!(decoded_request, request);

        let encoded_response = encode_protocol_response(&request, &response, &vocabulary)
            .expect("response should encode");
        assert_eq!(
            u16::from_le_bytes([encoded_response[6], encoded_response[7]]),
            PROTOCOL_FLAG_RESPONSE
        );
        let decoded_response = decode_protocol_response(&request, &encoded_response, &vocabulary)
            .expect("response should decode");
        assert_eq!(decoded_response, response);
    }
}

#[test]
fn protocol_malformed_payloads_fail_deterministically() {
    let vocabulary = protocol_vocabulary();
    let response = encode_protocol_response(
        &decode_play(),
        &ProtocolResponse::RuntimeCommand(Some(sample_command())),
        &vocabulary,
    )
    .expect("response should encode");
    let mut truncated = response.clone();
    let _ = truncated.pop();
    let error = decode_protocol_response(&decode_play(), &truncated, &vocabulary)
        .expect_err("truncated payload should fail");
    assert!(matches!(
        error,
        ProtocolCodecError::InvalidEnvelope("payload length did not match message size")
    ));

    let mut bad_response_flag = response;
    bad_response_flag[6] = 0;
    bad_response_flag[7] = 0;
    let error = decode_protocol_response(&decode_play(), &bad_response_flag, &vocabulary)
        .expect_err("missing response flag should fail");
    assert!(matches!(
        error,
        ProtocolCodecError::InvalidEnvelope("protocol response was missing response flag")
    ));
}

#[test]
fn protocol_capability_and_session_support_types_round_trip() {
    let mut protocol = CapabilitySet::new();
    let _ = protocol.insert("protocol.je.340");
    let _ = protocol.insert("protocol.je.404");
    let capability_set = SessionCapabilitySet {
        protocol,
        gameplay: CapabilitySet::new(),
        gameplay_profile: GameplayProfileId::new("canonical"),
        entity_id: Some(EntityId(7)),
        protocol_generation: Some(PluginGenerationId(3)),
        gameplay_generation: Some(PluginGenerationId(4)),
    };
    assert!(capability_set.protocol.contains("protocol.je.340"));
    assert!(capability_set.protocol.contains("protocol.je.404"));
    assert_eq!(capability_set.gameplay_profile.as_str(), "canonical");
    assert_eq!(capability_set.entity_id, Some(EntityId(7)));
    assert_eq!(capability_set.protocol_generation, Some(PluginGenerationId(3)));
    assert_eq!(capability_set.gameplay_generation, Some(PluginGenerationId(4)));
}

#[test]
fn protocol_samples_cover_inventory_and_event_variants() {
    let vocabulary = protocol_vocabulary();
    let event = CoreEvent::InventorySlotChanged {
        window_id: 0,
        container: player_container(),
        slot: InventorySlot::Offhand,
        stack: Some(ItemStack::new("minecraft:shield", 1, 0)),
    };
    let request = ProtocolRequest::EncodePlayEvent {
        session: sample_protocol_session(),
        event,
        context: PlayEncodingContext { player_id: sample_player_id(), entity_id: EntityId(1) },
    };
    let encoded_request =
        encode_protocol_request(&request).expect("inventory event request should encode");
    let decoded_request =
        decode_protocol_request(&encoded_request).expect("inventory event request should decode");
    assert_eq!(decoded_request, request);

    let login_command = CoreCommand::LoginStart {
        connection_id: ConnectionId(1),
        username: "alice".to_string(),
        player_id: sample_player_id(),
    };
    let response = ProtocolResponse::RuntimeCommand(Some(RuntimeCommand::Core(login_command)));
    let decode_play =
        ProtocolRequest::DecodePlay { session: sample_protocol_session(), frame: vec![0x10] };
    let encoded_response = encode_protocol_response(&decode_play, &response, &vocabulary)
        .expect("command should encode");
    let decoded_response = decode_protocol_response(&decode_play, &encoded_response, &vocabulary)
        .expect("command should decode");
    assert_eq!(decoded_response, response);
}

#[test]
fn protocol_response_of_another_operation_is_refused() {
    let vocabulary = protocol_vocabulary();
    assert_eq!(
        encode_protocol_response(&decode_play(), &ProtocolResponse::Empty, &vocabulary),
        Err(ProtocolCodecError::InvalidValue("protocol response did not match opcode"))
    );
    let frame = encode_protocol_response(
        &ProtocolRequest::EncodeStatusPong { payload: 1 },
        &ProtocolResponse::Frame(vec![1]),
        &vocabulary,
    )
    .unwrap();
    assert_eq!(
        decode_protocol_response(&decode_play(), &frame, &vocabulary),
        Err(ProtocolCodecError::InvalidEnvelope(
            "protocol response opcode did not match request"
        ))
    );
    let mut unknown = encode_protocol_request(&ProtocolRequest::Describe).unwrap();
    unknown[5] = 20;
    assert_eq!(
        decode_protocol_request(&unknown),
        Err(ProtocolCodecError::InvalidProtocolOpCode(20))
    );
}

#[test]
fn announcement_keeps_the_build_and_refuses_strangers() {
    let vocabulary = protocol_vocabulary();
    let mut capabilities = CapabilitySet::new();
    let _ = capabilities.insert("protocol.je");
    let response = ProtocolResponse::CapabilitySet(CapabilityAnnouncement {
        capabilities,
        build_tag: Some(PluginBuildTag::new("nightly")),
    });
    let bytes =
        encode_protocol_response(&ProtocolRequest::CapabilitySet, &response, &vocabulary).unwrap();
    assert_eq!(
        decode_protocol_response(&ProtocolRequest::CapabilitySet, &bytes, &vocabulary).unwrap(),
        response
    );
    assert_eq!(
        decode_protocol_response(
            &ProtocolRequest::CapabilitySet,
            &bytes,
            &gameplay_vocabulary()
        ),
        Err(ProtocolCodecError::InvalidValue("invalid plugin capability"))
    );
}

#[test]
fn invalid_text_is_refused() {
    let request = AuthRequest::AuthenticateOffline { username: "ab".to_string() };
    let mut bytes = encode_auth_request(&request).unwrap();
    let last = bytes.len() - 1;
    bytes[last] = 0xff;
    assert_eq!(decode_auth_request(&bytes), Err(ProtocolCodecError::InvalidUtf8));
    assert_eq!(
        ProtocolCodecError::InvalidUtf8.message(),
        "invalid utf-8 in plugin payload"
    );
}

#[test]
fn auth_descriptor_roundtrip_preserves_mode() {
    let request = AuthRequest::Describe;
    let response = AuthResponse::Descriptor(AuthDescriptor {
        auth_profile: AuthProfileId::new("bedrock-xbl-v1"),
        mode: AuthMode::BedrockXbl,
    });
    let bytes = encode_auth_response(&request, &response).expect("descriptor should encode");
    let decoded = decode_auth_response(&request, &bytes).expect("descriptor should decode");
    assert_eq!(decoded, response);
}

#[test]
fn auth_capability_set_roundtrip() {
    let mut capabilities = CapabilitySet::new();
    let _ = capabilities.insert("auth.bedrock");
    let request = AuthRequest::CapabilitySet;
    let response = AuthResponse::CapabilitySet(capabilities);
    let bytes = encode_auth_response(&request, &response).expect("capability set should encode");
    let decoded = decode_auth_response(&request, &bytes).expect("capability set should decode");
    assert_eq!(decoded, response);
}

#[test]
fn online_auth_request_roundtrip() {
    let request = AuthRequest::AuthenticateOnline {
        username: "alex".to_string(),
        server_hash: "hash".to_string(),
    };
    let encoded = encode_auth_request(&request).expect("request should encode");
    let decoded = decode_auth_request(&encoded).expect("request should decode");
    assert_eq!(decoded, request);
}

#[test]
fn auth_request_layout_is_stable() {
    let request = AuthRequest::AuthenticateOffline { username: "al".to_string() };
    assert_eq!(
        encode_auth_request(&request).unwrap(),
        vec![4, 0, 0, 0, 3, 3, 0, 0, 6, 0, 0, 0, 2, 0, 0, 0, b'a', b'l']
    );
    assert_eq!(request.op_code(), AuthOpCode::AuthenticateOffline);
    assert_eq!(
        AuthOpCode::try_from(7),
        Err(ProtocolCodecError::InvalidValue("invalid auth op code"))
    );
}

#[test]
fn bedrock_xbl_request_and_response_roundtrip() {
    let request = AuthRequest::AuthenticateBedrockXbl {
        chain_jwts: vec!["a".to_string(), "b".to_string()],
        client_data_jwt: "c".to_string(),
    };
    let encoded = encode_auth_request(&request).expect("request should encode");
    let decoded = decode_auth_request(&encoded).expect("request should decode");
    assert_eq!(decoded, request);

    let response = AuthResponse::AuthenticatedBedrockPlayer(BedrockAuthResult {
        player_id: PlayerId(uuid::Uuid::from_u128(42).as_u128()),
        display_name: "Steve".to_string(),
        xuid: Some("123".to_string()),
        identity_uuid: Some(uuid::Uuid::from_u128(7).to_string()),
        skin_claims_blob: vec![1, 2, 3],
    });
    let encoded =
        encode_auth_response(&request, &response).expect("bedrock auth response should encode");
    let decoded =
        decode_auth_response(&request, &encoded).expect("bedrock auth response should decode");
    assert_eq!(decoded, response);
}

#[test]
fn malformed_auth_response_is_rejected() {
    let request =
        AuthRequest::AuthenticateBedrockOffline { display_name: "Builder".to_string() };
    let bytes = encode_auth_response(
        &request,
        &AuthResponse::AuthenticatedBedrockPlayer(BedrockAuthResult {
            player_id: PlayerId(9),
            display_name: "Builder".to_string(),
            xuid: None,
            identity_uuid: None,
            skin_claims_blob: vec![],
        }),
    )
    .expect("response should encode");
    let mut truncated = bytes;
    let _ = truncated.pop();
    assert!(decode_auth_response(&request, &truncated).is_err());
}

fn sample_snapshot() -> WorldSnapshot {
    let core = ServerCore::new(CoreConfig::default());
    let mut snapshot = core.snapshot(&OrderedMap::new());
    let player_id = PlayerId(7);
    snapshot.players.insert(
        player_id,
        default_player(
            player_id,
            "alice".to_string(),
            vec3(0.5, 4.0, 0.5),
            PlayerInventory::new_empty(),
        ),
    );
    let mut chunk = ChunkColumn::new(ChunkPos::new(0, 0));
    chunk.set_block(1, 64, 1, Some(BlockState::new("minecraft:stone")));
    snapshot.chunks.insert(ChunkPos::new(0, 0), chunk);
    snapshot.meta.spawn = BlockPos::new(1, 5, -2);
    snapshot
}

#[test]
fn storage_request_roundtrip() {
    let request = StorageRequest::ImportRuntimeState {
        world_dir: "/tmp/world".to_string(),
        snapshot: sample_snapshot(),
    };
    let encoded = encode_storage_request(&request).expect("request should encode");
    let decoded = decode_storage_request(&encoded).expect("request should decode");
    assert_eq!(decoded, request);
}

#[test]
fn storage_response_roundtrip() {
    let vocabulary = vocabulary(&[]);
    let request = StorageRequest::LoadSnapshot { world_dir: "/tmp/world".to_string() };
    let response = StorageResponse::Snapshot(Some(sample_snapshot()));
    let encoded =
        encode_storage_response(&request, &response, &vocabulary).expect("response should encode");
    let decoded =
        decode_storage_response(&request, &encoded, &vocabulary).expect("response should decode");
    assert_eq!(decoded, response);
}

#[test]
fn storage_descriptor_roundtrip() {
    let vocabulary = vocabulary(&[]);
    let request = StorageRequest::Describe;
    let response = StorageResponse::Descriptor(StorageDescriptor {
        storage_profile: StorageProfileId::new("je-anvil-1_7_10"),
    });
    let encoded =
        encode_storage_response(&request, &response, &vocabulary).expect("response should encode");
    let decoded =
        decode_storage_response(&request, &encoded, &vocabulary).expect("response should decode");
    assert_eq!(decoded, response);
}

#[test]
fn item_stack_codec_round_trips_components_and_extra_data() {
    let mut stack = ItemStack::new("minecraft:stone", 12, 0);
    let mut components = ItemDataMap::new();
    components.insert(
        "minecraft:custom_name",
        ItemDataValue::String("{\"text\":\"Stone\"}".to_string()),
    );
    let mut extra = ItemDataMap::new();
    extra.insert("foo", ItemDataValue::Long(42));
    stack.components = components;
    stack.extra = extra;

    let mut encoder = Encoder::default();
    stack.encode(&mut encoder).expect("item stack should encode");

    let encoded = encoder.into_inner();
    let decoded =
        ItemStack::decode(&mut Decoder::new(&encoded)).expect("item stack should decode");
    assert_eq!(decoded, stack);
}

fn gameplay_player_id() -> PlayerId {
    PlayerId(7)
}

fn sample_session() -> GameplaySessionSnapshot {
    GameplaySessionSnapshot {
        phase: ConnectionPhase::Play,
        player_id: Some(gameplay_player_id()),
        entity_id: Some(EntityId(3)),
        protocol: CapabilitySet::new(),
        gameplay_profile: GameplayProfileId::new("canonical"),
        protocol_generation: None,
        gameplay_generation: None,
    }
}

#[test]
fn gameplay_ops_round_trip_with_binary_codec() {
    let vocabulary = gameplay_vocabulary();
    let mut capabilities = CapabilitySet::new();
    let _ = capabilities.insert("runtime.reload.gameplay");
    let requests_and_responses = vec![
        (
            GameplayRequest::Describe,
            GameplayResponse::Descriptor(GameplayDescriptor {
                profile: GameplayProfileId::new("canonical"),
            }),
        ),
        (
            GameplayRequest::CapabilitySet,
            GameplayResponse::CapabilitySet(CapabilityAnnouncement::new(capabilities)),
        ),
        (
            GameplayRequest::HandlePlayerJoin {
                session: sample_session(),
                player_id: gameplay_player_id(),
            },
            GameplayResponse::Empty,
        ),
        (
            GameplayRequest::HandleCommand {
                session: sample_session(),
                command: GameplayCommand::UseBlock {
                    player_id: gameplay_player_id(),
                    hand: InteractionHand::Main,
                    position: BlockPos::new(0, 64, 0),
                    face: Some(BlockFace::Top),
                    held_item: Some(ItemStack::new("minecraft:stone", 64, 0)),
                },
            },
            GameplayResponse::Empty,
        ),
        (
            GameplayRequest::HandleTick { session: sample_session(), now_ms: 42 },
            GameplayResponse::Empty,
        ),
        (
            GameplayRequest::SessionClosed { session: sample_session() },
            GameplayResponse::Empty,
        ),
        (
            GameplayRequest::ExportSessionState { session: sample_session() },
            GameplayResponse::SessionTransferBlob(b"state".to_vec()),
        ),
        (
            GameplayRequest::ImportSessionState {
                session: sample_session(),
                blob: b"state".to_vec(),
            },
            GameplayResponse::Empty,
        ),
    ];

    for (request, response) in requests_and_responses {
        let encoded_request =
            encode_gameplay_request(&request, &vocabulary).expect("request should encode");
        let decoded_request =
            decode_gameplay_request(&encoded_request, &vocabulary).expect("request should decode");
        assert_eq!(decoded_request, request);

        let encoded_response = encode_gameplay_response(&request, &response, &vocabulary)
            .expect("response should encode");
        let decoded_response = decode_gameplay_response(&request, &encoded_response, &vocabulary)
            .expect("response should decode");
        assert_eq!(decoded_response, response);
    }
}

fn gameplay_player() -> PlayerSnapshot {
    let mut inventory = PlayerInventory::new_empty();
    let _ = inventory.set(36, Some(ItemStack::new("minecraft:stone", 64, 0)));
    PlayerSnapshot {
        id: gameplay_player_id(),
        username: "alice".to_string(),
        position: vec3(1.0, 64.0, 2.0),
        yaw: f32_of(0.0),
        pitch: f32_of(0.0),
        on_ground: true,
        dimension: DimensionId::Overworld,
        health: f32_of(20.0),
        food: 20,
        food_saturation: f32_of(5.0),
        inventory,
        selected_hotbar_slot: 0,
    }
}

fn gameplay_world_meta() -> WorldMeta {
    WorldMeta {
        level_name: "world".to_string(),
        seed: 5,
        spawn: BlockPos::new(0, 64, 0),
        dimension: DimensionId::Overworld,
        age: 10,
        time: 20,
        level_type: "FLAT".to_string(),
        game_mode: 1,
        difficulty: 1,
        max_players: 20,
    }
}

fn sample_chest() -> BlockEntityState {
    BlockEntityState::Container(ContainerBlockEntityState {
        kind: BlockEntityKindId::new("canonical:chest"),
        slots: vec![Some(ItemStack::new("minecraft:glass", 1, 0)), None],
        properties: OrderedMap::new(),
    })
}

fn sample_furnace() -> BlockEntityState {
    let mut properties = OrderedMap::new();
    properties.insert(ContainerPropertyKey::new("canonical:furnace.burn_left"), 120);
    properties.insert(ContainerPropertyKey::new("canonical:furnace.burn_max"), 300);
    properties.insert(ContainerPropertyKey::new("canonical:furnace.cook_progress"), 42);
    properties.insert(ContainerPropertyKey::new("canonical:furnace.cook_total"), 200);
    BlockEntityState::Container(ContainerBlockEntityState {
        kind: BlockEntityKindId::new("canonical:furnace"),
        slots: vec![
            Some(ItemStack::new("minecraft:sand", 1, 0)),
            Some(ItemStack::new("minecraft:oak_planks", 1, 0)),
            Some(ItemStack::new("minecraft:glass", 1, 0)),
        ],
        properties,
    })
}

#[test]
fn host_blob_helpers_round_trip() {
    let player_id_bytes = host_blob::encode_player_id(gameplay_player_id());
    assert_eq!(
        host_blob::decode_player_id(&player_id_bytes).expect("player id should decode"),
        gameplay_player_id()
    );

    let player_blob =
        host_blob::encode_player_snapshot(Some(&gameplay_player())).expect("snapshot encodes");
    assert_eq!(
        host_blob::decode_player_snapshot(&player_blob).expect("snapshot decodes"),
        Some(gameplay_player())
    );

    let world_blob = host_blob::encode_world_meta(&gameplay_world_meta()).expect("world encodes");
    assert_eq!(
        host_blob::decode_world_meta(&world_blob).expect("world decodes"),
        gameplay_world_meta()
    );

    let block_blob = host_blob::encode_block_state(Some(&BlockState::new("minecraft:stone")))
        .expect("block state encodes");
    assert_eq!(
        host_blob::decode_block_state(&block_blob).expect("block state decodes"),
        Some(BlockState::new("minecraft:stone"))
    );

    let block_entity_blob =
        host_blob::encode_block_entity(Some(&sample_chest())).expect("block entity encodes");
    assert_eq!(
        host_blob::decode_block_entity(&block_entity_blob).expect("block entity decodes"),
        Some(sample_chest())
    );

    let furnace_blob = host_blob::encode_block_entity(Some(&sample_furnace()))
        .expect("furnace block entity encodes");
    assert_eq!(
        host_blob::decode_block_entity(&furnace_blob).expect("furnace block entity decodes"),
        Some(sample_furnace())
    );

    let key =
        host_blob::encode_can_edit_block_key(gameplay_player_id(), BlockPos::new(1, 2, 3));
    assert_eq!(
        host_blob::decode_can_edit_block_key(&key).expect("key decodes"),
        (gameplay_player_id(), BlockPos::new(1, 2, 3))
    );

    let position_bytes = host_blob::encode_block_pos(BlockPos::new(4, 5, 6));
    assert_eq!(
        host_blob::decode_block_state(
            &host_blob::encode_block_state(Some(&BlockState::new("minecraft:glass")))
                .expect("block encodes")
        )
        .expect("block decodes"),
        Some(BlockState::new("minecraft:glass"))
    );
    assert!(!position_bytes.is_empty());
    assert_eq!(
        host_blob::decode_block_pos(&position_bytes).unwrap(),
        BlockPos::new(4, 5, 6)
    );
}

#[test]
fn host_blobs_of_changes_round_trip() {
    let player = gameplay_player_id();
    let position = BlockPos::new(-1, 2, -3);
    let pose = host_blob::encode_player_pose_update(
        player,
        Some(vec3(1.0, 2.0, 3.0)),
        Some(f32_of(4.0)),
        None,
        true,
    );
    assert_eq!(
        host_blob::decode_player_pose_update(&pose).unwrap(),
        (player, Some(vec3(1.0, 2.0, 3.0)), Some(f32_of(4.0)), None, true)
    );
    assert_eq!(
        host_blob::decode_selected_hotbar_slot_update(
            &host_blob::encode_selected_hotbar_slot_update(player, 3)
        )
        .unwrap(),
        (player, 3)
    );
    let stack = ItemStack::new("minecraft:stone", 3, 1);
    let slot = host_blob::encode_inventory_slot_update(
        player,
        InventorySlot::WindowLocal(5),
        Some(&stack),
    )
    .unwrap();
    assert_eq!(
        host_blob::decode_inventory_slot_update(&slot).unwrap(),
        (player, InventorySlot::WindowLocal(5), Some(ItemStack::new("minecraft:stone", 3, 1)))
    );
    assert_eq!(
        host_blob::decode_clear_mining(&host_blob::encode_clear_mining(player)).unwrap(),
        player
    );
    assert_eq!(
        host_blob::decode_begin_mining(&host_blob::encode_begin_mining(player, position, 900))
            .unwrap(),
        (player, position, 900)
    );
    assert_eq!(
        host_blob::decode_open_container_at(&host_blob::encode_open_container_at(
            player, position
        ))
        .unwrap(),
        (player, position)
    );
    assert_eq!(
        host_blob::decode_open_virtual_container(&host_blob::encode_open_virtual_container(
            player,
            &player_container()
        ))
        .unwrap(),
        (player, player_container())
    );
    let block = host_blob::encode_set_block(position, None).unwrap();
    assert_eq!(host_blob::decode_set_block(&block).unwrap(), (position, None));
    let item = host_blob::encode_spawn_dropped_item(vec3(0.5, 1.0, 0.5), &stack).unwrap();
    assert_eq!(
        host_blob::decode_spawn_dropped_item(&item).unwrap(),
        (vec3(0.5, 1.0, 0.5), ItemStack::new("minecraft:stone", 3, 1))
    );
    let event = TargetedEvent {
        target: EventTarget::EveryoneExcept(player),
        event: CoreEvent::KeepAliveRequested { keep_alive_id: 4 },
    };
    let blob = host_blob::encode_targeted_event_blob(&event).unwrap();
    assert_eq!(host_blob::decode_targeted_event_blob(&blob).unwrap(), event);
    let mut longer = blob;
    longer.push(0);
    assert_eq!(
        host_blob::decode_targeted_event_blob(&longer),
        Err(ProtocolCodecError::TrailingBytes)
    );
}

#[test]
fn effect_batches_round_trip() {
    let mut batch = GameplayEffectBatch::empty(7);
    batch.reads.world_meta = Some(gameplay_world_meta());
    batch.reads.can_edit_block.insert(
        GameplayCanEditBlockKey {
            player_id: gameplay_player_id(),
            position: BlockPos::new(1, 2, 3),
        },
        true,
    );
    batch.reads.block_entities.insert(BlockPos::new(0, 0, 0), Some(sample_chest()));
    batch.effects.push(GameplayEffect::SetBlock {
        position: BlockPos::new(1, 2, 3),
        block: Some(BlockState::new("minecraft:stone")),
    });
    batch.effects.push(GameplayEffect::ClearMining { player_id: gameplay_player_id() });
    let mut encoder = Encoder::default();
    batch.encode(&mut encoder).unwrap();
    let bytes = encoder.into_inner();
    let mut decoder = Decoder::new(&bytes);
    assert_eq!(GameplayEffectBatch::decode(&mut decoder).unwrap(), batch);
    assert!(decoder.finish().is_ok());
    assert_eq!(
        GameplayEffect::decode(&mut Decoder::new(&[11])),
        Err(ProtocolCodecError::InvalidValue("invalid gameplay effect tag"))
    );
}

#[test]
fn admin_text_interface_messages_are_framed_and_checked() {
    let input = AdminUiInput::ParseLine { line: "status".to_string() };
    let json = b"{\"ParseLine\":{\"line\":\"status\"}}".to_vec();
    let bytes = encode_admin_ui_input(&input, Some(json.clone())).unwrap();
    assert_eq!(bytes[4], 5);
    assert_eq!(bytes[5], 3);
    assert_eq!(admin_ui_input_payload(&bytes).unwrap(), json.as_slice());
    let parsed = AdminUiInput::ParseLine { line: "status".to_string() };
    assert_eq!(decode_admin_ui_input(&bytes, Some(parsed)).unwrap(), input);
    assert_eq!(
        decode_admin_ui_input(&bytes, Some(AdminUiInput::Describe)),
        Err(ProtocolCodecError::InvalidEnvelope("admin-ui input opcode did not match payload"))
    );
    assert_eq!(
        decode_admin_ui_input(&bytes, None),
        Err(ProtocolCodecError::InvalidValue("failed to decode admin-ui payload"))
    );
    assert_eq!(
        encode_admin_ui_input(&input, None),
        Err(ProtocolCodecError::InvalidValue("failed to encode admin-ui payload"))
    );
    let answer = encode_admin_ui_output(&input, Some(b"{}".to_vec())).unwrap();
    assert_eq!(admin_ui_output_payload(&input, &answer).unwrap(), b"{}");
    assert_eq!(
        decode_admin_ui_output(
            &input,
            &answer,
            Some(AdminUiOutput::ParsedRequest(AdminRequest::Status))
        )
        .unwrap(),
        AdminUiOutput::ParsedRequest(AdminRequest::Status)
    );
    assert_eq!(
        decode_admin_ui_output(&AdminUiInput::Describe, &answer, None),
        Err(ProtocolCodecError::InvalidEnvelope("admin-ui output opcode did not match input"))
    );
    assert_eq!(
        AdminUiOpCode::try_from(5),
        Err(ProtocolCodecError::InvalidValue("invalid admin-ui op code"))
    );
}

#[test]
fn admin_requests_take_their_permissions() {
    assert_eq!(AdminRequest::Help.required_permission(), None);
    assert_eq!(
        AdminRequest::Shutdown.required_permission(),
        Some(AdminPermission::Shutdown)
    );
    assert_eq!(AdminPermission::ReloadConfig.as_str(), "reload-config");
    assert_eq!(AdminPrincipal::LocalConsole.as_str(), "local-console");
}

#[test]
fn admin_surface_and_transport_messages_are_framed() {
    let request = admin_surface::AdminSurfaceRequest::Shutdown { instance_id: "a".to_string() };
    let bytes =
        admin_surface::encode_admin_surface_request(&request, Some(vec![1, 2])).unwrap();
    assert_eq!(bytes[4], 7);
    assert_eq!(bytes[5], 9);
    assert_eq!(admin_surface::admin_surface_request_payload(&bytes).unwrap(), &[1, 2]);
    let response =
        admin_surface::encode_admin_surface_response(&request, Some(vec![3])).unwrap();
    assert_eq!(
        admin_surface::decode_admin_surface_response(
            &request,
            &response,
            Some(admin_surface::AdminSurfaceResponse::ShutdownComplete)
        )
        .unwrap(),
        admin_surface::AdminSurfaceResponse::ShutdownComplete
    );
    let request = admin_transport::AdminTransportRequest::PauseForUpgrade;
    let bytes =
        admin_transport::encode_admin_transport_request(&request, Some(vec![1])).unwrap();
    assert_eq!(bytes[4], 6);
    assert_eq!(
        admin_surface::admin_surface_request_payload(&bytes),
        Err(ProtocolCodecError::InvalidEnvelope("admin-surface request had wrong plugin kind"))
    );
    assert_eq!(
        admin_transport::decode_admin_transport_request(&bytes, Some(request)).unwrap(),
        admin_transport::AdminTransportRequest::PauseForUpgrade
    );
}

#[test]
fn reload_modes_keep_their_numbers() {
    for mode in [
        RuntimeReloadMode::Artifacts,
        RuntimeReloadMode::Topology,
        RuntimeReloadMode::Core,
        RuntimeReloadMode::Full,
    ] {
        let number = admin_surface::encode_reload_mode(mode);
        assert_eq!(admin_surface::decode_reload_mode(number), Ok(mode));
        assert_eq!(admin_transport::decode_reload_mode(number), Ok(mode));
    }
    assert_eq!(admin_transport::encode_reload_mode(RuntimeReloadMode::Full), 4);
    assert_eq!(
        admin_surface::decode_reload_mode(0),
        Err(ProtocolCodecError::InvalidValue("invalid admin-surface reload mode"))
    );
}

#[test]
fn plugin_kinds_keep_their_numbers() {
    assert_eq!(PluginKind::try_from(4).unwrap(), PluginKind::Gameplay);
    assert!(PluginKind::try_from(0).is_err());
}

#[test]
fn contract_kind_tags_are_read() {
    for raw in [1, 2, 3, 4, 7] {
        let kind = contract::PluginKind::try_from(raw as u8).unwrap();
        assert_eq!(contract::PluginKindTag::of(kind), contract::PluginKindTag(raw));
        assert_eq!(contract::PluginKind::try_from_tag(contract::PluginKindTag(raw)), Ok(kind));
    }
    for raw in [0, 5, 6, 8, 257] {
        assert_eq!(
            contract::PluginKind::try_from_tag(contract::PluginKindTag(raw)),
            Err(contract::InvalidPluginKindTag(raw))
        );
    }
    assert_eq!(contract::current_table_abi().major, 9);
    assert_eq!(contract::current_table_abi().minor, 0);
}

#[test]
fn floats_pass_as_their_bits() {
    let mut encoder = Encoder::default();
    encoder.write_f32(f32_of(1.5));
    encoder.write_f64(OpaqueF64((-0.25_f64).to_bits()));
    let bytes = encoder.into_inner();
    assert_eq!(&bytes[..4], &1.5_f32.to_le_bytes());
    assert_eq!(&bytes[4..], &(-0.25_f64).to_le_bytes());
    let mut decoder = Decoder::new(&bytes);
    assert_eq!(decoder.read_f32(), Ok(f32_of(1.5)));
    assert_eq!(decoder.read_f64(), Ok(OpaqueF64((-0.25_f64).to_bits())));
    assert!(decoder.read_f32().is_err());
}

#[test]
fn request_that_was_read_is_written_the_same() {
    let request = AuthRequest::AuthenticateOnline {
        username: "al".to_string(),
        server_hash: "0f".to_string(),
    };
    let bytes = encode_auth_request(&request).unwrap();
    assert_eq!(encode_auth_request(&decode_auth_request(&bytes).unwrap()), Ok(bytes.clone()));
    let mut longer = bytes.clone();
    longer.push(0);
    assert!(decode_auth_request(&longer).is_err());
    let mut flagged = bytes.clone();
    flagged[7] = 0x80;
    assert_eq!(decode_auth_request(&flagged).unwrap(), request);
    let mut response = bytes;
    response[6] = 1;
    assert!(decode_auth_request(&response).is_err());
}

#[test]
fn container_property_is_a_number_to_plugins() {
    let event = CoreEvent::ContainerPropertyChanged {
        window_id: 3,
        property: ContainerProperty::Numbered(2),
        value: -2,
    };
    let mut encoder = Encoder::default();
    event.encode(&mut encoder).unwrap();
    let bytes = encoder.into_inner();
    assert_eq!(bytes, vec![17, 3, 2, 0xfe, 0xff]);
    assert_eq!(CoreEvent::decode(&mut Decoder::new(&bytes)).unwrap(), event);
}

#[test]
fn section_is_read_under_its_own_height() {
    let mut column = ChunkColumn::new(ChunkPos::new(1, 2));
    column.sections.insert(5, ChunkSection::new(-1));
    let mut encoder = Encoder::default();
    column.encode(&mut encoder).unwrap();
    let bytes = encoder.into_inner();
    let mut read = ChunkColumn::new(ChunkPos::new(1, 2));
    read.sections.insert(-1, ChunkSection::new(-1));
    assert_eq!(ChunkColumn::decode(&mut Decoder::new(&bytes)).unwrap(), read);
}

#[test]
fn failed_reads_consume_what_was_read_before() {
    let mut decoder = Decoder::new(&[2, 7]);
    assert!(decoder.read_bool().is_err());
    assert_eq!(decoder.read_u8(), Ok(7));
    let mut decoder = Decoder::new(&[3, 0, 0, 0, 9]);
    assert!(decoder.read_bytes().is_err());
    assert_eq!(decoder.read_u8(), Ok(9));
    let mut decoder = Decoder::new(&[1, 0, 0, 0, 0xff, 6]);
    assert!(decoder.read_string().is_err());
    assert_eq!(decoder.read_u8(), Ok(6));
}

#[test]
fn build_without_a_name_is_written_and_not_read() {
    let vocabulary = protocol_vocabulary();
    let response = ProtocolResponse::CapabilitySet(CapabilityAnnouncement {
        capabilities: CapabilitySet::new(),
        build_tag: Some(PluginBuildTag::new("")),
    });
    let bytes =
        encode_protocol_response(&ProtocolRequest::CapabilitySet, &response, &vocabulary).unwrap();
    assert_eq!(&bytes[12..], b"\x01\0\0\0\x0a\0\0\0build-tag:");
    assert_eq!(
        decode_protocol_response(&ProtocolRequest::CapabilitySet, &bytes, &vocabulary),
        Err(ProtocolCodecError::InvalidValue("build tag capability must not be empty"))
    );
}

#[test]
fn reports_of_the_runtime_pass_as_they_were_written() {
    let request = admin_transport::AdminTransportRequest::Describe;
    let payload = br#"{"ReloadRuntime":{}}"#.to_vec();
    let bytes =
        admin_transport::encode_admin_transport_response(&request, Some(payload.clone())).unwrap();
    assert_eq!(
        admin_transport::admin_transport_response_payload(&request, &bytes).unwrap(),
        &payload[..]
    );
    let response = || admin_transport::AdminTransportResponse::ReloadRuntime(b"{}".to_vec());
    assert_eq!(
        admin_transport::decode_admin_transport_response(&request, &bytes, Some(response())),
        Ok(response())
    );
    let response = || admin_transport::AdminTransportResponse::UpgradeRuntime(b"{}".to_vec());
    assert_eq!(
        admin_transport::decode_admin_transport_response(&request, &bytes, Some(response())),
        Ok(response())
    );
}
