//! What the compact protocol messages carry: items without data, inventories without containers.

use crate::codec::basic::{decode_len, encode_len};
use crate::codec::binary::{Decoder, Encoder};
use crate::codec::grammar::{
    both, case, chosen, held, orderly, pair, plain, plain_is_orderly, select, tagged, unsigned,
    Cases, Format, ProtocolCodecError, Value,
};
use crate::codec::placement::{column_list_is_orderly, orderly_case, plain_rules, sections_placed};
use crate::codec::maps::{decode_held, encode_held, held_encodable, held_values, SelfKeyed};
use crate::codec::wire::{compound_rules, Wire};
use crate::model::block::{BlockFace, BlockPos, BlockState, ChunkPos, DimensionId, Vec3, WorldMeta};
use crate::model::chunk::ChunkColumn;
use crate::model::ids::{ConnectionId, EntityId, PlayerId};
use crate::model::inventory::InteractionHand;
use crate::model::item::OpaqueF32;
use crate::model::session::{ConnectionPhase, Edition, TransportKind};
use crate::ordered::OrderedMap;
use vstd::prelude::*;

verus! {

broadcast use compound_rules;

/// A stack of items without data.
#[derive(Debug, PartialEq, Eq)]
pub struct ItemStack {
    pub key: String,
    pub count: u8,
    pub damage: u16,
}

impl Wire for ItemStack {
    open spec fn format() -> Format {
        pair(String::format(), pair(u8::format(), u16::format()))
    }

    open spec fn value(&self) -> Value {
        both(self.key.value(), both(self.count.value(), self.damage.value()))
    }

    open spec fn encodable(&self) -> bool {
        true
    }

    fn encode(&self, encoder: &mut Encoder) -> (result: Result<(), ProtocolCodecError>) {
        self.key.encode(encoder)?;
        self.count.encode(encoder)?;
        self.damage.encode(encoder)
    }

    fn decode(decoder: &mut Decoder<'_>) -> (result: Result<Self, ProtocolCodecError>) {
        let key = String::decode(decoder)?;
        let count: u8 = u8::decode(decoder)?;
        let damage: u16 = u16::decode(decoder)?;
        Ok(ItemStack { key, count, damage })
    }
}

/// What a player carries.
#[derive(Debug, PartialEq, Eq)]
pub struct PlayerInventory {
    pub slots: Vec<Option<ItemStack>>,
    pub offhand: Option<ItemStack>,
}

impl Wire for PlayerInventory {
    open spec fn format() -> Format {
        pair(<Vec<Option<ItemStack>>>::format(), <Option<ItemStack>>::format())
    }

    open spec fn value(&self) -> Value {
        both(self.slots.value(), self.offhand.value())
    }

    open spec fn encodable(&self) -> bool {
        self.slots.encodable() && self.offhand.encodable()
    }

    fn encode(&self, encoder: &mut Encoder) -> (result: Result<(), ProtocolCodecError>) {
        self.slots.encode(encoder)?;
        self.offhand.encode(encoder)
    }

    fn decode(decoder: &mut Decoder<'_>) -> (result: Result<Self, ProtocolCodecError>) {
        let slots = Vec::<Option<ItemStack>>::decode(decoder)?;
        let offhand = Option::<ItemStack>::decode(decoder)?;
        Ok(PlayerInventory { slots, offhand })
    }
}

/// A place for a stack.
#[derive(Clone, Copy, Debug, PartialEq, Eq, Structural)]
pub enum InventorySlot {
    Auxiliary(u8),
    MainInventory(u8),
    Hotbar(u8),
    Offhand,
}

impl Wire for InventorySlot {
    open spec fn format() -> Format {
        tagged(
            case(
                1,
                u8::format(),
                case(
                    2,
                    u8::format(),
                    case(
                        3,
                        u8::format(),
                        case(4, Format::Unit, Cases::Otherwise("invalid inventory slot")),
                    ),
                ),
            ),
        )
    }

    open spec fn value(&self) -> Value {
        match self {
            InventorySlot::Auxiliary(x) => chosen(1, x.value()),
            InventorySlot::MainInventory(x) => chosen(2, x.value()),
            InventorySlot::Hotbar(x) => chosen(3, x.value()),
            InventorySlot::Offhand => chosen(4, Value::Unit),
        }
    }

    open spec fn encodable(&self) -> bool {
        true
    }

    fn encode(&self, encoder: &mut Encoder) -> (result: Result<(), ProtocolCodecError>) {
        match self {
            InventorySlot::Auxiliary(x) => {
                encoder.write_u8(1);
                x.encode(encoder)
            },
            InventorySlot::MainInventory(x) => {
                encoder.write_u8(2);
                x.encode(encoder)
            },
            InventorySlot::Hotbar(x) => {
                encoder.write_u8(3);
                x.encode(encoder)
            },
            InventorySlot::Offhand => {
                encoder.write_u8(4);
                Ok(())
            },
        }
    }

    fn decode(decoder: &mut Decoder<'_>) -> (result: Result<Self, ProtocolCodecError>) {
        let tag: u8 = decoder.read_u8()?;
        match tag {
            1 => Ok(InventorySlot::Auxiliary(u8::decode(decoder)?)),
            2 => Ok(InventorySlot::MainInventory(u8::decode(decoder)?)),
            3 => Ok(InventorySlot::Hotbar(u8::decode(decoder)?)),
            4 => Ok(InventorySlot::Offhand),
            _ => Err(ProtocolCodecError::InvalidValue("invalid inventory slot")),
        }
    }
}

/// What slots belong to.
#[derive(Clone, Copy, Debug, PartialEq, Eq, Structural)]
pub enum InventoryContainer {
    Player,
}

impl Wire for InventoryContainer {
    open spec fn format() -> Format {
        tagged(case(1, Format::Unit, Cases::Otherwise("invalid inventory container")))
    }

    open spec fn value(&self) -> Value {
        match self {
            InventoryContainer::Player => chosen(1, Value::Unit),
        }
    }

    open spec fn encodable(&self) -> bool {
        true
    }

    fn encode(&self, encoder: &mut Encoder) -> (result: Result<(), ProtocolCodecError>) {
        match self {
            InventoryContainer::Player => {
                encoder.write_u8(1);
                Ok(())
            },
        }
    }

    fn decode(decoder: &mut Decoder<'_>) -> (result: Result<Self, ProtocolCodecError>) {
        let tag: u8 = decoder.read_u8()?;
        match tag {
            1 => Ok(InventoryContainer::Player),
            _ => Err(ProtocolCodecError::InvalidValue("invalid inventory container")),
        }
    }
}

/// What is known of a player.
#[derive(Debug, PartialEq, Eq)]
pub struct PlayerSnapshot {
    pub id: PlayerId,
    pub username: String,
    pub position: Vec3,
    pub yaw: OpaqueF32,
    pub pitch: OpaqueF32,
    pub on_ground: bool,
    pub dimension: DimensionId,
    pub health: OpaqueF32,
    pub food: i16,
    pub food_saturation: OpaqueF32,
    pub inventory: PlayerInventory,
    pub selected_hotbar_slot: u8,
}

impl Wire for PlayerSnapshot {
    open spec fn format() -> Format {
        pair(
            PlayerId::format(),
            pair(
                String::format(),
                pair(
                    Vec3::format(),
                    pair(
                        OpaqueF32::format(),
                        pair(
                            OpaqueF32::format(),
                            pair(
                                bool::format(),
                                pair(
                                    DimensionId::format(),
                                    pair(
                                        OpaqueF32::format(),
                                        pair(
                                            i16::format(),
                                            pair(
                                                OpaqueF32::format(),
                                                pair(PlayerInventory::format(), u8::format()),
                                            ),
                                        ),
                                    ),
                                ),
                            ),
                        ),
                    ),
                ),
            ),
        )
    }

    open spec fn value(&self) -> Value {
        both(
            self.id.value(),
            both(
                self.username.value(),
                both(
                    self.position.value(),
                    both(
                        self.yaw.value(),
                        both(
                            self.pitch.value(),
                            both(
                                self.on_ground.value(),
                                both(
                                    self.dimension.value(),
                                    both(
                                        self.health.value(),
                                        both(
                                            self.food.value(),
                                            both(
                                                self.food_saturation.value(),
                                                both(
                                                    self.inventory.value(),
                                                    self.selected_hotbar_slot.value(),
                                                ),
                                            ),
                                        ),
                                    ),
                                ),
                            ),
                        ),
                    ),
                ),
            ),
        )
    }

    open spec fn encodable(&self) -> bool {
        self.id.encodable() && self.position.encodable() && self.yaw.encodable()
            && self.pitch.encodable() && self.dimension.encodable() && self.health.encodable()
            && self.food_saturation.encodable() && self.inventory.encodable()
    }

    fn encode(&self, encoder: &mut Encoder) -> (result: Result<(), ProtocolCodecError>) {
        self.id.encode(encoder)?;
        self.username.encode(encoder)?;
        self.position.encode(encoder)?;
        self.yaw.encode(encoder)?;
        self.pitch.encode(encoder)?;
        self.on_ground.encode(encoder)?;
        self.dimension.encode(encoder)?;
        self.health.encode(encoder)?;
        self.food.encode(encoder)?;
        self.food_saturation.encode(encoder)?;
        self.inventory.encode(encoder)?;
        self.selected_hotbar_slot.encode(encoder)
    }

    fn decode(decoder: &mut Decoder<'_>) -> (result: Result<Self, ProtocolCodecError>) {
        let id = PlayerId::decode(decoder)?;
        let username = String::decode(decoder)?;
        let position = Vec3::decode(decoder)?;
        let yaw = OpaqueF32::decode(decoder)?;
        let pitch = OpaqueF32::decode(decoder)?;
        let on_ground = bool::decode(decoder)?;
        let dimension = DimensionId::decode(decoder)?;
        let health = OpaqueF32::decode(decoder)?;
        let food: i16 = i16::decode(decoder)?;
        let food_saturation = OpaqueF32::decode(decoder)?;
        let inventory = PlayerInventory::decode(decoder)?;
        let selected_hotbar_slot: u8 = u8::decode(decoder)?;
        Ok(
            PlayerSnapshot {
                id,
                username,
                position,
                yaw,
                pitch,
                on_ground,
                dimension,
                health,
                food,
                food_saturation,
                inventory,
                selected_hotbar_slot,
            },
        )
    }
}

impl View for PlayerSnapshot {
    type V = Value;

    open spec fn view(&self) -> Value {
        self.value()
    }
}

impl SelfKeyed for PlayerSnapshot {
    type K = PlayerId;

    open spec fn spec_key(&self) -> PlayerId {
        self.id
    }

    fn own_key(&self) -> (result: PlayerId) {
        self.id
    }

    proof fn key_is_at_front(&self) {
    }
}

/// A version of the game protocol.
#[derive(Debug, PartialEq, Eq)]
pub struct ProtocolDescriptor {
    pub adapter_id: String,
    pub transport: TransportKind,
    pub edition: Edition,
    pub version_name: String,
    pub protocol_number: i32,
}

impl Wire for ProtocolDescriptor {
    open spec fn format() -> Format {
        pair(
            String::format(),
            pair(
                TransportKind::format(),
                pair(Edition::format(), pair(String::format(), i32::format())),
            ),
        )
    }

    open spec fn value(&self) -> Value {
        both(
            self.adapter_id.value(),
            both(
                self.transport.value(),
                both(
                    self.edition.value(),
                    both(self.version_name.value(), self.protocol_number.value()),
                ),
            ),
        )
    }

    open spec fn encodable(&self) -> bool {
        self.transport.encodable() && self.edition.encodable()
    }

    fn encode(&self, encoder: &mut Encoder) -> (result: Result<(), ProtocolCodecError>) {
        self.adapter_id.encode(encoder)?;
        self.transport.encode(encoder)?;
        self.edition.encode(encoder)?;
        self.version_name.encode(encoder)?;
        self.protocol_number.encode(encoder)
    }

    fn decode(decoder: &mut Decoder<'_>) -> (result: Result<Self, ProtocolCodecError>) {
        let adapter_id = String::decode(decoder)?;
        let transport = TransportKind::decode(decoder)?;
        let edition = Edition::decode(decoder)?;
        let version_name = String::decode(decoder)?;
        let protocol_number: i32 = i32::decode(decoder)?;
        Ok(ProtocolDescriptor { adapter_id, transport, edition, version_name, protocol_number })
    }
}

/// What a server says of itself.
#[derive(Debug, PartialEq, Eq)]
pub struct ServerListStatus {
    pub version: ProtocolDescriptor,
    pub players_online: usize,
    pub max_players: usize,
    pub description: String,
}

impl Wire for ServerListStatus {
    open spec fn format() -> Format {
        pair(ProtocolDescriptor::format(), pair(unsigned(4), pair(unsigned(4), String::format())))
    }

    open spec fn value(&self) -> Value {
        both(
            self.version.value(),
            both(
                Value::Int(self.players_online as int),
                both(Value::Int(self.max_players as int), self.description.value()),
            ),
        )
    }

    open spec fn encodable(&self) -> bool {
        self.version.encodable()
    }

    fn encode(&self, encoder: &mut Encoder) -> (result: Result<(), ProtocolCodecError>) {
        self.version.encode(encoder)?;
        encode_len(self.players_online, encoder)?;
        encode_len(self.max_players, encoder)?;
        self.description.encode(encoder)
    }

    fn decode(decoder: &mut Decoder<'_>) -> (result: Result<Self, ProtocolCodecError>) {
        let version = ProtocolDescriptor::decode(decoder)?;
        let players_online: usize = decode_len(decoder)?;
        let max_players: usize = decode_len(decoder)?;
        let description = String::decode(decoder)?;
        Ok(ServerListStatus { version, players_online, max_players, description })
    }
}

/// What a protocol plugin is told of a session.
#[derive(Clone, Copy, Debug, PartialEq, Eq, Structural)]
pub struct ProtocolSessionSnapshot {
    pub phase: ConnectionPhase,
    pub player_id: Option<PlayerId>,
    pub entity_id: Option<EntityId>,
}

impl Wire for ProtocolSessionSnapshot {
    open spec fn format() -> Format {
        pair(
            ConnectionPhase::format(),
            pair(<Option<PlayerId>>::format(), <Option<EntityId>>::format()),
        )
    }

    open spec fn value(&self) -> Value {
        both(self.phase.value(), both(self.player_id.value(), self.entity_id.value()))
    }

    open spec fn encodable(&self) -> bool {
        self.phase.encodable() && self.player_id.encodable() && self.entity_id.encodable()
    }

    fn encode(&self, encoder: &mut Encoder) -> (result: Result<(), ProtocolCodecError>) {
        self.phase.encode(encoder)?;
        self.player_id.encode(encoder)?;
        self.entity_id.encode(encoder)
    }

    fn decode(decoder: &mut Decoder<'_>) -> (result: Result<Self, ProtocolCodecError>) {
        let phase = ConnectionPhase::decode(decoder)?;
        let player_id = Option::<PlayerId>::decode(decoder)?;
        let entity_id = Option::<EntityId>::decode(decoder)?;
        Ok(ProtocolSessionSnapshot { phase, player_id, entity_id })
    }
}

/// A whole world.
#[derive(Debug, PartialEq, Eq)]
pub struct WorldSnapshot {
    pub meta: WorldMeta,
    pub chunks: OrderedMap<ChunkPos, ChunkColumn>,
    pub players: OrderedMap<PlayerId, PlayerSnapshot>,
}

impl Wire for WorldSnapshot {
    open spec fn format() -> Format {
        pair(
            WorldMeta::format(),
            pair(held(ChunkColumn::format()), held(PlayerSnapshot::format())),
        )
    }

    open spec fn value(&self) -> Value {
        both(
            self.meta.value(),
            both(
                Value::List(held_values(self.chunks.pairs())),
                Value::List(held_values(self.players.pairs())),
            ),
        )
    }

    open spec fn encodable(&self) -> bool {
        self.meta.encodable() && self.chunks.wf() && held_encodable(self.chunks.pairs())
            && self.players.wf() && held_encodable(self.players.pairs())
    }

    fn encode(&self, encoder: &mut Encoder) -> (result: Result<(), ProtocolCodecError>) {
        self.meta.encode(encoder)?;
        encode_held(&self.chunks, encoder)?;
        encode_held(&self.players, encoder)
    }

    fn decode(decoder: &mut Decoder<'_>) -> (result: Result<Self, ProtocolCodecError>) {
        let meta = WorldMeta::decode(decoder)?;
        let chunks = decode_held::<ChunkColumn>(decoder)?;
        let players = decode_held::<PlayerSnapshot>(decoder)?;
        Ok(WorldSnapshot { meta, chunks, players })
    }
}

/// What a client wants.
#[allow(inconsistent_fields)]
#[derive(Debug, PartialEq, Eq)]
pub enum CoreCommand {
    LoginStart { connection_id: ConnectionId, username: String, player_id: PlayerId },
    UpdateClientView { player_id: PlayerId, view_distance: u8 },
    ClientStatus { player_id: PlayerId, action_id: i8 },
    MoveIntent {
        player_id: PlayerId,
        position: Option<Vec3>,
        yaw: Option<OpaqueF32>,
        pitch: Option<OpaqueF32>,
        on_ground: bool,
    },
    KeepAliveResponse { player_id: PlayerId, keep_alive_id: i32 },
    SetHeldSlot { player_id: PlayerId, slot: i16 },
    CreativeInventorySet { player_id: PlayerId, slot: InventorySlot, stack: Option<ItemStack> },
    DigBlock { player_id: PlayerId, position: BlockPos, status: u8, face: Option<BlockFace> },
    PlaceBlock {
        player_id: PlayerId,
        hand: InteractionHand,
        position: BlockPos,
        face: Option<BlockFace>,
        held_item: Option<ItemStack>,
    },
    Disconnect { player_id: PlayerId },
}

impl Wire for CoreCommand {
    open spec fn format() -> Format {
        tagged(
            case(
                1,
                pair(ConnectionId::format(), pair(String::format(), PlayerId::format())),
                case(
                    2,
                    pair(PlayerId::format(), u8::format()),
                    case(
                        3,
                        pair(PlayerId::format(), i8::format()),
                        case(
                            4,
                            pair(
                                PlayerId::format(),
                                pair(
                                    <Option<Vec3>>::format(),
                                    pair(
                                        <Option<OpaqueF32>>::format(),
                                        pair(<Option<OpaqueF32>>::format(), bool::format()),
                                    ),
                                ),
                            ),
                            case(
                                5,
                                pair(PlayerId::format(), i32::format()),
                                case(
                                    6,
                                    pair(PlayerId::format(), i16::format()),
                                    case(
                                        7,
                                        pair(
                                            PlayerId::format(),
                                            pair(
                                                InventorySlot::format(),
                                                <Option<ItemStack>>::format(),
                                            ),
                                        ),
                                        case(
                                            8,
                                            pair(
                                                PlayerId::format(),
                                                pair(
                                                    BlockPos::format(),
                                                    pair(
                                                        u8::format(),
                                                        <Option<BlockFace>>::format(),
                                                    ),
                                                ),
                                            ),
                                            case(
                                                9,
                                                pair(
                                                    PlayerId::format(),
                                                    pair(
                                                        InteractionHand::format(),
                                                        pair(
                                                            BlockPos::format(),
                                                            pair(
                                                                <Option<BlockFace>>::format(),
                                                                <Option<ItemStack>>::format(),
                                                            ),
                                                        ),
                                                    ),
                                                ),
                                                case(
                                                    10,
                                                    PlayerId::format(),
                                                    Cases::Otherwise("invalid core command tag"),
                                                ),
                                            ),
                                        ),
                                    ),
                                ),
                            ),
                        ),
                    ),
                ),
            ),
        )
    }

    open spec fn value(&self) -> Value {
        match self {
            CoreCommand::LoginStart { connection_id, username, player_id } => chosen(
                1,
                both(connection_id.value(), both(username.value(), player_id.value())),
            ),
            CoreCommand::UpdateClientView { player_id, view_distance } => chosen(
                2,
                both(player_id.value(), view_distance.value()),
            ),
            CoreCommand::ClientStatus { player_id, action_id } => chosen(
                3,
                both(player_id.value(), action_id.value()),
            ),
            CoreCommand::MoveIntent { player_id, position, yaw, pitch, on_ground } => chosen(
                4,
                both(
                    player_id.value(),
                    both(
                        position.value(),
                        both(yaw.value(), both(pitch.value(), on_ground.value())),
                    ),
                ),
            ),
            CoreCommand::KeepAliveResponse { player_id, keep_alive_id } => chosen(
                5,
                both(player_id.value(), keep_alive_id.value()),
            ),
            CoreCommand::SetHeldSlot { player_id, slot } => chosen(
                6,
                both(player_id.value(), slot.value()),
            ),
            CoreCommand::CreativeInventorySet { player_id, slot, stack } => chosen(
                7,
                both(player_id.value(), both(slot.value(), stack.value())),
            ),
            CoreCommand::DigBlock { player_id, position, status, face } => chosen(
                8,
                both(player_id.value(), both(position.value(), both(status.value(), face.value()))),
            ),
            CoreCommand::PlaceBlock { player_id, hand, position, face, held_item } => chosen(
                9,
                both(
                    player_id.value(),
                    both(
                        hand.value(),
                        both(position.value(), both(face.value(), held_item.value())),
                    ),
                ),
            ),
            CoreCommand::Disconnect { player_id } => chosen(10, player_id.value()),
        }
    }

    open spec fn encodable(&self) -> bool {
        match self {
            CoreCommand::LoginStart {
                connection_id,
                username,
                player_id,
            } => connection_id.encodable() && player_id.encodable(),
            CoreCommand::UpdateClientView { player_id, view_distance } => player_id.encodable(),
            CoreCommand::ClientStatus { player_id, action_id } => player_id.encodable(),
            CoreCommand::MoveIntent {
                player_id,
                position,
                yaw,
                pitch,
                on_ground,
            }=> player_id.encodable() && position.encodable() && yaw.encodable()
                && pitch.encodable(),
            CoreCommand::KeepAliveResponse { player_id, keep_alive_id } => player_id.encodable(),
            CoreCommand::SetHeldSlot { player_id, slot } => player_id.encodable(),
            CoreCommand::CreativeInventorySet {
                player_id,
                slot,
                stack,
            } => player_id.encodable() && slot.encodable() && stack.encodable(),
            CoreCommand::DigBlock {
                player_id,
                position,
                status,
                face,
            } => player_id.encodable() && position.encodable() && face.encodable(),
            CoreCommand::PlaceBlock {
                player_id,
                hand,
                position,
                face,
                held_item,
            }=> player_id.encodable() && hand.encodable() && position.encodable()
                && face.encodable() && held_item.encodable(),
            CoreCommand::Disconnect { player_id } => player_id.encodable(),
        }
    }

    fn encode(&self, encoder: &mut Encoder) -> (result: Result<(), ProtocolCodecError>) {
        match self {
            CoreCommand::LoginStart { connection_id, username, player_id } => {
                encoder.write_u8(1);
                connection_id.encode(encoder)?;
                username.encode(encoder)?;
                player_id.encode(encoder)
            },
            CoreCommand::UpdateClientView { player_id, view_distance } => {
                encoder.write_u8(2);
                player_id.encode(encoder)?;
                view_distance.encode(encoder)
            },
            CoreCommand::ClientStatus { player_id, action_id } => {
                encoder.write_u8(3);
                player_id.encode(encoder)?;
                action_id.encode(encoder)
            },
            CoreCommand::MoveIntent { player_id, position, yaw, pitch, on_ground } => {
                encoder.write_u8(4);
                player_id.encode(encoder)?;
                position.encode(encoder)?;
                yaw.encode(encoder)?;
                pitch.encode(encoder)?;
                on_ground.encode(encoder)
            },
            CoreCommand::KeepAliveResponse { player_id, keep_alive_id } => {
                encoder.write_u8(5);
                player_id.encode(encoder)?;
                keep_alive_id.encode(encoder)
            },
            CoreCommand::SetHeldSlot { player_id, slot } => {
                encoder.write_u8(6);
                player_id.encode(encoder)?;
                slot.encode(encoder)
            },
            CoreCommand::CreativeInventorySet { player_id, slot, stack } => {
                encoder.write_u8(7);
                player_id.encode(encoder)?;
                slot.encode(encoder)?;
                stack.encode(encoder)
            },
            CoreCommand::DigBlock { player_id, position, status, face } => {
                encoder.write_u8(8);
                player_id.encode(encoder)?;
                position.encode(encoder)?;
                status.encode(encoder)?;
                face.encode(encoder)
            },
            CoreCommand::PlaceBlock { player_id, hand, position, face, held_item } => {
                encoder.write_u8(9);
                player_id.encode(encoder)?;
                hand.encode(encoder)?;
                position.encode(encoder)?;
                face.encode(encoder)?;
                held_item.encode(encoder)
            },
            CoreCommand::Disconnect { player_id } => {
                encoder.write_u8(10);
                player_id.encode(encoder)
            },
        }
    }

    fn decode(decoder: &mut Decoder<'_>) -> (result: Result<Self, ProtocolCodecError>) {
        let tag: u8 = decoder.read_u8()?;
        match tag {
            1 => {
                let connection_id = ConnectionId::decode(decoder)?;
                let username = String::decode(decoder)?;
                let player_id = PlayerId::decode(decoder)?;
                Ok(CoreCommand::LoginStart { connection_id, username, player_id })
            },
            2 => {
                let player_id = PlayerId::decode(decoder)?;
                let view_distance: u8 = u8::decode(decoder)?;
                Ok(CoreCommand::UpdateClientView { player_id, view_distance })
            },
            3 => {
                let player_id = PlayerId::decode(decoder)?;
                let action_id: i8 = i8::decode(decoder)?;
                Ok(CoreCommand::ClientStatus { player_id, action_id })
            },
            4 => {
                let player_id = PlayerId::decode(decoder)?;
                let position = Option::<Vec3>::decode(decoder)?;
                let yaw = Option::<OpaqueF32>::decode(decoder)?;
                let pitch = Option::<OpaqueF32>::decode(decoder)?;
                let on_ground = bool::decode(decoder)?;
                Ok(CoreCommand::MoveIntent { player_id, position, yaw, pitch, on_ground })
            },
            5 => {
                let player_id = PlayerId::decode(decoder)?;
                let keep_alive_id: i32 = i32::decode(decoder)?;
                Ok(CoreCommand::KeepAliveResponse { player_id, keep_alive_id })
            },
            6 => {
                let player_id = PlayerId::decode(decoder)?;
                let slot: i16 = i16::decode(decoder)?;
                Ok(CoreCommand::SetHeldSlot { player_id, slot })
            },
            7 => {
                let player_id = PlayerId::decode(decoder)?;
                let slot = InventorySlot::decode(decoder)?;
                let stack = Option::<ItemStack>::decode(decoder)?;
                Ok(CoreCommand::CreativeInventorySet { player_id, slot, stack })
            },
            8 => {
                let player_id = PlayerId::decode(decoder)?;
                let position = BlockPos::decode(decoder)?;
                let status: u8 = u8::decode(decoder)?;
                let face = Option::<BlockFace>::decode(decoder)?;
                Ok(CoreCommand::DigBlock { player_id, position, status, face })
            },
            9 => {
                let player_id = PlayerId::decode(decoder)?;
                let hand = InteractionHand::decode(decoder)?;
                let position = BlockPos::decode(decoder)?;
                let face = Option::<BlockFace>::decode(decoder)?;
                let held_item = Option::<ItemStack>::decode(decoder)?;
                Ok(CoreCommand::PlaceBlock { player_id, hand, position, face, held_item })
            },
            10 => {
                let player_id = PlayerId::decode(decoder)?;
                Ok(CoreCommand::Disconnect { player_id })
            },
            _ => Err(ProtocolCodecError::InvalidValue("invalid core command tag")),
        }
    }
}

/// What a client is told.
#[allow(inconsistent_fields)]
#[derive(Debug, PartialEq, Eq)]
pub enum CoreEvent {
    LoginAccepted { player_id: PlayerId, entity_id: EntityId, player: PlayerSnapshot },
    PlayBootstrap {
        player: PlayerSnapshot,
        entity_id: EntityId,
        world_meta: WorldMeta,
        view_distance: u8,
    },
    ChunkBatch { chunks: Vec<ChunkColumn> },
    EntitySpawned { entity_id: EntityId, player: PlayerSnapshot },
    EntityMoved { entity_id: EntityId, player: PlayerSnapshot },
    EntityDespawned { entity_ids: Vec<EntityId> },
    InventoryContents { container: InventoryContainer, inventory: PlayerInventory },
    InventorySlotChanged {
        container: InventoryContainer,
        slot: InventorySlot,
        stack: Option<ItemStack>,
    },
    SelectedHotbarSlotChanged { slot: u8 },
    BlockChanged { position: BlockPos, block: BlockState },
    KeepAliveRequested { keep_alive_id: i32 },
    Disconnect { reason: String },
}

impl Wire for CoreEvent {
    open spec fn format() -> Format {
        tagged(
            case(
                1,
                pair(PlayerId::format(), pair(EntityId::format(), PlayerSnapshot::format())),
                case(
                    2,
                    pair(
                        PlayerSnapshot::format(),
                        pair(EntityId::format(), pair(WorldMeta::format(), u8::format())),
                    ),
                    case(
                        3,
                        <Vec<ChunkColumn>>::format(),
                        case(
                            4,
                            pair(EntityId::format(), PlayerSnapshot::format()),
                            case(
                                5,
                                pair(EntityId::format(), PlayerSnapshot::format()),
                                case(
                                    6,
                                    <Vec<EntityId>>::format(),
                                    case(
                                        7,
                                        pair(
                                            InventoryContainer::format(),
                                            PlayerInventory::format(),
                                        ),
                                        case(
                                            8,
                                            pair(
                                                InventoryContainer::format(),
                                                pair(
                                                    InventorySlot::format(),
                                                    <Option<ItemStack>>::format(),
                                                ),
                                            ),
                                            case(
                                                9,
                                                u8::format(),
                                                case(
                                                    10,
                                                    pair(BlockPos::format(), BlockState::format()),
                                                    case(
                                                        11,
                                                        i32::format(),
                                                        case(
                                                            12,
                                                            String::format(),
                                                            Cases::Otherwise(
                                                                "invalid core event tag",
                                                            ),
                                                        ),
                                                    ),
                                                ),
                                            ),
                                        ),
                                    ),
                                ),
                            ),
                        ),
                    ),
                ),
            ),
        )
    }

    open spec fn value(&self) -> Value {
        match self {
            CoreEvent::LoginAccepted { player_id, entity_id, player } => chosen(
                1,
                both(player_id.value(), both(entity_id.value(), player.value())),
            ),
            CoreEvent::PlayBootstrap { player, entity_id, world_meta, view_distance } => chosen(
                2,
                both(
                    player.value(),
                    both(entity_id.value(), both(world_meta.value(), view_distance.value())),
                ),
            ),
            CoreEvent::ChunkBatch { chunks } => chosen(3, chunks.value()),
            CoreEvent::EntitySpawned { entity_id, player } => chosen(
                4,
                both(entity_id.value(), player.value()),
            ),
            CoreEvent::EntityMoved { entity_id, player } => chosen(
                5,
                both(entity_id.value(), player.value()),
            ),
            CoreEvent::EntityDespawned { entity_ids } => chosen(6, entity_ids.value()),
            CoreEvent::InventoryContents { container, inventory } => chosen(
                7,
                both(container.value(), inventory.value()),
            ),
            CoreEvent::InventorySlotChanged { container, slot, stack } => chosen(
                8,
                both(container.value(), both(slot.value(), stack.value())),
            ),
            CoreEvent::SelectedHotbarSlotChanged { slot } => chosen(9, slot.value()),
            CoreEvent::BlockChanged { position, block } => chosen(
                10,
                both(position.value(), block.value()),
            ),
            CoreEvent::KeepAliveRequested { keep_alive_id } => chosen(11, keep_alive_id.value()),
            CoreEvent::Disconnect { reason } => chosen(12, reason.value()),
        }
    }

    open spec fn encodable(&self) -> bool {
        match self {
            CoreEvent::LoginAccepted {
                player_id,
                entity_id,
                player,
            } => player_id.encodable() && entity_id.encodable() && player.encodable(),
            CoreEvent::PlayBootstrap {
                player,
                entity_id,
                world_meta,
                view_distance,
            } => player.encodable() && entity_id.encodable() && world_meta.encodable(),
            CoreEvent::ChunkBatch { chunks } => chunks.encodable(),
            CoreEvent::EntitySpawned {
                entity_id,
                player,
            } => entity_id.encodable() && player.encodable(),
            CoreEvent::EntityMoved {
                entity_id,
                player,
            } => entity_id.encodable() && player.encodable(),
            CoreEvent::EntityDespawned { entity_ids } => entity_ids.encodable(),
            CoreEvent::InventoryContents {
                container,
                inventory,
            } => container.encodable() && inventory.encodable(),
            CoreEvent::InventorySlotChanged {
                container,
                slot,
                stack,
            } => container.encodable() && slot.encodable() && stack.encodable(),
            CoreEvent::BlockChanged {
                position,
                block,
            } => position.encodable() && block.encodable(),
            _ => true,
        }
    }

    fn encode(&self, encoder: &mut Encoder) -> (result: Result<(), ProtocolCodecError>) {
        match self {
            CoreEvent::LoginAccepted { player_id, entity_id, player } => {
                encoder.write_u8(1);
                player_id.encode(encoder)?;
                entity_id.encode(encoder)?;
                player.encode(encoder)
            },
            CoreEvent::PlayBootstrap { player, entity_id, world_meta, view_distance } => {
                encoder.write_u8(2);
                player.encode(encoder)?;
                entity_id.encode(encoder)?;
                world_meta.encode(encoder)?;
                view_distance.encode(encoder)
            },
            CoreEvent::ChunkBatch { chunks } => {
                encoder.write_u8(3);
                chunks.encode(encoder)
            },
            CoreEvent::EntitySpawned { entity_id, player } => {
                encoder.write_u8(4);
                entity_id.encode(encoder)?;
                player.encode(encoder)
            },
            CoreEvent::EntityMoved { entity_id, player } => {
                encoder.write_u8(5);
                entity_id.encode(encoder)?;
                player.encode(encoder)
            },
            CoreEvent::EntityDespawned { entity_ids } => {
                encoder.write_u8(6);
                entity_ids.encode(encoder)
            },
            CoreEvent::InventoryContents { container, inventory } => {
                encoder.write_u8(7);
                container.encode(encoder)?;
                inventory.encode(encoder)
            },
            CoreEvent::InventorySlotChanged { container, slot, stack } => {
                encoder.write_u8(8);
                container.encode(encoder)?;
                slot.encode(encoder)?;
                stack.encode(encoder)
            },
            CoreEvent::SelectedHotbarSlotChanged { slot } => {
                encoder.write_u8(9);
                slot.encode(encoder)
            },
            CoreEvent::BlockChanged { position, block } => {
                encoder.write_u8(10);
                position.encode(encoder)?;
                block.encode(encoder)
            },
            CoreEvent::KeepAliveRequested { keep_alive_id } => {
                encoder.write_u8(11);
                keep_alive_id.encode(encoder)
            },
            CoreEvent::Disconnect { reason } => {
                encoder.write_u8(12);
                reason.encode(encoder)
            },
        }
    }

    fn decode(decoder: &mut Decoder<'_>) -> (result: Result<Self, ProtocolCodecError>) {
        let tag: u8 = decoder.read_u8()?;
        match tag {
            1 => {
                let player_id = PlayerId::decode(decoder)?;
                let entity_id = EntityId::decode(decoder)?;
                let player = PlayerSnapshot::decode(decoder)?;
                Ok(CoreEvent::LoginAccepted { player_id, entity_id, player })
            },
            2 => {
                let player = PlayerSnapshot::decode(decoder)?;
                let entity_id = EntityId::decode(decoder)?;
                let world_meta = WorldMeta::decode(decoder)?;
                let view_distance: u8 = u8::decode(decoder)?;
                Ok(CoreEvent::PlayBootstrap { player, entity_id, world_meta, view_distance })
            },
            3 => {
                let chunks = Vec::<ChunkColumn>::decode(decoder)?;
                Ok(CoreEvent::ChunkBatch { chunks })
            },
            4 => {
                let entity_id = EntityId::decode(decoder)?;
                let player = PlayerSnapshot::decode(decoder)?;
                Ok(CoreEvent::EntitySpawned { entity_id, player })
            },
            5 => {
                let entity_id = EntityId::decode(decoder)?;
                let player = PlayerSnapshot::decode(decoder)?;
                Ok(CoreEvent::EntityMoved { entity_id, player })
            },
            6 => {
                let entity_ids = Vec::<EntityId>::decode(decoder)?;
                Ok(CoreEvent::EntityDespawned { entity_ids })
            },
            7 => {
                let container = InventoryContainer::decode(decoder)?;
                let inventory = PlayerInventory::decode(decoder)?;
                Ok(CoreEvent::InventoryContents { container, inventory })
            },
            8 => {
                let container = InventoryContainer::decode(decoder)?;
                let slot = InventorySlot::decode(decoder)?;
                let stack = Option::<ItemStack>::decode(decoder)?;
                Ok(CoreEvent::InventorySlotChanged { container, slot, stack })
            },
            9 => {
                let slot: u8 = u8::decode(decoder)?;
                Ok(CoreEvent::SelectedHotbarSlotChanged { slot })
            },
            10 => {
                let position = BlockPos::decode(decoder)?;
                let block = BlockState::decode(decoder)?;
                Ok(CoreEvent::BlockChanged { position, block })
            },
            11 => {
                let keep_alive_id: i32 = i32::decode(decoder)?;
                Ok(CoreEvent::KeepAliveRequested { keep_alive_id })
            },
            12 => {
                let reason = String::decode(decoder)?;
                Ok(CoreEvent::Disconnect { reason })
            },
            _ => Err(ProtocolCodecError::InvalidValue("invalid core event tag")),
        }
    }
}

/// Whether every section of every chunk that an event brings is under its own height.
pub open spec fn event_placed(event: CoreEvent) -> bool {
    event matches CoreEvent::ChunkBatch { chunks } ==> forall|i: int|
        0 <= i < chunks@.len() ==> sections_placed(#[trigger] chunks@[i])
}

/// An event whose sections are under their own heights is orderly.
pub proof fn event_is_orderly(event: CoreEvent)
    requires
        event_placed(event),
    ensures
        orderly(CoreEvent::format(), event.value()),
{
    broadcast use {compound_rules, plain_rules};

    if let Format::Tagged(cases) = CoreEvent::format() {
        if let Value::Case(n, x) = event.value() {
            orderly_case(*cases, n as u8, *x);
            if let CoreEvent::ChunkBatch { chunks } = event {
                column_list_is_orderly(chunks);
            } else if let Ok((means, body)) = select(*cases, n as u8) {
                assert(plain(body));
                plain_is_orderly(body, *x);
            }
        }
    }
}

} // verus!
