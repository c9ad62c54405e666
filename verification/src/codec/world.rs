//! Blocks, chunks, players and whole worlds on the wire.

use crate::codec::basic::encode_text;
use crate::codec::binary::{Decoder, Encoder};
use crate::codec::grammar::{
    both, case, chosen, held, key_id, key_of, pair, tagged, Cases, Format, ProtocolCodecError,
    Value,
};
use crate::codec::maps::{decode_held, encode_held, held_encodable, held_values, SelfKeyed, WireKey};
use crate::codec::wire::{compound_rules, decode_bytes, encode_bytes, Wire};
use crate::model::block::{BlockKey, BlockPos, BlockState, ChunkPos, DimensionId, Vec3, WorldMeta};
use crate::model::chunk::{ChunkColumn, ChunkSection, SectionBlockIndex};
use crate::model::ids::PlayerId;
use crate::model::inventory::{InventoryWindowContents, PlayerInventory};
use crate::model::item::{ItemStack, OpaqueF32};
use crate::model::names::{BlockEntityKindId, ContainerPropertyKey};
use crate::model::player::{
    BlockEntityState, ContainerBlockEntityState, DroppedItemSnapshot, PlayerSnapshot,
    WorldSnapshot,
};
use crate::ordered::{Key, OrderedMap};
use vstd::prelude::*;

verus! {

broadcast use compound_rules;

impl Wire for BlockKey {
    open spec fn format() -> Format {
        Format::Text
    }

    open spec fn value(&self) -> Value {
        Value::Text(self@)
    }

    open spec fn encodable(&self) -> bool {
        true
    }

    fn encode(&self, encoder: &mut Encoder) -> (result: Result<(), ProtocolCodecError>) {
        encode_text(self.as_str(), encoder)
    }

    fn decode(decoder: &mut Decoder<'_>) -> (result: Result<Self, ProtocolCodecError>) {
        let text = String::decode(decoder)?;
        Ok(BlockKey::new(text.as_str()))
    }
}

impl Wire for BlockState {
    open spec fn format() -> Format {
        pair(BlockKey::format(), <OrderedMap<String, String>>::format())
    }

    open spec fn value(&self) -> Value {
        both(self.key.value(), self.properties.value())
    }

    open spec fn encodable(&self) -> bool {
        self.key.encodable() && self.properties.encodable()
    }

    fn encode(&self, encoder: &mut Encoder) -> (result: Result<(), ProtocolCodecError>) {
        self.key.encode(encoder)?;
        self.properties.encode(encoder)
    }

    fn decode(decoder: &mut Decoder<'_>) -> (result: Result<Self, ProtocolCodecError>) {
        let key = BlockKey::decode(decoder)?;
        let properties = OrderedMap::<String, String>::decode(decoder)?;
        Ok(BlockState { key, properties })
    }
}

impl Wire for ChunkSection {
    open spec fn format() -> Format {
        pair(i32::format(), <OrderedMap<SectionBlockIndex, BlockState>>::format())
    }

    open spec fn value(&self) -> Value {
        both(self.y.value(), self.blocks.value())
    }

    open spec fn encodable(&self) -> bool {
        self.blocks.encodable()
    }

    fn encode(&self, encoder: &mut Encoder) -> (result: Result<(), ProtocolCodecError>) {
        self.y.encode(encoder)?;
        self.blocks.encode(encoder)
    }

    fn decode(decoder: &mut Decoder<'_>) -> (result: Result<Self, ProtocolCodecError>) {
        let y: i32 = i32::decode(decoder)?;
        let blocks = OrderedMap::<SectionBlockIndex, BlockState>::decode(decoder)?;
        Ok(ChunkSection { y, blocks })
    }
}

impl SelfKeyed for ChunkSection {
    type K = i32;

    open spec fn spec_key(&self) -> i32 {
        self.y
    }

    fn own_key(&self) -> (result: i32) {
        self.y
    }

    proof fn key_is_at_front(&self) {
    }
}

impl Wire for ChunkColumn {
    open spec fn format() -> Format {
        pair(ChunkPos::format(), pair(held(ChunkSection::format()), Format::Bytes))
    }

    open spec fn value(&self) -> Value {
        both(
            self.pos.value(),
            both(Value::List(held_values(self.sections.pairs())), Value::Bytes(self.biomes@)),
        )
    }

    open spec fn encodable(&self) -> bool {
        self.pos.encodable() && self.sections.wf() && held_encodable(self.sections.pairs())
    }

    fn encode(&self, encoder: &mut Encoder) -> (result: Result<(), ProtocolCodecError>) {
        self.pos.encode(encoder)?;
        encode_held(&self.sections, encoder)?;
        encode_bytes(&self.biomes, encoder)
    }

    fn decode(decoder: &mut Decoder<'_>) -> (result: Result<Self, ProtocolCodecError>) {
        let pos = ChunkPos::decode(decoder)?;
        let sections = decode_held::<ChunkSection>(decoder)?;
        let biomes = decode_bytes(decoder)?;
        Ok(ChunkColumn { pos, sections, biomes })
    }
}

impl SelfKeyed for ChunkColumn {
    type K = ChunkPos;

    open spec fn spec_key(&self) -> ChunkPos {
        self.pos
    }

    fn own_key(&self) -> (result: ChunkPos) {
        self.pos
    }

    proof fn key_is_at_front(&self) {
        reveal_with_fuel(key_id, 3);
        assert(self.pos.id() =~= key_of(self.value()));
    }
}

impl Wire for WorldMeta {
    open spec fn format() -> Format {
        pair(
            String::format(),
            pair(
                u64::format(),
                pair(
                    BlockPos::format(),
                    pair(
                        DimensionId::format(),
                        pair(
                            i64::format(),
                            pair(
                                i64::format(),
                                pair(
                                    String::format(),
                                    pair(u8::format(), pair(u8::format(), u8::format())),
                                ),
                            ),
                        ),
                    ),
                ),
            ),
        )
    }

    open spec fn value(&self) -> Value {
        both(
            self.level_name.value(),
            both(
                self.seed.value(),
                both(
                    self.spawn.value(),
                    both(
                        self.dimension.value(),
                        both(
                            self.age.value(),
                            both(
                                self.time.value(),
                                both(
                                    self.level_type.value(),
                                    both(
                                        self.game_mode.value(),
                                        both(self.difficulty.value(), self.max_players.value()),
                                    ),
                                ),
                            ),
                        ),
                    ),
                ),
            ),
        )
    }

    open spec fn encodable(&self) -> bool {
        self.spawn.encodable() && self.dimension.encodable()
    }

    fn encode(&self, encoder: &mut Encoder) -> (result: Result<(), ProtocolCodecError>) {
        self.level_name.encode(encoder)?;
        self.seed.encode(encoder)?;
        self.spawn.encode(encoder)?;
        self.dimension.encode(encoder)?;
        self.age.encode(encoder)?;
        self.time.encode(encoder)?;
        self.level_type.encode(encoder)?;
        self.game_mode.encode(encoder)?;
        self.difficulty.encode(encoder)?;
        self.max_players.encode(encoder)
    }

    fn decode(decoder: &mut Decoder<'_>) -> (result: Result<Self, ProtocolCodecError>) {
        let level_name = String::decode(decoder)?;
        let seed: u64 = u64::decode(decoder)?;
        let spawn = BlockPos::decode(decoder)?;
        let dimension = DimensionId::decode(decoder)?;
        let age: i64 = i64::decode(decoder)?;
        let time: i64 = i64::decode(decoder)?;
        let level_type = String::decode(decoder)?;
        let game_mode: u8 = u8::decode(decoder)?;
        let difficulty: u8 = u8::decode(decoder)?;
        let max_players: u8 = u8::decode(decoder)?;
        Ok(
            WorldMeta {
                level_name,
                seed,
                spawn,
                dimension,
                age,
                time,
                level_type,
                game_mode,
                difficulty,
                max_players,
            },
        )
    }
}

impl Wire for PlayerInventory {
    open spec fn format() -> Format {
        pair(<Vec<Option<ItemStack>>>::format(), <Option<ItemStack>>::format())
    }

    open spec fn value(&self) -> Value {
        both(self.slots.value(), self.offhand.value())
    }

    open spec fn encodable(&self) -> bool {
        self.slots.encodable() && self.offhand.encodable()
    }

    fn encode(&self, encoder: &mut Encoder) -> (result: Result<(), ProtocolCodecError>) {
        self.slots.encode(encoder)?;
        self.offhand.encode(encoder)
    }

    fn decode(decoder: &mut Decoder<'_>) -> (result: Result<Self, ProtocolCodecError>) {
        let slots = Vec::<Option<ItemStack>>::decode(decoder)?;
        let offhand = Option::<ItemStack>::decode(decoder)?;
        Ok(PlayerInventory { slots, offhand })
    }
}

impl Wire for InventoryWindowContents {
    open spec fn format() -> Format {
        pair(PlayerInventory::format(), <Vec<Option<ItemStack>>>::format())
    }

    open spec fn value(&self) -> Value {
        both(self.player_inventory.value(), self.local_slots.value())
    }

    open spec fn encodable(&self) -> bool {
        self.player_inventory.encodable() && self.local_slots.encodable()
    }

    fn encode(&self, encoder: &mut Encoder) -> (result: Result<(), ProtocolCodecError>) {
        self.player_inventory.encode(encoder)?;
        self.local_slots.encode(encoder)
    }

    fn decode(decoder: &mut Decoder<'_>) -> (result: Result<Self, ProtocolCodecError>) {
        let player_inventory = PlayerInventory::decode(decoder)?;
        let local_slots = Vec::<Option<ItemStack>>::decode(decoder)?;
        Ok(InventoryWindowContents { player_inventory, local_slots })
    }
}

impl Wire for PlayerSnapshot {
    open spec fn format() -> Format {
        pair(
            PlayerId::format(),
            pair(
                String::format(),
                pair(
                    Vec3::format(),
                    pair(
                        OpaqueF32::format(),
                        pair(
                            OpaqueF32::format(),
                            pair(
                                bool::format(),
                                pair(
                                    DimensionId::format(),
                                    pair(
                                        OpaqueF32::format(),
                                        pair(
                                            i16::format(),
                                            pair(
                                                OpaqueF32::format(),
                                                pair(PlayerInventory::format(), u8::format()),
                                            ),
                                        ),
                                    ),
                                ),
                            ),
                        ),
                    ),
                ),
            ),
        )
    }

    open spec fn value(&self) -> Value {
        both(
            self.id.value(),
            both(
                self.username.value(),
                both(
                    self.position.value(),
                    both(
                        self.yaw.value(),
                        both(
                            self.pitch.value(),
                            both(
                                self.on_ground.value(),
                                both(
                                    self.dimension.value(),
                                    both(
                                        self.health.value(),
                                        both(
                                            self.food.value(),
                                            both(
                                                self.food_saturation.value(),
                                                both(
                                                    self.inventory.value(),
                                                    self.selected_hotbar_slot.value(),
                                                ),
                                            ),
                                        ),
                                    ),
                                ),
                            ),
                        ),
                    ),
                ),
            ),
        )
    }

    open spec fn encodable(&self) -> bool {
        self.id.encodable() && self.position.encodable() && self.yaw.encodable()
            && self.pitch.encodable() && self.dimension.encodable() && self.health.encodable()
            && self.food_saturation.encodable() && self.inventory.encodable()
    }

    fn encode(&self, encoder: &mut Encoder) -> (result: Result<(), ProtocolCodecError>) {
        self.id.encode(encoder)?;
        self.username.encode(encoder)?;
        self.position.encode(encoder)?;
        self.yaw.encode(encoder)?;
        self.pitch.encode(encoder)?;
        self.on_ground.encode(encoder)?;
        self.dimension.encode(encoder)?;
        self.health.encode(encoder)?;
        self.food.encode(encoder)?;
        self.food_saturation.encode(encoder)?;
        self.inventory.encode(encoder)?;
        self.selected_hotbar_slot.encode(encoder)
    }

    fn decode(decoder: &mut Decoder<'_>) -> (result: Result<Self, ProtocolCodecError>) {
        let id = PlayerId::decode(decoder)?;
        let username = String::decode(decoder)?;
        let position = Vec3::decode(decoder)?;
        let yaw = OpaqueF32::decode(decoder)?;
        let pitch = OpaqueF32::decode(decoder)?;
        let on_ground = bool::decode(decoder)?;
        let dimension = DimensionId::decode(decoder)?;
        let health = OpaqueF32::decode(decoder)?;
        let food: i16 = i16::decode(decoder)?;
        let food_saturation = OpaqueF32::decode(decoder)?;
        let inventory = PlayerInventory::decode(decoder)?;
        let selected_hotbar_slot: u8 = u8::decode(decoder)?;
        Ok(
            PlayerSnapshot {
                id,
                username,
                position,
                yaw,
                pitch,
                on_ground,
                dimension,
                health,
                food,
                food_saturation,
                inventory,
                selected_hotbar_slot,
            },
        )
    }
}

impl SelfKeyed for PlayerSnapshot {
    type K = PlayerId;

    open spec fn spec_key(&self) -> PlayerId {
        self.id
    }

    fn own_key(&self) -> (result: PlayerId) {
        self.id
    }

    proof fn key_is_at_front(&self) {
    }
}

impl Wire for DroppedItemSnapshot {
    open spec fn format() -> Format {
        pair(ItemStack::format(), pair(Vec3::format(), Vec3::format()))
    }

    open spec fn value(&self) -> Value {
        both(self.item.value(), both(self.position.value(), self.velocity.value()))
    }

    open spec fn encodable(&self) -> bool {
        self.item.encodable() && self.position.encodable() && self.velocity.encodable()
    }

    fn encode(&self, encoder: &mut Encoder) -> (result: Result<(), ProtocolCodecError>) {
        self.item.encode(encoder)?;
        self.position.encode(encoder)?;
        self.velocity.encode(encoder)
    }

    fn decode(decoder: &mut Decoder<'_>) -> (result: Result<Self, ProtocolCodecError>) {
        let item = ItemStack::decode(decoder)?;
        let position = Vec3::decode(decoder)?;
        let velocity = Vec3::decode(decoder)?;
        Ok(DroppedItemSnapshot { item, position, velocity })
    }
}

impl Wire for ContainerBlockEntityState {
    open spec fn format() -> Format {
        pair(
            BlockEntityKindId::format(),
            pair(
                <Vec<Option<ItemStack>>>::format(),
                <OrderedMap<ContainerPropertyKey, i16>>::format(),
            ),
        )
    }

    open spec fn value(&self) -> Value {
        both(self.kind.value(), both(self.slots.value(), self.properties.value()))
    }

    open spec fn encodable(&self) -> bool {
        self.kind.encodable() && self.slots.encodable() && self.properties.encodable()
    }

    fn encode(&self, encoder: &mut Encoder) -> (result: Result<(), ProtocolCodecError>) {
        self.kind.encode(encoder)?;
        self.slots.encode(encoder)?;
        self.properties.encode(encoder)
    }

    fn decode(decoder: &mut Decoder<'_>) -> (result: Result<Self, ProtocolCodecError>) {
        let kind = BlockEntityKindId::decode(decoder)?;
        let slots = Vec::<Option<ItemStack>>::decode(decoder)?;
        let properties = OrderedMap::<ContainerPropertyKey, i16>::decode(decoder)?;
        Ok(ContainerBlockEntityState { kind, slots, properties })
    }
}

impl Wire for BlockEntityState {
    open spec fn format() -> Format {
        tagged(
            case(
                1,
                <Vec<Option<ItemStack>>>::format(),
                case(
                    2,
                    pair(
                        <Option<ItemStack>>::format(),
                        pair(
                            <Option<ItemStack>>::format(),
                            pair(
                                <Option<ItemStack>>::format(),
                                pair(
                                    i16::format(),
                                    pair(i16::format(), pair(i16::format(), i16::format())),
                                ),
                            ),
                        ),
                    ),
                    case(
                        3,
                        ContainerBlockEntityState::format(),
                        Cases::Otherwise("invalid block entity state"),
                    ),
                ),
            ),
        )
    }

    open spec fn value(&self) -> Value {
        match self {
            BlockEntityState::Chest { slots } => chosen(1, slots.value()),
            BlockEntityState::Furnace {
                input,
                fuel,
                output,
                burn_left,
                burn_max,
                cook_progress,
                cook_total,
            } => chosen(
                2,
                both(
                    input.value(),
                    both(
                        fuel.value(),
                        both(
                            output.value(),
                            both(
                                burn_left.value(),
                                both(
                                    burn_max.value(),
                                    both(cook_progress.value(), cook_total.value()),
                                ),
                            ),
                        ),
                    ),
                ),
            ),
            BlockEntityState::Container(x) => chosen(3, x.value()),
        }
    }

    open spec fn encodable(&self) -> bool {
        match self {
            BlockEntityState::Chest { slots } => slots.encodable(),
            BlockEntityState::Furnace {
                input,
                fuel,
                output,
                burn_left,
                burn_max,
                cook_progress,
                cook_total,
            } => input.encodable() && fuel.encodable() && output.encodable(),
            BlockEntityState::Container(x) => x.encodable(),
        }
    }

    fn encode(&self, encoder: &mut Encoder) -> (result: Result<(), ProtocolCodecError>) {
        match self {
            BlockEntityState::Chest { slots } => {
                encoder.write_u8(1);
                slots.encode(encoder)
            },
            BlockEntityState::Furnace {
                input,
                fuel,
                output,
                burn_left,
                burn_max,
                cook_progress,
                cook_total,
            } => {
                encoder.write_u8(2);
                input.encode(encoder)?;
                fuel.encode(encoder)?;
                output.encode(encoder)?;
                burn_left.encode(encoder)?;
                burn_max.encode(encoder)?;
                cook_progress.encode(encoder)?;
                cook_total.encode(encoder)
            },
            BlockEntityState::Container(x) => {
                encoder.write_u8(3);
                x.encode(encoder)
            },
        }
    }

    fn decode(decoder: &mut Decoder<'_>) -> (result: Result<Self, ProtocolCodecError>) {
        let tag: u8 = decoder.read_u8()?;
        match tag {
            1 => {
                let slots = Vec::<Option<ItemStack>>::decode(decoder)?;
                Ok(BlockEntityState::Chest { slots })
            },
            2 => {
                let input = Option::<ItemStack>::decode(decoder)?;
                let fuel = Option::<ItemStack>::decode(decoder)?;
                let output = Option::<ItemStack>::decode(decoder)?;
                let burn_left: i16 = i16::decode(decoder)?;
                let burn_max: i16 = i16::decode(decoder)?;
                let cook_progress: i16 = i16::decode(decoder)?;
                let cook_total: i16 = i16::decode(decoder)?;
                Ok(
                    BlockEntityState::Furnace {
                        input,
                        fuel,
                        output,
                        burn_left,
                        burn_max,
                        cook_progress,
                        cook_total,
                    },
                )
            },
            3 => Ok(BlockEntityState::Container(ContainerBlockEntityState::decode(decoder)?)),
            _ => Err(ProtocolCodecError::InvalidValue("invalid block entity state")),
        }
    }
}

impl Wire for WorldSnapshot {
    open spec fn format() -> Format {
        pair(
            WorldMeta::format(),
            pair(
                held(ChunkColumn::format()),
                pair(
                    <OrderedMap<BlockPos, BlockEntityState>>::format(),
                    held(PlayerSnapshot::format()),
                ),
            ),
        )
    }

    open spec fn value(&self) -> Value {
        both(
            self.meta.value(),
            both(
                Value::List(held_values(self.chunks.pairs())),
                both(self.block_entities.value(), Value::List(held_values(self.players.pairs()))),
            ),
        )
    }

    open spec fn encodable(&self) -> bool {
        self.meta.encodable() && self.chunks.wf() && held_encodable(self.chunks.pairs())
            && self.block_entities.encodable() && self.players.wf() && held_encodable(
            self.players.pairs(),
        )
    }

    fn encode(&self, encoder: &mut Encoder) -> (result: Result<(), ProtocolCodecError>) {
        self.meta.encode(encoder)?;
        encode_held(&self.chunks, encoder)?;
        self.block_entities.encode(encoder)?;
        encode_held(&self.players, encoder)
    }

    fn decode(decoder: &mut Decoder<'_>) -> (result: Result<Self, ProtocolCodecError>) {
        let meta = WorldMeta::decode(decoder)?;
        let chunks = decode_held::<ChunkColumn>(decoder)?;
        let block_entities = OrderedMap::<BlockPos, BlockEntityState>::decode(decoder)?;
        let players = decode_held::<PlayerSnapshot>(decoder)?;
        Ok(WorldSnapshot { meta, chunks, block_entities, players })
    }
}

} // verus!
