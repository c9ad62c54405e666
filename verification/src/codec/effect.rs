//! What gameplay plugins read and want done, on the wire.

use crate::codec::binary::{Decoder, Encoder};
use crate::codec::grammar::{
    both, case, chosen, key_id, pair, tagged, Cases, Format, ProtocolCodecError, Value,
};
use crate::codec::maps::WireKey;
use crate::codec::wire::{compound_rules, Wire};
use crate::model::block::{BlockPos, BlockState, Vec3, WorldMeta};
use crate::model::effect::{
    GameplayCanEditBlockKey, GameplayEffect, GameplayEffectBatch, GameplayReadSet,
};
use crate::model::event::TargetedEvent;
use crate::model::ids::PlayerId;
use crate::model::inventory::InventorySlot;
use crate::model::item::{ItemStack, OpaqueF32};
use crate::model::names::ContainerKindId;
use crate::model::player::{BlockEntityState, PlayerSnapshot};
use crate::ordered::{Key, OrderedMap};
use vstd::prelude::*;

verus! {

broadcast use compound_rules;

impl Wire for GameplayCanEditBlockKey {
    open spec fn format() -> Format {
        pair(PlayerId::format(), BlockPos::format())
    }

    open spec fn value(&self) -> Value {
        both(self.player_id.value(), self.position.value())
    }

    open spec fn encodable(&self) -> bool {
        self.player_id.encodable() && self.position.encodable()
    }

    fn encode(&self, encoder: &mut Encoder) -> (result: Result<(), ProtocolCodecError>) {
        self.player_id.encode(encoder)?;
        self.position.encode(encoder)
    }

    fn decode(decoder: &mut Decoder<'_>) -> (result: Result<Self, ProtocolCodecError>) {
        let player_id = PlayerId::decode(decoder)?;
        let position = BlockPos::decode(decoder)?;
        Ok(GameplayCanEditBlockKey { player_id, position })
    }
}

impl WireKey for GameplayCanEditBlockKey {
    proof fn id_is_key_id(&self) {
        reveal_with_fuel(key_id, 5);
        assert(self.id() =~= key_id(self.value()));
    }
}

impl Wire for GameplayReadSet {
    open spec fn format() -> Format {
        pair(
            <Option<WorldMeta>>::format(),
            pair(
                <OrderedMap<PlayerId, Option<PlayerSnapshot>>>::format(),
                pair(
                    <OrderedMap<BlockPos, Option<BlockState>>>::format(),
                    pair(
                        <OrderedMap<BlockPos, Option<BlockEntityState>>>::format(),
                        <OrderedMap<GameplayCanEditBlockKey, bool>>::format(),
                    ),
                ),
            ),
        )
    }

    open spec fn value(&self) -> Value {
        both(
            self.world_meta.value(),
            both(
                self.player_snapshots.value(),
                both(
                    self.block_states.value(),
                    both(self.block_entities.value(), self.can_edit_block.value()),
                ),
            ),
        )
    }

    open spec fn encodable(&self) -> bool {
        self.world_meta.encodable() && self.player_snapshots.encodable()
            && self.block_states.encodable() && self.block_entities.encodable()
            && self.can_edit_block.encodable()
    }

    fn encode(&self, encoder: &mut Encoder) -> (result: Result<(), ProtocolCodecError>) {
        self.world_meta.encode(encoder)?;
        self.player_snapshots.encode(encoder)?;
        self.block_states.encode(encoder)?;
        self.block_entities.encode(encoder)?;
        self.can_edit_block.encode(encoder)
    }

    fn decode(decoder: &mut Decoder<'_>) -> (result: Result<Self, ProtocolCodecError>) {
        let world_meta = Option::<WorldMeta>::decode(decoder)?;
        let player_snapshots = OrderedMap::<PlayerId, Option<PlayerSnapshot>>::decode(decoder)?;
        let block_states = OrderedMap::<BlockPos, Option<BlockState>>::decode(decoder)?;
        let block_entities = OrderedMap::<BlockPos, Option<BlockEntityState>>::decode(decoder)?;
        let can_edit_block = OrderedMap::<GameplayCanEditBlockKey, bool>::decode(decoder)?;
        Ok(
            GameplayReadSet {
                world_meta,
                player_snapshots,
                block_states,
                block_entities,
                can_edit_block,
            },
        )
    }
}

impl Wire for GameplayEffect {
    open spec fn format() -> Format {
        tagged(
            case(
                1,
                pair(
                    PlayerId::format(),
                    pair(
                        <Option<Vec3>>::format(),
                        pair(
                            <Option<OpaqueF32>>::format(),
                            pair(<Option<OpaqueF32>>::format(), bool::format()),
                        ),
                    ),
                ),
                case(
                    2,
                    pair(PlayerId::format(), u8::format()),
                    case(
                        3,
                        pair(
                            PlayerId::format(),
                            pair(InventorySlot::format(), <Option<ItemStack>>::format()),
                        ),
                        case(
                            4,
                            PlayerId::format(),
                            case(
                                5,
                                pair(PlayerId::format(), pair(BlockPos::format(), u64::format())),
                                case(
                                    6,
                                    pair(PlayerId::format(), BlockPos::format()),
                                    case(
                                        7,
                                        pair(PlayerId::format(), ContainerKindId::format()),
                                        case(
                                            8,
                                            pair(
                                                BlockPos::format(),
                                                <Option<BlockState>>::format(),
                                            ),
                                            case(
                                                9,
                                                pair(Vec3::format(), ItemStack::format()),
                                                case(
                                                    10,
                                                    TargetedEvent::format(),
                                                    Cases::Otherwise("invalid gameplay effect tag"),
                                                ),
                                            ),
                                        ),
                                    ),
                                ),
                            ),
                        ),
                    ),
                ),
            ),
        )
    }

    open spec fn value(&self) -> Value {
        match self {
            GameplayEffect::SetPlayerPose { player_id, position, yaw, pitch, on_ground } => chosen(
                1,
                both(
                    player_id.value(),
                    both(
                        position.value(),
                        both(yaw.value(), both(pitch.value(), on_ground.value())),
                    ),
                ),
            ),
            GameplayEffect::SetSelectedHotbarSlot { player_id, slot } => chosen(
                2,
                both(player_id.value(), slot.value()),
            ),
            GameplayEffect::SetInventorySlot { player_id, slot, stack } => chosen(
                3,
                both(player_id.value(), both(slot.value(), stack.value())),
            ),
            GameplayEffect::ClearMining { player_id } => chosen(4, player_id.value()),
            GameplayEffect::BeginMining { player_id, position, duration_ms } => chosen(
                5,
                both(player_id.value(), both(position.value(), duration_ms.value())),
            ),
            GameplayEffect::OpenContainerAt { player_id, position } => chosen(
                6,
                both(player_id.value(), position.value()),
            ),
            GameplayEffect::OpenVirtualContainer { player_id, kind } => chosen(
                7,
                both(player_id.value(), kind.value()),
            ),
            GameplayEffect::SetBlock { position, block } => chosen(
                8,
                both(position.value(), block.value()),
            ),
            GameplayEffect::SpawnDroppedItem { position, item } => chosen(
                9,
                both(position.value(), item.value()),
            ),
            GameplayEffect::EmitEvent { event } => chosen(10, event.value()),
        }
    }

    open spec fn encodable(&self) -> bool {
        match self {
            GameplayEffect::SetPlayerPose {
                player_id,
                position,
                yaw,
                pitch,
                on_ground,
            }=> player_id.encodable() && position.encodable() && yaw.encodable()
                && pitch.encodable(),
            GameplayEffect::SetSelectedHotbarSlot { player_id, slot } => player_id.encodable(),
            GameplayEffect::SetInventorySlot {
                player_id,
                slot,
                stack,
            } => player_id.encodable() && slot.encodable() && stack.encodable(),
            GameplayEffect::ClearMining { player_id } => player_id.encodable(),
            GameplayEffect::BeginMining {
                player_id,
                position,
                duration_ms,
            } => player_id.encodable() && position.encodable(),
            GameplayEffect::OpenContainerAt {
                player_id,
                position,
            } => player_id.encodable() && position.encodable(),
            GameplayEffect::OpenVirtualContainer {
                player_id,
                kind,
            } => player_id.encodable() && kind.encodable(),
            GameplayEffect::SetBlock {
                position,
                block,
            } => position.encodable() && block.encodable(),
            GameplayEffect::SpawnDroppedItem {
                position,
                item,
            } => position.encodable() && item.encodable(),
            GameplayEffect::EmitEvent { event } => event.encodable(),
        }
    }

    fn encode(&self, encoder: &mut Encoder) -> (result: Result<(), ProtocolCodecError>) {
        match self {
            GameplayEffect::SetPlayerPose { player_id, position, yaw, pitch, on_ground } => {
                encoder.write_u8(1);
                player_id.encode(encoder)?;
                position.encode(encoder)?;
                yaw.encode(encoder)?;
                pitch.encode(encoder)?;
                on_ground.encode(encoder)
            },
            GameplayEffect::SetSelectedHotbarSlot { player_id, slot } => {
                encoder.write_u8(2);
                player_id.encode(encoder)?;
                slot.encode(encoder)
            },
            GameplayEffect::SetInventorySlot { player_id, slot, stack } => {
                encoder.write_u8(3);
                player_id.encode(encoder)?;
                slot.encode(encoder)?;
                stack.encode(encoder)
            },
            GameplayEffect::ClearMining { player_id } => {
                encoder.write_u8(4);
                player_id.encode(encoder)
            },
            GameplayEffect::BeginMining { player_id, position, duration_ms } => {
                encoder.write_u8(5);
                player_id.encode(encoder)?;
                position.encode(encoder)?;
                duration_ms.encode(encoder)
            },
            GameplayEffect::OpenContainerAt { player_id, position } => {
                encoder.write_u8(6);
                player_id.encode(encoder)?;
                position.encode(encoder)
            },
            GameplayEffect::OpenVirtualContainer { player_id, kind } => {
                encoder.write_u8(7);
                player_id.encode(encoder)?;
                kind.encode(encoder)
            },
            GameplayEffect::SetBlock { position, block } => {
                encoder.write_u8(8);
                position.encode(encoder)?;
                block.encode(encoder)
            },
            GameplayEffect::SpawnDroppedItem { position, item } => {
                encoder.write_u8(9);
                position.encode(encoder)?;
                item.encode(encoder)
            },
            GameplayEffect::EmitEvent { event } => {
                encoder.write_u8(10);
                event.encode(encoder)
            },
        }
    }

    fn decode(decoder: &mut Decoder<'_>) -> (result: Result<Self, ProtocolCodecError>) {
        let tag: u8 = decoder.read_u8()?;
        match tag {
            1 => {
                let player_id = PlayerId::decode(decoder)?;
                let position = Option::<Vec3>::decode(decoder)?;
                let yaw = Option::<OpaqueF32>::decode(decoder)?;
                let pitch = Option::<OpaqueF32>::decode(decoder)?;
                let on_ground = bool::decode(decoder)?;
                Ok(GameplayEffect::SetPlayerPose { player_id, position, yaw, pitch, on_ground })
            },
            2 => {
                let player_id = PlayerId::decode(decoder)?;
                let slot: u8 = u8::decode(decoder)?;
                Ok(GameplayEffect::SetSelectedHotbarSlot { player_id, slot })
            },
            3 => {
                let player_id = PlayerId::decode(decoder)?;
                let slot = InventorySlot::decode(decoder)?;
                let stack = Option::<ItemStack>::decode(decoder)?;
                Ok(GameplayEffect::SetInventorySlot { player_id, slot, stack })
            },
            4 => {
                let player_id = PlayerId::decode(decoder)?;
                Ok(GameplayEffect::ClearMining { player_id })
            },
            5 => {
                let player_id = PlayerId::decode(decoder)?;
                let position = BlockPos::decode(decoder)?;
                let duration_ms: u64 = u64::decode(decoder)?;
                Ok(GameplayEffect::BeginMining { player_id, position, duration_ms })
            },
            6 => {
                let player_id = PlayerId::decode(decoder)?;
                let position = BlockPos::decode(decoder)?;
                Ok(GameplayEffect::OpenContainerAt { player_id, position })
            },
            7 => {
                let player_id = PlayerId::decode(decoder)?;
                let kind = ContainerKindId::decode(decoder)?;
                Ok(GameplayEffect::OpenVirtualContainer { player_id, kind })
            },
            8 => {
                let position = BlockPos::decode(decoder)?;
                let block = Option::<BlockState>::decode(decoder)?;
                Ok(GameplayEffect::SetBlock { position, block })
            },
            9 => {
                let position = Vec3::decode(decoder)?;
                let item = ItemStack::decode(decoder)?;
                Ok(GameplayEffect::SpawnDroppedItem { position, item })
            },
            10 => {
                let event = TargetedEvent::decode(decoder)?;
                Ok(GameplayEffect::EmitEvent { event })
            },
            _ => Err(ProtocolCodecError::InvalidValue("invalid gameplay effect tag")),
        }
    }
}

impl Wire for GameplayEffectBatch {
    open spec fn format() -> Format {
        pair(u64::format(), pair(GameplayReadSet::format(), <Vec<GameplayEffect>>::format()))
    }

    open spec fn value(&self) -> Value {
        both(self.now_ms.value(), both(self.reads.value(), self.effects.value()))
    }

    open spec fn encodable(&self) -> bool {
        self.reads.encodable() && self.effects.encodable()
    }

    fn encode(&self, encoder: &mut Encoder) -> (result: Result<(), ProtocolCodecError>) {
        self.now_ms.encode(encoder)?;
        self.reads.encode(encoder)?;
        self.effects.encode(encoder)
    }

    fn decode(decoder: &mut Decoder<'_>) -> (result: Result<Self, ProtocolCodecError>) {
        let now_ms: u64 = u64::decode(decoder)?;
        let reads = GameplayReadSet::decode(decoder)?;
        let effects = Vec::<GameplayEffect>::decode(decoder)?;
        Ok(GameplayEffectBatch { now_ms, reads, effects })
    }
}

} // verus!
