//! Commands and events on the wire.

use crate::codec::binary::{Decoder, Encoder};
use crate::codec::grammar::{
    both, case, chosen, pair, tagged, Cases, Format, ProtocolCodecError, Value,
};
use crate::codec::wire::{compound_rules, Wire};
use crate::model::block::{BlockFace, BlockPos, BlockState, Vec3, WorldMeta};
use crate::model::chunk::ChunkColumn;
use crate::model::event::{
    ContainerProperty, CoreCommand, CoreEvent, EventTarget, GameplayCommand, RuntimeCommand,
    TargetedEvent,
};
use crate::model::ids::{ConnectionId, EntityId, PlayerId};
use crate::model::inventory::{
    InteractionHand, InventoryClickButton, InventoryClickTarget, InventoryClickValidation,
    InventorySlot, InventoryTransactionContext, InventoryWindowContents,
};
use crate::model::item::{ItemStack, OpaqueF32};
use crate::model::names::ContainerKindId;
use crate::model::player::{DroppedItemSnapshot, PlayerSnapshot};
use vstd::prelude::*;

verus! {

broadcast use compound_rules;

impl Wire for CoreCommand {
    open spec fn format() -> Format {
        tagged(
            case(
                1,
                pair(ConnectionId::format(), pair(String::format(), PlayerId::format())),
                case(
                    2,
                    pair(PlayerId::format(), u8::format()),
                    case(
                        3,
                        pair(PlayerId::format(), i8::format()),
                        case(
                            4,
                            pair(
                                PlayerId::format(),
                                pair(
                                    <Option<Vec3>>::format(),
                                    pair(
                                        <Option<OpaqueF32>>::format(),
                                        pair(<Option<OpaqueF32>>::format(), bool::format()),
                                    ),
                                ),
                            ),
                            case(
                                5,
                                pair(PlayerId::format(), i32::format()),
                                case(
                                    6,
                                    pair(PlayerId::format(), i16::format()),
                                    case(
                                        7,
                                        pair(
                                            PlayerId::format(),
                                            pair(
                                                InventorySlot::format(),
                                                <Option<ItemStack>>::format(),
                                            ),
                                        ),
                                        case(
                                            11,
                                            pair(
                                                PlayerId::format(),
                                                pair(
                                                    InventoryTransactionContext::format(),
                                                    pair(
                                                        InventoryClickTarget::format(),
                                                        pair(
                                                            InventoryClickButton::format(),
                                                            InventoryClickValidation::format(),
                                                        ),
                                                    ),
                                                ),
                                            ),
                                            case(
                                                12,
                                                pair(
                                                    PlayerId::format(),
                                                    pair(
                                                        InventoryTransactionContext::format(),
                                                        bool::format(),
                                                    ),
                                                ),
                                                case(
                                                    13,
                                                    pair(PlayerId::format(), u8::format()),
                                                    case(
                                                        8,
                                                        pair(
                                                            PlayerId::format(),
                                                            pair(
                                                                BlockPos::format(),
                                                                pair(
                                                                    u8::format(),
                                                                    <Option<BlockFace>>::format(),
                                                                ),
                                                            ),
                                                        ),
                                                        case(
                                                            9,
                                                            pair(
                                                                PlayerId::format(),
                                                                pair(
                                                                    InteractionHand::format(),
                                                                    pair(
                                                                        BlockPos::format(),
                                                                        pair(
                                                                            <Option<BlockFace>>::format(),
                                                                            <Option<ItemStack>>::format(),
                                                                        ),
                                                                    ),
                                                                ),
                                                            ),
                                                            case(
                                                                14,
                                                                pair(
                                                                    PlayerId::format(),
                                                                    pair(
                                                                        InteractionHand::format(),
                                                                        pair(
                                                                            BlockPos::format(),
                                                                            pair(
                                                                                <Option<BlockFace>>::format(),
                                                                                <Option<ItemStack>>::format(),
                                                                            ),
                                                                        ),
                                                                    ),
                                                                ),
                                                                case(
                                                                    10,
                                                                    PlayerId::format(),
                                                                    Cases::Otherwise(
                                                                        "invalid core command tag",
                                                                    ),
                                                                ),
                                                            ),
                                                        ),
                                                    ),
                                                ),
                                            ),
                                        ),
                                    ),
                                ),
                            ),
                        ),
                    ),
                ),
            ),
        )
    }

    open spec fn value(&self) -> Value {
        match self {
            CoreCommand::LoginStart { connection_id, username, player_id } => chosen(
                1,
                both(connection_id.value(), both(username.value(), player_id.value())),
            ),
            CoreCommand::UpdateClientView { player_id, view_distance } => chosen(
                2,
                both(player_id.value(), view_distance.value()),
            ),
            CoreCommand::ClientStatus { player_id, action_id } => chosen(
                3,
                both(player_id.value(), action_id.value()),
            ),
            CoreCommand::MoveIntent { player_id, position, yaw, pitch, on_ground } => chosen(
                4,
                both(
                    player_id.value(),
                    both(
                        position.value(),
                        both(yaw.value(), both(pitch.value(), on_ground.value())),
                    ),
                ),
            ),
            CoreCommand::KeepAliveResponse { player_id, keep_alive_id } => chosen(
                5,
                both(player_id.value(), keep_alive_id.value()),
            ),
            CoreCommand::SetHeldSlot { player_id, slot } => chosen(
                6,
                both(player_id.value(), slot.value()),
            ),
            CoreCommand::CreativeInventorySet { player_id, slot, stack } => chosen(
                7,
                both(player_id.value(), both(slot.value(), stack.value())),
            ),
            CoreCommand::InventoryClick {
                player_id,
                transaction,
                target,
                button,
                validation,
            } => chosen(
                11,
                both(
                    player_id.value(),
                    both(
                        transaction.value(),
                        both(target.value(), both(button.value(), validation.value())),
                    ),
                ),
            ),
            CoreCommand::InventoryTransactionAck { player_id, transaction, accepted } => chosen(
                12,
                both(player_id.value(), both(transaction.value(), accepted.value())),
            ),
            CoreCommand::CloseContainer { player_id, window_id } => chosen(
                13,
                both(player_id.value(), window_id.value()),
            ),
            CoreCommand::DigBlock { player_id, position, status, face } => chosen(
                8,
                both(player_id.value(), both(position.value(), both(status.value(), face.value()))),
            ),
            CoreCommand::PlaceBlock { player_id, hand, position, face, held_item } => chosen(
                9,
                both(
                    player_id.value(),
                    both(
                        hand.value(),
                        both(position.value(), both(face.value(), held_item.value())),
                    ),
                ),
            ),
            CoreCommand::UseBlock { player_id, hand, position, face, held_item } => chosen(
                14,
                both(
                    player_id.value(),
                    both(
                        hand.value(),
                        both(position.value(), both(face.value(), held_item.value())),
                    ),
                ),
            ),
            CoreCommand::Disconnect { player_id } => chosen(10, player_id.value()),
        }
    }

    open spec fn encodable(&self) -> bool {
        match self {
            CoreCommand::LoginStart {
                connection_id,
                username,
                player_id,
            } => connection_id.encodable() && player_id.encodable(),
            CoreCommand::UpdateClientView { player_id, view_distance } => player_id.encodable(),
            CoreCommand::ClientStatus { player_id, action_id } => player_id.encodable(),
            CoreCommand::MoveIntent {
                player_id,
                position,
                yaw,
                pitch,
                on_ground,
            }=> player_id.encodable() && position.encodable() && yaw.encodable()
                && pitch.encodable(),
            CoreCommand::KeepAliveResponse { player_id, keep_alive_id } => player_id.encodable(),
            CoreCommand::SetHeldSlot { player_id, slot } => player_id.encodable(),
            CoreCommand::CreativeInventorySet {
                player_id,
                slot,
                stack,
            } => player_id.encodable() && slot.encodable() && stack.encodable(),
            CoreCommand::InventoryClick {
                player_id,
                transaction,
                target,
                button,
                validation,
            }=> player_id.encodable() && transaction.encodable() && target.encodable()
                && button.encodable() && validation.encodable(),
            CoreCommand::InventoryTransactionAck {
                player_id,
                transaction,
                accepted,
            } => player_id.encodable() && transaction.encodable(),
            CoreCommand::CloseContainer { player_id, window_id } => player_id.encodable(),
            CoreCommand::DigBlock {
                player_id,
                position,
                status,
                face,
            } => player_id.encodable() && position.encodable() && face.encodable(),
            CoreCommand::PlaceBlock {
                player_id,
                hand,
                position,
                face,
                held_item,
            }=> player_id.encodable() && hand.encodable() && position.encodable()
                && face.encodable() && held_item.encodable(),
            CoreCommand::UseBlock {
                player_id,
                hand,
                position,
                face,
                held_item,
            }=> player_id.encodable() && hand.encodable() && position.encodable()
                && face.encodable() && held_item.encodable(),
            CoreCommand::Disconnect { player_id } => player_id.encodable(),
        }
    }

    fn encode(&self, encoder: &mut Encoder) -> (result: Result<(), ProtocolCodecError>) {
        match self {
            CoreCommand::LoginStart { connection_id, username, player_id } => {
                encoder.write_u8(1);
                connection_id.encode(encoder)?;
                username.encode(encoder)?;
                player_id.encode(encoder)
            },
            CoreCommand::UpdateClientView { player_id, view_distance } => {
                encoder.write_u8(2);
                player_id.encode(encoder)?;
                view_distance.encode(encoder)
            },
            CoreCommand::ClientStatus { player_id, action_id } => {
                encoder.write_u8(3);
                player_id.encode(encoder)?;
                action_id.encode(encoder)
            },
            CoreCommand::MoveIntent { player_id, position, yaw, pitch, on_ground } => {
                encoder.write_u8(4);
                player_id.encode(encoder)?;
                position.encode(encoder)?;
                yaw.encode(encoder)?;
                pitch.encode(encoder)?;
                on_ground.encode(encoder)
            },
            CoreCommand::KeepAliveResponse { player_id, keep_alive_id } => {
                encoder.write_u8(5);
                player_id.encode(encoder)?;
                keep_alive_id.encode(encoder)
            },
            CoreCommand::SetHeldSlot { player_id, slot } => {
                encoder.write_u8(6);
                player_id.encode(encoder)?;
                slot.encode(encoder)
            },
            CoreCommand::CreativeInventorySet { player_id, slot, stack } => {
                encoder.write_u8(7);
                player_id.encode(encoder)?;
                slot.encode(encoder)?;
                stack.encode(encoder)
            },
            CoreCommand::InventoryClick { player_id, transaction, target, button, validation } => {
                encoder.write_u8(11);
                player_id.encode(encoder)?;
                transaction.encode(encoder)?;
                target.encode(encoder)?;
                button.encode(encoder)?;
                validation.encode(encoder)
            },
            CoreCommand::InventoryTransactionAck { player_id, transaction, accepted } => {
                encoder.write_u8(12);
                player_id.encode(encoder)?;
                transaction.encode(encoder)?;
                accepted.encode(encoder)
            },
            CoreCommand::CloseContainer { player_id, window_id } => {
                encoder.write_u8(13);
                player_id.encode(encoder)?;
                window_id.encode(encoder)
            },
            CoreCommand::DigBlock { player_id, position, status, face } => {
                encoder.write_u8(8);
                player_id.encode(encoder)?;
                position.encode(encoder)?;
                status.encode(encoder)?;
                face.encode(encoder)
            },
            CoreCommand::PlaceBlock { player_id, hand, position, face, held_item } => {
                encoder.write_u8(9);
                player_id.encode(encoder)?;
                hand.encode(encoder)?;
                position.encode(encoder)?;
                face.encode(encoder)?;
                held_item.encode(encoder)
            },
            CoreCommand::UseBlock { player_id, hand, position, face, held_item } => {
                encoder.write_u8(14);
                player_id.encode(encoder)?;
                hand.encode(encoder)?;
                position.encode(encoder)?;
                face.encode(encoder)?;
                held_item.encode(encoder)
            },
            CoreCommand::Disconnect { player_id } => {
                encoder.write_u8(10);
                player_id.encode(encoder)
            },
        }
    }

    fn decode(decoder: &mut Decoder<'_>) -> (result: Result<Self, ProtocolCodecError>) {
        let tag: u8 = decoder.read_u8()?;
        match tag {
            1 => {
                let connection_id = ConnectionId::decode(decoder)?;
                let username = String::decode(decoder)?;
                let player_id = PlayerId::decode(decoder)?;
                Ok(CoreCommand::LoginStart { connection_id, username, player_id })
            },
            2 => {
                let player_id = PlayerId::decode(decoder)?;
                let view_distance: u8 = u8::decode(decoder)?;
                Ok(CoreCommand::UpdateClientView { player_id, view_distance })
            },
            3 => {
                let player_id = PlayerId::decode(decoder)?;
                let action_id: i8 = i8::decode(decoder)?;
                Ok(CoreCommand::ClientStatus { player_id, action_id })
            },
            4 => {
                let player_id = PlayerId::decode(decoder)?;
                let position = Option::<Vec3>::decode(decoder)?;
                let yaw = Option::<OpaqueF32>::decode(decoder)?;
                let pitch = Option::<OpaqueF32>::decode(decoder)?;
                let on_ground = bool::decode(decoder)?;
                Ok(CoreCommand::MoveIntent { player_id, position, yaw, pitch, on_ground })
            },
            5 => {
                let player_id = PlayerId::decode(decoder)?;
                let keep_alive_id: i32 = i32::decode(decoder)?;
                Ok(CoreCommand::KeepAliveResponse { player_id, keep_alive_id })
            },
            6 => {
                let player_id = PlayerId::decode(decoder)?;
                let slot: i16 = i16::decode(decoder)?;
                Ok(CoreCommand::SetHeldSlot { player_id, slot })
            },
            7 => {
                let player_id = PlayerId::decode(decoder)?;
                let slot = InventorySlot::decode(decoder)?;
                let stack = Option::<ItemStack>::decode(decoder)?;
                Ok(CoreCommand::CreativeInventorySet { player_id, slot, stack })
            },
            11 => {
                let player_id = PlayerId::decode(decoder)?;
                let transaction = InventoryTransactionContext::decode(decoder)?;
                let target = InventoryClickTarget::decode(decoder)?;
                let button = InventoryClickButton::decode(decoder)?;
                let validation = InventoryClickValidation::decode(decoder)?;
                Ok(
                    CoreCommand::InventoryClick {
                        player_id,
                        transaction,
                        target,
                        button,
                        validation,
                    },
                )
            },
            12 => {
                let player_id = PlayerId::decode(decoder)?;
                let transaction = InventoryTransactionContext::decode(decoder)?;
                let accepted = bool::decode(decoder)?;
                Ok(CoreCommand::InventoryTransactionAck { player_id, transaction, accepted })
            },
            13 => {
                let player_id = PlayerId::decode(decoder)?;
                let window_id: u8 = u8::decode(decoder)?;
                Ok(CoreCommand::CloseContainer { player_id, window_id })
            },
            8 => {
                let player_id = PlayerId::decode(decoder)?;
                let position = BlockPos::decode(decoder)?;
                let status: u8 = u8::decode(decoder)?;
                let face = Option::<BlockFace>::decode(decoder)?;
                Ok(CoreCommand::DigBlock { player_id, position, status, face })
            },
            9 => {
                let player_id = PlayerId::decode(decoder)?;
                let hand = InteractionHand::decode(decoder)?;
                let position = BlockPos::decode(decoder)?;
                let face = Option::<BlockFace>::decode(decoder)?;
                let held_item = Option::<ItemStack>::decode(decoder)?;
                Ok(CoreCommand::PlaceBlock { player_id, hand, position, face, held_item })
            },
            14 => {
                let player_id = PlayerId::decode(decoder)?;
                let hand = InteractionHand::decode(decoder)?;
                let position = BlockPos::decode(decoder)?;
                let face = Option::<BlockFace>::decode(decoder)?;
                let held_item = Option::<ItemStack>::decode(decoder)?;
                Ok(CoreCommand::UseBlock { player_id, hand, position, face, held_item })
            },
            10 => {
                let player_id = PlayerId::decode(decoder)?;
                Ok(CoreCommand::Disconnect { player_id })
            },
            _ => Err(ProtocolCodecError::InvalidValue("invalid core command tag")),
        }
    }
}

impl Wire for GameplayCommand {
    open spec fn format() -> Format {
        tagged(
            case(
                4,
                pair(
                    PlayerId::format(),
                    pair(
                        <Option<Vec3>>::format(),
                        pair(
                            <Option<OpaqueF32>>::format(),
                            pair(<Option<OpaqueF32>>::format(), bool::format()),
                        ),
                    ),
                ),
                case(
                    6,
                    pair(PlayerId::format(), i16::format()),
                    case(
                        7,
                        pair(
                            PlayerId::format(),
                            pair(InventorySlot::format(), <Option<ItemStack>>::format()),
                        ),
                        case(
                            8,
                            pair(
                                PlayerId::format(),
                                pair(
                                    BlockPos::format(),
                                    pair(u8::format(), <Option<BlockFace>>::format()),
                                ),
                            ),
                            case(
                                9,
                                pair(
                                    PlayerId::format(),
                                    pair(
                                        InteractionHand::format(),
                                        pair(
                                            BlockPos::format(),
                                            pair(
                                                <Option<BlockFace>>::format(),
                                                <Option<ItemStack>>::format(),
                                            ),
                                        ),
                                    ),
                                ),
                                case(
                                    14,
                                    pair(
                                        PlayerId::format(),
                                        pair(
                                            InteractionHand::format(),
                                            pair(
                                                BlockPos::format(),
                                                pair(
                                                    <Option<BlockFace>>::format(),
                                                    <Option<ItemStack>>::format(),
                                                ),
                                            ),
                                        ),
                                    ),
                                    Cases::Otherwise("invalid gameplay command tag"),
                                ),
                            ),
                        ),
                    ),
                ),
            ),
        )
    }

    open spec fn value(&self) -> Value {
        match self {
            GameplayCommand::MoveIntent { player_id, position, yaw, pitch, on_ground } => chosen(
                4,
                both(
                    player_id.value(),
                    both(
                        position.value(),
                        both(yaw.value(), both(pitch.value(), on_ground.value())),
                    ),
                ),
            ),
            GameplayCommand::SetHeldSlot { player_id, slot } => chosen(
                6,
                both(player_id.value(), slot.value()),
            ),
            GameplayCommand::CreativeInventorySet { player_id, slot, stack } => chosen(
                7,
                both(player_id.value(), both(slot.value(), stack.value())),
            ),
            GameplayCommand::DigBlock { player_id, position, status, face } => chosen(
                8,
                both(player_id.value(), both(position.value(), both(status.value(), face.value()))),
            ),
            GameplayCommand::PlaceBlock { player_id, hand, position, face, held_item } => chosen(
                9,
                both(
                    player_id.value(),
                    both(
                        hand.value(),
                        both(position.value(), both(face.value(), held_item.value())),
                    ),
                ),
            ),
            GameplayCommand::UseBlock { player_id, hand, position, face, held_item } => chosen(
                14,
                both(
                    player_id.value(),
                    both(
                        hand.value(),
                        both(position.value(), both(face.value(), held_item.value())),
                    ),
                ),
            ),
        }
    }

    open spec fn encodable(&self) -> bool {
        match self {
            GameplayCommand::MoveIntent {
                player_id,
                position,
                yaw,
                pitch,
                on_ground,
            }=> player_id.encodable() && position.encodable() && yaw.encodable()
                && pitch.encodable(),
            GameplayCommand::SetHeldSlot { player_id, slot } => player_id.encodable(),
            GameplayCommand::CreativeInventorySet {
                player_id,
                slot,
                stack,
            } => player_id.encodable() && slot.encodable() && stack.encodable(),
            GameplayCommand::DigBlock {
                player_id,
                position,
                status,
                face,
            } => player_id.encodable() && position.encodable() && face.encodable(),
            GameplayCommand::PlaceBlock {
                player_id,
                hand,
                position,
                face,
                held_item,
            }=> player_id.encodable() && hand.encodable() && position.encodable()
                && face.encodable() && held_item.encodable(),
            GameplayCommand::UseBlock {
                player_id,
                hand,
                position,
                face,
                held_item,
            }=> player_id.encodable() && hand.encodable() && position.encodable()
                && face.encodable() && held_item.encodable(),
        }
    }

    fn encode(&self, encoder: &mut Encoder) -> (result: Result<(), ProtocolCodecError>) {
        match self {
            GameplayCommand::MoveIntent { player_id, position, yaw, pitch, on_ground } => {
                encoder.write_u8(4);
                player_id.encode(encoder)?;
                position.encode(encoder)?;
                yaw.encode(encoder)?;
                pitch.encode(encoder)?;
                on_ground.encode(encoder)
            },
            GameplayCommand::SetHeldSlot { player_id, slot } => {
                encoder.write_u8(6);
                player_id.encode(encoder)?;
                slot.encode(encoder)
            },
            GameplayCommand::CreativeInventorySet { player_id, slot, stack } => {
                encoder.write_u8(7);
                player_id.encode(encoder)?;
                slot.encode(encoder)?;
                stack.encode(encoder)
            },
            GameplayCommand::DigBlock { player_id, position, status, face } => {
                encoder.write_u8(8);
                player_id.encode(encoder)?;
                position.encode(encoder)?;
                status.encode(encoder)?;
                face.encode(encoder)
            },
            GameplayCommand::PlaceBlock { player_id, hand, position, face, held_item } => {
                encoder.write_u8(9);
                player_id.encode(encoder)?;
                hand.encode(encoder)?;
                position.encode(encoder)?;
                face.encode(encoder)?;
                held_item.encode(encoder)
            },
            GameplayCommand::UseBlock { player_id, hand, position, face, held_item } => {
                encoder.write_u8(14);
                player_id.encode(encoder)?;
                hand.encode(encoder)?;
                position.encode(encoder)?;
                face.encode(encoder)?;
                held_item.encode(encoder)
            },
        }
    }

    fn decode(decoder: &mut Decoder<'_>) -> (result: Result<Self, ProtocolCodecError>) {
        let tag: u8 = decoder.read_u8()?;
        match tag {
            4 => {
                let player_id = PlayerId::decode(decoder)?;
                let position = Option::<Vec3>::decode(decoder)?;
                let yaw = Option::<OpaqueF32>::decode(decoder)?;
                let pitch = Option::<OpaqueF32>::decode(decoder)?;
                let on_ground = bool::decode(decoder)?;
                Ok(GameplayCommand::MoveIntent { player_id, position, yaw, pitch, on_ground })
            },
            6 => {
                let player_id = PlayerId::decode(decoder)?;
                let slot: i16 = i16::decode(decoder)?;
                Ok(GameplayCommand::SetHeldSlot { player_id, slot })
            },
            7 => {
                let player_id = PlayerId::decode(decoder)?;
                let slot = InventorySlot::decode(decoder)?;
                let stack = Option::<ItemStack>::decode(decoder)?;
                Ok(GameplayCommand::CreativeInventorySet { player_id, slot, stack })
            },
            8 => {
                let player_id = PlayerId::decode(decoder)?;
                let position = BlockPos::decode(decoder)?;
                let status: u8 = u8::decode(decoder)?;
                let face = Option::<BlockFace>::decode(decoder)?;
                Ok(GameplayCommand::DigBlock { player_id, position, status, face })
            },
            9 => {
                let player_id = PlayerId::decode(decoder)?;
                let hand = InteractionHand::decode(decoder)?;
                let position = BlockPos::decode(decoder)?;
                let face = Option::<BlockFace>::decode(decoder)?;
                let held_item = Option::<ItemStack>::decode(decoder)?;
                Ok(GameplayCommand::PlaceBlock { player_id, hand, position, face, held_item })
            },
            14 => {
                let player_id = PlayerId::decode(decoder)?;
                let hand = InteractionHand::decode(decoder)?;
                let position = BlockPos::decode(decoder)?;
                let face = Option::<BlockFace>::decode(decoder)?;
                let held_item = Option::<ItemStack>::decode(decoder)?;
                Ok(GameplayCommand::UseBlock { player_id, hand, position, face, held_item })
            },
            _ => Err(ProtocolCodecError::InvalidValue("invalid gameplay command tag")),
        }
    }
}

impl Wire for RuntimeCommand {
    open spec fn format() -> Format {
        CoreCommand::format()
    }

    open spec fn value(&self) -> Value {
        match self {
            RuntimeCommand::Core(command) => command.value(),
        }
    }

    open spec fn encodable(&self) -> bool {
        match self {
            RuntimeCommand::Core(command) => command.encodable(),
        }
    }

    fn encode(&self, encoder: &mut Encoder) -> (result: Result<(), ProtocolCodecError>) {
        match self {
            RuntimeCommand::Core(command) => command.encode(encoder),
        }
    }

    fn decode(decoder: &mut Decoder<'_>) -> (result: Result<Self, ProtocolCodecError>) {
        Ok(RuntimeCommand::Core(CoreCommand::decode(decoder)?))
    }
}

impl Wire for ContainerProperty {
    open spec fn format() -> Format {
        u8::format()
    }

    open spec fn value(&self) -> Value {
        match self {
            ContainerProperty::Numbered(id) => id.value(),
            ContainerProperty::Named(_) => Value::Unit,
        }
    }

    open spec fn encodable(&self) -> bool {
        self is Numbered
    }

    fn encode(&self, encoder: &mut Encoder) -> (result: Result<(), ProtocolCodecError>) {
        match self {
            ContainerProperty::Numbered(id) => id.encode(encoder),
            ContainerProperty::Named(_) => Ok(()),
        }
    }

    fn decode(decoder: &mut Decoder<'_>) -> (result: Result<Self, ProtocolCodecError>) {
        let id: u8 = u8::decode(decoder)?;
        Ok(ContainerProperty::Numbered(id))
    }
}

impl Wire for CoreEvent {
    open spec fn format() -> Format {
        tagged(
            case(
                1,
                pair(PlayerId::format(), pair(EntityId::format(), PlayerSnapshot::format())),
                case(
                    2,
                    pair(
                        PlayerSnapshot::format(),
                        pair(EntityId::format(), pair(WorldMeta::format(), u8::format())),
                    ),
                    case(
                        3,
                        <Vec<ChunkColumn>>::format(),
                        case(
                            4,
                            pair(EntityId::format(), PlayerSnapshot::format()),
                            case(
                                5,
                                pair(EntityId::format(), PlayerSnapshot::format()),
                                case(
                                    18,
                                    pair(EntityId::format(), DroppedItemSnapshot::format()),
                                    case(
                                        19,
                                        pair(
                                            EntityId::format(),
                                            pair(
                                                BlockPos::format(),
                                                pair(<Option<u8>>::format(), u64::format()),
                                            ),
                                        ),
                                        case(
                                            6,
                                            <Vec<EntityId>>::format(),
                                            case(
                                                7,
                                                pair(
                                                    u8::format(),
                                                    pair(
                                                        ContainerKindId::format(),
                                                        InventoryWindowContents::format(),
                                                    ),
                                                ),
                                                case(
                                                    15,
                                                    pair(
                                                        u8::format(),
                                                        pair(
                                                            ContainerKindId::format(),
                                                            String::format(),
                                                        ),
                                                    ),
                                                    case(
                                                        16,
                                                        u8::format(),
                                                        case(
                                                            17,
                                                            pair(
                                                                u8::format(),
                                                                pair(
                                                                    ContainerProperty::format(),
                                                                    i16::format(),
                                                                ),
                                                            ),
                                                            case(
                                                                8,
                                                                pair(
                                                                    u8::format(),
                                                                    pair(
                                                                        ContainerKindId::format(),
                                                                        pair(
                                                                            InventorySlot::format(),
                                                                            <Option<ItemStack>>::format(),
                                                                        ),
                                                                    ),
                                                                ),
                                                                case(
                                                                    14,
                                                                    pair(
                                                                        InventoryTransactionContext::format(),
                                                                        bool::format(),
                                                                    ),
                                                                    case(
                                                                        13,
                                                                        <Option<ItemStack>>::format(),
                                                                        case(
                                                                            9,
                                                                            u8::format(),
                                                                            case(
                                                                                10,
                                                                                pair(
                                                                                    BlockPos::format(),
                                                                                    BlockState::format(),
                                                                                ),
                                                                                case(
                                                                                    11,
                                                                                    i32::format(),
                                                                                    case(
                                                                                        12,
                                                                                        String::format(),
                                                                                        Cases::Otherwise("invalid core event tag"),
                                                                                    ),
                                                                                ),
                                                                            ),
                                                                        ),
                                                                    ),
                                                                ),
                                                            ),
                                                        ),
                                                    ),
                                                ),
                                            ),
                                        ),
                                    ),
                                ),
                            ),
                        ),
                    ),
                ),
            ),
        )
    }

    open spec fn value(&self) -> Value {
        match self {
            CoreEvent::LoginAccepted { player_id, entity_id, player } => chosen(
                1,
                both(player_id.value(), both(entity_id.value(), player.value())),
            ),
            CoreEvent::PlayBootstrap { player, entity_id, world_meta, view_distance } => chosen(
                2,
                both(
                    player.value(),
                    both(entity_id.value(), both(world_meta.value(), view_distance.value())),
                ),
            ),
            CoreEvent::ChunkBatch { chunks } => chosen(3, chunks.value()),
            CoreEvent::EntitySpawned { entity_id, player } => chosen(
                4,
                both(entity_id.value(), player.value()),
            ),
            CoreEvent::EntityMoved { entity_id, player } => chosen(
                5,
                both(entity_id.value(), player.value()),
            ),
            CoreEvent::DroppedItemSpawned { entity_id, item } => chosen(
                18,
                both(entity_id.value(), item.value()),
            ),
            CoreEvent::BlockBreakingProgress {
                breaker_entity_id,
                position,
                stage,
                duration_ms,
            } => chosen(
                19,
                both(
                    breaker_entity_id.value(),
                    both(position.value(), both(stage.value(), duration_ms.value())),
                ),
            ),
            CoreEvent::EntityDespawned { entity_ids } => chosen(6, entity_ids.value()),
            CoreEvent::InventoryContents { window_id, container, contents } => chosen(
                7,
                both(window_id.value(), both(container.value(), contents.value())),
            ),
            CoreEvent::ContainerOpened { window_id, container, title } => chosen(
                15,
                both(window_id.value(), both(container.value(), title.value())),
            ),
            CoreEvent::ContainerClosed { window_id } => chosen(16, window_id.value()),
            CoreEvent::ContainerPropertyChanged { window_id, property, value } => chosen(
                17,
                both(window_id.value(), both(property.value(), value.value())),
            ),
            CoreEvent::InventorySlotChanged { window_id, container, slot, stack } => chosen(
                8,
                both(window_id.value(), both(container.value(), both(slot.value(), stack.value()))),
            ),
            CoreEvent::InventoryTransactionProcessed { transaction, accepted } => chosen(
                14,
                both(transaction.value(), accepted.value()),
            ),
            CoreEvent::CursorChanged { stack } => chosen(13, stack.value()),
            CoreEvent::SelectedHotbarSlotChanged { slot } => chosen(9, slot.value()),
            CoreEvent::BlockChanged { position, block } => chosen(
                10,
                both(position.value(), block.value()),
            ),
            CoreEvent::KeepAliveRequested { keep_alive_id } => chosen(11, keep_alive_id.value()),
            CoreEvent::Disconnect { reason } => chosen(12, reason.value()),
        }
    }

    open spec fn encodable(&self) -> bool {
        match self {
            CoreEvent::LoginAccepted {
                player_id,
                entity_id,
                player,
            } => player_id.encodable() && entity_id.encodable() && player.encodable(),
            CoreEvent::PlayBootstrap {
                player,
                entity_id,
                world_meta,
                view_distance,
            } => player.encodable() && entity_id.encodable() && world_meta.encodable(),
            CoreEvent::ChunkBatch { chunks } => chunks.encodable(),
            CoreEvent::EntitySpawned {
                entity_id,
                player,
            } => entity_id.encodable() && player.encodable(),
            CoreEvent::EntityMoved {
                entity_id,
                player,
            } => entity_id.encodable() && player.encodable(),
            CoreEvent::DroppedItemSpawned {
                entity_id,
                item,
            } => entity_id.encodable() && item.encodable(),
            CoreEvent::BlockBreakingProgress {
                breaker_entity_id,
                position,
                stage,
                duration_ms,
            } => breaker_entity_id.encodable() && position.encodable() && stage.encodable(),
            CoreEvent::EntityDespawned { entity_ids } => entity_ids.encodable(),
            CoreEvent::InventoryContents {
                window_id,
                container,
                contents,
            } => container.encodable() && contents.encodable(),
            CoreEvent::ContainerOpened { window_id, container, title } => container.encodable(),
            CoreEvent::ContainerPropertyChanged {
                window_id,
                property,
                value,
            } => property.encodable(),
            CoreEvent::InventorySlotChanged {
                window_id,
                container,
                slot,
                stack,
            } => container.encodable() && slot.encodable() && stack.encodable(),
            CoreEvent::InventoryTransactionProcessed {
                transaction,
                accepted,
            } => transaction.encodable(),
            CoreEvent::CursorChanged { stack } => stack.encodable(),
            CoreEvent::BlockChanged {
                position,
                block,
            } => position.encodable() && block.encodable(),
            _ => true,
        }
    }

    fn encode(&self, encoder: &mut Encoder) -> (result: Result<(), ProtocolCodecError>) {
        match self {
            CoreEvent::LoginAccepted { player_id, entity_id, player } => {
                encoder.write_u8(1);
                player_id.encode(encoder)?;
                entity_id.encode(encoder)?;
                player.encode(encoder)
            },
            CoreEvent::PlayBootstrap { player, entity_id, world_meta, view_distance } => {
                encoder.write_u8(2);
                player.encode(encoder)?;
                entity_id.encode(encoder)?;
                world_meta.encode(encoder)?;
                view_distance.encode(encoder)
            },
            CoreEvent::ChunkBatch { chunks } => {
                encoder.write_u8(3);
                chunks.encode(encoder)
            },
            CoreEvent::EntitySpawned { entity_id, player } => {
                encoder.write_u8(4);
                entity_id.encode(encoder)?;
                player.encode(encoder)
            },
            CoreEvent::EntityMoved { entity_id, player } => {
                encoder.write_u8(5);
                entity_id.encode(encoder)?;
                player.encode(encoder)
            },
            CoreEvent::DroppedItemSpawned { entity_id, item } => {
                encoder.write_u8(18);
                entity_id.encode(encoder)?;
                item.encode(encoder)
            },
            CoreEvent::BlockBreakingProgress {
                breaker_entity_id,
                position,
                stage,
                duration_ms,
            } => {
                encoder.write_u8(19);
                breaker_entity_id.encode(encoder)?;
                position.encode(encoder)?;
                stage.encode(encoder)?;
                duration_ms.encode(encoder)
            },
            CoreEvent::EntityDespawned { entity_ids } => {
                encoder.write_u8(6);
                entity_ids.encode(encoder)
            },
            CoreEvent::InventoryContents { window_id, container, contents } => {
                encoder.write_u8(7);
                window_id.encode(encoder)?;
                container.encode(encoder)?;
                contents.encode(encoder)
            },
            CoreEvent::ContainerOpened { window_id, container, title } => {
                encoder.write_u8(15);
                window_id.encode(encoder)?;
                container.encode(encoder)?;
                title.encode(encoder)
            },
            CoreEvent::ContainerClosed { window_id } => {
                encoder.write_u8(16);
                window_id.encode(encoder)
            },
            CoreEvent::ContainerPropertyChanged { window_id, property, value } => {
                encoder.write_u8(17);
                window_id.encode(encoder)?;
                property.encode(encoder)?;
                value.encode(encoder)
            },
            CoreEvent::InventorySlotChanged { window_id, container, slot, stack } => {
                encoder.write_u8(8);
                window_id.encode(encoder)?;
                container.encode(encoder)?;
                slot.encode(encoder)?;
                stack.encode(encoder)
            },
            CoreEvent::InventoryTransactionProcessed { transaction, accepted } => {
                encoder.write_u8(14);
                transaction.encode(encoder)?;
                accepted.encode(encoder)
            },
            CoreEvent::CursorChanged { stack } => {
                encoder.write_u8(13);
                stack.encode(encoder)
            },
            CoreEvent::SelectedHotbarSlotChanged { slot } => {
                encoder.write_u8(9);
                slot.encode(encoder)
            },
            CoreEvent::BlockChanged { position, block } => {
                encoder.write_u8(10);
                position.encode(encoder)?;
                block.encode(encoder)
            },
            CoreEvent::KeepAliveRequested { keep_alive_id } => {
                encoder.write_u8(11);
                keep_alive_id.encode(encoder)
            },
            CoreEvent::Disconnect { reason } => {
                encoder.write_u8(12);
                reason.encode(encoder)
            },
        }
    }

    fn decode(decoder: &mut Decoder<'_>) -> (result: Result<Self, ProtocolCodecError>) {
        let tag: u8 = decoder.read_u8()?;
        match tag {
            1 => {
                let player_id = PlayerId::decode(decoder)?;
                let entity_id = EntityId::decode(decoder)?;
                let player = PlayerSnapshot::decode(decoder)?;
                Ok(CoreEvent::LoginAccepted { player_id, entity_id, player })
            },
            2 => {
                let player = PlayerSnapshot::decode(decoder)?;
                let entity_id = EntityId::decode(decoder)?;
                let world_meta = WorldMeta::decode(decoder)?;
                let view_distance: u8 = u8::decode(decoder)?;
                Ok(CoreEvent::PlayBootstrap { player, entity_id, world_meta, view_distance })
            },
            3 => {
                let chunks = Vec::<ChunkColumn>::decode(decoder)?;
                Ok(CoreEvent::ChunkBatch { chunks })
            },
            4 => {
                let entity_id = EntityId::decode(decoder)?;
                let player = PlayerSnapshot::decode(decoder)?;
                Ok(CoreEvent::EntitySpawned { entity_id, player })
            },
            5 => {
                let entity_id = EntityId::decode(decoder)?;
                let player = PlayerSnapshot::decode(decoder)?;
                Ok(CoreEvent::EntityMoved { entity_id, player })
            },
            18 => {
                let entity_id = EntityId::decode(decoder)?;
                let item = DroppedItemSnapshot::decode(decoder)?;
                Ok(CoreEvent::DroppedItemSpawned { entity_id, item })
            },
            19 => {
                let breaker_entity_id = EntityId::decode(decoder)?;
                let position = BlockPos::decode(decoder)?;
                let stage = Option::<u8>::decode(decoder)?;
                let duration_ms: u64 = u64::decode(decoder)?;
                Ok(
                    CoreEvent::BlockBreakingProgress {
                        breaker_entity_id,
                        position,
                        stage,
                        duration_ms,
                    },
                )
            },
            6 => {
                let entity_ids = Vec::<EntityId>::decode(decoder)?;
                Ok(CoreEvent::EntityDespawned { entity_ids })
            },
            7 => {
                let window_id: u8 = u8::decode(decoder)?;
                let container = ContainerKindId::decode(decoder)?;
                let contents = InventoryWindowContents::decode(decoder)?;
                Ok(CoreEvent::InventoryContents { window_id, container, contents })
            },
            15 => {
                let window_id: u8 = u8::decode(decoder)?;
                let container = ContainerKindId::decode(decoder)?;
                let title = String::decode(decoder)?;
                Ok(CoreEvent::ContainerOpened { window_id, container, title })
            },
            16 => {
                let window_id: u8 = u8::decode(decoder)?;
                Ok(CoreEvent::ContainerClosed { window_id })
            },
            17 => {
                let window_id: u8 = u8::decode(decoder)?;
                let property = ContainerProperty::decode(decoder)?;
                let value: i16 = i16::decode(decoder)?;
                Ok(CoreEvent::ContainerPropertyChanged { window_id, property, value })
            },
            8 => {
                let window_id: u8 = u8::decode(decoder)?;
                let container = ContainerKindId::decode(decoder)?;
                let slot = InventorySlot::decode(decoder)?;
                let stack = Option::<ItemStack>::decode(decoder)?;
                Ok(CoreEvent::InventorySlotChanged { window_id, container, slot, stack })
            },
            14 => {
                let transaction = InventoryTransactionContext::decode(decoder)?;
                let accepted = bool::decode(decoder)?;
                Ok(CoreEvent::InventoryTransactionProcessed { transaction, accepted })
            },
            13 => {
                let stack = Option::<ItemStack>::decode(decoder)?;
                Ok(CoreEvent::CursorChanged { stack })
            },
            9 => {
                let slot: u8 = u8::decode(decoder)?;
                Ok(CoreEvent::SelectedHotbarSlotChanged { slot })
            },
            10 => {
                let position = BlockPos::decode(decoder)?;
                let block = BlockState::decode(decoder)?;
                Ok(CoreEvent::BlockChanged { position, block })
            },
            11 => {
                let keep_alive_id: i32 = i32::decode(decoder)?;
                Ok(CoreEvent::KeepAliveRequested { keep_alive_id })
            },
            12 => {
                let reason = String::decode(decoder)?;
                Ok(CoreEvent::Disconnect { reason })
            },
            _ => Err(ProtocolCodecError::InvalidValue("invalid core event tag")),
        }
    }
}

impl Wire for EventTarget {
    open spec fn format() -> Format {
        tagged(
            case(
                1,
                ConnectionId::format(),
                case(
                    2,
                    PlayerId::format(),
                    case(3, PlayerId::format(), Cases::Otherwise("invalid targeted event tag")),
                ),
            ),
        )
    }

    open spec fn value(&self) -> Value {
        match self {
            EventTarget::Connection(x) => chosen(1, x.value()),
            EventTarget::Player(x) => chosen(2, x.value()),
            EventTarget::EveryoneExcept(x) => chosen(3, x.value()),
        }
    }

    open spec fn encodable(&self) -> bool {
        match self {
            EventTarget::Connection(x) => x.encodable(),
            EventTarget::Player(x) => x.encodable(),
            EventTarget::EveryoneExcept(x) => x.encodable(),
        }
    }

    fn encode(&self, encoder: &mut Encoder) -> (result: Result<(), ProtocolCodecError>) {
        match self {
            EventTarget::Connection(x) => {
                encoder.write_u8(1);
                x.encode(encoder)
            },
            EventTarget::Player(x) => {
                encoder.write_u8(2);
                x.encode(encoder)
            },
            EventTarget::EveryoneExcept(x) => {
                encoder.write_u8(3);
                x.encode(encoder)
            },
        }
    }

    fn decode(decoder: &mut Decoder<'_>) -> (result: Result<Self, ProtocolCodecError>) {
        let tag: u8 = decoder.read_u8()?;
        match tag {
            1 => Ok(EventTarget::Connection(ConnectionId::decode(decoder)?)),
            2 => Ok(EventTarget::Player(PlayerId::decode(decoder)?)),
            3 => Ok(EventTarget::EveryoneExcept(PlayerId::decode(decoder)?)),
            _ => Err(ProtocolCodecError::InvalidValue("invalid targeted event tag")),
        }
    }
}

impl Wire for TargetedEvent {
    open spec fn format() -> Format {
        pair(EventTarget::format(), CoreEvent::format())
    }

    open spec fn value(&self) -> Value {
        both(self.target.value(), self.event.value())
    }

    open spec fn encodable(&self) -> bool {
        self.target.encodable() && self.event.encodable()
    }

    fn encode(&self, encoder: &mut Encoder) -> (result: Result<(), ProtocolCodecError>) {
        self.target.encode(encoder)?;
        self.event.encode(encoder)
    }

    fn decode(decoder: &mut Decoder<'_>) -> (result: Result<Self, ProtocolCodecError>) {
        let target = EventTarget::decode(decoder)?;
        let event = CoreEvent::decode(decoder)?;
        Ok(TargetedEvent { target, event })
    }
}

} // verus!
