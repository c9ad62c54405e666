//! The single values that gameplay plugins and their host hand each other.

use crate::codec::binary::{Decoder, Encoder};
use crate::codec::grammar::{
    both, fits, orderly, pair, parse_inverts_serialize, serialize, Format, ProtocolCodecError,
    Value,
};
use crate::codec::message::{bytes_view, whole};
use crate::codec::sizes::leaf_rules;
use crate::codec::wire::{append, compound_rules, encode_option, option_value, Wire};
use crate::model::block::{BlockPos, BlockState, Vec3, WorldMeta};
use crate::model::event::TargetedEvent;
use crate::model::ids::PlayerId;
use crate::model::inventory::InventorySlot;
use crate::model::item::{ItemStack, OpaqueF32};
use crate::model::names::ContainerKindId;
use crate::model::player::{BlockEntityState, PlayerSnapshot};
use vstd::prelude::*;
use vstd::utf8::encode_utf8;

verus! {

broadcast use {compound_rules, leaf_rules};

/// The bytes of a value on its own, or the error of one that is too large.
pub open spec fn blob(f: Format, v: Value) -> Result<Seq<u8>, ProtocolCodecError> {
    if fits(f, v) {
        Ok(append(Seq::empty(), f, v))
    } else {
        Err(ProtocolCodecError::LengthOverflow)
    }
}

/// The bytes of an orderly value on its own mean that value.
pub proof fn blob_round_trip(f: Format, v: Value)
    requires
        blob(f, v) is Ok,
        orderly(f, v),
    ensures
        whole(f, blob(f, v)->Ok_0) == Ok::<Value, ProtocolCodecError>(v),
{
    reveal(append);
    parse_inverts_serialize(f, v, Seq::empty());
    assert(Seq::<u8>::empty() + serialize(f, v) =~= serialize(f, v));
    assert(serialize(f, v) + Seq::<u8>::empty() =~= serialize(f, v));
}

/// Writes a player.
pub fn encode_player_id(player_id: PlayerId) -> (result: Vec<u8>)
    ensures
        blob(PlayerId::format(), player_id.value()) == Ok::<Seq<u8>, ProtocolCodecError>(result@),
{
    let mut encoder = Encoder::default();
    let _ = player_id.encode(&mut encoder);
    encoder.into_inner()
}

/// Reads a player.
pub fn decode_player_id(bytes: &[u8]) -> (result: Result<PlayerId, ProtocolCodecError>)
    ensures
        match whole(PlayerId::format(), bytes@) {
            Ok(v) => result matches Ok(value) && v == value.value() && value.encodable(),
            Err(e) => result == Err::<PlayerId, ProtocolCodecError>(e),
        },
{
    let mut decoder = Decoder::new(bytes);
    let player_id = PlayerId::decode(&mut decoder)?;
    decoder.finish()?;
    Ok(player_id)
}

/// Writes a place.
pub fn encode_block_pos(position: BlockPos) -> (result: Vec<u8>)
    ensures
        blob(BlockPos::format(), position.value()) == Ok::<Seq<u8>, ProtocolCodecError>(result@),
{
    let mut encoder = Encoder::default();
    let _ = position.encode(&mut encoder);
    encoder.into_inner()
}

/// Reads a place.
pub fn decode_block_pos(bytes: &[u8]) -> (result: Result<BlockPos, ProtocolCodecError>)
    ensures
        match whole(BlockPos::format(), bytes@) {
            Ok(v) => result matches Ok(value) && v == value.value() && value.encodable(),
            Err(e) => result == Err::<BlockPos, ProtocolCodecError>(e),
        },
{
    let mut decoder = Decoder::new(bytes);
    let position = BlockPos::decode(&mut decoder)?;
    decoder.finish()?;
    Ok(position)
}

/// Writes who wants to edit which block.
pub fn encode_can_edit_block_key(player_id: PlayerId, position: BlockPos) -> (result: Vec<u8>)
    ensures
        blob(
            pair(PlayerId::format(), BlockPos::format()),
            both(player_id.value(), position.value()),
        ) == Ok::<Seq<u8>, ProtocolCodecError>(result@),
{
    let mut encoder = Encoder::default();
    let _ = player_id.encode(&mut encoder);
    let _ = position.encode(&mut encoder);
    encoder.into_inner()
}

/// Reads who wants to edit which block.
pub fn decode_can_edit_block_key(
    bytes: &[u8],
) -> (result: Result<(PlayerId, BlockPos), ProtocolCodecError>)
    ensures
        match whole(pair(PlayerId::format(), BlockPos::format()), bytes@) {
            Ok(v) => result matches Ok(value) && v == both(
                value.0.value(),
                value.1.value(),
            ) && value.0.encodable() && value.1.encodable(),
            Err(e) => result == Err::<(PlayerId, BlockPos), ProtocolCodecError>(e),
        },
{
    let mut decoder = Decoder::new(bytes);
    let player_id = PlayerId::decode(&mut decoder)?;
    let position = BlockPos::decode(&mut decoder)?;
    decoder.finish()?;
    Ok((player_id, position))
}

/// Writes what is known of a player, if anything.
pub fn encode_player_snapshot(
    snapshot: Option<&PlayerSnapshot>,
) -> (result: Result<Vec<u8>, ProtocolCodecError>)
    requires
        snapshot matches Some(snapshot) ==> snapshot.encodable(),
    ensures
        bytes_view(result) == blob(<Option<PlayerSnapshot>>::format(), option_value(snapshot)),
{
    let mut encoder = Encoder::default();
    encode_option(snapshot, &mut encoder)?;
    Ok(encoder.into_inner())
}

/// Reads what is known of a player, if anything.
pub fn decode_player_snapshot(
    bytes: &[u8],
) -> (result: Result<Option<PlayerSnapshot>, ProtocolCodecError>)
    ensures
        match whole(<Option<PlayerSnapshot>>::format(), bytes@) {
            Ok(v) => result matches Ok(value) && v == value.value() && value.encodable(),
            Err(e) => result == Err::<Option<PlayerSnapshot>, ProtocolCodecError>(e),
        },
{
    let mut decoder = Decoder::new(bytes);
    let snapshot = Option::<PlayerSnapshot>::decode(&mut decoder)?;
    decoder.finish()?;
    Ok(snapshot)
}

/// Writes what is known of a world.
pub fn encode_world_meta(meta: &WorldMeta) -> (result: Result<Vec<u8>, ProtocolCodecError>)
    requires
        meta.encodable(),
    ensures
        bytes_view(result) == blob(WorldMeta::format(), meta.value()),
{
    let mut encoder = Encoder::default();
    meta.encode(&mut encoder)?;
    Ok(encoder.into_inner())
}

/// Reads what is known of a world.
pub fn decode_world_meta(bytes: &[u8]) -> (result: Result<WorldMeta, ProtocolCodecError>)
    ensures
        match whole(WorldMeta::format(), bytes@) {
            Ok(v) => result matches Ok(value) && v == value.value() && value.encodable(),
            Err(e) => result == Err::<WorldMeta, ProtocolCodecError>(e),
        },
{
    let mut decoder = Decoder::new(bytes);
    let meta = WorldMeta::decode(&mut decoder)?;
    decoder.finish()?;
    Ok(meta)
}

/// Writes a block, if there is one.
pub fn encode_block_state(
    block_state: Option<&BlockState>,
) -> (result: Result<Vec<u8>, ProtocolCodecError>)
    requires
        block_state matches Some(block_state) ==> block_state.encodable(),
    ensures
        bytes_view(result) == blob(<Option<BlockState>>::format(), option_value(block_state)),
{
    let mut encoder = Encoder::default();
    encode_option(block_state, &mut encoder)?;
    Ok(encoder.into_inner())
}

/// Reads a block, if there is one.
pub fn decode_block_state(bytes: &[u8]) -> (result: Result<Option<BlockState>, ProtocolCodecError>)
    ensures
        match whole(<Option<BlockState>>::format(), bytes@) {
            Ok(v) => result matches Ok(value) && v == value.value() && value.encodable(),
            Err(e) => result == Err::<Option<BlockState>, ProtocolCodecError>(e),
        },
{
    let mut decoder = Decoder::new(bytes);
    let block_state = Option::<BlockState>::decode(&mut decoder)?;
    decoder.finish()?;
    Ok(block_state)
}

/// Writes the contents of a block, if it has any.
pub fn encode_block_entity(
    block_entity: Option<&BlockEntityState>,
) -> (result: Result<Vec<u8>, ProtocolCodecError>)
    requires
        block_entity matches Some(block_entity) ==> block_entity.encodable(),
    ensures
        bytes_view(result) == blob(
            <Option<BlockEntityState>>::format(),
            option_value(block_entity),
        ),
{
    let mut encoder = Encoder::default();
    encode_option(block_entity, &mut encoder)?;
    Ok(encoder.into_inner())
}

/// Reads the contents of a block, if it has any.
pub fn decode_block_entity(
    bytes: &[u8],
) -> (result: Result<Option<BlockEntityState>, ProtocolCodecError>)
    ensures
        match whole(<Option<BlockEntityState>>::format(), bytes@) {
            Ok(v) => result matches Ok(value) && v == value.value() && value.encodable(),
            Err(e) => result == Err::<Option<BlockEntityState>, ProtocolCodecError>(e),
        },
{
    let mut decoder = Decoder::new(bytes);
    let block_entity = Option::<BlockEntityState>::decode(&mut decoder)?;
    decoder.finish()?;
    Ok(block_entity)
}

/// Writes how a player moves and looks.
pub fn encode_player_pose_update(
    player_id: PlayerId,
    position: Option<Vec3>,
    yaw: Option<OpaqueF32>,
    pitch: Option<OpaqueF32>,
    on_ground: bool,
) -> (result: Vec<u8>)
    ensures
        blob(
            pair(
                PlayerId::format(),
                pair(
                    <Option<Vec3>>::format(),
                    pair(
                        <Option<OpaqueF32>>::format(),
                        pair(<Option<OpaqueF32>>::format(), bool::format()),
                    ),
                ),
            ),
            both(
                player_id.value(),
                both(position.value(), both(yaw.value(), both(pitch.value(), on_ground.value()))),
            ),
        ) == Ok::<Seq<u8>, ProtocolCodecError>(result@),
{
    let mut encoder = Encoder::default();
    let _ = player_id.encode(&mut encoder);
    let _ = position.encode(&mut encoder);
    let _ = yaw.encode(&mut encoder);
    let _ = pitch.encode(&mut encoder);
    let _ = on_ground.encode(&mut encoder);
    encoder.into_inner()
}

/// Reads how a player moves and looks.
pub fn decode_player_pose_update(
    bytes: &[u8],
) -> (result: Result<
    (PlayerId, Option<Vec3>, Option<OpaqueF32>, Option<OpaqueF32>, bool),
    ProtocolCodecError,
>)
    ensures
        match whole(
            pair(
                PlayerId::format(),
                pair(
                    <Option<Vec3>>::format(),
                    pair(
                        <Option<OpaqueF32>>::format(),
                        pair(<Option<OpaqueF32>>::format(), bool::format()),
                    ),
                ),
            ),
            bytes@,
        ) {
            Ok(v) => result matches Ok(value) && v == both(
                value.0.value(),
                both(
                    value.1.value(),
                    both(value.2.value(), both(value.3.value(), value.4.value())),
                ),
            ) && value.0.encodable() && value.1.encodable() && value.2.encodable()
                && value.3.encodable(),
            Err(e) => result == Err::<(
                PlayerId,
                Option<Vec3>,
                Option<OpaqueF32>,
                Option<OpaqueF32>,
                bool,
            ), ProtocolCodecError>(e),
        },
{
    let mut decoder = Decoder::new(bytes);
    let player_id = PlayerId::decode(&mut decoder)?;
    let position = Option::<Vec3>::decode(&mut decoder)?;
    let yaw = Option::<OpaqueF32>::decode(&mut decoder)?;
    let pitch = Option::<OpaqueF32>::decode(&mut decoder)?;
    let on_ground = bool::decode(&mut decoder)?;
    decoder.finish()?;
    Ok((player_id, position, yaw, pitch, on_ground))
}

/// Writes which slot a player holds.
pub fn encode_selected_hotbar_slot_update(player_id: PlayerId, slot: u8) -> (result: Vec<u8>)
    ensures
        blob(
            pair(PlayerId::format(), u8::format()),
            both(player_id.value(), slot.value()),
        ) == Ok::<Seq<u8>, ProtocolCodecError>(result@),
{
    let mut encoder = Encoder::default();
    let _ = player_id.encode(&mut encoder);
    let _ = slot.encode(&mut encoder);
    encoder.into_inner()
}

/// Reads which slot a player holds.
pub fn decode_selected_hotbar_slot_update(
    bytes: &[u8],
) -> (result: Result<(PlayerId, u8), ProtocolCodecError>)
    ensures
        match whole(pair(PlayerId::format(), u8::format()), bytes@) {
            Ok(v) => result matches Ok(value) && v == both(
                value.0.value(),
                value.1.value(),
            ) && value.0.encodable(),
            Err(e) => result == Err::<(PlayerId, u8), ProtocolCodecError>(e),
        },
{
    let mut decoder = Decoder::new(bytes);
    let player_id = PlayerId::decode(&mut decoder)?;
    let slot: u8 = u8::decode(&mut decoder)?;
    decoder.finish()?;
    Ok((player_id, slot))
}

/// Writes what a slot of a player is to hold.
pub fn encode_inventory_slot_update(
    player_id: PlayerId,
    slot: InventorySlot,
    stack: Option<&ItemStack>,
) -> (result: Result<Vec<u8>, ProtocolCodecError>)
    requires
        slot.encodable(),
        stack matches Some(stack) ==> stack.encodable(),
    ensures
        bytes_view(result) == blob(
            pair(PlayerId::format(), pair(InventorySlot::format(), <Option<ItemStack>>::format())),
            both(player_id.value(), both(slot.value(), option_value(stack))),
        ),
{
    let mut encoder = Encoder::default();
    player_id.encode(&mut encoder)?;
    slot.encode(&mut encoder)?;
    encode_option(stack, &mut encoder)?;
    Ok(encoder.into_inner())
}

/// Reads what a slot of a player is to hold.
pub fn decode_inventory_slot_update(
    bytes: &[u8],
) -> (result: Result<(PlayerId, InventorySlot, Option<ItemStack>), ProtocolCodecError>)
    ensures
        match whole(
            pair(PlayerId::format(), pair(InventorySlot::format(), <Option<ItemStack>>::format())),
            bytes@,
        ) {
            Ok(v) => result matches Ok(value) && v == both(
                value.0.value(),
                both(value.1.value(), value.2.value()),
            ) && value.0.encodable() && value.1.encodable() && value.2.encodable(),
            Err(e) => result == Err::<(
                PlayerId,
                InventorySlot,
                Option<ItemStack>,
            ), ProtocolCodecError>(e),
        },
{
    let mut decoder = Decoder::new(bytes);
    let player_id = PlayerId::decode(&mut decoder)?;
    let slot = InventorySlot::decode(&mut decoder)?;
    let stack = Option::<ItemStack>::decode(&mut decoder)?;
    decoder.finish()?;
    Ok((player_id, slot, stack))
}

/// Writes who stops mining.
pub fn encode_clear_mining(player_id: PlayerId) -> (result: Vec<u8>)
    ensures
        blob(PlayerId::format(), player_id.value()) == Ok::<Seq<u8>, ProtocolCodecError>(result@),
{
    let mut encoder = Encoder::default();
    let _ = player_id.encode(&mut encoder);
    encoder.into_inner()
}

/// Reads who stops mining.
pub fn decode_clear_mining(bytes: &[u8]) -> (result: Result<PlayerId, ProtocolCodecError>)
    ensures
        match whole(PlayerId::format(), bytes@) {
            Ok(v) => result matches Ok(value) && v == value.value() && value.encodable(),
            Err(e) => result == Err::<PlayerId, ProtocolCodecError>(e),
        },
{
    let mut decoder = Decoder::new(bytes);
    let player_id = PlayerId::decode(&mut decoder)?;
    decoder.finish()?;
    Ok(player_id)
}

/// Writes who mines what for how long.
pub fn encode_begin_mining(
    player_id: PlayerId,
    position: BlockPos,
    duration_ms: u64,
) -> (result: Vec<u8>)
    ensures
        blob(
            pair(PlayerId::format(), pair(BlockPos::format(), u64::format())),
            both(player_id.value(), both(position.value(), duration_ms.value())),
        ) == Ok::<Seq<u8>, ProtocolCodecError>(result@),
{
    let mut encoder = Encoder::default();
    let _ = player_id.encode(&mut encoder);
    let _ = position.encode(&mut encoder);
    let _ = duration_ms.encode(&mut encoder);
    encoder.into_inner()
}

/// Reads who mines what for how long.
pub fn decode_begin_mining(
    bytes: &[u8],
) -> (result: Result<(PlayerId, BlockPos, u64), ProtocolCodecError>)
    ensures
        match whole(pair(PlayerId::format(), pair(BlockPos::format(), u64::format())), bytes@) {
            Ok(v) => result matches Ok(value) && v == both(
                value.0.value(),
                both(value.1.value(), value.2.value()),
            ) && value.0.encodable() && value.1.encodable(),
            Err(e) => result == Err::<(PlayerId, BlockPos, u64), ProtocolCodecError>(e),
        },
{
    let mut decoder = Decoder::new(bytes);
    let player_id = PlayerId::decode(&mut decoder)?;
    let position = BlockPos::decode(&mut decoder)?;
    let duration_ms: u64 = u64::decode(&mut decoder)?;
    decoder.finish()?;
    Ok((player_id, position, duration_ms))
}

/// Writes who opens the container at which place.
pub fn encode_open_container_at(player_id: PlayerId, position: BlockPos) -> (result: Vec<u8>)
    ensures
        blob(
            pair(PlayerId::format(), BlockPos::format()),
            both(player_id.value(), position.value()),
        ) == Ok::<Seq<u8>, ProtocolCodecError>(result@),
{
    let mut encoder = Encoder::default();
    let _ = player_id.encode(&mut encoder);
    let _ = position.encode(&mut encoder);
    encoder.into_inner()
}

/// Reads who opens the container at which place.
pub fn decode_open_container_at(
    bytes: &[u8],
) -> (result: Result<(PlayerId, BlockPos), ProtocolCodecError>)
    ensures
        match whole(pair(PlayerId::format(), BlockPos::format()), bytes@) {
            Ok(v) => result matches Ok(value) && v == both(
                value.0.value(),
                value.1.value(),
            ) && value.0.encodable() && value.1.encodable(),
            Err(e) => result == Err::<(PlayerId, BlockPos), ProtocolCodecError>(e),
        },
{
    let mut decoder = Decoder::new(bytes);
    let player_id = PlayerId::decode(&mut decoder)?;
    let position = BlockPos::decode(&mut decoder)?;
    decoder.finish()?;
    Ok((player_id, position))
}

/// Writes who opens a container of which kind.
pub fn encode_open_virtual_container(
    player_id: PlayerId,
    kind: &ContainerKindId,
) -> (result: Vec<u8>)
    requires
        encode_utf8(kind@).len() <= u32::MAX,
    ensures
        blob(
            pair(PlayerId::format(), ContainerKindId::format()),
            both(player_id.value(), kind.value()),
        ) == Ok::<Seq<u8>, ProtocolCodecError>(result@),
{
    let mut encoder = Encoder::default();
    let _ = player_id.encode(&mut encoder);
    let _ = kind.encode(&mut encoder);
    encoder.into_inner()
}

/// Reads who opens a container of which kind.
pub fn decode_open_virtual_container(
    bytes: &[u8],
) -> (result: Result<(PlayerId, ContainerKindId), ProtocolCodecError>)
    ensures
        match whole(pair(PlayerId::format(), ContainerKindId::format()), bytes@) {
            Ok(v) => result matches Ok(value) && v == both(
                value.0.value(),
                value.1.value(),
            ) && value.0.encodable() && value.1.encodable(),
            Err(e) => result == Err::<(PlayerId, ContainerKindId), ProtocolCodecError>(e),
        },
{
    let mut decoder = Decoder::new(bytes);
    let player_id = PlayerId::decode(&mut decoder)?;
    let kind = ContainerKindId::decode(&mut decoder)?;
    decoder.finish()?;
    Ok((player_id, kind))
}

/// Writes which block is to stand at a place.
pub fn encode_set_block(
    position: BlockPos,
    block: Option<&BlockState>,
) -> (result: Result<Vec<u8>, ProtocolCodecError>)
    requires
        block matches Some(block) ==> block.encodable(),
    ensures
        bytes_view(result) == blob(
            pair(BlockPos::format(), <Option<BlockState>>::format()),
            both(position.value(), option_value(block)),
        ),
{
    let mut encoder = Encoder::default();
    position.encode(&mut encoder)?;
    encode_option(block, &mut encoder)?;
    Ok(encoder.into_inner())
}

/// Reads which block is to stand at a place.
pub fn decode_set_block(
    bytes: &[u8],
) -> (result: Result<(BlockPos, Option<BlockState>), ProtocolCodecError>)
    ensures
        match whole(pair(BlockPos::format(), <Option<BlockState>>::format()), bytes@) {
            Ok(v) => result matches Ok(value) && v == both(
                value.0.value(),
                value.1.value(),
            ) && value.0.encodable() && value.1.encodable(),
            Err(e) => result == Err::<(BlockPos, Option<BlockState>), ProtocolCodecError>(e),
        },
{
    let mut decoder = Decoder::new(bytes);
    let position = BlockPos::decode(&mut decoder)?;
    let block = Option::<BlockState>::decode(&mut decoder)?;
    decoder.finish()?;
    Ok((position, block))
}

/// Writes an item that is to lie at a place.
pub fn encode_spawn_dropped_item(
    position: Vec3,
    item: &ItemStack,
) -> (result: Result<Vec<u8>, ProtocolCodecError>)
    requires
        item.encodable(),
    ensures
        bytes_view(result) == blob(
            pair(Vec3::format(), ItemStack::format()),
            both(position.value(), item.value()),
        ),
{
    let mut encoder = Encoder::default();
    position.encode(&mut encoder)?;
    item.encode(&mut encoder)?;
    Ok(encoder.into_inner())
}

/// Reads an item that is to lie at a place.
pub fn decode_spawn_dropped_item(
    bytes: &[u8],
) -> (result: Result<(Vec3, ItemStack), ProtocolCodecError>)
    ensures
        match whole(pair(Vec3::format(), ItemStack::format()), bytes@) {
            Ok(v) => result matches Ok(value) && v == both(
                value.0.value(),
                value.1.value(),
            ) && value.0.encodable() && value.1.encodable(),
            Err(e) => result == Err::<(Vec3, ItemStack), ProtocolCodecError>(e),
        },
{
    let mut decoder = Decoder::new(bytes);
    let position = Vec3::decode(&mut decoder)?;
    let item = ItemStack::decode(&mut decoder)?;
    decoder.finish()?;
    Ok((position, item))
}

/// Writes an event and whom it is for.
pub fn encode_targeted_event_blob(
    event: &TargetedEvent,
) -> (result: Result<Vec<u8>, ProtocolCodecError>)
    requires
        event.encodable(),
    ensures
        bytes_view(result) == blob(TargetedEvent::format(), event.value()),
{
    let mut encoder = Encoder::default();
    event.encode(&mut encoder)?;
    Ok(encoder.into_inner())
}

/// Reads an event and whom it is for.
pub fn decode_targeted_event_blob(
    bytes: &[u8],
) -> (result: Result<TargetedEvent, ProtocolCodecError>)
    ensures
        match whole(TargetedEvent::format(), bytes@) {
            Ok(v) => result matches Ok(value) && v == value.value() && value.encodable(),
            Err(e) => result == Err::<TargetedEvent, ProtocolCodecError>(e),
        },
{
    let mut decoder = Decoder::new(bytes);
    let event = TargetedEvent::decode(&mut decoder)?;
    decoder.finish()?;
    Ok(event)
}

} // verus!
