//! How compact messages to and from protocol plugins stand on the wire, byte for byte.

use crate::bytes::le;
use crate::codec::basic::frame_values;
use crate::codec::grammar::{held, list, select, serialize, Format, Value};
use crate::codec::layout_laws::{after_length, layout_rules, nothing_is_no_bytes, wire_bytes};
use crate::codec::maps::held_values;
use crate::codec::wire::Wire;
use crate::model::chunk::ChunkColumn;
use crate::protocol_codec::types::{
    CoreCommand, CoreEvent, InventoryContainer, InventorySlot, ItemStack, PlayerInventory,
    PlayerSnapshot, ProtocolDescriptor, ProtocolSessionSnapshot, ServerListStatus, WorldSnapshot,
};
use crate::protocol_codec::{
    protocol_op_of, protocol_request_format, protocol_response_format, ProtocolOpCode,
    ProtocolRequest, ProtocolResponse,
};
use vstd::prelude::*;

verus! {

/// An item stack stands on the wire as its key, count and damage, one after the other.
pub proof fn item_stack_is_laid_out(x: ItemStack)
    ensures
        wire_bytes(x) == wire_bytes(x.key) + (wire_bytes(x.count) + wire_bytes(x.damage)),
{
    broadcast use layout_rules;

}

/// A player inventory stands on the wire as its slots and offhand, one after the other.
pub proof fn player_inventory_is_laid_out(x: PlayerInventory)
    ensures
        wire_bytes(x) == wire_bytes(x.slots) + wire_bytes(x.offhand),
{
    broadcast use layout_rules;

}

/// An inventory slot stands on the wire as a byte, which tells which it is, and what belongs to it,
/// one after the other.
pub proof fn inventory_slot_is_laid_out(x: InventorySlot)
    ensures
        wire_bytes(x) == (match x {
            InventorySlot::Auxiliary(inner) => seq![1u8] + wire_bytes(inner),
            InventorySlot::MainInventory(inner) => seq![2u8] + wire_bytes(inner),
            InventorySlot::Hotbar(inner) => seq![3u8] + wire_bytes(inner),
            InventorySlot::Offhand => seq![4u8],
        }),
{
    broadcast use layout_rules;

    reveal_with_fuel(select, 6);
    nothing_is_no_bytes();
}

/// An inventory container stands on the wire as one byte, which tells which it is.
pub proof fn inventory_container_is_laid_out(x: InventoryContainer)
    ensures
        wire_bytes(x) == (match x {
            InventoryContainer::Player => seq![1u8],
        }),
{
    broadcast use layout_rules;

    reveal_with_fuel(select, 3);
    nothing_is_no_bytes();
}

/// A player snapshot stands on the wire as its id, username, position, yaw, pitch, on ground,
/// dimension, health, food, food saturation, inventory and selected hotbar slot, one after the
/// other.
pub proof fn player_snapshot_is_laid_out(x: PlayerSnapshot)
    ensures
        wire_bytes(x) == wire_bytes(x.id) + (wire_bytes(x.username) + (wire_bytes(x.position)
            + (wire_bytes(x.yaw) + (wire_bytes(x.pitch) + (wire_bytes(x.on_ground)
            + (wire_bytes(x.dimension)
            + (wire_bytes(x.health) + (wire_bytes(x.food) + (wire_bytes(x.food_saturation)
            + (wire_bytes(x.inventory)
            + wire_bytes(x.selected_hotbar_slot))))))))))),
{
    broadcast use layout_rules;

}

/// A protocol descriptor stands on the wire as its adapter id, transport, edition, version name and
/// protocol number, one after the other.
pub proof fn protocol_descriptor_is_laid_out(x: ProtocolDescriptor)
    ensures
        wire_bytes(x) == wire_bytes(x.adapter_id) + (wire_bytes(x.transport)
            + (wire_bytes(x.edition)
            + (wire_bytes(x.version_name) + wire_bytes(x.protocol_number)))),
{
    broadcast use layout_rules;

}

/// A server list status stands on the wire as its version, players online, max players and
/// description, one after the other.
pub proof fn server_list_status_is_laid_out(x: ServerListStatus)
    ensures
        wire_bytes(x) == wire_bytes(x.version) + (le(x.players_online as nat, 4)
            + (le(x.max_players as nat, 4)
            + wire_bytes(x.description))),
{
    broadcast use layout_rules;

}

/// A protocol session snapshot stands on the wire as its phase, player id and entity id, one after
/// the other.
pub proof fn protocol_session_snapshot_is_laid_out(x: ProtocolSessionSnapshot)
    ensures
        wire_bytes(x) == wire_bytes(x.phase) + (wire_bytes(x.player_id) + wire_bytes(x.entity_id)),
{
    broadcast use layout_rules;

}

/// A world snapshot stands on the wire as its meta, chunks and players, one after the other.
pub proof fn world_snapshot_is_laid_out(x: WorldSnapshot)
    ensures
        wire_bytes(x) == wire_bytes(x.meta) + (serialize(
            held(ChunkColumn::format()),
            Value::List(held_values(x.chunks.pairs())),
        ) + serialize(
            held(PlayerSnapshot::format()),
            Value::List(held_values(x.players.pairs())),
        )),
{
    broadcast use layout_rules;

}

/// A core command stands on the wire as a byte, which tells which it is, and what belongs to it,
/// one after the other.
pub proof fn core_command_is_laid_out(x: CoreCommand)
    ensures
        wire_bytes(x) == (match x {
            CoreCommand::LoginStart { connection_id, username, player_id } => seq![1u8]
                + (wire_bytes(connection_id)
                + (wire_bytes(username) + wire_bytes(player_id))),
            CoreCommand::UpdateClientView { player_id, view_distance } => seq![2u8]
                + (wire_bytes(player_id)
                + wire_bytes(view_distance)),
            CoreCommand::ClientStatus { player_id, action_id } => seq![3u8] + (wire_bytes(player_id)
                + wire_bytes(action_id)),
            CoreCommand::MoveIntent { player_id, position, yaw, pitch, on_ground } => seq![4u8]
                + (wire_bytes(player_id) + (wire_bytes(position) + (wire_bytes(yaw)
                + (wire_bytes(pitch)
                + wire_bytes(on_ground))))),
            CoreCommand::KeepAliveResponse { player_id, keep_alive_id } => seq![5u8]
                + (wire_bytes(player_id)
                + wire_bytes(keep_alive_id)),
            CoreCommand::SetHeldSlot { player_id, slot } => seq![6u8] + (wire_bytes(player_id)
                + wire_bytes(slot)),
            CoreCommand::CreativeInventorySet { player_id, slot, stack } => seq![7u8]
                + (wire_bytes(player_id)
                + (wire_bytes(slot) + wire_bytes(stack))),
            CoreCommand::DigBlock { player_id, position, status, face } => seq![8u8]
                + (wire_bytes(player_id)
                + (wire_bytes(position) + (wire_bytes(status) + wire_bytes(face)))),
            CoreCommand::PlaceBlock { player_id, hand, position, face, held_item } => seq![9u8]
                + (wire_bytes(player_id) + (wire_bytes(hand) + (wire_bytes(position)
                + (wire_bytes(face)
                + wire_bytes(held_item))))),
            CoreCommand::Disconnect { player_id } => seq![10u8] + wire_bytes(player_id),
        }),
{
    broadcast use layout_rules;

    reveal_with_fuel(select, 12);
}

/// A core event stands on the wire as a byte, which tells which it is, and what belongs to it, one
/// after the other.
pub proof fn core_event_is_laid_out(x: CoreEvent)
    ensures
        wire_bytes(x) == (match x {
            CoreEvent::LoginAccepted { player_id, entity_id, player } => seq![1u8]
                + (wire_bytes(player_id)
                + (wire_bytes(entity_id) + wire_bytes(player))),
            CoreEvent::PlayBootstrap { player, entity_id, world_meta, view_distance } => seq![2u8]
                + (wire_bytes(player) + (wire_bytes(entity_id) + (wire_bytes(world_meta)
                + wire_bytes(view_distance)))),
            CoreEvent::ChunkBatch { chunks } => seq![3u8] + wire_bytes(chunks),
            CoreEvent::EntitySpawned { entity_id, player } => seq![4u8] + (wire_bytes(entity_id)
                + wire_bytes(player)),
            CoreEvent::EntityMoved { entity_id, player } => seq![5u8] + (wire_bytes(entity_id)
                + wire_bytes(player)),
            CoreEvent::EntityDespawned { entity_ids } => seq![6u8] + wire_bytes(entity_ids),
            CoreEvent::InventoryContents { container, inventory } => seq![7u8]
                + (wire_bytes(container)
                + wire_bytes(inventory)),
            CoreEvent::InventorySlotChanged { container, slot, stack } => seq![8u8]
                + (wire_bytes(container)
                + (wire_bytes(slot) + wire_bytes(stack))),
            CoreEvent::SelectedHotbarSlotChanged { slot } => seq![9u8] + wire_bytes(slot),
            CoreEvent::BlockChanged { position, block } => seq![10u8] + (wire_bytes(position)
                + wire_bytes(block)),
            CoreEvent::KeepAliveRequested { keep_alive_id } => seq![11u8]
                + wire_bytes(keep_alive_id),
            CoreEvent::Disconnect { reason } => seq![12u8] + wire_bytes(reason),
        }),
{
    broadcast use layout_rules;

    reveal_with_fuel(select, 14);
}

/// Each operation of protocol plugins has its number, and no other number has one.
pub proof fn protocol_operations_are_numbered(op: ProtocolOpCode, code: u8)
    ensures
        op.spec_code() == (match op {
            ProtocolOpCode::Describe => 1u8,
            ProtocolOpCode::CapabilitySet => 2u8,
            ProtocolOpCode::TryRoute => 3u8,
            ProtocolOpCode::DecodeStatus => 4u8,
            ProtocolOpCode::DecodeLogin => 5u8,
            ProtocolOpCode::EncodeStatusResponse => 6u8,
            ProtocolOpCode::EncodeStatusPong => 7u8,
            ProtocolOpCode::EncodeDisconnect => 8u8,
            ProtocolOpCode::EncodeEncryptionRequest => 9u8,
            ProtocolOpCode::EncodeNetworkSettings => 10u8,
            ProtocolOpCode::EncodeLoginSuccess => 11u8,
            ProtocolOpCode::DecodePlay => 12u8,
            ProtocolOpCode::EncodePlayEvent => 13u8,
            ProtocolOpCode::ExportSessionState => 14u8,
            ProtocolOpCode::ImportSessionState => 15u8,
        }),
        protocol_op_of(code) == Some(op) <==> code == op.spec_code(),
{
}

/// A request to a protocol plugin names its operation, and its payload is what belongs to it, one
/// after the other.
pub proof fn protocol_requests_are_laid_out(request: ProtocolRequest)
    ensures
        request.spec_op().spec_code() == (match request {
            ProtocolRequest::Describe => 1u8,
            ProtocolRequest::CapabilitySet => 2u8,
            ProtocolRequest::TryRoute { .. } => 3u8,
            ProtocolRequest::DecodeStatus { .. } => 4u8,
            ProtocolRequest::DecodeLogin { .. } => 5u8,
            ProtocolRequest::EncodeStatusResponse { .. } => 6u8,
            ProtocolRequest::EncodeStatusPong { .. } => 7u8,
            ProtocolRequest::EncodeDisconnect { .. } => 8u8,
            ProtocolRequest::EncodeEncryptionRequest { .. } => 9u8,
            ProtocolRequest::EncodeNetworkSettings { .. } => 10u8,
            ProtocolRequest::EncodeLoginSuccess { .. } => 11u8,
            ProtocolRequest::DecodePlay { .. } => 12u8,
            ProtocolRequest::EncodePlayEvent { .. } => 13u8,
            ProtocolRequest::ExportSessionState { .. } => 14u8,
            ProtocolRequest::ImportSessionState { .. } => 15u8,
        }),
        serialize(protocol_request_format(request.spec_op()), request.payload()) == (match request {
            ProtocolRequest::Describe => Seq::empty(),
            ProtocolRequest::CapabilitySet => Seq::empty(),
            ProtocolRequest::TryRoute { frame } => after_length(frame@),
            ProtocolRequest::DecodeStatus { frame } => after_length(frame@),
            ProtocolRequest::DecodeLogin { frame } => after_length(frame@),
            ProtocolRequest::EncodeStatusResponse { status } => wire_bytes(status),
            ProtocolRequest::EncodeStatusPong { payload } => wire_bytes(payload),
            ProtocolRequest::EncodeDisconnect { phase, reason } => wire_bytes(phase)
                + wire_bytes(reason),
            ProtocolRequest::EncodeEncryptionRequest { server_id, public_key_der, verify_token } =>
                wire_bytes(server_id)
                + (after_length(public_key_der@) + after_length(verify_token@)),
            ProtocolRequest::EncodeNetworkSettings { compression_threshold } =>
                wire_bytes(compression_threshold),
            ProtocolRequest::EncodeLoginSuccess { player } => wire_bytes(player),
            ProtocolRequest::DecodePlay { player_id, frame } => wire_bytes(player_id)
                + after_length(frame@),
            ProtocolRequest::EncodePlayEvent { event, context } => wire_bytes(event)
                + wire_bytes(context),
            ProtocolRequest::ExportSessionState { session } => wire_bytes(session),
            ProtocolRequest::ImportSessionState { session, blob } => wire_bytes(session)
                + after_length(blob@),
        }),
{
    broadcast use layout_rules;

    nothing_is_no_bytes();
}

/// A response of a protocol plugin answers the operations that ask for it and no others, and its
/// payload is what belongs to it.
pub proof fn protocol_responses_are_laid_out(op: ProtocolOpCode, response: ProtocolResponse)
    ensures
        response.answers(op) <==> (match op {
            ProtocolOpCode::Describe => response is Descriptor,
            ProtocolOpCode::CapabilitySet => response is CapabilitySet,
            ProtocolOpCode::TryRoute => response is HandshakeIntent,
            ProtocolOpCode::DecodeStatus => response is StatusRequest,
            ProtocolOpCode::DecodeLogin => response is LoginRequest,
            ProtocolOpCode::EncodeStatusResponse => response is Frame,
            ProtocolOpCode::EncodeStatusPong => response is Frame,
            ProtocolOpCode::EncodeDisconnect => response is Frame,
            ProtocolOpCode::EncodeEncryptionRequest => response is Frame,
            ProtocolOpCode::EncodeNetworkSettings => response is Frame,
            ProtocolOpCode::EncodeLoginSuccess => response is Frame,
            ProtocolOpCode::DecodePlay => response is CoreCommand,
            ProtocolOpCode::EncodePlayEvent => response is Frames,
            ProtocolOpCode::ExportSessionState => response is SessionTransferBlob,
            ProtocolOpCode::ImportSessionState => response is Empty,
        }),
        response.answers(op) ==> serialize(protocol_response_format(op), response.payload())
            == (match response {
            ProtocolResponse::Descriptor(inner) => wire_bytes(inner),
            ProtocolResponse::CapabilitySet(inner) => wire_bytes(inner),
            ProtocolResponse::HandshakeIntent(inner) => wire_bytes(inner),
            ProtocolResponse::StatusRequest(inner) => wire_bytes(inner),
            ProtocolResponse::LoginRequest(inner) => wire_bytes(inner),
            ProtocolResponse::Frame(inner) => after_length(inner@),
            ProtocolResponse::CoreCommand(inner) => wire_bytes(inner),
            ProtocolResponse::Frames(inner) =>
                serialize(list(Format::Bytes), Value::List(frame_values(inner@))),
            ProtocolResponse::SessionTransferBlob(inner) => after_length(inner@),
            ProtocolResponse::Empty => Seq::empty(),
        }),
{
    broadcast use layout_rules;

    nothing_is_no_bytes();
}

} // verus!
