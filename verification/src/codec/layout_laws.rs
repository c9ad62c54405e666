//! How values stand on the wire, byte for byte.

use crate::bytes::{be, be_len, from_be, from_be_of_be, le, pow256_values};
use crate::codec::auth::{AuthDescriptor, AuthMode, BedrockAuthResult};
use crate::codec::gameplay::GameplayDescriptor;
use crate::codec::grammar::{held, select, serialize, serialize_from, Cases, Format, Value};
use crate::codec::item::data_map_format;
use crate::codec::maps::held_values;
use crate::codec::storage::StorageDescriptor;
use crate::codec::wire::{values_of, Wire};
use crate::model::block::{
    BlockFace, BlockKey, BlockPos, BlockState, ChunkPos, DimensionId, Vec3, WorldMeta,
};
use crate::model::chunk::{ChunkColumn, ChunkSection, SectionBlockIndex};
use crate::model::effect::{
    GameplayCanEditBlockKey, GameplayEffect, GameplayEffectBatch, GameplayReadSet,
};
use crate::model::event::{
    ContainerProperty, CoreCommand, CoreEvent, EventTarget, GameplayCommand, RuntimeCommand,
    TargetedEvent,
};
use crate::model::ids::{ConnectionId, EntityId, PlayerId, PluginGenerationId};
use crate::model::inventory::{
    InteractionHand, InventoryClickButton, InventoryClickTarget, InventoryClickValidation,
    InventorySlot, InventoryTransactionContext, InventoryWindowContents, PlayerInventory,
};
use crate::model::item::{ItemStack, OpaqueF32, OpaqueF64};
use crate::model::names::{
    AuthProfileId, BlockEntityKindId, ContainerKindId, ContainerPropertyKey, GameplayProfileId,
    StorageProfileId,
};
use crate::model::player::{
    BlockEntityState, ContainerBlockEntityState, DroppedItemSnapshot, PlayerSnapshot,
    WorldSnapshot,
};
use crate::model::session::{
    BedrockListenerDescriptor, ConnectionPhase, Edition, HandshakeIntent, HandshakeNextState,
    LoginRequest, PlayEncodingContext, ProtocolDescriptor, ProtocolSessionSnapshot,
    ServerListStatus, StatusRequest, TransportKind, WireFormatKind, WireFrameDecodeResult,
};
use vstd::prelude::*;
use vstd::utf8::encode_utf8;

verus! {

/// The bytes of a value.
pub open spec fn wire_bytes<T: Wire>(x: T) -> Seq<u8> {
    serialize(T::format(), x.value())
}

/// Some bytes after four bytes of their length, least significant first.
pub open spec fn after_length(bytes: Seq<u8>) -> Seq<u8> {
    le(bytes.len(), 4) + bytes
}

/// One thing stands after another.
pub broadcast proof fn pair_is_laid_out(
    a: Box<Format>,
    b: Box<Format>,
    x: Box<Value>,
    y: Box<Value>,
)
    ensures
        #[trigger] serialize(Format::Pair(a, b), Value::Pair(x, y)) == serialize(*a, *x)
            + serialize(*b, *y),
{
    reveal(serialize);
}

/// One of several things stands after the byte that tells which it is.
pub broadcast proof fn case_is_laid_out(cases: Box<Cases>, n: int, x: Box<Value>)
    ensures
        select(*cases, n as u8) matches Ok((means, body)) ==> #[trigger] serialize(
            Format::Tagged(cases),
            Value::Case(n, x),
        ) == seq![n as u8] + serialize(body, *x),
{
    reveal(serialize);
}

/// Bytes stand after their length.
pub broadcast proof fn bytes_are_laid_out(bytes: Seq<u8>)
    ensures
        #[trigger] serialize(Format::Bytes, Value::Bytes(bytes)) == after_length(bytes),
{
    reveal(serialize);
}

/// A number stands in as many bytes as it takes, least significant first.
pub broadcast proof fn number_is_laid_out(width: nat, n: int)
    requires
        n >= 0,
    ensures
        #[trigger] serialize(Format::Int { width, signed: false }, Value::Int(n)) == le(
            n as nat,
            width,
        ),
{
    reveal(serialize);
}

/// Where the parts of values stand.
pub broadcast group layout_rules {
    pair_is_laid_out,
    case_is_laid_out,
    bytes_are_laid_out,
    number_is_laid_out,
}

/// Nothing takes no bytes.
pub proof fn nothing_is_no_bytes()
    ensures
        serialize(Format::Unit, Value::Unit) == Seq::<u8>::empty(),
        forall|s: Seq<u8>| #[trigger] (s + Seq::<u8>::empty()) == s,
{
    reveal(serialize);
    assert forall|s: Seq<u8>| #[trigger] (s + Seq::<u8>::empty()) == s by {
        assert(s + Seq::<u8>::empty() =~= s);
    }
}

/// The bytes of a number spell it, least significant first: one byte is the number itself, and of
/// two, four and eight bytes each counts 256 times as much as the one before it.
pub proof fn numbers_are_laid_out(a: u8, b: u16, c: u32, d: u64)
    ensures
        wire_bytes(a) == seq![a],
        ({
            let s = wire_bytes(b);
            s.len() == 2 && s[0] + 256 * s[1] == b
        }),
        ({
            let s = wire_bytes(c);
            s.len() == 4 && s[0] + 0x100 * s[1] + 0x1_0000 * s[2] + 0x100_0000 * s[3] == c
        }),
        ({
            let s = wire_bytes(d);
            &&& s.len() == 8
            &&& s[0] + 0x100 * s[1] + 0x1_0000 * s[2] + 0x100_0000 * s[3] + 0x1_0000_0000 * s[4]
                + 0x100_0000_0000 * s[5] + 0x1_0000_0000_0000 * s[6] + 0x100_0000_0000_0000 * s[7]
                == d
        }),
{
    reveal(serialize);
    reveal_with_fuel(le, 9);
    assert(wire_bytes(a) =~= seq![a]);
}

/// The bytes of a signed number that is not negative are those of the number without a sign; those
/// of
/// a negative number are those of the number that it lacks to the next power of 256.
pub proof fn signed_numbers_are_laid_out(a: i8, b: i16, c: i32, d: i64)
    ensures
        wire_bytes(a) == le(
            if a >= 0 {
                a as nat
            } else {
                (a + 0x100) as nat
            },
            1,
        ),
        wire_bytes(b) == le(
            if b >= 0 {
                b as nat
            } else {
                (b + 0x1_0000) as nat
            },
            2,
        ),
        wire_bytes(c) == le(
            if c >= 0 {
                c as nat
            } else {
                (c + 0x1_0000_0000) as nat
            },
            4,
        ),
        wire_bytes(d) == le(
            if d >= 0 {
                d as nat
            } else {
                (d + 0x1_0000_0000_0000_0000) as nat
            },
            8,
        ),
{
    broadcast use pow256_values;

    reveal(serialize);
}

/// Yes is the byte one, and no is the byte zero; a text stands after the length of its UTF-8 bytes.
pub proof fn plain_values_are_laid_out(yes: bool, text: String)
    ensures
        wire_bytes(yes) == seq![
            if yes {
                1u8
            } else {
                0u8
            },
        ],
        wire_bytes(text) == after_length(encode_utf8(text@)),
{
    reveal(serialize);
}

/// What may be absent is the byte zero where it is, and otherwise stands after the byte one.
pub proof fn absence_is_laid_out<T: Wire>(x: Option<T>)
    ensures
        wire_bytes(x) == (match x {
            Some(inner) => seq![1u8] + wire_bytes(inner),
            None => seq![0u8],
        }),
{
    reveal(serialize);
}

/// The bytes of things, one after the other.
pub open spec fn one_after_another<T: Wire>(items: Seq<T>) -> Seq<u8>
    decreases items.len(),
{
    if items.len() == 0 {
        Seq::empty()
    } else {
        wire_bytes(items[0]) + one_after_another(items.drop_first())
    }
}

proof fn items_follow<T: Wire>(items: Seq<T>, i: nat)
    requires
        i <= items.len(),
    ensures
        serialize_from(T::format(), values_of(items), i) == one_after_another(
            items.subrange(i as int, items.len() as int),
        ),
    decreases items.len() - i,
{
    reveal(serialize);
    reveal(serialize_from);
    let rest = items.subrange(i as int, items.len() as int);
    if i < items.len() {
        items_follow(items, i + 1);
        assert(rest.drop_first() =~= items.subrange(i as int + 1, items.len() as int));
        assert(rest[0] == items[i as int]);
        assert(values_of(items)[i as int] == items[i as int].value());
        assert(serialize_from(T::format(), values_of(items), i) == serialize(
            T::format(),
            values_of(items)[i as int],
        ) + serialize_from(T::format(), values_of(items), i + 1));
    } else {
        assert(rest =~= Seq::empty());
        assert(serialize_from(T::format(), values_of(items), i) == Seq::<u8>::empty());
    }
}

/// A list stands as the number of its items in four bytes, and then its items in their order.
pub proof fn list_is_laid_out<T: Wire>(x: Vec<T>)
    ensures
        wire_bytes(x) == le(x@.len(), 4) + one_after_another(x@),
{
    reveal(serialize);
    reveal(serialize_from);
    items_follow(x@, 0);
    assert(x@.subrange(0, x@.len() as int) =~= x@);
}

/// A stack of items stands as its kind, its count, its damage and its data, one after the other.
pub proof fn item_stack_is_laid_out(x: ItemStack)
    ensures
        wire_bytes(x) == after_length(encode_utf8(x@.key)) + (seq![x@.count] + (le(
            x@.damage as nat,
            2,
        ) + (serialize(data_map_format(), Value::List(x@.components)) + serialize(
            data_map_format(),
            Value::List(x@.extra),
        )))),
{
    broadcast use layout_rules;

    assert(serialize(Format::Text, Value::Text(x@.key)) == after_length(encode_utf8(x@.key))) by {
        reveal(serialize);
    }
    assert(le(x@.count as nat, 1) =~= seq![x@.count]) by {
        reveal_with_fuel(le, 2);
    }
}

/// A player stands on the wire as sixteen bytes, most significant first.
pub proof fn player_id_is_laid_out(x: PlayerId)
    ensures
        wire_bytes(x) == be(x.0 as nat, 16),
        wire_bytes(x).len() == 16,
        from_be(wire_bytes(x)) == x.0,
{
    broadcast use pow256_values, from_be_of_be, be_len;

    reveal(serialize);
}

/// An entity id stands on the wire as its number.
pub proof fn entity_id_is_laid_out(x: EntityId)
    ensures
        wire_bytes(x) == wire_bytes(x.0),
{
}

/// A connection id stands on the wire as its number.
pub proof fn connection_id_is_laid_out(x: ConnectionId)
    ensures
        wire_bytes(x) == wire_bytes(x.0),
{
}

/// A plugin generation id stands on the wire as its number.
pub proof fn plugin_generation_id_is_laid_out(x: PluginGenerationId)
    ensures
        wire_bytes(x) == wire_bytes(x.0),
{
}

/// An opaque f32 stands on the wire as its number.
pub proof fn opaque_f32_is_laid_out(x: OpaqueF32)
    ensures
        wire_bytes(x) == wire_bytes(x.0),
{
}

/// An opaque f64 stands on the wire as its number.
pub proof fn opaque_f64_is_laid_out(x: OpaqueF64)
    ensures
        wire_bytes(x) == wire_bytes(x.0),
{
}

/// A container kind id stands on the wire as its text.
pub proof fn container_kind_id_is_laid_out(x: ContainerKindId)
    ensures
        wire_bytes(x) == after_length(encode_utf8(x@)),
{
    reveal(serialize);
}

/// A block entity kind id stands on the wire as its text.
pub proof fn block_entity_kind_id_is_laid_out(x: BlockEntityKindId)
    ensures
        wire_bytes(x) == after_length(encode_utf8(x@)),
{
    reveal(serialize);
}

/// A container property key stands on the wire as its text.
pub proof fn container_property_key_is_laid_out(x: ContainerPropertyKey)
    ensures
        wire_bytes(x) == after_length(encode_utf8(x@)),
{
    reveal(serialize);
}

/// A gameplay profile id stands on the wire as its text.
pub proof fn gameplay_profile_id_is_laid_out(x: GameplayProfileId)
    ensures
        wire_bytes(x) == after_length(encode_utf8(x@)),
{
    reveal(serialize);
}

/// An auth profile id stands on the wire as its text.
pub proof fn auth_profile_id_is_laid_out(x: AuthProfileId)
    ensures
        wire_bytes(x) == after_length(encode_utf8(x@)),
{
    reveal(serialize);
}

/// A storage profile id stands on the wire as its text.
pub proof fn storage_profile_id_is_laid_out(x: StorageProfileId)
    ensures
        wire_bytes(x) == after_length(encode_utf8(x@)),
{
    reveal(serialize);
}

/// A block pos stands on the wire as its x, y and z, one after the other.
pub proof fn block_pos_is_laid_out(x: BlockPos)
    ensures
        wire_bytes(x) == wire_bytes(x.x) + (wire_bytes(x.y) + wire_bytes(x.z)),
{
    broadcast use layout_rules;

}

/// A chunk pos stands on the wire as its x and z, one after the other.
pub proof fn chunk_pos_is_laid_out(x: ChunkPos)
    ensures
        wire_bytes(x) == wire_bytes(x.x) + wire_bytes(x.z),
{
    broadcast use layout_rules;

}

/// A vec3 stands on the wire as its x, y and z, one after the other.
pub proof fn vec3_is_laid_out(x: Vec3)
    ensures
        wire_bytes(x) == wire_bytes(x.x) + (wire_bytes(x.y) + wire_bytes(x.z)),
{
    broadcast use layout_rules;

}

/// The place of a block in its section stands on the wire as two bytes, least significant first.
pub proof fn section_block_index_is_laid_out(x: SectionBlockIndex)
    ensures
        wire_bytes(x) == le(x@, 2),
{
    reveal(serialize);
}

/// A connection phase stands on the wire as one byte, which tells which it is.
pub proof fn connection_phase_is_laid_out(x: ConnectionPhase)
    ensures
        wire_bytes(x) == (match x {
            ConnectionPhase::Handshaking => seq![1u8],
            ConnectionPhase::Status => seq![2u8],
            ConnectionPhase::Login => seq![3u8],
            ConnectionPhase::Play => seq![4u8],
        }),
{
    broadcast use layout_rules;

    reveal_with_fuel(select, 6);
    nothing_is_no_bytes();
}

/// A transport kind stands on the wire as one byte, which tells which it is.
pub proof fn transport_kind_is_laid_out(x: TransportKind)
    ensures
        wire_bytes(x) == (match x {
            TransportKind::Tcp => seq![1u8],
            TransportKind::Udp => seq![2u8],
        }),
{
    broadcast use layout_rules;

    reveal_with_fuel(select, 4);
    nothing_is_no_bytes();
}

/// A wire format kind stands on the wire as one byte, which tells which it is.
pub proof fn wire_format_kind_is_laid_out(x: WireFormatKind)
    ensures
        wire_bytes(x) == (match x {
            WireFormatKind::MinecraftFramed => seq![1u8],
            WireFormatKind::RawPacketStream => seq![2u8],
        }),
{
    broadcast use layout_rules;

    reveal_with_fuel(select, 4);
    nothing_is_no_bytes();
}

/// An edition stands on the wire as one byte, which tells which it is.
pub proof fn edition_is_laid_out(x: Edition)
    ensures
        wire_bytes(x) == (match x {
            Edition::Je => seq![1u8],
            Edition::Be => seq![2u8],
        }),
{
    broadcast use layout_rules;

    reveal_with_fuel(select, 4);
    nothing_is_no_bytes();
}

/// A handshake next state stands on the wire as one byte, which tells which it is.
pub proof fn handshake_next_state_is_laid_out(x: HandshakeNextState)
    ensures
        wire_bytes(x) == (match x {
            HandshakeNextState::Status => seq![1u8],
            HandshakeNextState::Login => seq![2u8],
        }),
{
    broadcast use layout_rules;

    reveal_with_fuel(select, 4);
    nothing_is_no_bytes();
}

/// A dimension id stands on the wire as one byte, which tells which it is.
pub proof fn dimension_id_is_laid_out(x: DimensionId)
    ensures
        wire_bytes(x) == (match x {
            DimensionId::Overworld => seq![1u8],
        }),
{
    broadcast use layout_rules;

    reveal_with_fuel(select, 3);
    nothing_is_no_bytes();
}

/// An interaction hand stands on the wire as one byte, which tells which it is.
pub proof fn interaction_hand_is_laid_out(x: InteractionHand)
    ensures
        wire_bytes(x) == (match x {
            InteractionHand::Main => seq![1u8],
            InteractionHand::Offhand => seq![2u8],
        }),
{
    broadcast use layout_rules;

    reveal_with_fuel(select, 4);
    nothing_is_no_bytes();
}

/// A block face stands on the wire as one byte, which tells which it is.
pub proof fn block_face_is_laid_out(x: BlockFace)
    ensures
        wire_bytes(x) == (match x {
            BlockFace::Bottom => seq![1u8],
            BlockFace::Top => seq![2u8],
            BlockFace::North => seq![3u8],
            BlockFace::South => seq![4u8],
            BlockFace::West => seq![5u8],
            BlockFace::East => seq![6u8],
        }),
{
    broadcast use layout_rules;

    reveal_with_fuel(select, 8);
    nothing_is_no_bytes();
}

/// An inventory slot stands on the wire as a byte, which tells which it is, and what belongs to it,
/// one after the other.
pub proof fn inventory_slot_is_laid_out(x: InventorySlot)
    ensures
        wire_bytes(x) == (match x {
            InventorySlot::WindowLocal(index) => seq![1u8] + le(index as nat, 1),
            InventorySlot::MainInventory(index) => seq![3u8] + le(index as nat, 1),
            InventorySlot::Hotbar(index) => seq![4u8] + le(index as nat, 1),
            InventorySlot::Offhand => seq![5u8],
        }),
{
    broadcast use layout_rules;

    reveal_with_fuel(select, 6);
    nothing_is_no_bytes();
}

/// An inventory click button stands on the wire as one byte, which tells which it is.
pub proof fn inventory_click_button_is_laid_out(x: InventoryClickButton)
    ensures
        wire_bytes(x) == (match x {
            InventoryClickButton::Left => seq![1u8],
            InventoryClickButton::Right => seq![2u8],
        }),
{
    broadcast use layout_rules;

    reveal_with_fuel(select, 4);
    nothing_is_no_bytes();
}

/// An inventory click target stands on the wire as a byte, which tells which it is, and what
/// belongs to it, one after the other.
pub proof fn inventory_click_target_is_laid_out(x: InventoryClickTarget)
    ensures
        wire_bytes(x) == (match x {
            InventoryClickTarget::Slot(inner) => seq![1u8] + wire_bytes(inner),
            InventoryClickTarget::Outside => seq![2u8],
            InventoryClickTarget::Unsupported => seq![3u8],
        }),
{
    broadcast use layout_rules;

    reveal_with_fuel(select, 5);
    nothing_is_no_bytes();
}

/// An inventory click validation stands on the wire as a byte, which tells which it is, and what
/// belongs to it, one after the other.
pub proof fn inventory_click_validation_is_laid_out(x: InventoryClickValidation)
    ensures
        wire_bytes(x) == (match x {
            InventoryClickValidation::StrictSlotEcho { clicked_item } => seq![1u8]
                + wire_bytes(clicked_item),
            InventoryClickValidation::Authoritative => seq![2u8],
        }),
{
    broadcast use layout_rules;

    reveal_with_fuel(select, 4);
    nothing_is_no_bytes();
}

/// An inventory transaction context stands on the wire as its window id and action number, one
/// after the other.
pub proof fn inventory_transaction_context_is_laid_out(x: InventoryTransactionContext)
    ensures
        wire_bytes(x) == wire_bytes(x.window_id) + wire_bytes(x.action_number),
{
    broadcast use layout_rules;

}

/// A block key stands on the wire as its text.
pub proof fn block_key_is_laid_out(x: BlockKey)
    ensures
        wire_bytes(x) == after_length(encode_utf8(x@)),
{
    reveal(serialize);
}

/// A block state stands on the wire as its key and properties, one after the other.
pub proof fn block_state_is_laid_out(x: BlockState)
    ensures
        wire_bytes(x) == wire_bytes(x.key) + wire_bytes(x.properties),
{
    broadcast use layout_rules;

}

/// A chunk section stands on the wire as its y and blocks, one after the other.
pub proof fn chunk_section_is_laid_out(x: ChunkSection)
    ensures
        wire_bytes(x) == wire_bytes(x.y) + wire_bytes(x.blocks),
{
    broadcast use layout_rules;

}

/// A chunk column stands on the wire as its pos, sections and biomes, one after the other.
pub proof fn chunk_column_is_laid_out(x: ChunkColumn)
    ensures
        wire_bytes(x) == wire_bytes(x.pos)
            + (serialize(held(ChunkSection::format()), Value::List(held_values(x.sections.pairs())))
            + after_length(x.biomes@)),
{
    broadcast use layout_rules;

}

/// A world meta stands on the wire as its level name, seed, spawn, dimension, age, time, level
/// type, game mode, difficulty and max players, one after the other.
pub proof fn world_meta_is_laid_out(x: WorldMeta)
    ensures
        wire_bytes(x) == wire_bytes(x.level_name) + (wire_bytes(x.seed) + (wire_bytes(x.spawn)
            + (wire_bytes(x.dimension) + (wire_bytes(x.age) + (wire_bytes(x.time)
            + (wire_bytes(x.level_type)
            + (wire_bytes(x.game_mode) + (wire_bytes(x.difficulty)
            + wire_bytes(x.max_players))))))))),
{
    broadcast use layout_rules;

}

/// A player inventory stands on the wire as its slots and offhand, one after the other.
pub proof fn player_inventory_is_laid_out(x: PlayerInventory)
    ensures
        wire_bytes(x) == wire_bytes(x.slots) + wire_bytes(x.offhand),
{
    broadcast use layout_rules;

}

/// An inventory window contents stands on the wire as its player inventory and local slots, one
/// after the other.
pub proof fn inventory_window_contents_is_laid_out(x: InventoryWindowContents)
    ensures
        wire_bytes(x) == wire_bytes(x.player_inventory) + wire_bytes(x.local_slots),
{
    broadcast use layout_rules;

}

/// A player snapshot stands on the wire as its id, username, position, yaw, pitch, on ground,
/// dimension, health, food, food saturation, inventory and selected hotbar slot, one after the
/// other.
pub proof fn player_snapshot_is_laid_out(x: PlayerSnapshot)
    ensures
        wire_bytes(x) == wire_bytes(x.id) + (wire_bytes(x.username) + (wire_bytes(x.position)
            + (wire_bytes(x.yaw) + (wire_bytes(x.pitch) + (wire_bytes(x.on_ground)
            + (wire_bytes(x.dimension)
            + (wire_bytes(x.health) + (wire_bytes(x.food) + (wire_bytes(x.food_saturation)
            + (wire_bytes(x.inventory)
            + wire_bytes(x.selected_hotbar_slot))))))))))),
{
    broadcast use layout_rules;

}

/// A dropped item snapshot stands on the wire as its item, position and velocity, one after the
/// other.
pub proof fn dropped_item_snapshot_is_laid_out(x: DroppedItemSnapshot)
    ensures
        wire_bytes(x) == wire_bytes(x.item) + (wire_bytes(x.position) + wire_bytes(x.velocity)),
{
    broadcast use layout_rules;

}

/// A container block entity state stands on the wire as its kind, slots and properties, one after
/// the other.
pub proof fn container_block_entity_state_is_laid_out(x: ContainerBlockEntityState)
    ensures
        wire_bytes(x) == wire_bytes(x.kind) + (wire_bytes(x.slots) + wire_bytes(x.properties)),
{
    broadcast use layout_rules;

}

/// A block entity state stands on the wire as a byte, which tells which it is, and what belongs to
/// it, one after the other.
pub proof fn block_entity_state_is_laid_out(x: BlockEntityState)
    ensures
        wire_bytes(x) == (match x {
            BlockEntityState::Chest { slots } => seq![1u8] + wire_bytes(slots),
            BlockEntityState::Furnace {
                input,
                fuel,
                output,
                burn_left,
                burn_max,
                cook_progress,
                cook_total,
            } => seq![2u8]
                + (wire_bytes(input) + (wire_bytes(fuel) + (wire_bytes(output)
                + (wire_bytes(burn_left)
                + (wire_bytes(burn_max) + (wire_bytes(cook_progress) + wire_bytes(cook_total))))))),
            BlockEntityState::Container(inner) => seq![3u8] + wire_bytes(inner),
        }),
{
    broadcast use layout_rules;

    reveal_with_fuel(select, 5);
}

/// A world snapshot stands on the wire as its meta, chunks, block entities and players, one after
/// the
/// other.
pub proof fn world_snapshot_is_laid_out(x: WorldSnapshot)
    ensures
        wire_bytes(x) == wire_bytes(x.meta) + (serialize(
            held(ChunkColumn::format()),
            Value::List(held_values(x.chunks.pairs())),
        ) + (wire_bytes(x.block_entities) + serialize(
            held(PlayerSnapshot::format()),
            Value::List(held_values(x.players.pairs())),
        ))),
{
    broadcast use layout_rules;

}

/// A protocol descriptor stands on the wire as its adapter id, transport, wire format, edition,
/// version name and protocol number, one after the other.
pub proof fn protocol_descriptor_is_laid_out(x: ProtocolDescriptor)
    ensures
        wire_bytes(x) == wire_bytes(x.adapter_id) + (wire_bytes(x.transport)
            + (wire_bytes(x.wire_format)
            + (wire_bytes(x.edition) + (wire_bytes(x.version_name)
            + wire_bytes(x.protocol_number))))),
{
    broadcast use layout_rules;

}

/// A bedrock listener descriptor stands on the wire as its game version and raknet version, one
/// after the other.
pub proof fn bedrock_listener_descriptor_is_laid_out(x: BedrockListenerDescriptor)
    ensures
        wire_bytes(x) == wire_bytes(x.game_version) + wire_bytes(x.raknet_version),
{
    broadcast use layout_rules;

}

/// A handshake intent stands on the wire as its edition, protocol number, server host, server port
/// and next state, one after the other.
pub proof fn handshake_intent_is_laid_out(x: HandshakeIntent)
    ensures
        wire_bytes(x) == wire_bytes(x.edition) + (wire_bytes(x.protocol_number)
            + (wire_bytes(x.server_host)
            + (wire_bytes(x.server_port) + wire_bytes(x.next_state)))),
{
    broadcast use layout_rules;

}

/// A status request stands on the wire as a byte, which tells which it is, and what belongs to it,
/// one after the other.
pub proof fn status_request_is_laid_out(x: StatusRequest)
    ensures
        wire_bytes(x) == (match x {
            StatusRequest::Query => seq![1u8],
            StatusRequest::Ping { payload } => seq![2u8] + wire_bytes(payload),
        }),
{
    broadcast use layout_rules;

    reveal_with_fuel(select, 4);
    nothing_is_no_bytes();
}

/// A login request stands on the wire as a byte, which tells which it is, and what belongs to it,
/// one after the other.
pub proof fn login_request_is_laid_out(x: LoginRequest)
    ensures
        wire_bytes(x) == (match x {
            LoginRequest::LoginStart { username } => seq![1u8] + wire_bytes(username),
            LoginRequest::EncryptionResponse {
                shared_secret_encrypted,
                verify_token_encrypted,
            } => seq![2u8]
                + (after_length(shared_secret_encrypted@)
                + after_length(verify_token_encrypted@)),
            LoginRequest::BedrockNetworkSettingsRequest { protocol_number } => seq![3u8]
                + wire_bytes(protocol_number),
            LoginRequest::BedrockLogin {
                protocol_number,
                display_name,
                chain_jwts,
                client_data_jwt,
            } => seq![4u8]
                + (wire_bytes(protocol_number) + (wire_bytes(display_name) + (wire_bytes(chain_jwts)
                + wire_bytes(client_data_jwt)))),
        }),
{
    broadcast use layout_rules;

    reveal_with_fuel(select, 6);
}

/// A server list status stands on the wire as its version, players online, max players and
/// description, one after the other.
pub proof fn server_list_status_is_laid_out(x: ServerListStatus)
    ensures
        wire_bytes(x) == wire_bytes(x.version) + (le(x.players_online as nat, 4)
            + (le(x.max_players as nat, 4)
            + wire_bytes(x.description))),
{
    broadcast use layout_rules;

}

/// A play encoding context stands on the wire as its player id and entity id, one after the other.
pub proof fn play_encoding_context_is_laid_out(x: PlayEncodingContext)
    ensures
        wire_bytes(x) == wire_bytes(x.player_id) + wire_bytes(x.entity_id),
{
    broadcast use layout_rules;

}

/// A protocol session snapshot stands on the wire as its connection id, phase, player id and entity
/// id, one after the other.
pub proof fn protocol_session_snapshot_is_laid_out(x: ProtocolSessionSnapshot)
    ensures
        wire_bytes(x) == wire_bytes(x.connection_id) + (wire_bytes(x.phase)
            + (wire_bytes(x.player_id)
            + wire_bytes(x.entity_id))),
{
    broadcast use layout_rules;

}

/// A wire frame decode result stands on the wire as its bytes consumed and frame, one after the
/// other.
pub proof fn wire_frame_decode_result_is_laid_out(x: WireFrameDecodeResult)
    ensures
        wire_bytes(x) == le(x.bytes_consumed as nat, 4) + after_length(x.frame@),
{
    broadcast use layout_rules;

}

/// A core command stands on the wire as a byte, which tells which it is, and what belongs to it,
/// one after the other.
pub proof fn core_command_is_laid_out(x: CoreCommand)
    ensures
        wire_bytes(x) == (match x {
            CoreCommand::LoginStart { connection_id, username, player_id } => seq![1u8]
                + (wire_bytes(connection_id)
                + (wire_bytes(username) + wire_bytes(player_id))),
            CoreCommand::UpdateClientView { player_id, view_distance } => seq![2u8]
                + (wire_bytes(player_id)
                + wire_bytes(view_distance)),
            CoreCommand::ClientStatus { player_id, action_id } => seq![3u8] + (wire_bytes(player_id)
                + wire_bytes(action_id)),
            CoreCommand::MoveIntent { player_id, position, yaw, pitch, on_ground } => seq![4u8]
                + (wire_bytes(player_id) + (wire_bytes(position) + (wire_bytes(yaw)
                + (wire_bytes(pitch)
                + wire_bytes(on_ground))))),
            CoreCommand::KeepAliveResponse { player_id, keep_alive_id } => seq![5u8]
                + (wire_bytes(player_id)
                + wire_bytes(keep_alive_id)),
            CoreCommand::SetHeldSlot { player_id, slot } => seq![6u8] + (wire_bytes(player_id)
                + wire_bytes(slot)),
            CoreCommand::CreativeInventorySet { player_id, slot, stack } => seq![7u8]
                + (wire_bytes(player_id)
                + (wire_bytes(slot) + wire_bytes(stack))),
            CoreCommand::InventoryClick {
                player_id,
                transaction,
                target,
                button,
                validation,
            } => seq![11u8]
                + (wire_bytes(player_id) + (wire_bytes(transaction) + (wire_bytes(target)
                + (wire_bytes(button)
                + wire_bytes(validation))))),
            CoreCommand::InventoryTransactionAck { player_id, transaction, accepted } => seq![12u8]
                + (wire_bytes(player_id) + (wire_bytes(transaction) + wire_bytes(accepted))),
            CoreCommand::CloseContainer { player_id, window_id } => seq![13u8]
                + (wire_bytes(player_id)
                + wire_bytes(window_id)),
            CoreCommand::DigBlock { player_id, position, status, face } => seq![8u8]
                + (wire_bytes(player_id)
                + (wire_bytes(position) + (wire_bytes(status) + wire_bytes(face)))),
            CoreCommand::PlaceBlock { player_id, hand, position, face, held_item } => seq![9u8]
                + (wire_bytes(player_id) + (wire_bytes(hand) + (wire_bytes(position)
                + (wire_bytes(face)
                + wire_bytes(held_item))))),
            CoreCommand::UseBlock { player_id, hand, position, face, held_item } => seq![14u8]
                + (wire_bytes(player_id) + (wire_bytes(hand) + (wire_bytes(position)
                + (wire_bytes(face)
                + wire_bytes(held_item))))),
            CoreCommand::Disconnect { player_id } => seq![10u8] + wire_bytes(player_id),
        }),
{
    broadcast use layout_rules;

    reveal_with_fuel(select, 16);
}

/// A gameplay command stands on the wire as a byte, which tells which it is, and what belongs to
/// it, one after the other.
pub proof fn gameplay_command_is_laid_out(x: GameplayCommand)
    ensures
        wire_bytes(x) == (match x {
            GameplayCommand::MoveIntent { player_id, position, yaw, pitch, on_ground } => seq![4u8]
                + (wire_bytes(player_id) + (wire_bytes(position) + (wire_bytes(yaw)
                + (wire_bytes(pitch)
                + wire_bytes(on_ground))))),
            GameplayCommand::SetHeldSlot { player_id, slot } => seq![6u8] + (wire_bytes(player_id)
                + wire_bytes(slot)),
            GameplayCommand::CreativeInventorySet { player_id, slot, stack } => seq![7u8]
                + (wire_bytes(player_id)
                + (wire_bytes(slot) + wire_bytes(stack))),
            GameplayCommand::DigBlock { player_id, position, status, face } => seq![8u8]
                + (wire_bytes(player_id)
                + (wire_bytes(position) + (wire_bytes(status) + wire_bytes(face)))),
            GameplayCommand::PlaceBlock { player_id, hand, position, face, held_item } => seq![9u8]
                + (wire_bytes(player_id) + (wire_bytes(hand) + (wire_bytes(position)
                + (wire_bytes(face)
                + wire_bytes(held_item))))),
            GameplayCommand::UseBlock { player_id, hand, position, face, held_item } => seq![14u8]
                + (wire_bytes(player_id) + (wire_bytes(hand) + (wire_bytes(position)
                + (wire_bytes(face)
                + wire_bytes(held_item))))),
        }),
{
    broadcast use layout_rules;

    reveal_with_fuel(select, 8);
}

/// A runtime command stands on the wire as the command that it is.
pub proof fn runtime_command_is_laid_out(x: RuntimeCommand)
    ensures
        x matches RuntimeCommand::Core(command) ==> wire_bytes(x) == wire_bytes(command),
{
}

/// A numbered property of a container stands on the wire as its number.
pub proof fn container_property_is_laid_out(x: ContainerProperty)
    ensures
        x matches ContainerProperty::Numbered(id) ==> wire_bytes(x) == wire_bytes(id),
{
}

/// A core event stands on the wire as a byte, which tells which it is, and what belongs to it, one
/// after the other.
pub proof fn core_event_is_laid_out(x: CoreEvent)
    ensures
        wire_bytes(x) == (match x {
            CoreEvent::LoginAccepted { player_id, entity_id, player } => seq![1u8]
                + (wire_bytes(player_id)
                + (wire_bytes(entity_id) + wire_bytes(player))),
            CoreEvent::PlayBootstrap { player, entity_id, world_meta, view_distance } => seq![2u8]
                + (wire_bytes(player) + (wire_bytes(entity_id) + (wire_bytes(world_meta)
                + wire_bytes(view_distance)))),
            CoreEvent::ChunkBatch { chunks } => seq![3u8] + wire_bytes(chunks),
            CoreEvent::EntitySpawned { entity_id, player } => seq![4u8] + (wire_bytes(entity_id)
                + wire_bytes(player)),
            CoreEvent::EntityMoved { entity_id, player } => seq![5u8] + (wire_bytes(entity_id)
                + wire_bytes(player)),
            CoreEvent::DroppedItemSpawned { entity_id, item } => seq![18u8] + (wire_bytes(entity_id)
                + wire_bytes(item)),
            CoreEvent::BlockBreakingProgress {
                breaker_entity_id,
                position,
                stage,
                duration_ms,
            } => seq![19u8]
                + (wire_bytes(breaker_entity_id) + (wire_bytes(position) + (wire_bytes(stage)
                + wire_bytes(duration_ms)))),
            CoreEvent::EntityDespawned { entity_ids } => seq![6u8] + wire_bytes(entity_ids),
            CoreEvent::InventoryContents { window_id, container, contents } => seq![7u8]
                + (wire_bytes(window_id)
                + (wire_bytes(container) + wire_bytes(contents))),
            CoreEvent::ContainerOpened { window_id, container, title } => seq![15u8]
                + (wire_bytes(window_id)
                + (wire_bytes(container) + wire_bytes(title))),
            CoreEvent::ContainerClosed { window_id } => seq![16u8] + wire_bytes(window_id),
            CoreEvent::ContainerPropertyChanged { window_id, property, value } => seq![17u8]
                + (wire_bytes(window_id)
                + (wire_bytes(property) + wire_bytes(value))),
            CoreEvent::InventorySlotChanged { window_id, container, slot, stack } => seq![8u8]
                + (wire_bytes(window_id) + (wire_bytes(container) + (wire_bytes(slot)
                + wire_bytes(stack)))),
            CoreEvent::InventoryTransactionProcessed { transaction, accepted } => seq![14u8]
                + (wire_bytes(transaction)
                + wire_bytes(accepted)),
            CoreEvent::CursorChanged { stack } => seq![13u8] + wire_bytes(stack),
            CoreEvent::SelectedHotbarSlotChanged { slot } => seq![9u8] + wire_bytes(slot),
            CoreEvent::BlockChanged { position, block } => seq![10u8] + (wire_bytes(position)
                + wire_bytes(block)),
            CoreEvent::KeepAliveRequested { keep_alive_id } => seq![11u8]
                + wire_bytes(keep_alive_id),
            CoreEvent::Disconnect { reason } => seq![12u8] + wire_bytes(reason),
        }),
{
    broadcast use layout_rules;

    reveal_with_fuel(select, 21);
}

/// An event target stands on the wire as a byte, which tells which it is, and what belongs to it,
/// one after the other.
pub proof fn event_target_is_laid_out(x: EventTarget)
    ensures
        wire_bytes(x) == (match x {
            EventTarget::Connection(inner) => seq![1u8] + wire_bytes(inner),
            EventTarget::Player(inner) => seq![2u8] + wire_bytes(inner),
            EventTarget::EveryoneExcept(inner) => seq![3u8] + wire_bytes(inner),
        }),
{
    broadcast use layout_rules;

    reveal_with_fuel(select, 5);
}

/// A targeted event stands on the wire as its target and event, one after the other.
pub proof fn targeted_event_is_laid_out(x: TargetedEvent)
    ensures
        wire_bytes(x) == wire_bytes(x.target) + wire_bytes(x.event),
{
    broadcast use layout_rules;

}

/// A gameplay can edit block key stands on the wire as its player id and position, one after the
/// other.
pub proof fn gameplay_can_edit_block_key_is_laid_out(x: GameplayCanEditBlockKey)
    ensures
        wire_bytes(x) == wire_bytes(x.player_id) + wire_bytes(x.position),
{
    broadcast use layout_rules;

}

/// A gameplay read set stands on the wire as its world meta, player snapshots, block states, block
/// entities and can edit block, one after the other.
pub proof fn gameplay_read_set_is_laid_out(x: GameplayReadSet)
    ensures
        wire_bytes(x) == wire_bytes(x.world_meta) + (wire_bytes(x.player_snapshots)
            + (wire_bytes(x.block_states)
            + (wire_bytes(x.block_entities) + wire_bytes(x.can_edit_block)))),
{
    broadcast use layout_rules;

}

/// A gameplay effect stands on the wire as a byte, which tells which it is, and what belongs to it,
/// one after the other.
pub proof fn gameplay_effect_is_laid_out(x: GameplayEffect)
    ensures
        wire_bytes(x) == (match x {
            GameplayEffect::SetPlayerPose {
                player_id,
                position,
                yaw,
                pitch,
                on_ground,
            } => seq![1u8]
                + (wire_bytes(player_id) + (wire_bytes(position) + (wire_bytes(yaw)
                + (wire_bytes(pitch)
                + wire_bytes(on_ground))))),
            GameplayEffect::SetSelectedHotbarSlot { player_id, slot } => seq![2u8]
                + (wire_bytes(player_id)
                + wire_bytes(slot)),
            GameplayEffect::SetInventorySlot { player_id, slot, stack } => seq![3u8]
                + (wire_bytes(player_id)
                + (wire_bytes(slot) + wire_bytes(stack))),
            GameplayEffect::ClearMining { player_id } => seq![4u8] + wire_bytes(player_id),
            GameplayEffect::BeginMining { player_id, position, duration_ms } => seq![5u8]
                + (wire_bytes(player_id)
                + (wire_bytes(position) + wire_bytes(duration_ms))),
            GameplayEffect::OpenContainerAt { player_id, position } => seq![6u8]
                + (wire_bytes(player_id)
                + wire_bytes(position)),
            GameplayEffect::OpenVirtualContainer { player_id, kind } => seq![7u8]
                + (wire_bytes(player_id)
                + wire_bytes(kind)),
            GameplayEffect::SetBlock { position, block } => seq![8u8] + (wire_bytes(position)
                + wire_bytes(block)),
            GameplayEffect::SpawnDroppedItem { position, item } => seq![9u8] + (wire_bytes(position)
                + wire_bytes(item)),
            GameplayEffect::EmitEvent { event } => seq![10u8] + wire_bytes(event),
        }),
{
    broadcast use layout_rules;

    reveal_with_fuel(select, 12);
}

/// A gameplay effect batch stands on the wire as its now ms, reads and effects, one after the
/// other.
pub proof fn gameplay_effect_batch_is_laid_out(x: GameplayEffectBatch)
    ensures
        wire_bytes(x) == wire_bytes(x.now_ms) + (wire_bytes(x.reads) + wire_bytes(x.effects)),
{
    broadcast use layout_rules;

}

/// An auth mode stands on the wire as one byte, which tells which it is.
pub proof fn auth_mode_is_laid_out(x: AuthMode)
    ensures
        wire_bytes(x) == (match x {
            AuthMode::Offline => seq![1u8],
            AuthMode::Online => seq![2u8],
            AuthMode::BedrockOffline => seq![3u8],
            AuthMode::BedrockXbl => seq![4u8],
        }),
{
    broadcast use layout_rules;

    reveal_with_fuel(select, 6);
    nothing_is_no_bytes();
}

/// An auth descriptor stands on the wire as its auth profile and mode, one after the other.
pub proof fn auth_descriptor_is_laid_out(x: AuthDescriptor)
    ensures
        wire_bytes(x) == wire_bytes(x.auth_profile) + wire_bytes(x.mode),
{
    broadcast use layout_rules;

}

/// A bedrock auth result stands on the wire as its player id, display name, xuid, identity uuid and
/// skin claims blob, one after the other.
pub proof fn bedrock_auth_result_is_laid_out(x: BedrockAuthResult)
    ensures
        wire_bytes(x) == wire_bytes(x.player_id) + (wire_bytes(x.display_name) + (wire_bytes(x.xuid)
            + (wire_bytes(x.identity_uuid) + after_length(x.skin_claims_blob@)))),
{
    broadcast use layout_rules;

}

/// A gameplay descriptor stands on the wire as its profile.
pub proof fn gameplay_descriptor_is_laid_out(x: GameplayDescriptor)
    ensures
        wire_bytes(x) == wire_bytes(x.profile),
{
}

/// A storage descriptor stands on the wire as its storage profile.
pub proof fn storage_descriptor_is_laid_out(x: StorageDescriptor)
    ensures
        wire_bytes(x) == wire_bytes(x.storage_profile),
{
}

} // verus!
