//! The world model and the state of a game.

use revycraft::game::content::{
    ContainerBinding, ContainerSlotRole, ContainerSpec, ContentBehavior, OpenContainerState,
};
use revycraft::game::login::{default_player, reject_connection};
use revycraft::game::mutation::place_inventory_correction;
use revycraft::game::session::{OpenInventoryWindow, PlayerSessionState};
use revycraft::game::stacks::{
    apply_left_click_slot_value, apply_outside_click, apply_right_click_slot_value,
};
use revycraft::game::state::ServerCore;
use revycraft::game::store::{
    ActiveMiningState, CoreConfig, DroppedItemState, EntityKind, MiningToolSpec, PlayerIdentity,
    PlayerTransform, PlayerVitals,
};
use revycraft::game::sync::{
    inventory_diff_events, property_diff_events, visible_slots, window_resync_events,
};
use revycraft::model::block::{
    BlockFace, BlockPos, BlockState, ChunkPos, DimensionId, Vec3, WorldMeta,
};
use revycraft::model::chunk::{
    expand_block_index, flatten_block_index, section_local_y, ChunkColumn, ChunkSection,
};
use revycraft::model::chunk_text::ChunkTextFault;
use revycraft::model::event::{CoreEvent, EventTarget};
use revycraft::model::ids::{ConnectionId, EntityId, PlayerId};
use revycraft::model::inventory::{
    InteractionHand, InventoryClickButton, InventoryClickTarget, InventoryClickValidation,
    InventorySlot, InventoryTransactionContext, InventoryWindowContents, PlayerInventory,
};
use revycraft::model::item::{ItemDataMap, ItemDataValue, ItemStack, OpaqueF32, OpaqueF64};
use revycraft::model::names::{BlockEntityKindId, ContainerKindId, ContainerPropertyKey};
use revycraft::model::player::{
    BlockEntityState, ContainerBlockEntityState, DroppedItemSnapshot, PlayerSnapshot,
};
use revycraft::model::view::{required_chunks, ClientView};
use revycraft::numbers::{parse_i32, NumberFault};
use revycraft::ordered::{OrderedMap, Stored};

/// Rules with a crafting slot, a chest and flat terrain.
struct Rules;

const CHEST: &str = "canonical:chest";
const PLAYER: &str = "canonical:player";

impl ContentBehavior for Rules {
    fn player_container_kind(&self) -> ContainerKindId {
        ContainerKindId::new(PLAYER)
    }

    fn container_spec(&self, kind: &ContainerKindId) -> Option<ContainerSpec> {
        if kind.as_str() == PLAYER {
            Some(ContainerSpec {
                local_slot_count: 9,
                roles: vec![
                    ContainerSlotRole::OutputOnly,
                    ContainerSlotRole::Generic,
                    ContainerSlotRole::Generic,
                    ContainerSlotRole::Generic,
                    ContainerSlotRole::Generic,
                    ContainerSlotRole::Unavailable,
                    ContainerSlotRole::Unavailable,
                    ContainerSlotRole::Unavailable,
                    ContainerSlotRole::Unavailable,
                ],
            })
        } else if kind.as_str() == CHEST {
            Some(ContainerSpec { local_slot_count: 2, roles: Vec::new() })
        } else {
            None
        }
    }

    fn try_take_output(
        &self,
        _kind: &ContainerKindId,
        local_slots: &mut Vec<Option<ItemStack>>,
        cursor: &mut Option<ItemStack>,
        _button: InventoryClickButton,
    ) -> bool {
        if cursor.is_some() || local_slots[0].is_none() {
            return false;
        }
        *cursor = local_slots[0].take();
        local_slots[1] = None;
        true
    }

    fn normalize_player_inventory(&self, inventory: &mut PlayerInventory) {
        let crafted = inventory
            .crafting_input(0)
            .map(|_| ItemStack::new("minecraft:oak_planks", 4, 0));
        let _ = inventory.set_crafting_result(crafted);
    }

    fn normalize_container(&self, _container: &mut OpenContainerState) {}

    fn generate_chunk(&self, _meta: &WorldMeta, pos: ChunkPos) -> ChunkColumn {
        let mut chunk = ChunkColumn::new(pos);
        chunk.set_block(0, 0, 0, Some(BlockState::new("minecraft:bedrock")));
        chunk
    }

    fn default_block_entity_for_block(
        &self,
        block: &BlockState,
    ) -> Option<ContainerBlockEntityState> {
        if block.key.as_str() == "minecraft:chest" {
            Some(ContainerBlockEntityState {
                kind: BlockEntityKindId::new(CHEST),
                slots: vec![None, None],
                properties: OrderedMap::new(),
            })
        } else {
            None
        }
    }
}

fn vec3(x: f64, y: f64, z: f64) -> Vec3 {
    Vec3::new(OpaqueF64(x.to_bits()), OpaqueF64(y.to_bits()), OpaqueF64(z.to_bits()))
}

fn stone(count: u8) -> ItemStack {
    ItemStack::new("minecraft:stone", count, 0)
}

fn session(entity_id: EntityId, chunk: ChunkPos) -> PlayerSessionState {
    PlayerSessionState {
        entity_id,
        cursor: None,
        active_container: None,
        next_non_player_window_id: 1,
        view: ClientView::new(chunk, 1),
        pending_keep_alive_id: None,
        last_keep_alive_sent_at: None,
        next_keep_alive_at: 0,
    }
}

fn join(core: &mut ServerCore, number: u128, entity: i32, chunk: ChunkPos) {
    let player_id = PlayerId(number);
    let entity_id = EntityId(entity);
    core.sessions.player_sessions.insert(player_id, session(entity_id, chunk));
    let entities = &mut core.entities;
    entities.entity_kinds.insert(entity_id, EntityKind::Player);
    entities.players_by_player_id.insert(player_id, entity_id);
    entities.player_identity.insert(
        entity_id,
        PlayerIdentity { player_id, username: "alice".to_string() },
    );
    entities.player_transform.insert(
        entity_id,
        PlayerTransform {
            position: vec3(0.5, 4.0, 0.5),
            chunk,
            yaw: OpaqueF32(0),
            pitch: OpaqueF32(0),
            on_ground: true,
            dimension: DimensionId::Overworld,
        },
    );
    entities.player_vitals.insert(
        entity_id,
        PlayerVitals { health: OpaqueF32(0), food: 20, food_saturation: OpaqueF32(0) },
    );
    entities.player_inventory.insert(entity_id, PlayerInventory::new_empty());
    entities.player_selected_hotbar.insert(entity_id, 0);
    if entities.next_entity_id <= entity {
        entities.next_entity_id = entity + 1;
    }
}

fn game() -> ServerCore {
    let mut core = ServerCore::new(CoreConfig::default());
    join(&mut core, 1, 1, ChunkPos::new(0, 0));
    join(&mut core, 2, 2, ChunkPos::new(0, 1));
    core
}

fn click(window_id: u8) -> InventoryTransactionContext {
    InventoryTransactionContext { window_id, action_number: 1 }
}

fn put(core: &mut ServerCore, slot: InventorySlot, stack: ItemStack) {
    let _ = core.state_inventory_slot(&Rules, PlayerId(1), slot, Some(stack));
}

#[test]
fn block_places_fall_into_chunks() {
    assert_eq!(BlockPos::new(-1, 4, 16).chunk_pos(), ChunkPos::new(-1, 1));
    assert_eq!(BlockPos::new(1, 2, 3).offset(BlockFace::Top), BlockPos::new(1, 3, 3));
    assert_eq!(section_local_y(-1), 15);
}

#[test]
fn block_index_expands_to_what_it_was_made_of() {
    let index = flatten_block_index(3, 5, 7).into_raw();
    assert_eq!(expand_block_index(index), (3, 5, 7));
}

#[test]
fn block_that_was_set_is_found_and_empty_sections_vanish() {
    let mut chunk = ChunkColumn::new(ChunkPos::new(0, 0));
    chunk.set_block(1, -5, 2, Some(BlockState::new("minecraft:stone")));
    assert_eq!(chunk.get_block(1, -5, 2), Some(BlockState::new("minecraft:stone")));
    assert_eq!(chunk.get_block(1, -4, 2), None);
    chunk.set_block(1, -5, 2, None);
    assert_eq!(chunk.get_block(1, -5, 2), None);
    assert_eq!(chunk.sections.len(), 0);
}

#[test]
fn client_sees_the_square_around_it_and_is_told_what_changed() {
    assert_eq!(required_chunks(ChunkPos::new(0, 0), 1).len(), 9);
    let mut view = ClientView::new(ChunkPos::new(0, 0), 1);
    let delta = view.retarget(ChunkPos::new(1, 0), 1);
    assert_eq!(
        delta.added,
        vec![ChunkPos::new(2, -1), ChunkPos::new(2, 0), ChunkPos::new(2, 1)]
    );
    assert_eq!(
        delta.removed,
        vec![ChunkPos::new(-1, -1), ChunkPos::new(-1, 0), ChunkPos::new(-1, 1)]
    );
    assert!(view.sees(ChunkPos::new(2, 1)));
    assert!(!view.sees(ChunkPos::new(-1, 0)));
}

#[test]
fn left_click_puts_stacks_of_one_kind_together() {
    let mut cursor = Some(stone(40));
    let mut slot = Some(stone(40));
    assert!(apply_left_click_slot_value(&mut cursor, &mut slot));
    assert_eq!(slot, Some(stone(64)));
    assert_eq!(cursor, Some(stone(16)));
    let mut glass = Some(ItemStack::new("minecraft:glass", 1, 0));
    assert!(apply_left_click_slot_value(&mut cursor, &mut glass));
    assert_eq!(cursor, Some(ItemStack::new("minecraft:glass", 1, 0)));
    assert_eq!(glass, Some(stone(16)));
}

#[test]
fn stacks_with_other_data_are_of_another_kind() {
    let mut named = stone(1);
    let mut components = ItemDataMap::new();
    components.insert("name", ItemDataValue::String("x".to_string()));
    named.components = components;
    let mut cursor = Some(named);
    let mut slot = Some(stone(1));
    assert!(apply_left_click_slot_value(&mut cursor, &mut slot));
    assert_eq!(cursor, Some(stone(1)));
}

#[test]
fn right_click_takes_half_and_leaves_one() {
    let mut cursor = None;
    let mut slot = Some(stone(5));
    assert!(apply_right_click_slot_value(&mut cursor, &mut slot));
    assert_eq!(cursor, Some(stone(3)));
    assert_eq!(slot, Some(stone(2)));
    let mut empty = None;
    assert!(apply_right_click_slot_value(&mut cursor, &mut empty));
    assert_eq!(cursor, Some(stone(2)));
    assert_eq!(empty, Some(stone(1)));
    let mut full = Some(stone(64));
    assert!(!apply_right_click_slot_value(&mut cursor, &mut full));
    assert_eq!(cursor, Some(stone(2)));
    assert_eq!(full, Some(stone(64)));
}

#[test]
fn click_outside_drops_one_or_all() {
    let mut cursor = Some(stone(2));
    assert!(apply_outside_click(&mut cursor, InventoryClickButton::Right));
    assert_eq!(cursor, Some(stone(1)));
    assert!(apply_outside_click(&mut cursor, InventoryClickButton::Right));
    assert_eq!(cursor, None);
    let mut cursor = Some(stone(2));
    assert!(apply_outside_click(&mut cursor, InventoryClickButton::Left));
    assert_eq!(cursor, None);
}

#[test]
fn click_in_the_own_window_moves_a_stack() {
    let mut core = game();
    put(&mut core, InventorySlot::Hotbar(0), stone(3));
    let delta = core
        .apply_inventory_click_state(
            &Rules,
            PlayerId(1),
            click(0),
            InventoryClickTarget::Slot(InventorySlot::Hotbar(0)),
            InventoryClickButton::Left,
            &InventoryClickValidation::StrictSlotEcho { clicked_item: None },
        )
        .unwrap();
    assert!(delta.accepted);
    assert_eq!(delta.after_cursor, Some(stone(3)));
    assert_eq!(delta.before_contents.get_slot(InventorySlot::Hotbar(0)), Some(&stone(3)));
    assert_eq!(delta.after_contents.get_slot(InventorySlot::Hotbar(0)), None);
    let wrong = core
        .apply_inventory_click_state(
            &Rules,
            PlayerId(1),
            click(0),
            InventoryClickTarget::Slot(InventorySlot::Hotbar(1)),
            InventoryClickButton::Left,
            &InventoryClickValidation::StrictSlotEcho { clicked_item: None },
        )
        .unwrap();
    assert!(!wrong.accepted);
    assert!(wrong.should_resync_on_reject);
}

#[test]
fn crafting_result_is_worked_out_and_taken() {
    let mut core = game();
    let delta = core
        .state_inventory_slot(&Rules, PlayerId(1), InventorySlot::WindowLocal(1), Some(stone(1)))
        .unwrap();
    assert_eq!(
        delta.crafting_result,
        Some(Some(ItemStack::new("minecraft:oak_planks", 4, 0)))
    );
    let taken = core
        .apply_inventory_click_state(
            &Rules,
            PlayerId(1),
            click(0),
            InventoryClickTarget::Slot(InventorySlot::WindowLocal(0)),
            InventoryClickButton::Left,
            &InventoryClickValidation::Authoritative,
        )
        .unwrap();
    assert!(taken.accepted);
    assert_eq!(taken.after_cursor, Some(ItemStack::new("minecraft:oak_planks", 4, 0)));
    let armor = core
        .apply_inventory_click_state(
            &Rules,
            PlayerId(1),
            click(0),
            InventoryClickTarget::Slot(InventorySlot::WindowLocal(5)),
            InventoryClickButton::Left,
            &InventoryClickValidation::Authoritative,
        )
        .unwrap();
    assert!(!armor.accepted);
}

fn open_chest(core: &mut ServerCore) {
    let mut session = session(EntityId(1), ChunkPos::new(0, 0));
    let mut properties = OrderedMap::new();
    properties.insert(ContainerPropertyKey::new("lid"), 1);
    session.active_container = Some(OpenInventoryWindow {
        window_id: 3,
        container: OpenContainerState {
            kind: ContainerKindId::new(CHEST),
            local_slots: vec![Some(stone(7)), None],
            properties,
            binding: ContainerBinding::Block {
                position: BlockPos::new(1, 2, 3),
                kind: BlockEntityKindId::new(CHEST),
            },
        },
    });
    core.sessions.player_sessions.insert(PlayerId(1), session);
}

#[test]
fn click_in_a_chest_names_the_container_to_be_told_of() {
    let mut core = game();
    open_chest(&mut core);
    let delta = core
        .apply_inventory_click_state(
            &Rules,
            PlayerId(1),
            click(3),
            InventoryClickTarget::Slot(InventorySlot::WindowLocal(0)),
            InventoryClickButton::Right,
            &InventoryClickValidation::Authoritative,
        )
        .unwrap();
    assert!(delta.accepted);
    assert_eq!(delta.container.as_str(), CHEST);
    assert_eq!(delta.after_cursor, Some(stone(4)));
    assert_eq!(delta.after_contents.local_slots, vec![Some(stone(3)), None]);
    assert_eq!(delta.world_sync, Some(BlockPos::new(1, 2, 3)));
    let stale = core
        .apply_inventory_click_state(
            &Rules,
            PlayerId(1),
            click(4),
            InventoryClickTarget::Slot(InventorySlot::WindowLocal(0)),
            InventoryClickButton::Left,
            &InventoryClickValidation::Authoritative,
        )
        .unwrap();
    assert!(!stale.accepted);
    assert!(!stale.should_resync_on_reject);
    assert_eq!(stale.container.as_str(), PLAYER);
    assert!(core
        .apply_inventory_click_state(
            &Rules,
            PlayerId(9),
            click(0),
            InventoryClickTarget::Outside,
            InventoryClickButton::Left,
            &InventoryClickValidation::Authoritative,
        )
        .is_none());
}

#[test]
fn slots_of_windows_are_listed_in_order() {
    let own = visible_slots(&Rules, &ContainerKindId::new(PLAYER));
    assert_eq!(own.len(), 9 + 27 + 9 + 1);
    assert_eq!(own[0], InventorySlot::WindowLocal(0));
    assert_eq!(own[45], InventorySlot::Offhand);
    assert_eq!(visible_slots(&Rules, &ContainerKindId::new(CHEST)).len(), 2 + 27 + 9);
    assert_eq!(visible_slots(&Rules, &ContainerKindId::new("else")).len(), 27 + 9);
}

#[test]
fn client_is_told_of_changed_slots_and_properties_alone() {
    let before = InventoryWindowContents::with_local_slots(
        PlayerInventory::new_empty(),
        vec![Some(stone(1)), None],
    );
    let after = InventoryWindowContents::with_local_slots(
        PlayerInventory::new_empty(),
        vec![Some(stone(1)), Some(stone(2))],
    );
    let kind = ContainerKindId::new(CHEST);
    let events = inventory_diff_events(&Rules, 3, &kind, PlayerId(1), &before, &after);
    assert_eq!(events.len(), 1);
    assert_eq!(
        events[0].event,
        CoreEvent::InventorySlotChanged {
            window_id: 3,
            container: ContainerKindId::new(CHEST),
            slot: InventorySlot::WindowLocal(1),
            stack: Some(stone(2)),
        }
    );
    let key = |name: &str| ContainerPropertyKey::new(name);
    let events = property_diff_events(
        3,
        PlayerId(1),
        &vec![(key("a"), 1), (key("b"), 2)],
        &vec![(key("a"), 1), (key("b"), 3), (key("c"), 0)],
    );
    assert_eq!(events.len(), 2);
}

#[test]
fn client_sees_a_window_anew() {
    let contents = InventoryWindowContents::player(PlayerInventory::new_empty());
    let events = window_resync_events(
        &Rules,
        PlayerId(1),
        0,
        &ContainerKindId::new(PLAYER),
        &contents,
        4,
        Some(&stone(1)),
        Some(InventorySlot::Hotbar(0)),
    );
    assert_eq!(events.len(), 4);
    assert_eq!(events[2].event, CoreEvent::SelectedHotbarSlotChanged { slot: 4 });
    assert_eq!(events[3].event, CoreEvent::CursorChanged { stack: Some(stone(1)) });
}

#[test]
fn client_sees_the_whole_game_anew() {
    let mut core = game();
    open_chest(&mut core);
    let _ = core.state_spawn_dropped_item(
        None,
        vec3(1.0, 1.0, 1.0),
        ChunkPos::new(0, 0),
        stone(1),
        5,
    );
    let _ = core.state_spawn_dropped_item(
        Some(EntityId(4)),
        vec3(99.0, 1.0, 1.0),
        ChunkPos::new(6, 0),
        stone(1),
        5,
    );
    core.entities.player_active_mining.insert(
        EntityId(2),
        ActiveMiningState {
            tool_context: Some(MiningToolSpec { bytes: vec![0xa0] }),
            position: BlockPos::new(1, 1, 1),
            started_at_ms: 0,
            duration_ms: 70,
            last_stage: Some(2),
        },
    );
    core.set_block_at(&Rules, BlockPos::new(3, 3, 3), Some(BlockState::new("minecraft:stone")));
    let events = core.session_resync_events(&Rules, PlayerId(1));
    assert_eq!(events.len(), 9);
    assert!(events.iter().all(|event| event.target == EventTarget::Player(PlayerId(1))));
    assert!(matches!(
        &events[0].event,
        CoreEvent::PlayBootstrap { entity_id: EntityId(1), view_distance: 2, .. }
    ));
    assert!(matches!(&events[1].event, CoreEvent::ChunkBatch { chunks } if chunks.len() == 1));
    assert!(matches!(&events[2].event, CoreEvent::EntitySpawned { entity_id: EntityId(2), .. }));
    assert!(matches!(
        &events[3].event,
        CoreEvent::DroppedItemSpawned { entity_id: EntityId(3), .. }
    ));
    assert!(matches!(
        &events[4].event,
        CoreEvent::BlockBreakingProgress { duration_ms: 70, stage: Some(2), .. }
    ));
    assert!(matches!(&events[5].event, CoreEvent::InventoryContents { window_id: 3, .. }));
    assert!(matches!(
        &events[6].event,
        CoreEvent::ContainerPropertyChanged { window_id: 3, value: 1, .. }
    ));
    assert_eq!(events[7].event, CoreEvent::SelectedHotbarSlotChanged { slot: 0 });
    assert_eq!(events[8].event, CoreEvent::CursorChanged { stack: None });
    assert!(core.session_resync_events(&Rules, PlayerId(9)).is_empty());
}

#[test]
fn moving_player_is_noticed_and_notices() {
    let mut core = game();
    core.entities.dropped_items.insert(
        EntityId(8),
        DroppedItemState {
            snapshot: DroppedItemSnapshot {
                item: stone(1),
                position: vec3(0.0, 0.0, 0.0),
                velocity: vec3(0.0, 0.0, 0.0),
            },
            chunk: ChunkPos::new(6, 0),
            last_updated_at_ms: 0,
            pickup_allowed_at_ms: 0,
            despawn_at_ms: 0,
        },
    );
    let delta = core
        .state_player_pose(
            &Rules,
            PlayerId(1),
            Some((vec3(80.5, 4.0, 0.5), ChunkPos::new(5, 0))),
            Some(OpaqueF32(7)),
            None,
            false,
        )
        .unwrap();
    assert_eq!(delta.entity_id, EntityId(1));
    assert_eq!(delta.player.position, vec3(80.5, 4.0, 0.5));
    assert_eq!(delta.player.yaw, OpaqueF32(7));
    assert_eq!(delta.chunks.len(), 9);
    assert_eq!(delta.despawned_for_viewers, vec![PlayerId(2)]);
    assert!(delta.moved_for_viewers.is_empty());
    assert_eq!(delta.observed_entities_left, vec![EntityId(2)]);
    assert_eq!(delta.observed_items_entered.len(), 1);
    let back = core
        .state_player_pose(
            &Rules,
            PlayerId(1),
            Some((vec3(0.5, 4.0, 0.5), ChunkPos::new(0, 0))),
            None,
            None,
            true,
        )
        .unwrap();
    assert_eq!(back.spawned_for_viewers, vec![PlayerId(2)]);
    assert_eq!(back.observed_players_entered.len(), 1);
    assert_eq!(back.observed_entities_left, vec![EntityId(8)]);
    assert!(core.state_player_pose(&Rules, PlayerId(9), None, None, None, true).is_none());
}

#[test]
fn placed_block_brings_its_contents_and_removed_one_takes_them() {
    let mut core = game();
    let position = BlockPos::new(-3, 70, 20);
    let chest = Some(BlockState::new("minecraft:chest"));
    let change = core.state_set_block(&Rules, position, chest, vec![PlayerId(1)]);
    assert_eq!(core.block_entity(position), None);
    let delta = core.finish_set_block(&Rules, change, vec![3_u8]);
    assert_eq!(delta.position, position);
    assert_eq!(delta.cleared_mining, vec![PlayerId(1)]);
    assert_eq!(delta.closed_containers, vec![3]);
    assert_eq!(
        core.block_state(&Rules, position),
        Some(BlockState::new("minecraft:chest"))
    );
    assert!(matches!(core.block_entity(position), Some(BlockEntityState::Container(_))));
    let change = core.state_set_block(&Rules, position, None, ());
    assert!(core.block_entity(position).is_some());
    let _ = core.finish_set_block(&Rules, change, ());
    assert_eq!(core.block_state(&Rules, position), None);
    assert_eq!(core.block_entity(position), None);
    assert_eq!(
        core.block_state(&Rules, BlockPos::new(32, 0, 32)),
        Some(BlockState::new("minecraft:bedrock"))
    );
}

#[test]
fn dropped_items_get_numbers_and_times() {
    let mut core = game();
    let delta = core.state_spawn_dropped_item(
        Some(EntityId(3)),
        vec3(1.0, 1.0, 1.0),
        ChunkPos::new(0, 0),
        stone(1),
        1_000,
    );
    assert_eq!(delta.entity_id, EntityId(3));
    let kept = core.entities.dropped_items.get(&EntityId(3)).unwrap();
    assert_eq!(kept.pickup_allowed_at_ms, 1_500);
    assert_eq!(kept.despawn_at_ms, 301_000);
    assert_eq!(core.entities.next_entity_id, 4);
}

#[test]
fn only_slots_at_hand_can_be_selected() {
    let mut core = game();
    assert!(core.state_selected_hotbar_slot(PlayerId(1), 9).is_none());
    assert!(core.state_selected_hotbar_slot(PlayerId(1), 8).is_some());
    assert_eq!(core.player_snapshot(PlayerId(1)).unwrap().selected_hotbar_slot, 8);
}

#[test]
fn view_distance_is_capped() {
    let mut core = game();
    let delta = core.state_update_client_settings(&Rules, PlayerId(1), 9).unwrap();
    assert_eq!(delta.chunks.len(), 25 - 9);
    let delta = core.state_update_client_settings(&Rules, PlayerId(1), 0).unwrap();
    assert!(delta.chunks.is_empty());
    assert_eq!(core.player_session(PlayerId(1)).unwrap().view.view_distance, 1);
}

#[test]
fn joining_player_is_told_of_everything_there() {
    let mut core = game();
    let delta = core.finalize_login_delta(&Rules, ConnectionId(5), PlayerId(1)).unwrap();
    assert_eq!(delta.visible_chunks.len(), 9);
    assert_eq!(delta.existing_players.len(), 1);
    assert_eq!(delta.existing_players[0].0, EntityId(2));
    assert!(delta.dropped_items.is_empty());
    assert!(core.finalize_login_delta(&Rules, ConnectionId(5), PlayerId(9)).is_none());
}

#[test]
fn refused_connection_is_told_why() {
    let events = reject_connection(ConnectionId(4), "full");
    assert_eq!(events[0].target, EventTarget::Connection(ConnectionId(4)));
    assert_eq!(events[0].event, CoreEvent::Disconnect { reason: "full".to_string() });
}

#[test]
fn hand_is_corrected() {
    let mut player: PlayerSnapshot = default_player(
        PlayerId(1),
        "alice".to_string(),
        vec3(0.5, 4.0, 0.5),
        PlayerInventory::new_empty(),
    );
    assert_eq!(player.health, OpaqueF32(20.0_f32.to_bits()));
    assert_eq!(player.food_saturation, OpaqueF32(5.0_f32.to_bits()));
    player.selected_hotbar_slot = 2;
    let _ = player.inventory.set_slot(InventorySlot::Hotbar(2), Some(stone(3)));
    let events = place_inventory_correction(
        PlayerId(1),
        InteractionHand::Main,
        &player,
        ContainerKindId::new(PLAYER),
    );
    assert_eq!(
        events[0].event,
        CoreEvent::InventorySlotChanged {
            window_id: 0,
            container: ContainerKindId::new(PLAYER),
            slot: InventorySlot::Hotbar(2),
            stack: Some(stone(3)),
        }
    );
}

#[test]
fn player_who_leaves_takes_everything_along() {
    let mut core = game();
    let left = core.remove_online_player(PlayerId(2)).unwrap();
    assert_eq!(left.entity_id, EntityId(2));
    assert!(core.player_snapshot(PlayerId(2)).is_none());
    assert!(core.entities.entity_kinds.get(&EntityId(2)).is_none());
    assert_eq!(core.player_summary().online_players, 1);
    assert!(core.remove_online_player(PlayerId(2)).is_none());
}

#[test]
fn settings_change_the_world_and_leave_the_seed() {
    let mut core = game();
    core.set_max_players(5);
    assert_eq!(core.player_summary().max_players, 5);
    assert_eq!(core.world_meta().max_players, 5);
    let mut config = CoreConfig::default();
    config.level_name = "other".to_string();
    config.seed = 77;
    core.reconfigure(config);
    assert_eq!(core.world_meta().level_name, "other");
    assert_eq!(core.world_meta().seed, 0);
}

#[test]
fn saved_world_holds_the_players_in_the_game() {
    let core = game();
    let mut persisted = OrderedMap::new();
    for number in [1_u128, 9] {
        persisted.insert(
            PlayerId(number),
            default_player(
                PlayerId(number),
                "bob".to_string(),
                vec3(0.0, 0.0, 0.0),
                PlayerInventory::new_empty(),
            ),
        );
    }
    let snapshot = core.snapshot(&persisted);
    assert!(snapshot.players.get(&PlayerId(1)).is_some());
    assert!(snapshot.players.get(&PlayerId(9)).is_none());
    let again = ServerCore::from_snapshot(CoreConfig::default(), snapshot);
    assert!(again.world.saved_players.get(&PlayerId(1)).is_some());
    assert_eq!(again.player_summary().online_players, 0);
    assert_eq!(again.world_meta().time, 6000);
}

#[test]
fn chunk_text_names_its_chunk() {
    assert_eq!(ChunkPos::new(-3, 12).to_text(), "-3,12");
    for (x, z) in [(0, 0), (-1, 7), (i32::MIN, i32::MAX), (100, -20)] {
        let pos = ChunkPos::new(x, z);
        assert_eq!(pos.to_text(), format!("{x},{z}"));
        assert_eq!(ChunkPos::from_text(&pos.to_text()), Ok(pos));
    }
}

#[test]
fn chunk_text_faults_are_told_apart() {
    assert_eq!(ChunkPos::from_text("12"), Err(ChunkTextFault::NoComma));
    assert_eq!(ChunkTextFault::NoComma.message(), "invalid chunk coordinate");
    for (text, fault) in [
        (",1", NumberFault::Empty),
        ("1,", NumberFault::Empty),
        ("1,2,3", NumberFault::InvalidDigit),
        (" 1,2", NumberFault::InvalidDigit),
        ("1,2147483648", NumberFault::TooLarge),
        ("-2147483649,1", NumberFault::TooSmall),
    ] {
        assert_eq!(ChunkPos::from_text(text), Err(ChunkTextFault::Coordinate(fault)));
        assert_eq!(ChunkTextFault::Coordinate(fault).message(), fault.message());
    }
}

#[test]
fn numbers_are_read_like_std_reads_them() {
    for text in [
        "", "+", "-", "0", "-0", "+7", "007", "+-7", "2147483647", "-2147483648", "2147483648",
        "-2147483649", "99999999999x", "-99999999999x", "12x99999999999", "x", "1 ", "1_0",
        "\u{e9}",
    ] {
        match text.parse::<i32>() {
            Ok(number) => assert_eq!(parse_i32(text), Ok(number), "{text}"),
            Err(error) => {
                let fault = parse_i32(text).unwrap_err();
                assert_eq!(fault.message(), error.to_string(), "{text}");
            }
        }
    }
}

#[test]
fn block_faces_have_protocol_bytes() {
    let faces = [
        BlockFace::Bottom,
        BlockFace::Top,
        BlockFace::North,
        BlockFace::South,
        BlockFace::West,
        BlockFace::East,
    ];
    for (byte, face) in faces.into_iter().enumerate() {
        assert_eq!(BlockFace::from_protocol_byte(byte as u8), Some(face));
    }
    assert_eq!(BlockFace::from_protocol_byte(6), None);
    assert_eq!(BlockFace::from_protocol_byte(255), None);
}

#[test]
fn slots_tell_what_they_are_for() {
    assert!(InventorySlot::Hotbar(0).is_storage_slot());
    assert!(InventorySlot::Offhand.is_storage_slot());
    assert!(!InventorySlot::WindowLocal(0).is_storage_slot());
    assert_eq!(InventorySlot::WindowLocal(255).container_index(), Some(255));
    assert_eq!(InventorySlot::WindowLocal(256).container_index(), None);
    assert_eq!(InventorySlot::Hotbar(1).container_index(), None);
    assert_eq!(InventorySlot::WindowLocal(0).crafting_input_index(), None);
    assert_eq!(InventorySlot::WindowLocal(1).crafting_input_index(), Some(0));
    assert_eq!(InventorySlot::WindowLocal(4).crafting_input_index(), Some(3));
    assert_eq!(InventorySlot::WindowLocal(5).crafting_input_index(), None);
    assert!(!InventorySlot::WindowLocal(4).is_reserved_auxiliary());
    assert!(InventorySlot::WindowLocal(5).is_reserved_auxiliary());
    assert!(InventorySlot::WindowLocal(8).is_reserved_auxiliary());
    assert!(!InventorySlot::WindowLocal(9).is_reserved_auxiliary());
}

#[test]
fn crafting_inputs_and_selection_are_read_back() {
    let mut inventory = PlayerInventory::new_empty();
    assert!(inventory.set_crafting_input(2, Some(ItemStack::new("minecraft:log", 3, 0))));
    assert!(!inventory.set_crafting_input(4, Some(ItemStack::new("minecraft:log", 3, 0))));
    assert_eq!(inventory.crafting_input(2), Some(&ItemStack::new("minecraft:log", 3, 0)));
    assert_eq!(inventory.crafting_input(3), None);
    assert!(inventory.set_slot(
        InventorySlot::Hotbar(4),
        Some(ItemStack::new("minecraft:stone", 9, 0))
    ));
    inventory.offhand = Some(ItemStack::new("minecraft:shield", 1, 5));
    assert_eq!(
        inventory.selected_stack(4, InteractionHand::Main),
        Some(&ItemStack::new("minecraft:stone", 9, 0))
    );
    assert_eq!(inventory.selected_stack(5, InteractionHand::Main), None);
    assert_eq!(
        inventory.selected_stack(5, InteractionHand::Offhand),
        Some(&ItemStack::new("minecraft:shield", 1, 5))
    );
}

#[test]
fn sections_list_their_blocks_in_order() {
    let mut section = ChunkSection::new(0);
    section.set_block(1, 2, 3, Some(BlockState::new("minecraft:stone")));
    section.set_block(4, 0, 0, Some(BlockState::new("minecraft:dirt")));
    section.set_block(9, 9, 9, Some(BlockState::new("minecraft:glass")));
    section.set_block(9, 9, 9, None);
    assert_eq!(section.block_count(), 2);
    let blocks = section.iter_blocks();
    assert_eq!(blocks.len(), 2);
    assert_eq!(blocks[0].0.expand(), (4, 0, 0));
    assert_eq!(blocks[0].1, &BlockState::new("minecraft:dirt"));
    assert_eq!(blocks[1].0.expand(), (1, 2, 3));
    assert_eq!(blocks[1].1, &BlockState::new("minecraft:stone"));
}

#[test]
fn click_in_a_window_that_is_not_open_changes_nothing() {
    let mut core = game();
    let mut few = PlayerInventory::new_empty();
    few.slots.truncate(3);
    core.entities.player_inventory.insert(EntityId(1), few);
    let mut held = session(EntityId(1), ChunkPos::new(0, 0));
    held.cursor = Some(stone(200));
    core.sessions.player_sessions.insert(PlayerId(1), held);
    let before = core.replica();
    let delta = core
        .apply_inventory_click_state(
            &Rules,
            PlayerId(1),
            click(8),
            InventoryClickTarget::Slot(InventorySlot::Hotbar(0)),
            InventoryClickButton::Left,
            &InventoryClickValidation::Authoritative,
        )
        .unwrap();
    assert!(!delta.accepted);
    assert!(!delta.should_resync_on_reject);
    assert_eq!(delta.resolved_slot, None);
    assert_eq!(delta.window_id, 8);
    assert_eq!(delta.before_contents, delta.after_contents);
    assert_eq!(delta.before_cursor, delta.after_cursor);
    assert_eq!(core, before);
}

#[test]
fn click_on_a_slot_that_is_missing_is_refused() {
    let mut core = game();
    let mut few = PlayerInventory::new_empty();
    few.slots.truncate(3);
    core.entities.player_inventory.insert(EntityId(1), few);
    let before = core.replica();
    let delta = core
        .apply_inventory_click_state(
            &Rules,
            PlayerId(1),
            click(0),
            InventoryClickTarget::Slot(InventorySlot::Hotbar(0)),
            InventoryClickButton::Left,
            &InventoryClickValidation::Authoritative,
        )
        .unwrap();
    assert!(!delta.accepted);
    assert_eq!(core, before);
    let mut few = PlayerInventory::new_empty();
    few.slots.truncate(3);
    assert!(few.get_slot_mut(InventorySlot::Hotbar(0)).is_none());
    assert!(few.get_slot_mut(InventorySlot::WindowLocal(2)).is_some());
    assert!(!few.set(45, None));
    assert!(few.set_slot(InventorySlot::Offhand, Some(stone(1))));
}
