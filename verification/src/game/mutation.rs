//! Single changes to the state of a game.

use crate::game::content::ContentBehavior;
use crate::game::state::{with_block_at, with_block_entity, CoreView, ServerCore};
use crate::game::store::{DroppedItemState, DroppedStateView, EntitiesView, EntityKind};
use crate::game::window_click::inventory_of;
use crate::model::block::{
    block_view, block_wf, duplicate_block, BlockPos, BlockState, BlockView, ChunkPos, Vec3,
};
use crate::model::event::{CoreEvent, TargetedEvent};
use crate::model::event_view::{event_views, tell, told, EventView};
use crate::model::ids::{EntityId, PlayerId};
use crate::model::inventory::{InteractionHand, InventorySlot, InventoryView, HOTBAR_SLOT_COUNT};
use crate::model::item::{duplicate_stack, stack_view, stack_wf, ItemStack, OpaqueF64, StackView};
use crate::model::names::ContainerKindId;
use crate::model::player::{
    BlockEntityState, DroppedItemSnapshot, DroppedItemView, PlayerSnapshot, PlayerView,
};
use crate::model::sameness::same_stack;
use crate::ordered::{insert_laws, inserted, lookup, Key, Stored};
use vstd::prelude::*;

verus! {

/// How long items lie before they can be picked up, in milliseconds.
pub const DROPPED_ITEM_PICKUP_DELAY_MS: u64 = 500;

/// How long items lie before they vanish, in milliseconds.
pub const DROPPED_ITEM_DESPAWN_MS: u64 = 300_000;

/// Another slot is at hand.
#[derive(Clone, Copy, Debug, PartialEq, Eq, Structural)]
pub struct SelectedHotbarDelta {
    pub player_id: PlayerId,
    pub slot: u8,
}

/// A slot holds something else, and perhaps so does the slot for the result of crafting.
#[derive(Debug, PartialEq, Eq)]
pub struct InventorySlotDelta {
    pub player_id: PlayerId,
    pub slot: InventorySlot,
    pub stack: Option<ItemStack>,
    pub crafting_result: Option<Option<ItemStack>>,
}

/// What a slot that holds something else is told to hold.
pub struct SlotChangeView {
    pub player_id: PlayerId,
    pub slot: InventorySlot,
    pub stack: Option<StackView>,
    pub crafting_result: Option<Option<StackView>>,
}

impl View for InventorySlotDelta {
    type V = SlotChangeView;

    open spec fn view(&self) -> SlotChangeView {
        SlotChangeView {
            player_id: self.player_id,
            slot: self.slot,
            stack: stack_view(self.stack),
            crafting_result: match self.crafting_result {
                Some(crafted) => Some(stack_view(crafted)),
                None => None,
            },
        }
    }
}

/// A block that was put at a place, before the containers that it leaves without a place are
/// closed and its contents are put in.
#[derive(Debug, PartialEq, Eq)]
pub struct BlockChange<M> {
    pub position: BlockPos,
    pub block: Option<BlockState>,
    pub cleared_mining: M,
}

/// Another block stands at a place: what became of mining there, and of open containers there.
#[derive(Debug, PartialEq, Eq)]
pub struct BlockDelta<M, C> {
    pub position: BlockPos,
    pub cleared_mining: M,
    pub closed_containers: C,
}

/// Items lie in the world.
#[derive(Debug, PartialEq, Eq)]
pub struct DroppedItemSpawnDelta {
    pub entity_id: EntityId,
    pub item: DroppedItemSnapshot,
}

/// A game in which another slot is at hand.
pub open spec fn with_selected_slot(core: CoreView, entity_id: EntityId, slot: u8) -> CoreView {
    CoreView {
        entities: EntitiesView {
            player_selected_hotbar: inserted(
                core.entities.player_selected_hotbar,
                entity_id.id(),
                slot,
            ),
            ..core.entities
        },
        ..core
    }
}

/// A game with another inventory of an entity.
pub open spec fn with_inventory(
    core: CoreView,
    entity_id: EntityId,
    inventory: InventoryView,
) -> CoreView {
    CoreView {
        entities: EntitiesView {
            player_inventory: inserted(
                core.entities.player_inventory,
                entity_id.id(),
                inventory,
            ),
            ..core.entities
        },
        ..core
    }
}

/// Whether a player has another slot at hand, and the game then: there are nine of them, and who is
/// not in the game has none.
pub open spec fn slot_selected(core: CoreView, player_id: PlayerId, slot: u8) -> (bool, CoreView) {
    match core.entity(player_id) {
        Some(entity_id) => if slot < 9 && lookup(
            core.entities.player_selected_hotbar,
            entity_id.id(),
        ) is Some {
            (true, with_selected_slot(core, entity_id, slot))
        } else {
            (false, core)
        },
        None => (false, core),
    }
}

/// What is told of a stack that is put into a slot of a player, and the game then. The result of
/// crafting is told where it changed and was not itself put there.
pub open spec fn slot_given<B: ContentBehavior>(
    core: CoreView,
    behavior: B,
    player_id: PlayerId,
    slot: InventorySlot,
    stack: Option<StackView>,
) -> (Option<SlotChangeView>, CoreView) {
    match (core.entity(player_id), inventory_of(core, player_id)) {
        (Some(entity_id), Some(inventory)) => {
            let after = behavior.normal_inventory(inventory.with_slot(slot, stack));
            (
                Some(
                    SlotChangeView {
                        player_id,
                        slot,
                        stack,
                        crafting_result: if inventory.at(0) != after.at(0) && slot
                            != InventorySlot::WindowLocal(0) {
                            Some(after.at(0))
                        } else {
                            None
                        },
                    },
                ),
                with_inventory(core, entity_id, after),
            )
        },
        _ => (None, core),
    }
}

/// A game in which a place holds what the block that was put there holds. What the place held is
/// left to a block that holds nothing.
pub open spec fn with_contents_of<B: ContentBehavior>(
    core: CoreView,
    behavior: B,
    position: BlockPos,
    block: Option<BlockView>,
) -> CoreView {
    match block {
        Some(block) => match behavior.placed_contents(block) {
            Some(contents) => with_block_entity(core, position, Some(contents)),
            None => core,
        },
        None => with_block_entity(core, position, None),
    }
}

/// The sum of two numbers, or the largest number.
pub open spec fn later(now_ms: u64, wait_ms: u64) -> u64 {
    if now_ms + wait_ms > u64::MAX {
        u64::MAX
    } else {
        (now_ms + wait_ms) as u64
    }
}

/// Items that were dropped and do not move.
pub open spec fn dropped(
    position: Vec3,
    chunk: ChunkPos,
    item: StackView,
    now_ms: u64,
) -> DroppedStateView {
    let nought = OpaqueF64(0);
    DroppedStateView {
        snapshot: DroppedItemView {
            item,
            position,
            velocity: Vec3 { x: nought, y: nought, z: nought },
        },
        chunk,
        last_updated_at_ms: now_ms,
        pickup_allowed_at_ms: later(now_ms, 500),
        despawn_at_ms: later(now_ms, 300_000),
    }
}

/// A game in which items lie, under the next free number.
pub open spec fn with_dropped(core: CoreView, state: DroppedStateView) -> CoreView {
    let id = EntityId(core.entities.next_entity_id).id();
    CoreView {
        entities: EntitiesView {
            entity_kinds: inserted(core.entities.entity_kinds, id, EntityKind::DroppedItem),
            dropped_items: inserted(core.entities.dropped_items, id, state),
            next_entity_id: (core.entities.next_entity_id + 1) as i32,
            ..core.entities
        },
        ..core
    }
}

impl ServerCore {
    /// Puts another slot at hand, if there is such a slot.
    pub fn state_selected_hotbar_slot(&mut self, player_id: PlayerId, slot: u8) -> (result: Option<
        SelectedHotbarDelta,
    >)
        requires
            old(self).sound(),
        ensures
            final(self).sound(),
            match old(self)@.entity(player_id) {
                Some(entity_id) => if slot < 9 && lookup(
                    old(self)@.entities.player_selected_hotbar,
                    entity_id.id(),
                ) is Some {
                    result == Some(SelectedHotbarDelta { player_id, slot }) && final(self)@
                        == with_selected_slot(old(self)@, entity_id, slot)
                } else {
                    result is None && final(self)@ == old(self)@
                },
                None => result is None && final(self)@ == old(self)@,
            },
            (result is Some, final(self)@) == slot_selected(old(self)@, player_id, slot),
    {
        let entity_id = self.player_entity_id(player_id)?;
        if slot >= HOTBAR_SLOT_COUNT {
            return None;
        }
        let selected: &mut u8 = self.entities.player_selected_hotbar.look_mut(&entity_id)?;
        *selected = slot;
        Some(SelectedHotbarDelta { player_id, slot })
    }

    /// Puts a stack, or none, into a slot of a player's inventory and works out what follows.
    pub fn state_inventory_slot<B: ContentBehavior>(
        &mut self,
        content_behavior: &B,
        player_id: PlayerId,
        slot: InventorySlot,
        stack: Option<ItemStack>,
    ) -> (result: Option<InventorySlotDelta>)
        requires
            old(self).sound(),
            stack_wf(stack),
            inventory_of(old(self)@, player_id) matches Some(inventory) ==> inventory.reaches(
                slot,
            ),
        ensures
            final(self).sound(),
            match (old(self)@.entity(player_id), inventory_of(old(self)@, player_id)) {
                (Some(entity_id), Some(inventory)) => {
                    let after = content_behavior.normal_inventory(
                        inventory.with_slot(slot, stack_view(stack)),
                    );
                    &&& final(self)@ == with_inventory(old(self)@, entity_id, after)
                    &&& result matches Some(delta)
                    &&& delta.player_id == player_id
                    &&& delta.slot == slot
                    &&& stack_view(delta.stack) == stack_view(stack)
                    &&& match delta.crafting_result {
                        Some(crafted) => inventory.at(0) != after.at(0) && slot
                            != InventorySlot::WindowLocal(0) && stack_view(crafted) == after.at(0),
                        None => inventory.at(0) == after.at(0) || slot
                            == InventorySlot::WindowLocal(0),
                    }
                },
                _ => result is None && final(self)@ == old(self)@,
            },
            ({
                let (told, after) = slot_given(
                    old(self)@,
                    *content_behavior,
                    player_id,
                    slot,
                    stack_view(stack),
                );
                &&& final(self)@ == after
                &&& match result {
                    Some(delta) => told == Some(delta@),
                    None => told is None,
                }
            }),
    {
        let entity_id = self.player_entity_id(player_id)?;
        let inventory = self.entities.player_inventory.look_mut(&entity_id)?;
        let before_result = match inventory.crafting_result() {
            Some(stack) => Some(stack.duplicate()),
            None => None,
        };
        let _ = inventory.set_slot(slot, duplicate_stack(&stack));
        content_behavior.normalize_player_inventory(inventory);
        let after_result = match inventory.crafting_result() {
            Some(stack) => Some(stack.duplicate()),
            None => None,
        };
        let changed = !same_stack(before_result.as_ref(), after_result.as_ref());
        let crafting_result = if changed && !slot.is_crafting_result() {
            Some(after_result)
        } else {
            None
        };
        Some(InventorySlotDelta { player_id, slot, stack, crafting_result })
    }

    /// Puts a block, or none, at a place where mining has been stopped, which led to
    /// `cleared_mining`. Containers there that cannot stay open are to be closed next, and then
    /// the change is to be finished.
    pub fn state_set_block<B: ContentBehavior, M>(
        &mut self,
        content_behavior: &B,
        position: BlockPos,
        block: Option<BlockState>,
        cleared_mining: M,
    ) -> (result: BlockChange<M>)
        requires
            old(self).sound(),
            block_wf(block),
        ensures
            final(self).sound(),
            final(self)@ == with_block_at(
                old(self)@,
                *content_behavior,
                position,
                block_view(block),
            ),
            result.position == position,
            block_wf(result.block),
            block_view(result.block) == block_view(block),
            result.cleared_mining == cleared_mining,
    {
        let placed = duplicate_block(&block);
        self.set_block_at(content_behavior, position, placed);
        BlockChange { position, block, cleared_mining }
    }

    /// Puts in what a block that was put at a place holds, after containers there were closed,
    /// which led to `closed_containers`.
    pub fn finish_set_block<B: ContentBehavior, M, C>(
        &mut self,
        content_behavior: &B,
        change: BlockChange<M>,
        closed_containers: C,
    ) -> (result: BlockDelta<M, C>)
        requires
            old(self).sound(),
            block_wf(change.block),
        ensures
            final(self).sound(),
            final(self)@ == with_contents_of(
                old(self)@,
                *content_behavior,
                change.position,
                block_view(change.block),
            ),
            result.position == change.position,
            result.cleared_mining == change.cleared_mining,
            result.closed_containers == closed_containers,
    {
        match &change.block {
            Some(block) => {
                if let Some(contents) = content_behavior.default_block_entity_for_block(block) {
                    self.set_block_entity(
                        change.position,
                        Some(BlockEntityState::Container(contents)),
                    );
                }
            },
            None => {
                self.set_block_entity(change.position, None);
            },
        }
        BlockDelta {
            position: change.position,
            cleared_mining: change.cleared_mining,
            closed_containers,
        }
    }

    /// Drops items at a place, which comes with the chunk that it lies in.
    pub fn state_spawn_dropped_item(
        &mut self,
        expected_entity_id: Option<EntityId>,
        position: Vec3,
        chunk: ChunkPos,
        item: ItemStack,
        now_ms: u64,
    ) -> (result: DroppedItemSpawnDelta)
        requires
            old(self).sound(),
            item.wf(),
            old(self)@.entities.next_entity_id < i32::MAX,
            expected_entity_id matches Some(entity_id) ==> entity_id.0
                == old(self)@.entities.next_entity_id,
        ensures
            final(self).sound(),
            final(self)@ == with_dropped(old(self)@, dropped(position, chunk, item@, now_ms)),
            result.entity_id.0 == old(self)@.entities.next_entity_id,
            result.item@ == dropped(position, chunk, item@, now_ms).snapshot,
            result.item.item@ == item@,
            result.item.position == position,
            lookup(final(self)@.entities.dropped_items, result.entity_id.id()) matches Some(kept)
                && kept.snapshot.item == item@ && kept.snapshot == result.item@,
    {
        proof {
            insert_laws(
                self@.entities.dropped_items,
                EntityId(self.entities.next_entity_id).id(),
                dropped(position, chunk, item@, now_ms),
                EntityId(self.entities.next_entity_id).id(),
            );
        }
        let entity_id = EntityId(self.entities.next_entity_id);
        self.entities.next_entity_id = self.entities.next_entity_id + 1;
        let nought = OpaqueF64(0);
        let snapshot = DroppedItemSnapshot {
            item,
            position,
            velocity: Vec3::new(nought, nought, nought),
        };
        let copy = snapshot.duplicate();
        self.entities.entity_kinds.put(entity_id, EntityKind::DroppedItem);
        self.entities.dropped_items.put(
            entity_id,
            DroppedItemState {
                snapshot,
                chunk,
                last_updated_at_ms: now_ms,
                pickup_allowed_at_ms: now_ms.saturating_add(DROPPED_ITEM_PICKUP_DELAY_MS),
                despawn_at_ms: now_ms.saturating_add(DROPPED_ITEM_DESPAWN_MS),
            },
        );
        DroppedItemSpawnDelta { entity_id, item: copy }
    }
}

/// The slot that a hand holds.
pub open spec fn slot_at_hand(hand: InteractionHand, player: PlayerView) -> InventorySlot {
    match hand {
        InteractionHand::Main => InventorySlot::Hotbar(player.selected_hotbar_slot),
        InteractionHand::Offhand => InventorySlot::Offhand,
    }
}

/// Tells a client what a hand really holds.
pub fn place_inventory_correction(
    player_id: PlayerId,
    hand: InteractionHand,
    player: &PlayerSnapshot,
    player_container: ContainerKindId,
) -> (result: Vec<TargetedEvent>)
    ensures
        event_views(result@) == seq![
            told(
                player_id,
                EventView::InventorySlotChanged {
                    window_id: 0,
                    container: player_container@,
                    slot: slot_at_hand(hand, player@),
                    stack: player@.inventory.slot(slot_at_hand(hand, player@)),
                },
            ),
            told(
                player_id,
                EventView::SelectedHotbarSlotChanged { slot: player@.selected_hotbar_slot },
            ),
        ],
{
    let slot = match hand {
        InteractionHand::Main => InventorySlot::Hotbar(player.selected_hotbar_slot),
        InteractionHand::Offhand => InventorySlot::Offhand,
    };
    let stack = match player.inventory.get_slot(slot) {
        Some(stack) => Some(stack.duplicate()),
        None => None,
    };
    let ghost container = player_container@;
    let ghost held = stack_view(stack);
    let mut events: Vec<TargetedEvent> = Vec::new();
    tell(
        &mut events,
        player_id,
        CoreEvent::InventorySlotChanged { window_id: 0, container: player_container, slot, stack },
    );
    tell(
        &mut events,
        player_id,
        CoreEvent::SelectedHotbarSlotChanged { slot: player.selected_hotbar_slot },
    );
    assert(event_views(events@) =~= seq![
        told(
            player_id,
            EventView::InventorySlotChanged { window_id: 0, container, slot, stack: held },
        ),
        told(
            player_id,
            EventView::SelectedHotbarSlotChanged { slot: player@.selected_hotbar_slot },
        ),
    ]);
    events
}

} // verus!
