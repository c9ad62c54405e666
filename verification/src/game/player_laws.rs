//! What can be said of players: what they are made up of, and what is put into their hands.

use crate::game::content::ContentBehavior;
use crate::game::mutation::{slot_given, slot_selected};
use crate::game::pose::pose;
use crate::game::state::{composed, CoreView};
use crate::game::state_laws::{given_inventory_is_kept, selected_slot_is_at_hand};
use crate::game::store::EntitiesView;
use crate::game::window_click::inventory_of;
use crate::model::block::{ChunkPos, Vec3};
use crate::model::ids::{EntityId, PlayerId};
use crate::model::inventory::InventorySlot;
use crate::model::item::{OpaqueF32, StackView};
use crate::model::player::PlayerView;
use crate::ordered::{lookup, Key};
use crate::transfer::consistency::well_keyed;
use vstd::prelude::*;

verus! {

/// A player is there where an entity has all its parts, and is what they are: who the player is,
/// the place and the look, the health and the hunger, the inventory and the slot at hand.
pub proof fn player_is_made_up_of_parts(entities: EntitiesView, entity_id: EntityId)
    ensures
        composed(entities, entity_id) is Some <==> {
            &&& lookup(entities.player_identity, entity_id.id()) is Some
            &&& lookup(entities.player_transform, entity_id.id()) is Some
            &&& lookup(entities.player_vitals, entity_id.id()) is Some
            &&& lookup(entities.player_inventory, entity_id.id()) is Some
            &&& lookup(entities.player_selected_hotbar, entity_id.id()) is Some
        },
        composed(entities, entity_id) matches Some(player) ==> {
            let identity = lookup(entities.player_identity, entity_id.id())->Some_0;
            let transform = lookup(entities.player_transform, entity_id.id())->Some_0;
            let vitals = lookup(entities.player_vitals, entity_id.id())->Some_0;
            &&& player.id == identity.player_id && player.username == identity.username
            &&& player.position == transform.position && player.dimension == transform.dimension
            &&& player.yaw == transform.yaw && player.pitch == transform.pitch
            &&& player.on_ground == transform.on_ground
            &&& player.health == vitals.health && player.food == vitals.food
            &&& player.food_saturation == vitals.food_saturation
            &&& Some(player.inventory) == lookup(entities.player_inventory, entity_id.id())
            &&& Some(player.selected_hotbar_slot) == lookup(
                entities.player_selected_hotbar,
                entity_id.id(),
            )
        },
{
}

/// Who is not wholly in the game does not move: nothing changes, and nobody is told anything.
pub proof fn absent_player_does_not_move<B: ContentBehavior>(
    core: CoreView,
    behavior: B,
    player_id: PlayerId,
    position: Option<(Vec3, ChunkPos)>,
    yaw: Option<OpaqueF32>,
    pitch: Option<OpaqueF32>,
    on_ground: bool,
)
    requires
        core.player(player_id) is None || core.session(player_id) is None,
    ensures
        ({
            let (told, after) = pose(core, behavior, player_id, position, yaw, pitch, on_ground);
            told is None && after == core
        }),
{
}

/// A player takes one of nine slots in hand: it is the one at hand from then on, and nothing else
/// of the player changes. No other slot can be taken, and who is not in the game takes none.
pub proof fn slot_is_taken_in_hand(core: CoreView, player_id: PlayerId, slot: u8)
    requires
        well_keyed(core),
    ensures
        ({
            let (taken, after) = slot_selected(core, player_id, slot);
            &&& core.player(player_id) matches Some(was) ==> (slot < 9 ==> taken && after.player(
                player_id,
            ) == Some(PlayerView { selected_hotbar_slot: slot, ..was }))
            &&& slot >= 9 || core.entity(player_id) is None ==> !taken
            &&& !taken ==> after == core
            &&& after.sessions == core.sessions && after.world == core.world
            &&& after.entity(player_id) == core.entity(player_id)
        }),
{
    if let Some(entity_id) = core.entity(player_id) {
        selected_slot_is_at_hand(core, entity_id, slot, entity_id);
    }
}

/// A stack that is put into a slot of a player is there, together with what the rules make follow
/// from it; nothing else of the player changes. It is told, and so is the result of crafting where
/// it is another one than before and was not put there itself. Who is not in the game is given
/// nothing.
pub proof fn stack_is_put_into_a_slot<B: ContentBehavior>(
    core: CoreView,
    behavior: B,
    player_id: PlayerId,
    slot: InventorySlot,
    stack: Option<StackView>,
)
    requires
        well_keyed(core),
    ensures
        ({
            let (told, after) = slot_given(core, behavior, player_id, slot, stack);
            &&& inventory_of(core, player_id) is None ==> told is None && after == core
            &&& inventory_of(core, player_id) matches Some(inventory) ==> {
                let next = behavior.normal_inventory(inventory.with_slot(slot, stack));
                &&& inventory_of(after, player_id) == Some(next)
                &&& core.player(player_id) matches Some(was) ==> after.player(player_id) == Some(
                    PlayerView { inventory: next, ..was },
                )
                &&& after.sessions == core.sessions && after.world == core.world
                &&& told matches Some(change)
                &&& change.player_id == player_id && change.slot == slot && change.stack == stack
                &&& slot == InventorySlot::WindowLocal(0) ==> change.crafting_result is None
                &&& slot != InventorySlot::WindowLocal(0) && inventory.slots.len() > 0
                    && next.slots.len() > 0 ==> (next.slots[0] == inventory.slots[0]
                    ==> change.crafting_result is None) && (next.slots[0] != inventory.slots[0]
                    ==> change.crafting_result == Some(next.slots[0]))
            }
        }),
{
    if let Some(inventory) = inventory_of(core, player_id) {
        let entity_id = core.entity(player_id)->Some_0;
        let next = behavior.normal_inventory(inventory.with_slot(slot, stack));
        given_inventory_is_kept(core, entity_id, next, entity_id);
    }
}

} // verus!
