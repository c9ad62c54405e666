//! What single changes to a game change, and what they leave as it was.

use crate::game::content::ContentBehavior;
use crate::game::mutation::{
    dropped, with_contents_of, with_dropped, with_inventory, with_selected_slot,
};
use crate::game::state::{
    composed, fresh_core, reconfigured, saved_with_online, with_block_entity, with_chunk_kept,
    with_max_players, without_player, CoreView,
};
use crate::game::session::SessionView;
use crate::game::store::{ConfigView, EntityKind};
use crate::game::terrain::{keeping_many_changes_no_chunk, with_chunks_kept};
use crate::model::block::{chunk_identity, BlockPos, BlockView, ChunkPos, DimensionId, Vec3};
use crate::model::ids::{EntityId, PlayerId};
use crate::model::inventory::InventoryView;
use crate::model::item::StackView;
use crate::model::player::{BlockEntityView, PlayerView};
use crate::ordered::{insert_laws, lookup, remove_laws, sorted, Entries, Key};
use crate::transfer::consistency::well_keyed;
use vstd::prelude::*;

verus! {

proof fn entities_differ(a: EntityId, b: EntityId)
    ensures
        a.id() == b.id() <==> a.0 == b.0,
{
    assert(a.id()[0] == a.0 && b.id()[0] == b.0);
}

proof fn players_differ(a: PlayerId, b: PlayerId)
    ensures
        a.id() == b.id() <==> a.0 == b.0,
{
    assert(a.id()[0] == a.0 && b.id()[0] == b.0);
}

/// A stack that is dropped lies in the world under the next free number, just as it was: the same
/// kind, count, damage and data, at the place where it was dropped. It does not move. It can be
/// picked up half a second later and vanishes five minutes later. No other item, and nothing of any
/// player, has changed.
pub proof fn dropped_stack_is_kept(
    core: CoreView,
    position: Vec3,
    chunk: ChunkPos,
    item: StackView,
    now_ms: u64,
    other: EntityId,
)
    requires
        well_keyed(core),
        core.entities.next_entity_id < i32::MAX,
    ensures
        ({
            let after = with_dropped(core, dropped(position, chunk, item, now_ms));
            let told = dropped(position, chunk, item, now_ms).snapshot;
            let id = EntityId(core.entities.next_entity_id);
            &&& lookup(after.entities.dropped_items, id.id()) matches Some(kept)
            &&& kept.snapshot.item.key == item.key
            &&& kept.snapshot.item.count == item.count
            &&& kept.snapshot.item.damage == item.damage
            &&& kept.snapshot.item.components == item.components
            &&& kept.snapshot.item.extra == item.extra
            &&& told.item == item
            &&& told.position == position
            &&& told == kept.snapshot
            &&& kept.snapshot.position == position
            &&& kept.snapshot.velocity.x.0 == 0
            &&& kept.snapshot.velocity.y.0 == 0
            &&& kept.snapshot.velocity.z.0 == 0
            &&& kept.chunk == chunk
            &&& kept.last_updated_at_ms == now_ms
            &&& now_ms <= u64::MAX - 300_000 ==> kept.pickup_allowed_at_ms - now_ms == 500
                && kept.despawn_at_ms - now_ms == 300_000
            &&& now_ms > u64::MAX - 300_000 ==> kept.despawn_at_ms == u64::MAX
            &&& now_ms > u64::MAX - 500 ==> kept.pickup_allowed_at_ms == u64::MAX
            &&& now_ms <= u64::MAX - 500 ==> kept.pickup_allowed_at_ms - now_ms == 500
            &&& lookup(after.entities.entity_kinds, id.id()) == Some(EntityKind::DroppedItem)
            &&& after.entities.next_entity_id == core.entities.next_entity_id + 1
            &&& other.0 != id.0 ==> {
                &&& lookup(after.entities.dropped_items, other.id()) == lookup(
                    core.entities.dropped_items,
                    other.id(),
                )
                &&& lookup(after.entities.entity_kinds, other.id()) == lookup(
                    core.entities.entity_kinds,
                    other.id(),
                )
            }
            &&& composed(after.entities, other) == composed(core.entities, other)
            &&& after.sessions == core.sessions
            &&& after.world == core.world
            &&& after.entities.players_by_player_id == core.entities.players_by_player_id
            &&& after.entities.player_active_mining == core.entities.player_active_mining
        }),
{
    let id = EntityId(core.entities.next_entity_id);
    let state = dropped(position, chunk, item, now_ms);
    entities_differ(id, other);
    insert_laws(core.entities.dropped_items, id.id(), state, id.id());
    insert_laws(core.entities.dropped_items, id.id(), state, other.id());
    insert_laws(core.entities.entity_kinds, id.id(), EntityKind::DroppedItem, id.id());
    insert_laws(core.entities.entity_kinds, id.id(), EntityKind::DroppedItem, other.id());
}

/// Two stacks dropped one after the other both lie there, each as it was.
pub proof fn dropped_stacks_lie_side_by_side(
    core: CoreView,
    first_position: Vec3,
    first_chunk: ChunkPos,
    first: StackView,
    first_ms: u64,
    second_position: Vec3,
    second_chunk: ChunkPos,
    second: StackView,
    second_ms: u64,
)
    requires
        well_keyed(core),
        core.entities.next_entity_id < i32::MAX - 1,
    ensures
        ({
            let between = with_dropped(core, dropped(first_position, first_chunk, first, first_ms));
            let after = with_dropped(
                between,
                dropped(second_position, second_chunk, second, second_ms),
            );
            let n = core.entities.next_entity_id;
            &&& lookup(after.entities.dropped_items, EntityId(n).id()) matches Some(one)
            &&& lookup(after.entities.dropped_items, EntityId((n + 1) as i32).id()) matches Some(two)
            &&& one.snapshot.item == first
            &&& two.snapshot.item == second
        }),
{
    let n = EntityId(core.entities.next_entity_id);
    let m = EntityId((core.entities.next_entity_id + 1) as i32);
    let one = dropped(first_position, first_chunk, first, first_ms);
    let two = dropped(second_position, second_chunk, second, second_ms);
    let between = with_dropped(core, one);
    entities_differ(n, m);
    insert_laws(core.entities.dropped_items, n.id(), one, n.id());
    insert_laws(between.entities.dropped_items, m.id(), two, m.id());
    insert_laws(between.entities.dropped_items, m.id(), two, n.id());
}

/// The slot that is put at hand is at hand, and nothing else has changed of any entity.
pub proof fn selected_slot_is_at_hand(
    core: CoreView,
    entity_id: EntityId,
    slot: u8,
    other: EntityId,
)
    requires
        well_keyed(core),
    ensures
        ({
            let after = with_selected_slot(core, entity_id, slot);
            &&& lookup(after.entities.player_selected_hotbar, entity_id.id()) == Some(slot)
            &&& composed(core.entities, entity_id) matches Some(was) ==> composed(
                after.entities,
                entity_id,
            ) == Some(PlayerView { selected_hotbar_slot: slot, ..was })
            &&& other.0 != entity_id.0 ==> composed(after.entities, other) == composed(
                core.entities,
                other,
            )
            &&& after.sessions == core.sessions
            &&& after.world == core.world
            &&& after.entities.dropped_items == core.entities.dropped_items
            &&& after.entities.player_inventory == core.entities.player_inventory
            &&& after.entities.next_entity_id == core.entities.next_entity_id
        }),
{
    entities_differ(entity_id, other);
    insert_laws(core.entities.player_selected_hotbar, entity_id.id(), slot, other.id());
    insert_laws(core.entities.player_selected_hotbar, entity_id.id(), slot, entity_id.id());
}

/// The inventory that an entity is given is the one that it has, and nothing else has changed of
/// any entity.
pub proof fn given_inventory_is_kept(
    core: CoreView,
    entity_id: EntityId,
    inventory: InventoryView,
    other: EntityId,
)
    requires
        well_keyed(core),
    ensures
        ({
            let after = with_inventory(core, entity_id, inventory);
            &&& lookup(after.entities.player_inventory, entity_id.id()) == Some(inventory)
            &&& composed(core.entities, entity_id) matches Some(was) ==> composed(
                after.entities,
                entity_id,
            ) == Some(PlayerView { inventory, ..was })
            &&& other.0 != entity_id.0 ==> composed(after.entities, other) == composed(
                core.entities,
                other,
            )
            &&& after.sessions == core.sessions
            &&& after.world == core.world
            &&& after.entities.dropped_items == core.entities.dropped_items
            &&& after.entities.player_selected_hotbar == core.entities.player_selected_hotbar
            &&& after.entities.next_entity_id == core.entities.next_entity_id
        }),
{
    entities_differ(entity_id, other);
    insert_laws(core.entities.player_inventory, entity_id.id(), inventory, other.id());
    insert_laws(core.entities.player_inventory, entity_id.id(), inventory, entity_id.id());
}

/// A place holds what it is made to hold, or nothing, and other places hold what they held.
pub proof fn place_holds_what_it_is_given(
    core: CoreView,
    position: BlockPos,
    state: Option<BlockEntityView>,
    other: BlockPos,
)
    requires
        sorted(core.world.block_entities),
    ensures
        ({
            let after = with_block_entity(core, position, state);
            &&& lookup(after.world.block_entities, position.id()) == state
            &&& other != position ==> lookup(after.world.block_entities, other.id()) == lookup(
                core.world.block_entities,
                other.id(),
            )
            &&& after.world.chunks == core.world.chunks
            &&& after.world.world_meta == core.world.world_meta
            &&& after.world.config == core.world.config
            &&& after.entities == core.entities
            &&& after.sessions == core.sessions
        }),
{
    if other.id() == position.id() {
        assert(other.id()[0] == other.x && other.id()[1] == other.y && other.id()[2] == other.z);
        assert(position.id()[0] == position.x && position.id()[1] == position.y
            && position.id()[2] == position.z);
    }
    match state {
        Some(state) => {
            insert_laws(core.world.block_entities, position.id(), state, other.id());
            insert_laws(core.world.block_entities, position.id(), state, position.id());
        },
        None => {
            remove_laws(core.world.block_entities, position.id(), other.id());
            remove_laws(core.world.block_entities, position.id(), position.id());
        },
    }
}

/// Where no block is left, a place holds nothing; where a block comes with something in it, the
/// place holds that; and otherwise it holds what it held. Other places hold what they held.
pub proof fn block_brings_its_contents<B: ContentBehavior>(
    core: CoreView,
    behavior: B,
    position: BlockPos,
    block: Option<BlockView>,
    other: BlockPos,
)
    requires
        sorted(core.world.block_entities),
    ensures
        ({
            let held = lookup(
                with_contents_of(core, behavior, position, block).world.block_entities,
                position.id(),
            );
            let before = lookup(core.world.block_entities, position.id());
            &&& block is None ==> held is None
            &&& block matches Some(block) ==> (match behavior.placed_contents(block) {
                Some(contents) => held == Some(contents),
                None => held == before,
            })
            &&& other != position ==> lookup(
                with_contents_of(core, behavior, position, block).world.block_entities,
                other.id(),
            ) == lookup(core.world.block_entities, other.id())
            &&& with_contents_of(core, behavior, position, block).world.chunks == core.world.chunks
            &&& with_contents_of(core, behavior, position, block).entities == core.entities
        }),
{
    place_holds_what_it_is_given(core, position, None, other);
    if let Some(placed) = block {
        if let Some(contents) = behavior.placed_contents(placed) {
            place_holds_what_it_is_given(core, position, Some(contents), other);
        }
    }
}

/// A player who is taken out has no session, no entity and nothing that is kept of the entity.
/// Every other session stays, and so does every other player who is another entity, and what lies
/// in the world.
pub proof fn removed_player_is_gone(core: CoreView, player_id: PlayerId, other: PlayerId)
    requires
        well_keyed(core),
        core.session(player_id) is Some,
    ensures
        ({
            let after = without_player(core, player_id);
            let entity_id = core.session(player_id)->Some_0.entity_id;
            &&& after.session(player_id) is None
            &&& after.entity(player_id) is None
            &&& after.player(player_id) is None
            &&& lookup(after.entities.entity_kinds, entity_id.id()) is None
            &&& lookup(after.entities.player_identity, entity_id.id()) is None
            &&& lookup(after.entities.player_transform, entity_id.id()) is None
            &&& lookup(after.entities.player_vitals, entity_id.id()) is None
            &&& lookup(after.entities.player_inventory, entity_id.id()) is None
            &&& lookup(after.entities.player_selected_hotbar, entity_id.id()) is None
            &&& lookup(after.entities.player_active_mining, entity_id.id()) is None
            &&& other.0 != player_id.0 ==> {
                &&& after.session(other) == core.session(other)
                &&& after.entity(other) == core.entity(other)
                &&& core.entity(other) matches Some(theirs) ==> (theirs.0 != entity_id.0 ==> {
                    &&& after.player(other) == core.player(other)
                    &&& lookup(after.entities.player_active_mining, theirs.id()) == lookup(
                        core.entities.player_active_mining,
                        theirs.id(),
                    )
                    &&& lookup(after.entities.entity_kinds, theirs.id()) == lookup(
                        core.entities.entity_kinds,
                        theirs.id(),
                    )
                })
            }
            &&& after.sessions.player_sessions.len() == core.sessions.player_sessions.len() - 1
            &&& after.entities.dropped_items == core.entities.dropped_items
            &&& after.entities.next_entity_id == core.entities.next_entity_id
            &&& after.world == core.world
            &&& after.sessions.next_keep_alive_id == core.sessions.next_keep_alive_id
        }),
{
    let session = core.session(player_id)->Some_0;
    let id = session.entity_id.id();
    players_differ(player_id, other);
    remove_laws(core.sessions.player_sessions, player_id.id(), player_id.id());
    remove_laws(core.sessions.player_sessions, player_id.id(), other.id());
    remove_laws(core.entities.players_by_player_id, player_id.id(), player_id.id());
    remove_laws(core.entities.players_by_player_id, player_id.id(), other.id());
    let theirs = match core.entity(other) {
        Some(theirs) => theirs,
        None => session.entity_id,
    };
    entities_differ(theirs, session.entity_id);
    remove_laws(core.entities.entity_kinds, id, id);
    remove_laws(core.entities.entity_kinds, id, theirs.id());
    remove_laws(core.entities.player_identity, id, id);
    remove_laws(core.entities.player_identity, id, theirs.id());
    remove_laws(core.entities.player_transform, id, id);
    remove_laws(core.entities.player_transform, id, theirs.id());
    remove_laws(core.entities.player_vitals, id, id);
    remove_laws(core.entities.player_vitals, id, theirs.id());
    remove_laws(core.entities.player_inventory, id, id);
    remove_laws(core.entities.player_inventory, id, theirs.id());
    remove_laws(core.entities.player_selected_hotbar, id, id);
    remove_laws(core.entities.player_selected_hotbar, id, theirs.id());
    remove_laws(core.entities.player_active_mining, id, id);
    remove_laws(core.entities.player_active_mining, id, theirs.id());
}

/// Who has no session cannot be taken out: nothing changes.
pub proof fn absent_player_is_not_removed(core: CoreView, player_id: PlayerId)
    requires
        core.session(player_id) is None,
    ensures
        without_player(core, player_id) == core,
{
}

/// How many players there can be is changed in the way the game is set up and in the world; nothing
/// else is.
pub proof fn limit_of_players_is_changed(core: CoreView, max_players: u8)
    ensures
        ({
            let after = with_max_players(core, max_players);
            &&& after.world.config.max_players == max_players
            &&& after.world.world_meta.max_players == max_players
            &&& after.world.config == (ConfigView { max_players, ..core.world.config })
            &&& after.world.world_meta.seed == core.world.world_meta.seed
            &&& after.world.world_meta.level_name == core.world.world_meta.level_name
            &&& after.world.world_meta.time == core.world.world_meta.time
            &&& after.world.chunks == core.world.chunks
            &&& after.world.block_entities == core.world.block_entities
            &&& after.world.saved_players == core.world.saved_players
            &&& after.entities == core.entities
            &&& after.sessions == core.sessions
        }),
{
}

/// A game that is set up anew has the new name, mode, difficulty and number of players in the world
/// too; the seed, the place where players start, the age and the time of the world stay, and so do
/// the chunks, the players and the sessions.
pub proof fn world_outlives_its_setup(core: CoreView, config: ConfigView)
    ensures
        ({
            let after = reconfigured(core, config);
            let meta = after.world.world_meta;
            let was = core.world.world_meta;
            &&& after.world.config == config
            &&& meta.level_name == config.level_name
            &&& meta.game_mode == config.game_mode
            &&& meta.difficulty == config.difficulty
            &&& meta.max_players == config.max_players
            &&& meta.seed == was.seed
            &&& meta.spawn == was.spawn
            &&& meta.dimension == was.dimension
            &&& meta.age == was.age
            &&& meta.time == was.time
            &&& meta.level_type == was.level_type
            &&& after.world.chunks == core.world.chunks
            &&& after.world.block_entities == core.world.block_entities
            &&& after.world.saved_players == core.world.saved_players
            &&& after.entities == core.entities
            &&& after.sessions == core.sessions
        }),
{
}

/// A fresh game has the seed, the start, the name and the limits that it was set up with; it is
/// noon in a flat overworld; nobody is in it, nothing lies in it, and numbers are given out from
/// one.
pub proof fn fresh_game_is_empty(config: ConfigView, player_id: PlayerId, entity_id: EntityId)
    ensures
        ({
            let core = fresh_core(config);
            let meta = core.world.world_meta;
            &&& core.world.config == config
            &&& meta.level_name == config.level_name
            &&& meta.seed == config.seed
            &&& meta.spawn == config.spawn
            &&& meta.game_mode == config.game_mode
            &&& meta.difficulty == config.difficulty
            &&& meta.max_players == config.max_players
            &&& meta.dimension == DimensionId::Overworld
            &&& meta.age == 0
            &&& meta.time == 6_000
            &&& meta.level_type == "FLAT"@
            &&& core.session(player_id) is None
            &&& core.entity(player_id) is None
            &&& core.player(player_id) is None
            &&& lookup(core.entities.dropped_items, entity_id.id()) is None
            &&& core.world.chunks.len() == 0
            &&& core.world.block_entities.len() == 0
            &&& core.world.saved_players.len() == 0
            &&& core.sessions.player_sessions.len() == 0
            &&& core.entities.next_entity_id == 1
            &&& core.sessions.next_keep_alive_id == 1
            &&& core.sessions.keepalive_interval_ms == 10_000
            &&& core.sessions.keepalive_timeout_ms == 30_000
        }),
{
}

/// Who is in the game is saved as persisted, if that is known; everybody else is saved as before.
pub proof fn players_in_the_game_are_saved(
    saved: Entries<PlayerView>,
    sessions: Entries<SessionView>,
    persisted: Entries<PlayerView>,
    id: Seq<int>,
)
    ensures
        ({
            let kept = saved_with_online(saved, sessions, persisted, id);
            let online = lookup(sessions, id) is Some;
            &&& online ==> (lookup(persisted, id) matches Some(player) ==> kept == Some(player))
            &&& online && lookup(persisted, id) is None ==> kept == lookup(saved, id)
            &&& !online ==> kept == lookup(saved, id)
        }),
{
}

/// Chunks that are to be kept are kept just as they are; no chunk changes, and chunks elsewhere are
/// kept if and only if they were.
pub proof fn chunks_are_kept<B: ContentBehavior>(
    core: CoreView,
    behavior: B,
    places: Seq<ChunkPos>,
    pos: ChunkPos,
)
    requires
        sorted(core.world.chunks),
    ensures
        ({
            let after = with_chunks_kept(core, behavior, places);
            let kept = lookup(after.world.chunks, pos.id());
            &&& sorted(after.world.chunks)
            &&& places.contains(pos) ==> kept == Some(core.chunk(behavior, pos))
            &&& !places.contains(pos) ==> kept == lookup(core.world.chunks, pos.id())
            &&& after.chunk(behavior, pos) == core.chunk(behavior, pos)
            &&& after.world.block_entities == core.world.block_entities
            &&& after.world.world_meta == core.world.world_meta
            &&& after.world.config == core.world.config
            &&& after.entities == core.entities
            &&& after.sessions == core.sessions
        }),
    decreases places.len(),
{
    if places.len() > 0 {
        let less = places.drop_last();
        let last = places.last();
        let before = with_chunks_kept(core, behavior, less);
        chunks_are_kept(core, behavior, less, pos);
        chunks_are_kept(core, behavior, less, last);
        keeping_many_changes_no_chunk(core, behavior, places, pos);
        insert_laws(before.world.chunks, last.id(), before.chunk(behavior, last), pos.id());
        insert_laws(before.world.chunks, last.id(), before.chunk(behavior, last), last.id());
        if pos.id() == last.id() {
            chunk_identity(pos, last);
        }
        assert(places[places.len() - 1] == last);
        assert forall|p: ChunkPos| less.contains(p) || p == last implies #[trigger] places.contains(
            p,
        ) by {
            if less.contains(p) {
                let k = choose|k: int| 0 <= k < less.len() && less[k] == p;
                assert(places[k] == p);
            }
        }
        if places.contains(pos) && pos != last {
            let k = choose|k: int| 0 <= k < places.len() && places[k] == pos;
            assert(less[k] == pos);
        }
        assert(with_chunks_kept(core, behavior, places) == with_chunk_kept(before, behavior, last));
    }
}

} // verus!
