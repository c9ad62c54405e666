//! What players are told who join or see another distance.

use crate::game::content::ContentBehavior;
use crate::game::login::{
    all_items, capped_distance, existing_player, places, player_chunk, settled, welcomed,
    with_sight,
};
use crate::game::pose_laws::{has_chunk, place_of};
use crate::game::session::SessionView;
use crate::game::state::CoreView;
use crate::game::state_laws::chunks_are_kept;
use crate::lists::picked_contains;
use crate::model::block::{chunk_of, ChunkPos};
use crate::model::ids::{entity_of, player_of, EntityId, PlayerId};
use crate::model::player::{DroppedItemView, PlayerView};
use crate::model::view::{
    difference, difference_is_exact, in_square, sight, square, square_exists, square_is_exact,
};
use crate::ordered::{
    found_entry, holds, insert_laws, lex_before, lex_is_total, lookup, lookup_entry, sorted, Key,
};
use crate::transfer::consistency::well_keyed;
use vstd::prelude::*;

verus! {

/// A client sees as far as it wants to and the game lets it, and at least one chunk.
pub proof fn distance_is_wanted_and_let(wanted: u8, limit: u8)
    ensures
        ({
            let distance = capped_distance(wanted, limit);
            &&& 1 <= distance
            &&& 1 <= limit ==> distance <= limit
            &&& 1 <= wanted ==> distance <= wanted
            &&& 1 <= wanted <= limit ==> distance == wanted
            &&& 1 <= limit <= wanted ==> distance == limit
            &&& wanted == 0 || limit == 0 ==> distance == 1
        }),
{
}

/// Whether chunks are listed that lie at some places: exactly those within a distance of a place
/// that a client did not have yet, each once and as it is.
pub open spec fn are_new_chunks<B: ContentBehavior>(
    core: CoreView,
    behavior: B,
    center: ChunkPos,
    distance: int,
    before: Option<SessionView>,
    list: Seq<crate::model::chunk::ColumnView>,
    at: Seq<ChunkPos>,
) -> bool {
    &&& at.len() == list.len()
    &&& at.no_duplicates()
    &&& forall|k: int| 0 <= k < at.len() ==> list[k] == core.chunk(behavior, #[trigger] at[k])
    &&& forall|pos: ChunkPos| #[trigger]
        at.contains(pos) <==> {
            &&& center.x - distance <= pos.x <= center.x + distance
            &&& center.z - distance <= pos.z <= center.z + distance
            &&& before matches Some(session) ==> !has_chunk(session, pos)
        }
}

proof fn listed_once(at: Seq<ChunkPos>)
    requires
        forall|i: int, j: int|
            0 <= i < j < at.len() ==> lex_before((#[trigger] at[i]).id(), (#[trigger] at[j]).id()),
    ensures
        at.no_duplicates(),
{
    assert forall|i: int, j: int| 0 <= i < at.len() && 0 <= j < at.len() && i != j implies at[i]
        != at[j] by {
        lex_is_total(at[i].id(), at[i].id(), at[i].id());
        if i < j {
            assert(lex_before(at[i].id(), at[j].id()));
        } else {
            assert(lex_before(at[j].id(), at[i].id()));
        }
    }
}

/// A player who asks to see some distance sees the capped distance round the chunk that the player
/// is in, gets exactly the chunks there that the player did not have, and is otherwise as before.
/// So is everybody else.
pub proof fn settings_give_new_chunks<B: ContentBehavior>(
    core: CoreView,
    behavior: B,
    player_id: PlayerId,
    view_distance: u8,
    pos: ChunkPos,
    other: PlayerId,
)
    requires
        well_keyed(core),
        sorted(core.world.chunks),
        core.player(player_id) is Some,
        core.session(player_id) matches Some(session) && sorted(session.view.loaded),
        square_exists(
            place_of(core, player_id)->Some_0.chunk,
            capped_distance(view_distance, core.world.config.view_distance) as int,
        ),
    ensures
        ({
            let (chunks, after) = settled(core, behavior, player_id, view_distance);
            let center = place_of(core, player_id)->Some_0.chunk;
            let distance = capped_distance(view_distance, core.world.config.view_distance);
            let before = core.session(player_id)->Some_0;
            &&& chunks matches Some(list)
            &&& exists|at: Seq<ChunkPos>| #[trigger]
                are_new_chunks(core, behavior, center, distance as int, Some(before), list, at)
            &&& after.session(player_id) matches Some(session)
            &&& session.view.center == center
            &&& session.view.view_distance == distance
            &&& has_chunk(session, pos) == (center.x - distance <= pos.x <= center.x + distance
                && center.z - distance <= pos.z <= center.z + distance)
            &&& session.cursor == before.cursor
            &&& session.active_container == before.active_container
            &&& session.entity_id == before.entity_id
            &&& other.0 != player_id.0 ==> after.session(other) == core.session(other)
            &&& after.player(other) == core.player(other)
            &&& after.entities == core.entities
            &&& after.chunk(behavior, pos) == core.chunk(behavior, pos)
        }),
{
    let (chunks, after) = settled(core, behavior, player_id, view_distance);
    let center = place_of(core, player_id)->Some_0.chunk;
    let distance = capped_distance(view_distance, core.world.config.view_distance);
    let before = core.session(player_id)->Some_0;
    let seen = SessionView { view: sight(center, distance), ..before };
    let next = with_sight(core, player_id, before, center, distance);
    let at = difference(square(center, distance as int), before.view.loaded);
    square_is_exact(center, distance as int);
    difference_is_exact(square(center, distance as int), before.view.loaded);
    insert_laws(core.sessions.player_sessions, player_id.id(), seen, player_id.id());
    insert_laws(core.sessions.player_sessions, player_id.id(), seen, other.id());
    if other.id() == player_id.id() {
        assert(other.id()[0] == player_id.id()[0]);
    }
    chunks_are_kept(next, behavior, at, pos);
    listed_once(at);
    let list = chunks->Some_0;
    assert forall|k: int| 0 <= k < at.len() implies list[k] == core.chunk(
        behavior,
        #[trigger] at[k],
    ) by {
        assert(next.world == core.world);
    }
    assert forall|p: ChunkPos| #[trigger] at.contains(p) <==> {
        &&& center.x - distance <= p.x <= center.x + distance
        &&& center.z - distance <= p.z <= center.z + distance
        &&& !has_chunk(before, p)
    } by {
        assert(holds(square(center, distance as int), p.id()) <==> in_square(
            center,
            distance as int,
            p,
        ));
    }
    assert(are_new_chunks(core, behavior, center, distance as int, Some(before), list, at));
    assert(holds(seen.view.loaded, pos.id()) <==> in_square(center, distance as int, pos));
}

/// Who has joined gets exactly the chunks within the distance that the player sees, each once and
/// as it is; nothing else of the game changes than that these are kept.
pub proof fn newcomer_gets_all_chunks<B: ContentBehavior>(
    core: CoreView,
    behavior: B,
    player_id: PlayerId,
    pos: ChunkPos,
)
    requires
        sorted(core.world.chunks),
        core.player(player_id) is Some,
        core.session(player_id) matches Some(session) && square_exists(
            place_of(core, player_id)->Some_0.chunk,
            session.view.view_distance as int,
        ),
    ensures
        ({
            let (told, after) = welcomed(core, behavior, player_id);
            let center = place_of(core, player_id)->Some_0.chunk;
            let session = core.session(player_id)->Some_0;
            let distance = session.view.view_distance as int;
            &&& told matches Some(told)
            &&& Some(told.player) == core.player(player_id)
            &&& told.entity_id == session.entity_id
            &&& exists|at: Seq<ChunkPos>| #[trigger]
                are_new_chunks(core, behavior, center, distance, None, told.visible_chunks, at)
            &&& after.entities == core.entities
            &&& after.sessions == core.sessions
            &&& after.world.block_entities == core.world.block_entities
            &&& after.chunk(behavior, pos) == core.chunk(behavior, pos)
        }),
{
    let center = place_of(core, player_id)->Some_0.chunk;
    let session = core.session(player_id)->Some_0;
    let distance = session.view.view_distance as int;
    let set = square(center, distance);
    let at = places(set);
    let told = welcomed(core, behavior, player_id).0->Some_0;
    square_is_exact(center, distance);
    chunks_are_kept(core, behavior, at, pos);
    assert forall|k: int| 0 <= k < at.len() implies (#[trigger] at[k]).id() == set[k].0 by {
        assert(at[k] == chunk_of(set[k].0));
    }
    listed_once(at);
    assert forall|p: ChunkPos| #[trigger] at.contains(p) <==> {
        &&& center.x - distance <= p.x <= center.x + distance
        &&& center.z - distance <= p.z <= center.z + distance
    } by {
        assert(holds(set, p.id()) <==> in_square(center, distance, p));
        found_entry(set, p.id());
        if at.contains(p) {
            let k = choose|k: int| 0 <= k < at.len() && at[k] == p;
            lookup_entry(set, k);
        }
        if holds(set, p.id()) {
            let k = choose|k: int| 0 <= k < set.len() && #[trigger] set[k] == (p.id(), ());
            crate::model::block::chunk_identity(at[k], p);
            assert(at[k] == p);
        }
    }
    assert(are_new_chunks(core, behavior, center, distance, None, told.visible_chunks, at));
}

/// Who has joined is told of exactly those others who have a session and are wholly in the game,
/// and of all that lies in the world.
pub proof fn newcomer_is_told_of_others<B: ContentBehavior>(
    core: CoreView,
    behavior: B,
    player_id: PlayerId,
    told_player: (EntityId, PlayerView),
    told_item: (EntityId, DroppedItemView),
)
    requires
        well_keyed(core),
        core.player(player_id) is Some,
        core.session(player_id) is Some,
    ensures
        ({
            let told = welcomed(core, behavior, player_id).0;
            &&& told matches Some(told)
            &&& told.existing_players.contains(told_player) <==> exists|who: PlayerId|
                {
                    &&& who.0 != player_id.0
                    &&& #[trigger] core.session(who) matches Some(session)
                    &&& session.entity_id == told_player.0
                    &&& core.player(who) == Some(told_player.1)
                }
            &&& told.dropped_items.contains(told_item) <==> (lookup(
                core.entities.dropped_items,
                told_item.0.id(),
            ) matches Some(state) && state.snapshot == told_item.1)
            &&& told.dropped_items.len() == core.entities.dropped_items.len()
        }),
{
    let told = welcomed(core, behavior, player_id).0->Some_0;
    let sessions = core.sessions.player_sessions;
    let make = existing_player(core, player_id);
    picked_contains(sessions, make, told_player);
    if told.existing_players.contains(told_player) {
        let i = choose|i: int|
            0 <= i < sessions.len() && make(#[trigger] sessions[i]) == Some(told_player);
        let who = player_of(sessions[i].0);
        lookup_entry(sessions, i);
        assert(who.id() == sessions[i].0);
        assert(core.session(who) == Some(sessions[i].1));
    }
    if exists|who: PlayerId|
        {
            &&& who.0 != player_id.0
            &&& #[trigger] core.session(who) matches Some(session)
            &&& session.entity_id == told_player.0
            &&& core.player(who) == Some(told_player.1)
        } {
        let who = choose|who: PlayerId|
            {
                &&& who.0 != player_id.0
                &&& #[trigger] core.session(who) matches Some(session)
                &&& session.entity_id == told_player.0
                &&& core.player(who) == Some(told_player.1)
            };
        found_entry(sessions, who.id());
        let i = choose|i: int|
            0 <= i < sessions.len() && #[trigger] sessions[i] == (
                who.id(),
                core.session(who)->Some_0,
            );
        assert(player_of(sessions[i].0) == who);
        assert(make(sessions[i]) == Some(told_player));
    }
    let items = core.entities.dropped_items;
    found_entry(items, told_item.0.id());
    if told.dropped_items.contains(told_item) {
        let k = choose|k: int|
            0 <= k < told.dropped_items.len() && told.dropped_items[k] == told_item;
        assert(told_item == (entity_of(items[k].0), items[k].1.snapshot));
        lookup_entry(items, k);
        assert(entity_of(items[k].0).id() == items[k].0);
    }
    if let Some(state) = lookup(items, told_item.0.id()) {
        let k = choose|k: int|
            0 <= k < items.len() && #[trigger] items[k] == (told_item.0.id(), state);
        assert(all_items(items)[k] == (entity_of(items[k].0), items[k].1.snapshot));
        assert(entity_of(items[k].0) == told_item.0);
    }
}

/// Who is not wholly in the game, or is not in it at all, changes nothing by asking to see some
/// distance and is not told of having joined.
pub proof fn absent_player_is_told_nothing<B: ContentBehavior>(
    core: CoreView,
    behavior: B,
    player_id: PlayerId,
    view_distance: u8,
)
    requires
        core.player(player_id) is None || core.session(player_id) is None,
    ensures
        settled(core, behavior, player_id, view_distance) == (
            None::<Seq<crate::model::chunk::ColumnView>>,
            core,
        ),
        welcomed(core, behavior, player_id).0 is None,
        welcomed(core, behavior, player_id).1 == core,
        core.player(player_id) is None ==> player_chunk(core, player_id) is None,
{
}

} // verus!
