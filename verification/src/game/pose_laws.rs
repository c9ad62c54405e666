//! Who notices that a player moves, and what the player notices then.

use crate::game::content::ContentBehavior;
use crate::game::pose::{
    item_entered, item_left, moved, player_entered, player_left, pose, viewer, with_pose,
};
use crate::game::session::SessionView;
use crate::game::state::{composed, CoreView};
use crate::game::store::PlayerTransform;
use crate::game::terrain::keeping_many_changes_no_chunk;
use crate::lists::{at_most_one, picked, picked_contains};
use crate::model::block::{ChunkPos, Vec3};
use crate::model::ids::{entity_of, player_of, EntityId, PlayerId};
use crate::model::item::OpaqueF32;
use crate::model::player::{DroppedItemView, PlayerView};
use crate::model::view::{
    difference, difference_is_exact, in_square, sight, square_exists, square_is_exact,
};
use crate::ordered::{
    found_entry, holds, insert_laws, lex_before, lex_is_total, lex_of_few, lookup, lookup_entry,
    sorted, Entries, Key,
};
use crate::transfer::consistency::{
    insert_keeps_players, keeping_chunks_changes_the_world_alone, keyed_by_players, well_keyed,
};
use vstd::prelude::*;

verus! {

/// Where a player is, if anywhere.
pub open spec fn place_of(core: CoreView, player_id: PlayerId) -> Option<PlayerTransform> {
    match core.entity(player_id) {
        Some(entity_id) => lookup(core.entities.player_transform, entity_id.id()),
        None => None,
    }
}

/// Whether a client has a chunk.
pub open spec fn has_chunk(session: SessionView, chunk: ChunkPos) -> bool {
    lookup(session.view.loaded, chunk.id()) is Some
}

/// Whether another player is wholly in the game and has one chunk, or has not, and another chunk,
/// or has not.
pub open spec fn looks_on(
    core: CoreView,
    mover: PlayerId,
    other: PlayerId,
    from: ChunkPos,
    saw: bool,
    to: ChunkPos,
    sees: bool,
) -> bool {
    &&& other.0 != mover.0
    &&& core.player(other) is Some
    &&& core.session(other) matches Some(session) && has_chunk(session, from) == saw && has_chunk(
        session,
        to,
    ) == sees
}

/// The chunk that a player is in after a move.
pub open spec fn chunk_after(
    core: CoreView,
    player_id: PlayerId,
    position: Option<(Vec3, ChunkPos)>,
) -> ChunkPos {
    match position {
        Some((_, chunk)) => chunk,
        None => place_of(core, player_id)->Some_0.chunk,
    }
}

/// Whether players are listed each once, in the order of their numbers.
pub open spec fn in_order_of_players(list: Seq<PlayerId>) -> bool {
    forall|i: int, j: int| 0 <= i < j < list.len() ==> (#[trigger] list[i]).0 < (#[trigger] list[j]).0
}

spec fn plays(sessions: Entries<SessionView>, who: PlayerId) -> bool {
    exists|i: int| 0 <= i < sessions.len() && player_of((#[trigger] sessions[i]).0) == who
}

proof fn viewers_in_order(
    sessions: Entries<SessionView>,
    make: spec_fn((Seq<int>, SessionView)) -> Option<PlayerId>,
)
    requires
        keyed_by_players(sessions),
        forall|entry: (Seq<int>, SessionView)| #[trigger]
            make(entry) matches Some(found) ==> found == player_of(entry.0),
    ensures
        in_order_of_players(picked(sessions, make)),
        forall|k: int|
            0 <= k < picked(sessions, make).len() ==> plays(
                sessions,
                #[trigger] picked(sessions, make)[k],
            ),
    decreases sessions.len(),
{
    if sessions.len() > 0 {
        let front = sessions.drop_last();
        let last = sessions.last();
        assert forall|i: int| 0 <= i < front.len() implies player_of((#[trigger] front[i]).0).id()
            == front[i].0 by {
            assert(front[i] == sessions[i]);
        }
        assert forall|i: int, j: int| 0 <= i < j < front.len() implies lex_before(
            #[trigger] front[i].0,
            #[trigger] front[j].0,
        ) by {
            assert(front[i] == sessions[i] && front[j] == sessions[j]);
        }
        viewers_in_order(front, make);
        let before = picked(front, make);
        let all = picked(sessions, make);
        assert(all == before + at_most_one(make(last)));
        assert forall|k: int| 0 <= k < all.len() implies plays(sessions, #[trigger] all[k]) by {
            if k < before.len() {
                assert(plays(front, before[k]));
                let i = choose|i: int|
                    0 <= i < front.len() && player_of((#[trigger] front[i]).0) == before[k];
                assert(player_of(sessions[i].0) == all[k]);
            } else {
                assert(player_of(sessions[sessions.len() - 1].0) == all[k]);
            }
        }
        assert forall|i: int, j: int| 0 <= i < j < all.len() implies (#[trigger] all[i]).0 < (
        #[trigger] all[j]).0 by {
            if j == before.len() {
                assert(plays(front, before[i]));
                let k = choose|k: int|
                    0 <= k < front.len() && player_of((#[trigger] front[k]).0) == before[i];
                assert(front[k] == sessions[k]);
                let n = sessions.len() - 1;
                assert(lex_before(sessions[k].0, sessions[n].0));
                assert(player_of(sessions[k].0).id() == sessions[k].0);
                assert(player_of(sessions[n].0).id() == sessions[n].0);
                lex_of_few(
                    player_of(sessions[k].0).0 as int,
                    0,
                    0,
                    player_of(sessions[n].0).0 as int,
                    0,
                    0,
                );
            }
        }
    }
}

/// A player is composed of the same parts after a move, but for the place.
proof fn composed_after_move(
    core: CoreView,
    player_id: PlayerId,
    entity_id: EntityId,
    session: SessionView,
    to: PlayerTransform,
    other: EntityId,
)
    requires
        well_keyed(core),
        holds(core.entities.player_transform, entity_id.id()),
    ensures
        ({
            let next = with_pose(core, player_id, entity_id, session, to);
            let parts = lookup(next.entities.player_transform, other.id());
            &&& composed(next.entities, other) is Some == composed(core.entities, other) is Some
            &&& parts is Some == lookup(core.entities.player_transform, other.id()) is Some
            &&& other != entity_id ==> parts == lookup(core.entities.player_transform, other.id())
                && composed(next.entities, other) == composed(core.entities, other)
            &&& other == entity_id ==> parts == Some(to)
            &&& other == entity_id ==> (composed(next.entities, other) matches Some(player) ==> {
                &&& composed(core.entities, other) matches Some(was)
                &&& player == (PlayerView {
                    position: to.position,
                    yaw: to.yaw,
                    pitch: to.pitch,
                    on_ground: to.on_ground,
                    dimension: to.dimension,
                    ..was
                })
            })
        }),
{
    insert_laws(core.entities.player_transform, entity_id.id(), to, other.id());
    if other.id() == entity_id.id() {
        assert(other.id()[0] == entity_id.id()[0]);
    }
}

proof fn session_after_move(
    core: CoreView,
    player_id: PlayerId,
    entity_id: EntityId,
    session: SessionView,
    to: PlayerTransform,
    other: PlayerId,
)
    requires
        well_keyed(core),
    ensures
        ({
            let next = with_pose(core, player_id, entity_id, session, to);
            &&& keyed_by_players(next.sessions.player_sessions)
            &&& other != player_id ==> next.session(other) == core.session(other)
            &&& next.entity(other) == core.entity(other)
        }),
{
    let seen = SessionView { view: sight(to.chunk, session.view.view_distance), ..session };
    insert_keeps_players(core.sessions.player_sessions, player_id, seen);
    insert_laws(core.sessions.player_sessions, player_id.id(), seen, other.id());
    if other.id() == player_id.id() {
        assert(other.id()[0] == player_id.id()[0]);
    }
}

proof fn watchers_are(
    core: CoreView,
    player_id: PlayerId,
    entity_id: EntityId,
    session: SessionView,
    to: PlayerTransform,
    from: ChunkPos,
    saw: bool,
    sees: bool,
    other: PlayerId,
)
    requires
        well_keyed(core),
        holds(core.entities.player_transform, entity_id.id()),
    ensures
        ({
            let next = with_pose(core, player_id, entity_id, session, to);
            let list = picked(
                next.sessions.player_sessions,
                viewer(next, player_id, from, to.chunk, saw, sees),
            );
            &&& list.contains(other) <==> looks_on(
                core,
                player_id,
                other,
                from,
                saw,
                to.chunk,
                sees,
            )
            &&& in_order_of_players(list)
        }),
{
    let next = with_pose(core, player_id, entity_id, session, to);
    let sessions = next.sessions.player_sessions;
    let make = viewer(next, player_id, from, to.chunk, saw, sees);
    session_after_move(core, player_id, entity_id, session, to, other);
    if core.entity(other) is Some {
        composed_after_move(
            core,
            player_id,
            entity_id,
            session,
            to,
            core.entity(other)->Some_0,
        );
    }
    picked_contains(sessions, make, other);
    viewers_in_order(sessions, make);
    if picked(sessions, make).contains(other) {
        let i = choose|i: int| 0 <= i < sessions.len() && make(#[trigger] sessions[i]) == Some(other);
        lookup_entry(sessions, i);
        assert(player_of(sessions[i].0).id() == sessions[i].0);
    }
    if looks_on(core, player_id, other, from, saw, to.chunk, sees) {
        found_entry(sessions, other.id());
        let i = choose|i: int|
            0 <= i < sessions.len() && #[trigger] sessions[i] == (
                other.id(),
                next.session(other)->Some_0,
            );
        assert(player_of(sessions[i].0) == other);
        assert(make(sessions[i]) == Some(other));
    }
}

/// A player who moves is seen to move by exactly those others, wholly in the game, who have both
/// the chunk that the player came from and the chunk that the player is in then; comes into sight
/// of exactly those who have the latter alone; and goes out of sight of exactly those who have the
/// former alone. Each is told once.
pub proof fn move_is_noticed<B: ContentBehavior>(
    core: CoreView,
    behavior: B,
    player_id: PlayerId,
    position: Option<(Vec3, ChunkPos)>,
    yaw: Option<OpaqueF32>,
    pitch: Option<OpaqueF32>,
    on_ground: bool,
    other: PlayerId,
)
    requires
        well_keyed(core),
        core.player(player_id) is Some,
        core.session(player_id) is Some,
    ensures
        ({
            let (delta, _) = pose(core, behavior, player_id, position, yaw, pitch, on_ground);
            let from = place_of(core, player_id)->Some_0.chunk;
            let to = chunk_after(core, player_id, position);
            &&& delta matches Some(d)
            &&& d.moved_for_viewers.contains(other) <==> looks_on(
                core,
                player_id,
                other,
                from,
                true,
                to,
                true,
            )
            &&& d.spawned_for_viewers.contains(other) <==> looks_on(
                core,
                player_id,
                other,
                from,
                false,
                to,
                true,
            )
            &&& d.despawned_for_viewers.contains(other) <==> looks_on(
                core,
                player_id,
                other,
                from,
                true,
                to,
                false,
            )
            &&& in_order_of_players(d.moved_for_viewers)
            &&& in_order_of_players(d.spawned_for_viewers)
            &&& in_order_of_players(d.despawned_for_viewers)
        }),
{
    let entity_id = core.entity(player_id)->Some_0;
    let session = core.session(player_id)->Some_0;
    let from = lookup(core.entities.player_transform, entity_id.id())->0;
    let to = moved(from, position, yaw, pitch, on_ground);
    watchers_are(core, player_id, entity_id, session, to, from.chunk, true, true, other);
    watchers_are(core, player_id, entity_id, session, to, from.chunk, false, true, other);
    watchers_are(core, player_id, entity_id, session, to, from.chunk, true, false, other);
}

/// Whether others are told of a move who are to be: the first see the player move, the second see
/// the player come into sight, and the third go out of it.
pub open spec fn are_told_of_move(
    core: CoreView,
    mover: PlayerId,
    position: Option<(Vec3, ChunkPos)>,
    see_move: Seq<PlayerId>,
    see_come: Seq<PlayerId>,
    see_go: Seq<PlayerId>,
) -> bool {
    let from = place_of(core, mover)->Some_0.chunk;
    let to = chunk_after(core, mover, position);
    &&& forall|other: PlayerId| #[trigger]
        see_move.contains(other) == looks_on(core, mover, other, from, true, to, true)
    &&& forall|other: PlayerId| #[trigger]
        see_come.contains(other) == looks_on(core, mover, other, from, false, to, true)
    &&& forall|other: PlayerId| #[trigger]
        see_go.contains(other) == looks_on(core, mover, other, from, true, to, false)
}

/// Of a move exactly those others are told who are to be.
pub proof fn move_is_told<B: ContentBehavior>(
    core: CoreView,
    behavior: B,
    player_id: PlayerId,
    position: Option<(Vec3, ChunkPos)>,
    yaw: Option<OpaqueF32>,
    pitch: Option<OpaqueF32>,
    on_ground: bool,
)
    requires
        well_keyed(core),
    ensures
        pose(core, behavior, player_id, position, yaw, pitch, on_ground).0 matches Some(d)
            ==> are_told_of_move(
            core,
            player_id,
            position,
            d.moved_for_viewers,
            d.spawned_for_viewers,
            d.despawned_for_viewers,
        ),
{
    if let Some(d) = pose(core, behavior, player_id, position, yaw, pitch, on_ground).0 {
        let from = place_of(core, player_id)->Some_0.chunk;
        let to = chunk_after(core, player_id, position);
        assert forall|other: PlayerId| #[trigger]
            d.moved_for_viewers.contains(other) == looks_on(
                core,
                player_id,
                other,
                from,
                true,
                to,
                true,
            ) by {
            move_is_noticed(core, behavior, player_id, position, yaw, pitch, on_ground, other);
        }
        assert forall|other: PlayerId| #[trigger]
            d.spawned_for_viewers.contains(other) == looks_on(
                core,
                player_id,
                other,
                from,
                false,
                to,
                true,
            ) by {
            move_is_noticed(core, behavior, player_id, position, yaw, pitch, on_ground, other);
        }
        assert forall|other: PlayerId| #[trigger]
            d.despawned_for_viewers.contains(other) == looks_on(
                core,
                player_id,
                other,
                from,
                true,
                to,
                false,
            ) by {
            move_is_noticed(core, behavior, player_id, position, yaw, pitch, on_ground, other);
        }
    }
}

/// After a move the player is where and looks as was asked, and otherwise as before; what is told
/// of the player is what the player is then. Everybody else who is another entity is as before, and
/// so is every other session.
pub proof fn mover_is_moved<B: ContentBehavior>(
    core: CoreView,
    behavior: B,
    player_id: PlayerId,
    position: Option<(Vec3, ChunkPos)>,
    yaw: Option<OpaqueF32>,
    pitch: Option<OpaqueF32>,
    on_ground: bool,
    other: PlayerId,
)
    requires
        well_keyed(core),
        core.player(player_id) is Some,
        core.session(player_id) is Some,
    ensures
        ({
            let (delta, after) = pose(core, behavior, player_id, position, yaw, pitch, on_ground);
            let was = core.player(player_id)->Some_0;
            let now = after.player(player_id);
            let before = core.session(player_id)->Some_0;
            &&& delta matches Some(d)
            &&& d.player_id == player_id
            &&& Some(d.entity_id) == core.entity(player_id)
            &&& now == Some(d.player)
            &&& d.player.position == (match position {
                Some((position, _)) => position,
                None => was.position,
            })
            &&& d.player.yaw == (match yaw {
                Some(yaw) => yaw,
                None => was.yaw,
            })
            &&& d.player.pitch == (match pitch {
                Some(pitch) => pitch,
                None => was.pitch,
            })
            &&& d.player.on_ground == on_ground
            &&& d.player.id == was.id
            &&& d.player.username == was.username
            &&& d.player.dimension == was.dimension
            &&& d.player.health == was.health
            &&& d.player.food == was.food
            &&& d.player.food_saturation == was.food_saturation
            &&& d.player.inventory == was.inventory
            &&& d.player.selected_hotbar_slot == was.selected_hotbar_slot
            &&& place_of(after, player_id) matches Some(place)
            &&& place.chunk == chunk_after(core, player_id, position)
            &&& after.session(player_id) matches Some(session)
            &&& session.view.center == chunk_after(core, player_id, position)
            &&& session.view.view_distance == before.view.view_distance
            &&& session.cursor == before.cursor
            &&& session.active_container == before.active_container
            &&& session.entity_id == before.entity_id
            &&& other.0 != player_id.0 ==> after.session(other) == core.session(other)
            &&& core.entity(other) matches Some(entity) ==> (entity.0 != d.entity_id.0
                ==> after.player(other) == core.player(other))
            &&& after.entities.dropped_items == core.entities.dropped_items
            &&& after.entities.player_inventory == core.entities.player_inventory
        }),
{
    let entity_id = core.entity(player_id)->Some_0;
    let session = core.session(player_id)->Some_0;
    let from = lookup(core.entities.player_transform, entity_id.id())->0;
    let to = moved(from, position, yaw, pitch, on_ground);
    let next = with_pose(core, player_id, entity_id, session, to);
    let seen = SessionView { view: sight(to.chunk, session.view.view_distance), ..session };
    composed_after_move(core, player_id, entity_id, session, to, entity_id);
    session_after_move(core, player_id, entity_id, session, to, other);
    insert_laws(core.sessions.player_sessions, player_id.id(), seen, player_id.id());
    let added = difference(seen.view.loaded, session.view.loaded);
    keeping_chunks_changes_the_world_alone(next, behavior, added);
    if core.entity(other) is Some {
        composed_after_move(
            core,
            player_id,
            entity_id,
            session,
            to,
            core.entity(other)->Some_0,
        );
    }
}

/// A player who moves gets every chunk that comes into sight, each once and as it is, and no other:
/// those within the distance that the player sees which the player did not have. Afterwards the
/// player has exactly the chunks within the distance, and no chunk of the world has changed.
pub proof fn mover_gets_new_chunks<B: ContentBehavior>(
    core: CoreView,
    behavior: B,
    player_id: PlayerId,
    position: Option<(Vec3, ChunkPos)>,
    yaw: Option<OpaqueF32>,
    pitch: Option<OpaqueF32>,
    on_ground: bool,
    pos: ChunkPos,
)
    requires
        well_keyed(core),
        sorted(core.world.chunks),
        core.player(player_id) is Some,
        core.session(player_id) matches Some(session) && sorted(session.view.loaded)
            && square_exists(
            chunk_after(core, player_id, position),
            session.view.view_distance as int,
        ),
    ensures
        ({
            let (delta, after) = pose(core, behavior, player_id, position, yaw, pitch, on_ground);
            let before = core.session(player_id)->Some_0;
            let center = chunk_after(core, player_id, position);
            let distance = before.view.view_distance as int;
            let near = center.x - distance <= pos.x <= center.x + distance && center.z - distance
                <= pos.z <= center.z + distance;
            &&& delta matches Some(d)
            &&& after.session(player_id) matches Some(session)
            &&& has_chunk(session, pos) == near
            &&& exists|places: Seq<ChunkPos>|
                {
                    &&& #[trigger] places.len() == d.chunks.len()
                    &&& places.no_duplicates()
                    &&& places.contains(pos) <==> near && !has_chunk(before, pos)
                    &&& forall|k: int|
                        0 <= k < places.len() ==> d.chunks[k] == core.chunk(
                            behavior,
                            #[trigger] places[k],
                        )
                }
            &&& after.chunk(behavior, pos) == core.chunk(behavior, pos)
        }),
{
    let entity_id = core.entity(player_id)->Some_0;
    let session = core.session(player_id)->Some_0;
    let from = lookup(core.entities.player_transform, entity_id.id())->0;
    let to = moved(from, position, yaw, pitch, on_ground);
    let next = with_pose(core, player_id, entity_id, session, to);
    let seen = SessionView { view: sight(to.chunk, session.view.view_distance), ..session };
    insert_laws(core.sessions.player_sessions, player_id.id(), seen, player_id.id());
    square_is_exact(to.chunk, session.view.view_distance as int);
    difference_is_exact(seen.view.loaded, session.view.loaded);
    let places = difference(seen.view.loaded, session.view.loaded);
    keeping_chunks_changes_the_world_alone(next, behavior, places);
    keeping_many_changes_no_chunk(next, behavior, places, pos);
    assert(holds(seen.view.loaded, pos.id()) <==> in_square(
        to.chunk,
        session.view.view_distance as int,
        pos,
    ));
    assert forall|i: int, j: int| 0 <= i < places.len() && 0 <= j < places.len() && i
        != j implies places[i] != places[j] by {
        lex_is_total(places[i].id(), places[i].id(), places[i].id());
        if i < j {
            assert(lex_before(places[i].id(), places[j].id()));
        } else {
            assert(lex_before(places[j].id(), places[i].id()));
        }
    }
    let d = pose(core, behavior, player_id, position, yaw, pitch, on_ground).0->Some_0;
    assert forall|k: int| 0 <= k < places.len() implies d.chunks[k] == core.chunk(
        behavior,
        #[trigger] places[k],
    ) by {
        assert(next.world == core.world);
    }
    assert(places.len() == d.chunks.len());
}

/// Whether another player, wholly in the game and another entity, is told of as having come into
/// sight, or gone out of it, of a client that had some chunks and has others now.
pub open spec fn is_noticed(
    core: CoreView,
    mover: PlayerId,
    before: SessionView,
    had: bool,
    now: SessionView,
    has: bool,
    who: PlayerId,
) -> bool {
    &&& who.0 != mover.0
    &&& core.session(who) is Some
    &&& core.player(who) is Some
    &&& place_of(core, who) matches Some(place) && (core.entity(who) != core.entity(mover) ==> {
        &&& has_chunk(before, place.chunk) == had
        &&& has_chunk(now, place.chunk) == has
    })
}

/// What a player notices when moving. Others, wholly in the game, whose chunk the player did not
/// have and has then come into sight, and nobody else does; so do the items that lie in such a
/// chunk.
pub proof fn mover_notices_arrivals<B: ContentBehavior>(
    core: CoreView,
    behavior: B,
    player_id: PlayerId,
    position: Option<(Vec3, ChunkPos)>,
    yaw: Option<OpaqueF32>,
    pitch: Option<OpaqueF32>,
    on_ground: bool,
    told: (EntityId, PlayerView),
    item: (EntityId, DroppedItemView),
)
    requires
        well_keyed(core),
        core.player(player_id) is Some,
        core.session(player_id) is Some,
    ensures
        ({
            let (delta, after) = pose(core, behavior, player_id, position, yaw, pitch, on_ground);
            let before = core.session(player_id)->Some_0;
            let now = after.session(player_id)->Some_0;
            let lies = lookup(core.entities.dropped_items, item.0.id());
            &&& delta matches Some(d)
            &&& d.observed_players_entered.contains(told) ==> exists|who: PlayerId|
                #[trigger]
                is_noticed(core, player_id, before, false, now, true, who) && told.0 == core.session(
                    who,
                )->Some_0.entity_id && (core.entity(who) != core.entity(player_id) ==> told.1
                    == core.player(who)->Some_0)
            &&& forall|who: PlayerId|
                #[trigger]
                is_noticed(core, player_id, before, false, now, true, who) && core.entity(who)
                    != core.entity(player_id) ==> d.observed_players_entered.contains(
                    (core.session(who)->Some_0.entity_id, core.player(who)->Some_0),
                )
            &&& d.observed_items_entered.contains(item) <==> (lies matches Some(state)
                && state.snapshot == item.1 && !has_chunk(before, state.chunk) && has_chunk(
                now,
                state.chunk,
            ))
        }),
{
    let entity_id = core.entity(player_id)->Some_0;
    let session = core.session(player_id)->Some_0;
    let from = lookup(core.entities.player_transform, entity_id.id())->0;
    let to = moved(from, position, yaw, pitch, on_ground);
    let next = with_pose(core, player_id, entity_id, session, to);
    let seen = SessionView { view: sight(to.chunk, session.view.view_distance), ..session };
    insert_laws(core.sessions.player_sessions, player_id.id(), seen, player_id.id());
    session_after_move(core, player_id, entity_id, session, to, player_id);
    let places = difference(seen.view.loaded, session.view.loaded);
    keeping_chunks_changes_the_world_alone(next, behavior, places);
    let sessions = next.sessions.player_sessions;
    let items = core.entities.dropped_items;
    let came = player_entered(next, player_id, session.view, seen.view);
    let item_came = item_entered(session.view, seen.view);
    let (delta, after) = pose(core, behavior, player_id, position, yaw, pitch, on_ground);
    let d = delta->Some_0;
    assert(after.session(player_id) == Some(seen));
    picked_contains(sessions, came, told);
    if d.observed_players_entered.contains(told) {
        let i = choose|i: int| 0 <= i < sessions.len() && came(#[trigger] sessions[i]) == Some(told);
        let who = player_of(sessions[i].0);
        lookup_entry(sessions, i);
        assert(who.id() == sessions[i].0);
        session_after_move(core, player_id, entity_id, session, to, who);
        composed_after_move(core, player_id, entity_id, session, to, core.entity(who)->Some_0);
        assert(core.session(who) == Some(sessions[i].1));
        assert(is_noticed(core, player_id, session, false, seen, true, who));
    }
    assert forall|who: PlayerId| #[trigger]
        is_noticed(core, player_id, session, false, seen, true, who) && core.entity(who)
            != core.entity(player_id) implies d.observed_players_entered.contains(
        (core.session(who)->Some_0.entity_id, core.player(who)->Some_0),
    ) by {
        let found = (core.session(who)->Some_0.entity_id, core.player(who)->Some_0);
        session_after_move(core, player_id, entity_id, session, to, who);
        composed_after_move(core, player_id, entity_id, session, to, core.entity(who)->Some_0);
        found_entry(sessions, who.id());
        let i = choose|i: int|
            0 <= i < sessions.len() && #[trigger] sessions[i] == (
                who.id(),
                core.session(who)->Some_0,
            );
        assert(player_of(sessions[i].0) == who);
        picked_contains(sessions, came, found);
        assert(came(sessions[i]) == Some(found));
    }
    picked_contains(items, item_came, item);
    found_entry(items, item.0.id());
    if d.observed_items_entered.contains(item) {
        let j = choose|j: int| 0 <= j < items.len() && item_came(#[trigger] items[j]) == Some(item);
        lookup_entry(items, j);
        assert(entity_of(items[j].0).id() == items[j].0);
    }
    if lookup(items, item.0.id()) is Some {
        let state = lookup(items, item.0.id())->Some_0;
        let i = choose|i: int| 0 <= i < items.len() && #[trigger] items[i] == (item.0.id(), state);
        assert(entity_of(items[i].0) == item.0);
        if state.snapshot == item.1 && !session.view.sees(state.chunk) && seen.view.sees(
            state.chunk,
        ) {
            assert(item_came(items[i]) == Some(item));
        }
    }
}

/// Others, wholly in the game, whose chunk a moving player had and has no more go out of sight; so
/// do the items that lie in such a chunk; and nothing else does.
pub proof fn mover_notices_departures<B: ContentBehavior>(
    core: CoreView,
    behavior: B,
    player_id: PlayerId,
    position: Option<(Vec3, ChunkPos)>,
    yaw: Option<OpaqueF32>,
    pitch: Option<OpaqueF32>,
    on_ground: bool,
    told: EntityId,
)
    requires
        well_keyed(core),
        core.player(player_id) is Some,
        core.session(player_id) is Some,
    ensures
        ({
            let (delta, after) = pose(core, behavior, player_id, position, yaw, pitch, on_ground);
            let before = core.session(player_id)->Some_0;
            let now = after.session(player_id)->Some_0;
            let lies = lookup(core.entities.dropped_items, told.id());
            let item_left = lies matches Some(state) && has_chunk(before, state.chunk)
                && !has_chunk(now, state.chunk);
            &&& delta matches Some(d)
            &&& d.observed_entities_left.contains(told) && !item_left ==> exists|who: PlayerId|
                #[trigger]
                is_noticed(core, player_id, before, true, now, false, who) && told == core.session(
                    who,
                )->Some_0.entity_id
            &&& forall|who: PlayerId|
                #[trigger]
                is_noticed(core, player_id, before, true, now, false, who) && core.entity(who)
                    != core.entity(player_id) ==> d.observed_entities_left.contains(
                    core.session(who)->Some_0.entity_id,
                )
            &&& item_left ==> d.observed_entities_left.contains(told)
        }),
{
    let entity_id = core.entity(player_id)->Some_0;
    let session = core.session(player_id)->Some_0;
    let from = lookup(core.entities.player_transform, entity_id.id())->0;
    let to = moved(from, position, yaw, pitch, on_ground);
    let next = with_pose(core, player_id, entity_id, session, to);
    let seen = SessionView { view: sight(to.chunk, session.view.view_distance), ..session };
    insert_laws(core.sessions.player_sessions, player_id.id(), seen, player_id.id());
    session_after_move(core, player_id, entity_id, session, to, player_id);
    let places = difference(seen.view.loaded, session.view.loaded);
    keeping_chunks_changes_the_world_alone(next, behavior, places);
    let sessions = next.sessions.player_sessions;
    let items = core.entities.dropped_items;
    let went = player_left(next, player_id, session.view, seen.view);
    let item_went = item_left(session.view, seen.view);
    let (delta, after) = pose(core, behavior, player_id, position, yaw, pitch, on_ground);
    let d = delta->Some_0;
    assert(after.session(player_id) == Some(seen));
    let players = picked(sessions, went);
    let stacks = picked(items, item_went);
    let both = players + stacks;
    assert(d.observed_entities_left == both);
    picked_contains(sessions, went, told);
    picked_contains(items, item_went, told);
    found_entry(items, told.id());
    assert(forall|k: int| 0 <= k < players.len() ==> both[k] == #[trigger] players[k]);
    assert(forall|k: int| 0 <= k < stacks.len() ==> both[players.len() + k] == #[trigger] stacks[k]);
    if both.contains(told) {
        let k = choose|k: int| 0 <= k < both.len() && both[k] == told;
        if k < players.len() {
            assert(players[k] == told);
            let i = choose|i: int|
                0 <= i < sessions.len() && went(#[trigger] sessions[i]) == Some(told);
            let who = player_of(sessions[i].0);
            lookup_entry(sessions, i);
            assert(who.id() == sessions[i].0);
            session_after_move(core, player_id, entity_id, session, to, who);
            composed_after_move(core, player_id, entity_id, session, to, core.entity(who)->Some_0);
            assert(core.session(who) == Some(sessions[i].1));
            assert(is_noticed(core, player_id, session, true, seen, false, who));
        } else {
            assert(stacks[k - players.len()] == told);
            let j = choose|j: int| 0 <= j < items.len() && item_went(#[trigger] items[j]) == Some(told);
            lookup_entry(items, j);
            assert(entity_of(items[j].0).id() == items[j].0);
        }
    }
    assert forall|who: PlayerId| #[trigger]
        is_noticed(core, player_id, session, true, seen, false, who) && core.entity(who)
            != core.entity(player_id) implies d.observed_entities_left.contains(
        core.session(who)->Some_0.entity_id,
    ) by {
        let found = core.session(who)->Some_0.entity_id;
        session_after_move(core, player_id, entity_id, session, to, who);
        composed_after_move(core, player_id, entity_id, session, to, core.entity(who)->Some_0);
        found_entry(sessions, who.id());
        let i = choose|i: int|
            0 <= i < sessions.len() && #[trigger] sessions[i] == (
                who.id(),
                core.session(who)->Some_0,
            );
        assert(player_of(sessions[i].0) == who);
        picked_contains(sessions, went, found);
        assert(went(sessions[i]) == Some(found));
        let k = choose|k: int| 0 <= k < players.len() && players[k] == found;
        assert(both[k] == found);
    }
    if lookup(items, told.id()) is Some {
        let state = lookup(items, told.id())->Some_0;
        let i = choose|i: int| 0 <= i < items.len() && #[trigger] items[i] == (told.id(), state);
        assert(entity_of(items[i].0) == told);
        if session.view.sees(state.chunk) && !seen.view.sees(state.chunk) {
            assert(item_went(items[i]) == Some(told));
            let k = choose|k: int| 0 <= k < stacks.len() && stacks[k] == told;
            assert(both[players.len() + k] == told);
        }
    }
}

} // verus!
