//! How players move and look, and who notices.

use crate::game::content::ContentBehavior;
use crate::game::pose_laws::{are_told_of_move, move_is_told};
use crate::game::resync::chunk_of_player;
use crate::game::session::SessionView;
use crate::game::state::{composed, CoreView, ServerCore};
use crate::game::store::{DroppedStateView, EntitiesView, PlayerTransform, SessionsView};
use crate::game::terrain::{chunks_at, with_chunks_kept};
use crate::lists::{at_most_one, picked, picked_ends, picked_step};
use crate::model::block::{ChunkPos, Vec3};
use crate::model::chunk::{ChunkColumn, ColumnView};
use crate::model::event_view::column_views;
use crate::model::ids::{entity_of, player_of, EntityId, PlayerId};
use crate::model::item::OpaqueF32;
use crate::model::player::{DroppedItemSnapshot, DroppedItemView, PlayerSnapshot, PlayerView};
use crate::model::view::{difference, sight, square_exists, ClientView, Sight};
use crate::ordered::{inserted, lookup, Key, Stored};
use crate::transfer::consistency::games_are_well_keyed;
use vstd::prelude::*;

verus! {

/// Where a player is and looks after a move.
pub open spec fn moved(
    transform: PlayerTransform,
    position: Option<(Vec3, ChunkPos)>,
    yaw: Option<OpaqueF32>,
    pitch: Option<OpaqueF32>,
    on_ground: bool,
) -> PlayerTransform {
    PlayerTransform {
        position: match position {
            Some((position, _)) => position,
            None => transform.position,
        },
        chunk: match position {
            Some((_, chunk)) => chunk,
            None => transform.chunk,
        },
        yaw: match yaw {
            Some(yaw) => yaw,
            None => transform.yaw,
        },
        pitch: match pitch {
            Some(pitch) => pitch,
            None => transform.pitch,
        },
        on_ground,
        dimension: transform.dimension,
    }
}

/// A game in which a player has moved.
pub open spec fn with_pose(
    core: CoreView,
    player_id: PlayerId,
    entity_id: EntityId,
    session: SessionView,
    transform: PlayerTransform,
) -> CoreView {
    CoreView {
        sessions: SessionsView {
            player_sessions: inserted(
                core.sessions.player_sessions,
                player_id.id(),
                SessionView {
                    view: sight(transform.chunk, session.view.view_distance),
                    ..session
                },
            ),
            ..core.sessions
        },
        entities: EntitiesView {
            player_transform: inserted(
                core.entities.player_transform,
                entity_id.id(),
                transform,
            ),
            ..core.entities
        },
        ..core
    }
}

/// Another player and the chunk the player is in.
pub open spec fn other_player(
    core: CoreView,
    player_id: PlayerId,
    entry: (Seq<int>, SessionView),
) -> Option<(PlayerView, ChunkPos)> {
    if player_of(entry.0) == player_id {
        None
    } else {
        match core.entity(player_of(entry.0)) {
            Some(entity_id) => match (
                composed(core.entities, entity_id),
                chunk_of_player(core.entities, entity_id),
            ) {
                (Some(player), Some(chunk)) => Some((player, chunk)),
                _ => None,
            },
            None => None,
        }
    }
}

/// The other players that saw a player before, or did not, and see the player now, or do not.
pub open spec fn viewer(
    core: CoreView,
    player_id: PlayerId,
    from: ChunkPos,
    to: ChunkPos,
    saw: bool,
    sees: bool,
) -> spec_fn((Seq<int>, SessionView)) -> Option<PlayerId> {
    |entry: (Seq<int>, SessionView)|
        if other_player(core, player_id, entry) is Some && entry.1.view.sees(from) == saw
            && entry.1.view.sees(to) == sees {
            Some(player_of(entry.0))
        } else {
            None
        }
}

/// Another player that came into sight.
pub open spec fn player_entered(core: CoreView, player_id: PlayerId, before: Sight, after: Sight) ->
    spec_fn((Seq<int>, SessionView)) -> Option<(EntityId, PlayerView)> {
    |entry: (Seq<int>, SessionView)|
        match other_player(core, player_id, entry) {
            Some((player, chunk)) => if !before.sees(chunk) && after.sees(chunk) {
                Some((entry.1.entity_id, player))
            } else {
                None
            },
            None => None,
        }
}

/// The entity of another player that went out of sight.
pub open spec fn player_left(core: CoreView, player_id: PlayerId, before: Sight, after: Sight) ->
    spec_fn((Seq<int>, SessionView)) -> Option<EntityId> {
    |entry: (Seq<int>, SessionView)|
        match other_player(core, player_id, entry) {
            Some((player, chunk)) => if before.sees(chunk) && !after.sees(chunk) {
                Some(entry.1.entity_id)
            } else {
                None
            },
            None => None,
        }
}

/// Items that came into sight.
pub open spec fn item_entered(before: Sight, after: Sight) -> spec_fn(
    (Seq<int>, DroppedStateView),
) -> Option<(EntityId, DroppedItemView)> {
    |entry: (Seq<int>, DroppedStateView)|
        if !before.sees(entry.1.chunk) && after.sees(entry.1.chunk) {
            Some((entity_of(entry.0), entry.1.snapshot))
        } else {
            None
        }
}

/// The entity of items that went out of sight.
pub open spec fn item_left(before: Sight, after: Sight) -> spec_fn(
    (Seq<int>, DroppedStateView),
) -> Option<EntityId> {
    |entry: (Seq<int>, DroppedStateView)|
        if before.sees(entry.1.chunk) && !after.sees(entry.1.chunk) {
            Some(entity_of(entry.0))
        } else {
            None
        }
}

/// What a move brought about.
#[derive(Debug, PartialEq, Eq)]
pub struct PlayerPoseDelta {
    pub player_id: PlayerId,
    pub entity_id: EntityId,
    pub player: PlayerSnapshot,
    pub chunks: Vec<ChunkColumn>,
    pub moved_for_viewers: Vec<PlayerId>,
    pub spawned_for_viewers: Vec<PlayerId>,
    pub despawned_for_viewers: Vec<PlayerId>,
    pub observed_players_entered: Vec<(EntityId, PlayerSnapshot)>,
    pub observed_items_entered: Vec<(EntityId, DroppedItemSnapshot)>,
    pub observed_entities_left: Vec<EntityId>,
}

/// What a move brought about.
pub struct PoseView {
    pub player_id: PlayerId,
    pub entity_id: EntityId,
    pub player: PlayerView,
    pub chunks: Seq<ColumnView>,
    pub moved_for_viewers: Seq<PlayerId>,
    pub spawned_for_viewers: Seq<PlayerId>,
    pub despawned_for_viewers: Seq<PlayerId>,
    pub observed_players_entered: Seq<(EntityId, PlayerView)>,
    pub observed_items_entered: Seq<(EntityId, DroppedItemView)>,
    pub observed_entities_left: Seq<EntityId>,
}

/// Players with their entities.
pub open spec fn entity_players(list: Seq<(EntityId, PlayerSnapshot)>) -> Seq<
    (EntityId, PlayerView),
> {
    list.map_values(|entry: (EntityId, PlayerSnapshot)| (entry.0, entry.1@))
}

/// Items with their entities.
pub open spec fn entity_items(list: Seq<(EntityId, DroppedItemSnapshot)>) -> Seq<
    (EntityId, DroppedItemView),
> {
    list.map_values(|entry: (EntityId, DroppedItemSnapshot)| (entry.0, entry.1@))
}

impl View for PlayerPoseDelta {
    type V = PoseView;

    open spec fn view(&self) -> PoseView {
        PoseView {
            player_id: self.player_id,
            entity_id: self.entity_id,
            player: self.player@,
            chunks: column_views(self.chunks@),
            moved_for_viewers: self.moved_for_viewers@,
            spawned_for_viewers: self.spawned_for_viewers@,
            despawned_for_viewers: self.despawned_for_viewers@,
            observed_players_entered: entity_players(self.observed_players_entered@),
            observed_items_entered: entity_items(self.observed_items_entered@),
            observed_entities_left: self.observed_entities_left@,
        }
    }
}

/// What a move of a player brings about, and the game after it; nothing where the player is not
/// wholly in the game.
pub open spec fn pose<B: ContentBehavior>(
    core: CoreView,
    behavior: B,
    player_id: PlayerId,
    position: Option<(Vec3, ChunkPos)>,
    yaw: Option<OpaqueF32>,
    pitch: Option<OpaqueF32>,
    on_ground: bool,
) -> (Option<PoseView>, CoreView) {
    match (core.entity(player_id), core.player(player_id), core.session(player_id)) {
        (Some(entity_id), Some(_), Some(session)) => {
            let from = lookup(core.entities.player_transform, entity_id.id())->0;
            let to = moved(from, position, yaw, pitch, on_ground);
            let next = with_pose(core, player_id, entity_id, session, to);
            let before = session.view;
            let after = sight(to.chunk, session.view.view_distance);
            let sessions = next.sessions.player_sessions;
            let items = next.entities.dropped_items;
            let added = difference(after.loaded, before.loaded);
            (
                Some(
                    PoseView {
                        player_id,
                        entity_id,
                        player: composed(next.entities, entity_id)->0,
                        chunks: chunks_at(next, behavior, added),
                        moved_for_viewers: picked(
                            sessions,
                            viewer(next, player_id, from.chunk, to.chunk, true, true),
                        ),
                        spawned_for_viewers: picked(
                            sessions,
                            viewer(next, player_id, from.chunk, to.chunk, false, true),
                        ),
                        despawned_for_viewers: picked(
                            sessions,
                            viewer(next, player_id, from.chunk, to.chunk, true, false),
                        ),
                        observed_players_entered: picked(
                            sessions,
                            player_entered(next, player_id, before, after),
                        ),
                        observed_items_entered: picked(items, item_entered(before, after)),
                        observed_entities_left: picked(
                            sessions,
                            player_left(next, player_id, before, after),
                        ) + picked(items, item_left(before, after)),
                    },
                ),
                with_chunks_kept(next, behavior, added),
            )
        },
        _ => (None, core),
    }
}

/// Who notices that a player has moved, and what the player notices of others.
struct Noticed {
    moved_for_viewers: Vec<PlayerId>,
    spawned_for_viewers: Vec<PlayerId>,
    despawned_for_viewers: Vec<PlayerId>,
    players_entered: Vec<(EntityId, PlayerSnapshot)>,
    entities_left: Vec<EntityId>,
}

/// Adds to a list what is made of an entry.
proof fn added<W, T>(
    before: Seq<T>,
    after: Seq<T>,
    all: Seq<W>,
    i: int,
    make: spec_fn(W) -> Option<T>,
)
    requires
        0 <= i < all.len(),
        before == picked(all.subrange(0, i), make),
        after =~= before + at_most_one(make(all[i])),
    ensures
        after == picked(all.subrange(0, i + 1), make),
{
    picked_step(all, i, make);
}

impl ServerCore {
    fn notice_players(
        &self,
        player_id: PlayerId,
        from: ChunkPos,
        to: ChunkPos,
        before: &ClientView,
        after: &ClientView,
    ) -> (result: Noticed)
        requires
            self.sound(),
            before.wf(),
            after.wf(),
        ensures
            ({
                let sessions = self@.sessions.player_sessions;
                &&& result.moved_for_viewers@ == picked(
                    sessions,
                    viewer(self@, player_id, from, to, true, true),
                )
                &&& result.spawned_for_viewers@ == picked(
                    sessions,
                    viewer(self@, player_id, from, to, false, true),
                )
                &&& result.despawned_for_viewers@ == picked(
                    sessions,
                    viewer(self@, player_id, from, to, true, false),
                )
                &&& entity_players(result.players_entered@) == picked(
                    sessions,
                    player_entered(self@, player_id, before@, after@),
                )
                &&& result.entities_left@ == picked(
                    sessions,
                    player_left(self@, player_id, before@, after@),
                )
            }),
    {
        let mut moved_for_viewers: Vec<PlayerId> = Vec::new();
        let mut spawned_for_viewers: Vec<PlayerId> = Vec::new();
        let mut despawned_for_viewers: Vec<PlayerId> = Vec::new();
        let mut players_entered: Vec<(EntityId, PlayerSnapshot)> = Vec::new();
        let mut entities_left: Vec<EntityId> = Vec::new();
        let ghost all = self@.sessions.player_sessions;
        let ghost make_moved = viewer(self@, player_id, from, to, true, true);
        let ghost make_spawned = viewer(self@, player_id, from, to, false, true);
        let ghost make_despawned = viewer(self@, player_id, from, to, true, false);
        let ghost make_entered = player_entered(self@, player_id, before@, after@);
        let ghost make_left = player_left(self@, player_id, before@, after@);
        let mut i: usize = 0;
        proof {
            picked_ends(all, make_moved);
            picked_ends(all, make_spawned);
            picked_ends(all, make_despawned);
            picked_ends(all, make_entered);
            picked_ends(all, make_left);
            assert(entity_players(players_entered@) =~= Seq::empty());
        }
        while i < self.sessions.player_sessions.len()
            invariant
                self.sound(),
                before.wf(),
                after.wf(),
                all == self.sessions.player_sessions@,
                i <= all.len(),
                make_moved == viewer(self@, player_id, from, to, true, true),
                make_spawned == viewer(self@, player_id, from, to, false, true),
                make_despawned == viewer(self@, player_id, from, to, true, false),
                make_entered == player_entered(self@, player_id, before@, after@),
                make_left == player_left(self@, player_id, before@, after@),
                moved_for_viewers@ == picked(all.subrange(0, i as int), make_moved),
                spawned_for_viewers@ == picked(all.subrange(0, i as int), make_spawned),
                despawned_for_viewers@ == picked(all.subrange(0, i as int), make_despawned),
                entity_players(players_entered@) == picked(
                    all.subrange(0, i as int),
                    make_entered,
                ),
                entities_left@ == picked(all.subrange(0, i as int), make_left),
            decreases all.len() - i,
        {
            let other_id = *self.sessions.player_sessions.key(i);
            let session = self.sessions.player_sessions.kept(i);
            let ghost entry = all[i as int];
            let ghost old_moved = moved_for_viewers@;
            let ghost old_spawned = spawned_for_viewers@;
            let ghost old_despawned = despawned_for_viewers@;
            let ghost old_entered = players_entered@;
            let ghost old_left = entities_left@;
            assert(player_of(entry.0) == other_id);
            let other = if other_id == player_id {
                None
            } else {
                self.player_with_chunk(other_id)
            };
            if let Some((other_player, chunk)) = other {
                match (session.view.sees(from), session.view.sees(to)) {
                    (true, true) => {
                        moved_for_viewers.push(other_id);
                    },
                    (false, true) => {
                        spawned_for_viewers.push(other_id);
                    },
                    (true, false) => {
                        despawned_for_viewers.push(other_id);
                    },
                    (false, false) => {},
                }
                match (before.sees(chunk), after.sees(chunk)) {
                    (false, true) => {
                        players_entered.push((session.entity_id, other_player));
                    },
                    (true, false) => {
                        entities_left.push(session.entity_id);
                    },
                    _ => {},
                }
            }
            proof {
                added(old_moved, moved_for_viewers@, all, i as int, make_moved);
                added(old_spawned, spawned_for_viewers@, all, i as int, make_spawned);
                added(old_despawned, despawned_for_viewers@, all, i as int, make_despawned);
                assert(entity_players(players_entered@) =~= entity_players(old_entered)
                    + at_most_one(make_entered(entry)));
                added(
                    entity_players(old_entered),
                    entity_players(players_entered@),
                    all,
                    i as int,
                    make_entered,
                );
                added(old_left, entities_left@, all, i as int, make_left);
            }
            i += 1;
        }
        proof {
            picked_ends(all, make_moved);
            picked_ends(all, make_spawned);
            picked_ends(all, make_despawned);
            picked_ends(all, make_entered);
            picked_ends(all, make_left);
        }
        Noticed {
            moved_for_viewers,
            spawned_for_viewers,
            despawned_for_viewers,
            players_entered,
            entities_left,
        }
    }

    fn player_with_chunk(&self, player_id: PlayerId) -> (result: Option<
        (PlayerSnapshot, ChunkPos),
    >)
        requires
            self.sound(),
        ensures
            match result {
                Some((player, chunk)) => self@.entity(player_id) matches Some(entity_id)
                    && composed(self@.entities, entity_id) == Some(player@) && chunk_of_player(
                    self@.entities,
                    entity_id,
                ) == Some(chunk),
                None => match self@.entity(player_id) {
                    Some(entity_id) => composed(self@.entities, entity_id) is None
                        || chunk_of_player(self@.entities, entity_id) is None,
                    None => true,
                },
            },
    {
        let entity_id = self.player_entity_id(player_id)?;
        let player = self.compose_player_snapshot_by_entity(entity_id)?;
        let transform = self.entities.player_transform.look(&entity_id)?;
        Some((player, transform.chunk))
    }

    fn notice_items(&self, before: &ClientView, after: &ClientView, left: &mut Vec<EntityId>) -> (result:
        Vec<(EntityId, DroppedItemSnapshot)>)
        requires
            self.sound(),
            before.wf(),
            after.wf(),
        ensures
            entity_items(result@) == picked(
                self@.entities.dropped_items,
                item_entered(before@, after@),
            ),
            final(left)@ == old(left)@ + picked(
                self@.entities.dropped_items,
                item_left(before@, after@),
            ),
    {
        let ghost first = left@;
        let mut entered: Vec<(EntityId, DroppedItemSnapshot)> = Vec::new();
        let ghost all = self@.entities.dropped_items;
        let ghost make_entered = item_entered(before@, after@);
        let ghost make_left = item_left(before@, after@);
        let mut i: usize = 0;
        proof {
            picked_ends(all, make_entered);
            picked_ends(all, make_left);
            assert(entity_items(entered@) =~= Seq::empty());
            assert(first + Seq::<EntityId>::empty() =~= first);
        }
        while i < self.entities.dropped_items.len()
            invariant
                self.sound(),
                before.wf(),
                after.wf(),
                all == self.entities.dropped_items@,
                i <= all.len(),
                make_entered == item_entered(before@, after@),
                make_left == item_left(before@, after@),
                entity_items(entered@) == picked(all.subrange(0, i as int), make_entered),
                left@ == first + picked(all.subrange(0, i as int), make_left),
            decreases all.len() - i,
        {
            let entity_id = *self.entities.dropped_items.key(i);
            let item = self.entities.dropped_items.kept(i);
            let ghost entry = all[i as int];
            let ghost old_entered = entered@;
            let ghost old_left = left@;
            assert(entity_of(entry.0) == entity_id);
            match (before.sees(item.chunk), after.sees(item.chunk)) {
                (false, true) => {
                    entered.push((entity_id, item.snapshot.duplicate()));
                },
                (true, false) => {
                    left.push(entity_id);
                },
                _ => {},
            }
            proof {
                picked_step(all, i as int, make_entered);
                picked_step(all, i as int, make_left);
                assert(entity_items(entered@) =~= entity_items(old_entered) + at_most_one(
                    make_entered(entry),
                ));
                assert(left@ =~= old_left + at_most_one(make_left(entry)));
                assert(left@ =~= first + picked(all.subrange(0, i as int + 1), make_left));
            }
            i += 1;
        }
        proof {
            picked_ends(all, make_entered);
            picked_ends(all, make_left);
        }
        entered
    }

    /// Moves a player; a position comes with the chunk that it lies in.
    pub fn state_player_pose<B: ContentBehavior>(
        &mut self,
        content_behavior: &B,
        player_id: PlayerId,
        position: Option<(Vec3, ChunkPos)>,
        yaw: Option<OpaqueF32>,
        pitch: Option<OpaqueF32>,
        on_ground: bool,
    ) -> (result: Option<PlayerPoseDelta>)
        requires
            old(self).sound(),
            old(self)@.player(player_id) is Some ==> (old(self)@.session(
                player_id,
            ) matches Some(session) ==> (old(self)@.entity(
                player_id,
            ) matches Some(entity_id) ==> (chunk_of_player(
                old(self)@.entities,
                entity_id,
            ) matches Some(chunk) ==> square_exists(
                match position {
                    Some((_, chunk)) => chunk,
                    None => chunk,
                },
                session.view.view_distance as int,
            )))),
        ensures
            final(self).sound(),
            ({
                let (delta, after) = pose(
                    old(self)@,
                    *content_behavior,
                    player_id,
                    position,
                    yaw,
                    pitch,
                    on_ground,
                );
                &&& final(self)@ == after
                &&& match result {
                    Some(result) => delta == Some(result@),
                    None => delta is None,
                }
            }),
            result matches Some(delta) ==> are_told_of_move(
                old(self)@,
                player_id,
                position,
                delta.moved_for_viewers@,
                delta.spawned_for_viewers@,
                delta.despawned_for_viewers@,
            ),
    {
        let ghost core = self@;
        proof {
            games_are_well_keyed(*self);
        }
        let entity_id = self.player_entity_id(player_id)?;
        let _ = self.compose_player_snapshot_by_entity(entity_id)?;
        let previous_view = self.player_session(player_id)?.view.duplicate();
        let previous_chunk = self.entities.player_transform.look(&entity_id)?.chunk;
        let ghost session_before = core.session(player_id)->0;
        let ghost from = lookup(core.entities.player_transform, entity_id.id())->0;
        let ghost to = moved(from, position, yaw, pitch, on_ground);
        let current_chunk = match self.entities.player_transform.look_mut(&entity_id) {
            Some(transform) => {
                if let Some((position, chunk)) = position {
                    transform.position = position;
                    transform.chunk = chunk;
                }
                if let Some(yaw) = yaw {
                    transform.yaw = yaw;
                }
                if let Some(pitch) = pitch {
                    transform.pitch = pitch;
                }
                transform.on_ground = on_ground;
                transform.chunk
            },
            None => {
                return None;
            },
        };
        assert(self@.entities.player_transform == inserted(
            core.entities.player_transform,
            entity_id.id(),
            to,
        ));
        let (added_chunks, current_view) = match self.sessions.player_sessions.look_mut(
            &player_id,
        ) {
            Some(session) => {
                let view_distance: u8 = session.view.view_distance;
                let added_chunks = session.view.retarget(current_chunk, view_distance).added;
                (added_chunks, session.view.duplicate())
            },
            None => {
                return None;
            },
        };
        let ghost next = with_pose(core, player_id, entity_id, session_before, to);
        assert(self@ == next);
        proof {
            crate::ordered::insert_laws(
                core.entities.player_transform,
                entity_id.id(),
                to,
                entity_id.id(),
            );
        }
        let player = match self.compose_player_snapshot_by_entity(entity_id) {
            Some(player) => player,
            None => {
                return None;
            },
        };
        let noticed = self.notice_players(
            player_id,
            previous_chunk,
            current_chunk,
            &previous_view,
            &current_view,
        );
        let mut observed_entities_left = noticed.entities_left;
        let observed_items_entered = self.notice_items(
            &previous_view,
            &current_view,
            &mut observed_entities_left,
        );
        let chunks = self.keep_chunks(content_behavior, &added_chunks);
        proof {
            move_is_told(core, *content_behavior, player_id, position, yaw, pitch, on_ground);
        }
        Some(
            PlayerPoseDelta {
                player_id,
                entity_id,
                player,
                chunks,
                moved_for_viewers: noticed.moved_for_viewers,
                spawned_for_viewers: noticed.spawned_for_viewers,
                despawned_for_viewers: noticed.despawned_for_viewers,
                observed_players_entered: noticed.players_entered,
                observed_items_entered,
                observed_entities_left,
            },
        )
    }
}

/// A move is noticed by another player in one way at most: the player who moved is seen to move,
/// comes into sight or goes out of it.
pub proof fn viewers_notice_one_thing(
    core: CoreView,
    player_id: PlayerId,
    from: ChunkPos,
    to: ChunkPos,
    entry: (Seq<int>, SessionView),
)
    ensures
        ({
            let moves = viewer(core, player_id, from, to, true, true)(entry);
            let comes = viewer(core, player_id, from, to, false, true)(entry);
            let goes = viewer(core, player_id, from, to, true, false)(entry);
            &&& !(moves is Some && comes is Some)
            &&& !(moves is Some && goes is Some)
            &&& !(comes is Some && goes is Some)
            &&& (moves is Some || comes is Some || goes is Some) == (other_player(
                core,
                player_id,
                entry,
            ) is Some && (entry.1.view.sees(from) || entry.1.view.sees(to)))
        }),
{
}

} // verus!
