//! Players who join, and what they see first.

use crate::game::content::ContentBehavior;
use crate::game::pose::{entity_items, entity_players};
use crate::game::resync::chunk_of_player;
use crate::game::session::SessionView;
use crate::game::state::{CoreView, ServerCore};
use crate::game::store::{DroppedStateView, SessionsView};
use crate::game::terrain::{chunks_at, with_chunks_kept};
use crate::lists::{at_most_one, picked, picked_ends, picked_step};
use crate::model::block::{chunk_of, ChunkPos, DimensionId, Vec3};
use crate::model::chunk::{ChunkColumn, ColumnView};
use crate::model::event::{CoreEvent, EventTarget, TargetedEvent};
use crate::model::event_view::{column_views, event_views, EventView, TargetedView};
use crate::model::ids::{entity_of, player_of, ConnectionId, EntityId, PlayerId};
use crate::model::inventory::PlayerInventory;
use crate::model::item::OpaqueF32;
use crate::model::player::{DroppedItemSnapshot, DroppedItemView, PlayerSnapshot, PlayerView};
use crate::model::view::{difference, required_chunks, sight, square, square_exists, ChunkSet};
use crate::ordered::{inserted, Entries, Key, Stored};
use vstd::prelude::*;

verus! {

/// Tells a client that it is not let in.
pub fn reject_connection(connection_id: ConnectionId, reason: &str) -> (result: Vec<TargetedEvent>)
    ensures
        event_views(result@) == seq![
            TargetedView {
                target: EventTarget::Connection(connection_id),
                event: EventView::Disconnect { reason: reason@ },
            },
        ],
{
    let mut events: Vec<TargetedEvent> = Vec::new();
    events.push(
        TargetedEvent {
            target: EventTarget::Connection(connection_id),
            event: CoreEvent::Disconnect { reason: reason.to_string() },
        },
    );
    assert(event_views(events@) =~= seq![
        TargetedView {
            target: EventTarget::Connection(connection_id),
            event: EventView::Disconnect { reason: reason@ },
        },
    ]);
    events
}

/// Chunks that came into sight.
#[derive(Debug, PartialEq, Eq)]
pub struct ViewUpdateDelta {
    pub player_id: PlayerId,
    pub chunks: Vec<ChunkColumn>,
}

/// How far a client sees that wants to see some distance: at least one chunk and at most as far
/// as the game lets it.
pub open spec fn capped_distance(wanted: u8, limit: u8) -> u8 {
    let least = if wanted < limit {
        wanted
    } else {
        limit
    };
    if least < 1 {
        1
    } else {
        least
    }
}

/// A game in which a player sees another square.
pub open spec fn with_sight(
    core: CoreView,
    player_id: PlayerId,
    session: SessionView,
    center: ChunkPos,
    view_distance: u8,
) -> CoreView {
    CoreView {
        sessions: SessionsView {
            player_sessions: inserted(
                core.sessions.player_sessions,
                player_id.id(),
                SessionView { view: sight(center, view_distance), ..session },
            ),
            ..core.sessions
        },
        ..core
    }
}

/// The chunk that a player is in, if the player is in the game.
pub open spec fn player_chunk(core: CoreView, player_id: PlayerId) -> Option<ChunkPos> {
    match (core.entity(player_id), core.player(player_id)) {
        (Some(entity_id), Some(_)) => chunk_of_player(core.entities, entity_id),
        _ => None,
    }
}

/// The places of a set of chunks, in order.
pub open spec fn places(set: Entries<()>) -> Seq<ChunkPos> {
    set.map_values(|entry: (Seq<int>, ())| chunk_of(entry.0))
}

fn list_places(set: &ChunkSet) -> (result: Vec<ChunkPos>)
    ensures
        result@ == places(set@),
{
    let mut result: Vec<ChunkPos> = Vec::new();
    let mut i: usize = 0;
    while i < set.len()
        invariant
            i <= set@.len(),
            result@ =~= places(set@).subrange(0, i as int),
        decreases set@.len() - i,
    {
        let pos = *set.key(i);
        assert(chunk_of(pos.id()) == pos);
        result.push(pos);
        i += 1;
    }
    assert(result@ =~= places(set@));
    result
}

/// What a player is told who has joined.
#[derive(Debug, PartialEq, Eq)]
pub struct LoginFinalizeDelta {
    pub connection_id: ConnectionId,
    pub player_id: PlayerId,
    pub entity_id: EntityId,
    pub player: PlayerSnapshot,
    pub visible_chunks: Vec<ChunkColumn>,
    pub existing_players: Vec<(EntityId, PlayerSnapshot)>,
    pub dropped_items: Vec<(EntityId, DroppedItemSnapshot)>,
}

/// Another player who is in the game already.
pub open spec fn existing_player(core: CoreView, player_id: PlayerId) -> spec_fn(
    (Seq<int>, SessionView),
) -> Option<(EntityId, PlayerView)> {
    |entry: (Seq<int>, SessionView)|
        if player_of(entry.0) == player_id {
            None
        } else {
            match core.player(player_of(entry.0)) {
                Some(player) => Some((entry.1.entity_id, player)),
                None => None,
            }
        }
}

/// Items that lie in the world, under their entities.
pub open spec fn all_items(items: Entries<DroppedStateView>) -> Seq<(EntityId, DroppedItemView)> {
    items.map_values(
        |entry: (Seq<int>, DroppedStateView)| (entity_of(entry.0), entry.1.snapshot),
    )
}

/// The chunks that come into sight of a player who wants to see some distance, and the game
/// then. Who is not wholly in the game is told nothing.
pub open spec fn settled<B: ContentBehavior>(
    core: CoreView,
    behavior: B,
    player_id: PlayerId,
    view_distance: u8,
) -> (Option<Seq<ColumnView>>, CoreView) {
    match (player_chunk(core, player_id), core.session(player_id)) {
        (Some(chunk), Some(session)) => {
            let distance = capped_distance(view_distance, core.world.config.view_distance);
            let next = with_sight(core, player_id, session, chunk, distance);
            let added = difference(square(chunk, distance as int), session.view.loaded);
            (
                Some(chunks_at(next, behavior, added)),
                with_chunks_kept(next, behavior, added),
            )
        },
        _ => (None, core),
    }
}

/// What a player is told who has joined.
pub struct WelcomeView {
    pub entity_id: EntityId,
    pub player: PlayerView,
    pub visible_chunks: Seq<ColumnView>,
    pub existing_players: Seq<(EntityId, PlayerView)>,
    pub dropped_items: Seq<(EntityId, DroppedItemView)>,
}

/// What a player is told who has joined, and the game then. Who is not wholly in the game is told
/// nothing.
pub open spec fn welcomed<B: ContentBehavior>(
    core: CoreView,
    behavior: B,
    player_id: PlayerId,
) -> (Option<WelcomeView>, CoreView) {
    match (core.player(player_id), player_chunk(core, player_id), core.session(player_id)) {
        (Some(player), Some(chunk), Some(session)) => {
            let seen = places(square(chunk, session.view.view_distance as int));
            (
                Some(
                    WelcomeView {
                        entity_id: session.entity_id,
                        player,
                        visible_chunks: chunks_at(core, behavior, seen),
                        existing_players: picked(
                            core.sessions.player_sessions,
                            existing_player(core, player_id),
                        ),
                        dropped_items: all_items(core.entities.dropped_items),
                    },
                ),
                with_chunks_kept(core, behavior, seen),
            )
        },
        _ => (None, core),
    }
}

impl ServerCore {
    /// Lets a player see some distance.
    pub fn state_update_client_settings<B: ContentBehavior>(
        &mut self,
        content_behavior: &B,
        player_id: PlayerId,
        view_distance: u8,
    ) -> (result: Option<ViewUpdateDelta>)
        requires
            old(self).sound(),
            old(self)@.session(player_id) is Some ==> (player_chunk(
                old(self)@,
                player_id,
            ) matches Some(chunk) ==> square_exists(
                chunk,
                capped_distance(view_distance, old(self)@.world.config.view_distance) as int,
            )),
        ensures
            final(self).sound(),
            match (player_chunk(old(self)@, player_id), old(self)@.session(player_id)) {
                (Some(chunk), Some(session)) => {
                    let distance = capped_distance(
                        view_distance,
                        old(self)@.world.config.view_distance,
                    );
                    let next = with_sight(old(self)@, player_id, session, chunk, distance);
                    let added = difference(
                        square(chunk, distance as int),
                        session.view.loaded,
                    );
                    &&& final(self)@ == with_chunks_kept(next, *content_behavior, added)
                    &&& result matches Some(delta)
                    &&& delta.player_id == player_id
                    &&& column_views(delta.chunks@) == chunks_at(next, *content_behavior, added)
                },
                _ => result is None && final(self)@ == old(self)@,
            },
            ({
                let (chunks, after) = settled(
                    old(self)@,
                    *content_behavior,
                    player_id,
                    view_distance,
                );
                &&& final(self)@ == after
                &&& match result {
                    Some(delta) => delta.player_id == player_id && chunks == Some(
                        column_views(delta.chunks@),
                    ),
                    None => chunks is None,
                }
            }),
    {
        let limit: u8 = self.world.config.view_distance;
        let least: u8 = if view_distance < limit {
            view_distance
        } else {
            limit
        };
        let capped_view_distance: u8 = if least < 1 {
            1
        } else {
            least
        };
        let entity_id = self.player_entity_id(player_id)?;
        let _ = self.compose_player_snapshot_by_entity(entity_id)?;
        let chunk = self.entities.player_transform.look(&entity_id)?.chunk;
        let added = match self.sessions.player_sessions.look_mut(&player_id) {
            Some(session) => session.view.retarget(chunk, capped_view_distance).added,
            None => {
                return None;
            },
        };
        let chunks = self.keep_chunks(content_behavior, &added);
        Some(ViewUpdateDelta { player_id, chunks })
    }

    fn list_existing_players(&self, player_id: PlayerId) -> (result: Vec<
        (EntityId, PlayerSnapshot),
    >)
        requires
            self.sound(),
        ensures
            entity_players(result@) == picked(
                self@.sessions.player_sessions,
                existing_player(self@, player_id),
            ),
    {
        let mut result: Vec<(EntityId, PlayerSnapshot)> = Vec::new();
        let ghost all = self@.sessions.player_sessions;
        let ghost make = existing_player(self@, player_id);
        let mut i: usize = 0;
        proof {
            picked_ends(all, make);
            assert(entity_players(result@) =~= Seq::empty());
        }
        while i < self.sessions.player_sessions.len()
            invariant
                self.sound(),
                all == self.sessions.player_sessions@,
                i <= all.len(),
                make == existing_player(self@, player_id),
                entity_players(result@) == picked(all.subrange(0, i as int), make),
            decreases all.len() - i,
        {
            let other_id = *self.sessions.player_sessions.key(i);
            let session = self.sessions.player_sessions.kept(i);
            let ghost entry = all[i as int];
            let ghost before = result@;
            proof {
                picked_step(all, i as int, make);
                assert(player_of(entry.0) == other_id);
            }
            if other_id != player_id {
                if let Some(player) = self.player_snapshot(other_id) {
                    result.push((session.entity_id, player));
                }
            }
            assert(entity_players(result@) =~= entity_players(before) + at_most_one(make(entry)));
            i += 1;
        }
        proof {
            picked_ends(all, make);
        }
        result
    }

    fn list_dropped_items(&self) -> (result: Vec<(EntityId, DroppedItemSnapshot)>)
        requires
            self.sound(),
        ensures
            entity_items(result@) == all_items(self@.entities.dropped_items),
    {
        let mut result: Vec<(EntityId, DroppedItemSnapshot)> = Vec::new();
        let ghost all = all_items(self@.entities.dropped_items);
        let mut i: usize = 0;
        while i < self.entities.dropped_items.len()
            invariant
                self.sound(),
                all == all_items(self.entities.dropped_items@),
                i <= all.len() == self.entities.dropped_items@.len(),
                entity_items(result@) =~= all.subrange(0, i as int),
            decreases all.len() - i,
        {
            let entity_id = *self.entities.dropped_items.key(i);
            let item = self.entities.dropped_items.kept(i).snapshot.duplicate();
            let ghost before = result@;
            assert(entity_of(entity_id.id()) == entity_id);
            result.push((entity_id, item));
            assert(entity_items(result@) =~= entity_items(before).push((entity_id, item@)));
            i += 1;
        }
        assert(entity_items(result@) =~= all);
        result
    }

    /// What a player is told who has joined.
    pub fn finalize_login_delta<B: ContentBehavior>(
        &mut self,
        content_behavior: &B,
        connection_id: ConnectionId,
        player_id: PlayerId,
    ) -> (result: Option<LoginFinalizeDelta>)
        requires
            old(self).sound(),
            player_chunk(old(self)@, player_id) matches Some(chunk) ==> (old(self)@.session(
                player_id,
            ) matches Some(session) ==> square_exists(chunk, session.view.view_distance as int)),
        ensures
            final(self).sound(),
            match (
                old(self)@.player(player_id),
                player_chunk(old(self)@, player_id),
                old(self)@.session(player_id),
            ) {
                (Some(player), Some(chunk), Some(session)) => {
                    let seen = places(square(chunk, session.view.view_distance as int));
                    &&& final(self)@ == with_chunks_kept(old(self)@, *content_behavior, seen)
                    &&& result matches Some(delta)
                    &&& delta.connection_id == connection_id
                    &&& delta.player_id == player_id
                    &&& delta.entity_id == session.entity_id
                    &&& delta.player@ == player
                    &&& column_views(delta.visible_chunks@) == chunks_at(
                        old(self)@,
                        *content_behavior,
                        seen,
                    )
                    &&& entity_players(delta.existing_players@) == picked(
                        old(self)@.sessions.player_sessions,
                        existing_player(old(self)@, player_id),
                    )
                    &&& entity_items(delta.dropped_items@) == all_items(
                        old(self)@.entities.dropped_items,
                    )
                },
                _ => result is None && final(self)@ == old(self)@,
            },
            ({
                let (told, after) = welcomed(old(self)@, *content_behavior, player_id);
                &&& final(self)@ == after
                &&& match result {
                    Some(delta) => {
                        &&& told matches Some(told)
                        &&& delta.connection_id == connection_id
                        &&& delta.player_id == player_id
                        &&& delta.entity_id == told.entity_id
                        &&& delta.player@ == told.player
                        &&& column_views(delta.visible_chunks@) == told.visible_chunks
                        &&& entity_players(delta.existing_players@) == told.existing_players
                        &&& entity_items(delta.dropped_items@) == told.dropped_items
                    },
                    None => told is None,
                }
            }),
    {
        let entity = self.player_entity_id(player_id)?;
        let player = self.compose_player_snapshot_by_entity(entity)?;
        let chunk = self.entities.player_transform.look(&entity)?.chunk;
        let session = self.player_session(player_id)?;
        let entity_id = session.entity_id;
        let view_distance: u8 = session.view.view_distance;
        let existing_players = self.list_existing_players(player_id);
        let dropped_items = self.list_dropped_items();
        let seen = list_places(&required_chunks(chunk, view_distance));
        let visible_chunks = self.keep_chunks(content_behavior, &seen);
        Some(
            LoginFinalizeDelta {
                connection_id,
                player_id,
                entity_id,
                player,
                visible_chunks,
                existing_players,
                dropped_items,
            },
        )
    }
}

/// A player who joins for the first time, at a position.
pub fn default_player(
    player_id: PlayerId,
    username: String,
    position: Vec3,
    inventory: PlayerInventory,
) -> (result: PlayerSnapshot)
    ensures
        result@ == (PlayerView {
            id: player_id,
            username: username@,
            position,
            yaw: OpaqueF32(0),
            pitch: OpaqueF32(0),
            on_ground: true,
            dimension: DimensionId::Overworld,
            health: OpaqueF32(0x41a0_0000),
            food: 20,
            food_saturation: OpaqueF32(0x40a0_0000),
            inventory: inventory@,
            selected_hotbar_slot: 0,
        }),
        result.inventory == inventory,
{
    PlayerSnapshot {
        id: player_id,
        username,
        position,
        yaw: OpaqueF32(0),
        pitch: OpaqueF32(0),
        on_ground: true,
        dimension: DimensionId::Overworld,
        health: OpaqueF32(0x41a0_0000),
        food: 20,
        food_saturation: OpaqueF32(0x40a0_0000),
        inventory,
        selected_hotbar_slot: 0,
    }
}

} // verus!
