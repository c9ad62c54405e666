//! What a client is told to see the whole game anew.

use crate::game::content::ContentBehavior;
use crate::game::session::{PlayerSessionState, SessionView};
use crate::game::state::{composed, CoreView, ServerCore};
use crate::game::store::{DroppedStateView, EntitiesView, MiningView};
use crate::game::sync::{property_events, property_told};
use crate::lists::{at_most_one, picked, picked_ends, picked_step};
use crate::model::block::ChunkPos;
use crate::model::chunk::{ChunkColumn, ColumnView};
use crate::model::event::{CoreEvent, TargetedEvent};
use crate::model::event_view::{column_views, event_views, tell, told, EventView, TargetedView};
use crate::model::ids::{entity_of, player_of, EntityId, PlayerId};
use crate::model::inventory::{
    ContentsView, InventoryView, InventoryWindowContents, PlayerInventory,
};
use crate::model::item::duplicate_stack;
use crate::ordered::{lookup, Key, Stored};
use vstd::prelude::*;

verus! {

/// The chunk that a player's entity is in.
pub open spec fn chunk_of_player(entities: EntitiesView, entity_id: EntityId) -> Option<ChunkPos> {
    match lookup(entities.player_transform, entity_id.id()) {
        Some(transform) => Some(transform.chunk),
        None => None,
    }
}

/// The chunks that a session sees and that are kept, in order.
pub open spec fn seen_chunks(core: CoreView, session: SessionView) -> Seq<ColumnView> {
    picked(session.view.loaded, |entry: (Seq<int>, ())| lookup(core.world.chunks, entry.0))
}

/// What is told of another player that is in sight.
pub open spec fn player_seen(core: CoreView, player_id: PlayerId, session: SessionView) -> spec_fn(
    (Seq<int>, EntityId),
) -> Option<TargetedView> {
    |entry: (Seq<int>, EntityId)|
        if player_of(entry.0) == player_id || entry.1 == session.entity_id {
            None
        } else {
            match (composed(core.entities, entry.1), chunk_of_player(core.entities, entry.1)) {
                (Some(player), Some(chunk)) => if session.view.sees(chunk) {
                    Some(told(player_id, EventView::EntitySpawned { entity_id: entry.1, player }))
                } else {
                    None
                },
                _ => None,
            }
        }
}

/// What is told of items that lie in sight.
pub open spec fn item_seen(player_id: PlayerId, session: SessionView) -> spec_fn(
    (Seq<int>, DroppedStateView),
) -> Option<TargetedView> {
    |entry: (Seq<int>, DroppedStateView)|
        if session.view.sees(entry.1.chunk) {
            Some(
                told(
                    player_id,
                    EventView::DroppedItemSpawned {
                        entity_id: entity_of(entry.0),
                        item: entry.1.snapshot,
                    },
                ),
            )
        } else {
            None
        }
}

/// What is told of a block in sight that is being broken.
pub open spec fn mining_seen(player_id: PlayerId, session: SessionView) -> spec_fn(
    (Seq<int>, MiningView),
) -> Option<TargetedView> {
    |entry: (Seq<int>, MiningView)|
        if session.view.sees(entry.1.position.spec_chunk_pos()) {
            Some(
                told(
                    player_id,
                    EventView::BlockBreakingProgress {
                        breaker_entity_id: entity_of(entry.0),
                        position: entry.1.position,
                        stage: entry.1.last_stage,
                        duration_ms: entry.1.duration_ms,
                    },
                ),
            )
        } else {
            None
        }
}

/// What is told of the window that is open, or else of the player's own.
pub open spec fn window_seen(
    player_kind: Seq<char>,
    player_id: PlayerId,
    session: SessionView,
    inventory: InventoryView,
) -> Seq<TargetedView> {
    match session.active_container {
        Some(window) => seq![
            told(
                player_id,
                EventView::InventoryContents {
                    window_id: window.window_id,
                    container: window.container.kind,
                    contents: ContentsView {
                        player_inventory: inventory,
                        local_slots: window.container.local_slots,
                    },
                },
            ),
        ] + window.container.properties.map_values(
            |entry: (Seq<char>, i16)| property_told(player_id, window.window_id, entry),
        ),
        None => seq![
            told(
                player_id,
                EventView::InventoryContents {
                    window_id: 0,
                    container: player_kind,
                    contents: ContentsView {
                        player_inventory: inventory,
                        local_slots: Seq::empty(),
                    },
                },
            ),
        ],
    }
}

/// What a client is told to see the whole game anew: where the player is, the chunks, players,
/// items and broken blocks in sight, the open window, what is at hand and the cursor. A player
/// that is not wholly in the game is told nothing.
pub open spec fn resync(core: CoreView, player_kind: Seq<char>, player_id: PlayerId) -> Seq<
    TargetedView,
> {
    match core.session(player_id) {
        None => Seq::empty(),
        Some(session) => match (
            composed(core.entities, session.entity_id),
            lookup(core.entities.player_inventory, session.entity_id.id()),
            lookup(core.entities.player_selected_hotbar, session.entity_id.id()),
        ) {
            (Some(player), Some(inventory), Some(selected)) => seq![
                told(
                    player_id,
                    EventView::PlayBootstrap {
                        player,
                        entity_id: session.entity_id,
                        world_meta: core.world.world_meta,
                        view_distance: core.world.config.view_distance,
                    },
                ),
                told(player_id, EventView::ChunkBatch { chunks: seen_chunks(core, session) }),
            ] + picked(
                core.entities.players_by_player_id,
                player_seen(core, player_id, session),
            ) + picked(core.entities.dropped_items, item_seen(player_id, session)) + picked(
                core.entities.player_active_mining,
                mining_seen(player_id, session),
            ) + window_seen(player_kind, player_id, session, inventory) + seq![
                told(player_id, EventView::SelectedHotbarSlotChanged { slot: selected }),
                told(player_id, EventView::CursorChanged { stack: session.cursor }),
            ],
            _ => Seq::empty(),
        },
    }
}

impl ServerCore {
    /// The chunks that a session sees and that are kept, in order.
    pub fn visible_chunks(&self, session: &PlayerSessionState) -> (result: Vec<ChunkColumn>)
        requires
            self.sound(),
            session.sound(),
        ensures
            column_views(result@) == seen_chunks(self@, session@),
    {
        let ghost loaded = session@.view.loaded;
        let ghost make = |entry: (Seq<int>, ())| lookup(self@.world.chunks, entry.0);
        let mut chunks: Vec<ChunkColumn> = Vec::new();
        let mut i: usize = 0;
        proof {
            picked_ends(loaded, make);
            assert(column_views(chunks@) =~= Seq::empty());
        }
        while i < session.view.loaded_chunks.len()
            invariant
                self.sound(),
                session.sound(),
                loaded == session.view.loaded_chunks@,
                i <= loaded.len(),
                make == (|entry: (Seq<int>, ())| lookup(self@.world.chunks, entry.0)),
                column_views(chunks@) == picked(loaded.subrange(0, i as int), make),
            decreases loaded.len() - i,
        {
            let pos = *session.view.loaded_chunks.key(i);
            let ghost before = chunks@;
            proof {
                picked_step(loaded, i as int, make);
            }
            match self.world.chunks.look(&pos) {
                Some(chunk) => {
                    let copy = chunk.replica();
                    chunks.push(copy);
                    assert(column_views(chunks@) =~= column_views(before) + seq![copy@]);
                },
                None => {
                    assert(column_views(before) + at_most_one(make(loaded[i as int]))
                        =~= column_views(before));
                },
            }
            i += 1;
        }
        proof {
            picked_ends(loaded, make);
        }
        chunks
    }

    fn tell_players_seen(
        &self,
        events: &mut Vec<TargetedEvent>,
        player_id: PlayerId,
        session: &PlayerSessionState,
    )
        requires
            self.sound(),
            session.sound(),
        ensures
            event_views(final(events)@) == event_views(old(events)@) + picked(
                self@.entities.players_by_player_id,
                player_seen(self@, player_id, session@),
            ),
    {
        let ghost all = self@.entities.players_by_player_id;
        let ghost make = player_seen(self@, player_id, session@);
        let ghost before = event_views(events@);
        let mut i: usize = 0;
        proof {
            picked_ends(all, make);
            assert(before + Seq::<TargetedView>::empty() =~= before);
        }
        while i < self.entities.players_by_player_id.len()
            invariant
                self.sound(),
                session.sound(),
                all == self.entities.players_by_player_id@,
                i <= all.len(),
                make == player_seen(self@, player_id, session@),
                event_views(events@) == before + picked(all.subrange(0, i as int), make),
            decreases all.len() - i,
        {
            let other_player_id = *self.entities.players_by_player_id.key(i);
            let entity_id = *self.entities.players_by_player_id.at(i);
            let ghost entry = all[i as int];
            let ghost done = event_views(events@);
            proof {
                picked_step(all, i as int, make);
                assert(player_of(entry.0) == other_player_id);
            }
            if other_player_id != player_id && entity_id != session.entity_id {
                if let Some(player) = self.compose_player_snapshot_by_entity(entity_id) {
                    if let Some(transform) = self.entities.player_transform.look(&entity_id) {
                        if session.view.sees(transform.chunk) {
                            tell(
                                events,
                                player_id,
                                CoreEvent::EntitySpawned { entity_id, player },
                            );
                        }
                    }
                }
            }
            assert(event_views(events@) =~= done + at_most_one(make(entry)));
            assert(event_views(events@) =~= before + picked(
                all.subrange(0, i as int + 1),
                make,
            ));
            i += 1;
        }
        proof {
            picked_ends(all, make);
        }
    }

    fn tell_items_seen(
        &self,
        events: &mut Vec<TargetedEvent>,
        player_id: PlayerId,
        session: &PlayerSessionState,
    )
        requires
            self.sound(),
            session.sound(),
        ensures
            event_views(final(events)@) == event_views(old(events)@) + picked(
                self@.entities.dropped_items,
                item_seen(player_id, session@),
            ),
    {
        let ghost all = self@.entities.dropped_items;
        let ghost make = item_seen(player_id, session@);
        let ghost before = event_views(events@);
        let mut i: usize = 0;
        proof {
            picked_ends(all, make);
            assert(before + Seq::<TargetedView>::empty() =~= before);
        }
        while i < self.entities.dropped_items.len()
            invariant
                self.sound(),
                session.sound(),
                all == self.entities.dropped_items@,
                i <= all.len(),
                make == item_seen(player_id, session@),
                event_views(events@) == before + picked(all.subrange(0, i as int), make),
            decreases all.len() - i,
        {
            let entity_id = *self.entities.dropped_items.key(i);
            let item = self.entities.dropped_items.kept(i);
            let ghost entry = all[i as int];
            let ghost done = event_views(events@);
            proof {
                picked_step(all, i as int, make);
                assert(entity_of(entry.0) == entity_id);
            }
            if session.view.sees(item.chunk) {
                tell(
                    events,
                    player_id,
                    CoreEvent::DroppedItemSpawned { entity_id, item: item.snapshot.duplicate() },
                );
            }
            assert(event_views(events@) =~= done + at_most_one(make(entry)));
            assert(event_views(events@) =~= before + picked(
                all.subrange(0, i as int + 1),
                make,
            ));
            i += 1;
        }
        proof {
            picked_ends(all, make);
        }
    }

    fn tell_mining_seen(
        &self,
        events: &mut Vec<TargetedEvent>,
        player_id: PlayerId,
        session: &PlayerSessionState,
    )
        requires
            self.sound(),
            session.sound(),
        ensures
            event_views(final(events)@) == event_views(old(events)@) + picked(
                self@.entities.player_active_mining,
                mining_seen(player_id, session@),
            ),
    {
        let ghost all = self@.entities.player_active_mining;
        let ghost make = mining_seen(player_id, session@);
        let ghost before = event_views(events@);
        let mut i: usize = 0;
        proof {
            picked_ends(all, make);
            assert(before + Seq::<TargetedView>::empty() =~= before);
        }
        while i < self.entities.player_active_mining.len()
            invariant
                self.sound(),
                session.sound(),
                all == self.entities.player_active_mining@,
                i <= all.len(),
                make == mining_seen(player_id, session@),
                event_views(events@) == before + picked(all.subrange(0, i as int), make),
            decreases all.len() - i,
        {
            let breaker_entity_id = *self.entities.player_active_mining.key(i);
            let mining = self.entities.player_active_mining.kept(i);
            let ghost entry = all[i as int];
            let ghost done = event_views(events@);
            proof {
                picked_step(all, i as int, make);
                assert(entity_of(entry.0) == breaker_entity_id);
            }
            if session.view.sees(mining.position.chunk_pos()) {
                tell(
                    events,
                    player_id,
                    CoreEvent::BlockBreakingProgress {
                        breaker_entity_id,
                        position: mining.position,
                        stage: mining.last_stage,
                        duration_ms: mining.duration_ms,
                    },
                );
            }
            assert(event_views(events@) =~= done + at_most_one(make(entry)));
            assert(event_views(events@) =~= before + picked(
                all.subrange(0, i as int + 1),
                make,
            ));
            i += 1;
        }
        proof {
            picked_ends(all, make);
        }
    }

    fn tell_window_seen<B: ContentBehavior>(
        events: &mut Vec<TargetedEvent>,
        content_behavior: &B,
        player_id: PlayerId,
        session: &PlayerSessionState,
        inventory: &PlayerInventory,
    )
        ensures
            event_views(final(events)@) == event_views(old(events)@) + window_seen(
                content_behavior.player_kind(),
                player_id,
                session@,
                inventory@,
            ),
    {
        let ghost before = event_views(events@);
        match &session.active_container {
            Some(window) => {
                tell(
                    events,
                    player_id,
                    CoreEvent::InventoryContents {
                        window_id: window.window_id,
                        container: window.container.kind.duplicate(),
                        contents: window.contents(inventory),
                    },
                );
                let ghost first = event_views(events@);
                let mut told_properties = property_events(
                    window.window_id,
                    player_id,
                    &window.property_entries(),
                );
                let ghost properties = event_views(told_properties@);
                events.append(&mut told_properties);
                assert(event_views(events@) =~= first + properties);
            },
            None => {
                tell(
                    events,
                    player_id,
                    CoreEvent::InventoryContents {
                        window_id: 0,
                        container: content_behavior.player_container_kind(),
                        contents: InventoryWindowContents::player(inventory.duplicate()),
                    },
                );
            },
        }
        assert(event_views(events@) =~= before + window_seen(
            content_behavior.player_kind(),
            player_id,
            session@,
            inventory@,
        ));
    }

    /// Tells a client what it takes to see the whole game anew.
    pub fn session_resync_events<B: ContentBehavior>(
        &self,
        content_behavior: &B,
        player_id: PlayerId,
    ) -> (result: Vec<TargetedEvent>)
        requires
            self.sound(),
        ensures
            event_views(result@) == resync(self@, content_behavior.player_kind(), player_id),
    {
        let mut events: Vec<TargetedEvent> = Vec::new();
        assert(event_views(events@) =~= Seq::empty());
        let session = match self.player_session(player_id) {
            Some(session) => session,
            None => {
                return events;
            },
        };
        let player = match self.compose_player_snapshot_by_entity(session.entity_id) {
            Some(player) => player,
            None => {
                return events;
            },
        };
        let inventory = match self.entities.player_inventory.look(&session.entity_id) {
            Some(inventory) => inventory,
            None => {
                return events;
            },
        };
        let selected_hotbar_slot: u8 = match self.entities.player_selected_hotbar.look(
            &session.entity_id,
        ) {
            Some(slot) => *slot,
            None => {
                return events;
            },
        };
        tell(
            &mut events,
            player_id,
            CoreEvent::PlayBootstrap {
                player,
                entity_id: session.entity_id,
                world_meta: self.world.world_meta.duplicate(),
                view_distance: self.world.config.view_distance,
            },
        );
        let chunks = self.visible_chunks(session);
        tell(&mut events, player_id, CoreEvent::ChunkBatch { chunks });
        self.tell_players_seen(&mut events, player_id, session);
        self.tell_items_seen(&mut events, player_id, session);
        self.tell_mining_seen(&mut events, player_id, session);
        ServerCore::tell_window_seen(
            &mut events,
            content_behavior,
            player_id,
            session,
            inventory,
        );
        tell(
            &mut events,
            player_id,
            CoreEvent::SelectedHotbarSlotChanged { slot: selected_hotbar_slot },
        );
        tell(
            &mut events,
            player_id,
            CoreEvent::CursorChanged { stack: duplicate_stack(&session.cursor) },
        );
        assert(event_views(events@) =~= resync(
            self@,
            content_behavior.player_kind(),
            player_id,
        ));
        events
    }
}

} // verus!
