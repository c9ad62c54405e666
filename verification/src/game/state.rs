//! The state of a game and what can be asked of it.

use crate::game::content::ContentBehavior;
use crate::game::session::{PlayerSessionState, SessionView};
use crate::game::store::{
    ConfigView, CoreConfig, EntitiesView, EntityStore, SessionStore, SessionsView, WorldStore,
    WorldView,
};
use crate::model::block::{
    block_view, block_wf, fine, fine_of, BlockPos, BlockState, ChunkPos, DimensionId, WorldMeta,
    WorldMetaView,
};
use crate::model::chunk::ColumnView;
use crate::model::ids::{EntityId, PlayerId};
use crate::model::player::{
    BlockEntityState, BlockEntityView, PlayerSnapshot, PlayerView, WorldSnapshot,
};
use crate::ordered::{
    holds, insert_laws, inserted, lookup, lookup_entry, rank_bounds, removed, Entries, Key,
    OrderedMap, Stored,
};
use vstd::prelude::*;

verus! {

/// How often a connection is probed, in milliseconds.
pub const DEFAULT_KEEPALIVE_INTERVAL_MS: u64 = 10_000;

/// How long a connection may be silent, in milliseconds.
pub const DEFAULT_KEEPALIVE_TIMEOUT_MS: u64 = 30_000;

/// What runs the systems of a game.
#[derive(Clone, Copy, Debug, PartialEq, Eq, Structural)]
pub struct SystemScheduler;

/// The state of a game.
#[derive(Debug, PartialEq, Eq)]
pub struct ServerCore {
    pub world: WorldStore,
    pub entities: EntityStore,
    pub sessions: SessionStore,
    pub scheduler: SystemScheduler,
}

/// What the state of a game is.
pub struct CoreView {
    pub world: WorldView,
    pub entities: EntitiesView,
    pub sessions: SessionsView,
}

impl View for ServerCore {
    type V = CoreView;

    open spec fn view(&self) -> CoreView {
        CoreView { world: self.world@, entities: self.entities@, sessions: self.sessions@ }
    }
}

impl Stored for ServerCore {
    open spec fn sound(&self) -> bool {
        self.world.sound() && self.entities.sound() && self.sessions.sound()
    }

    fn is_sound(&self) -> (result: bool) {
        self.world.is_sound() && self.entities.is_sound() && self.sessions.is_sound()
    }

    fn replica(&self) -> (result: Self) {
        ServerCore {
            world: self.world.replica(),
            entities: self.entities.replica(),
            sessions: self.sessions.replica(),
            scheduler: self.scheduler,
        }
    }
}

/// How many players there are and how many there can be.
#[derive(Clone, Copy, Debug, PartialEq, Eq, Structural)]
pub struct PlayerSummary {
    pub online_players: usize,
    pub max_players: u8,
}

/// What a world that is set up is as a whole.
pub open spec fn fresh_meta(config: ConfigView) -> WorldMetaView {
    WorldMetaView {
        level_name: config.level_name,
        seed: config.seed,
        spawn: config.spawn,
        dimension: DimensionId::Overworld,
        age: 0,
        time: 6000,
        level_type: "FLAT"@,
        game_mode: config.game_mode,
        difficulty: config.difficulty,
        max_players: config.max_players,
    }
}

/// A game that nobody has joined and in which nothing was done.
pub open spec fn fresh_core(config: ConfigView) -> CoreView {
    CoreView {
        world: WorldView {
            config,
            world_meta: fresh_meta(config),
            chunks: Seq::empty(),
            block_entities: Seq::empty(),
            container_viewers: Seq::empty(),
            saved_players: Seq::empty(),
        },
        entities: EntitiesView {
            entity_kinds: Seq::empty(),
            players_by_player_id: Seq::empty(),
            player_identity: Seq::empty(),
            player_transform: Seq::empty(),
            player_vitals: Seq::empty(),
            player_inventory: Seq::empty(),
            player_selected_hotbar: Seq::empty(),
            player_active_mining: Seq::empty(),
            dropped_items: Seq::empty(),
            next_entity_id: 1,
        },
        sessions: SessionsView {
            player_sessions: Seq::empty(),
            next_keep_alive_id: 1,
            keepalive_interval_ms: 10_000,
            keepalive_timeout_ms: 30_000,
        },
    }
}

/// A player, put together from the parts that are kept of an entity, if all are there.
pub open spec fn composed(entities: EntitiesView, entity_id: EntityId) -> Option<PlayerView> {
    let id = entity_id.id();
    match (
        lookup(entities.player_identity, id),
        lookup(entities.player_transform, id),
        lookup(entities.player_vitals, id),
        lookup(entities.player_inventory, id),
        lookup(entities.player_selected_hotbar, id),
    ) {
        (Some(identity), Some(transform), Some(vitals), Some(inventory), Some(selected)) => Some(
            PlayerView {
                id: identity.player_id,
                username: identity.username,
                position: transform.position,
                yaw: transform.yaw,
                pitch: transform.pitch,
                on_ground: transform.on_ground,
                dimension: transform.dimension,
                health: vitals.health,
                food: vitals.food,
                food_saturation: vitals.food_saturation,
                inventory,
                selected_hotbar_slot: selected,
            },
        ),
        _ => None,
    }
}

impl CoreView {
    /// The entity of a player.
    pub open spec fn entity(self, player_id: PlayerId) -> Option<EntityId> {
        lookup(self.entities.players_by_player_id, player_id.id())
    }

    /// The session of a player.
    pub open spec fn session(self, player_id: PlayerId) -> Option<SessionView> {
        lookup(self.sessions.player_sessions, player_id.id())
    }

    /// A player, if the player is in the game.
    pub open spec fn player(self, player_id: PlayerId) -> Option<PlayerView> {
        match self.entity(player_id) {
            Some(entity_id) => composed(self.entities, entity_id),
            None => None,
        }
    }

    /// The chunk at a place: the one that is kept, or else what the terrain is there.
    pub open spec fn chunk<B: ContentBehavior>(self, behavior: B, pos: ChunkPos) -> ColumnView {
        match lookup(self.world.chunks, pos.id()) {
            Some(chunk) => chunk,
            None => behavior.terrain(self.world.world_meta, pos),
        }
    }
}

/// What a saved world and the players in the game are together: a player in the game is as
/// persisted, if that is known.
pub open spec fn saved_with_online(
    saved: Entries<PlayerView>,
    sessions: Entries<SessionView>,
    persisted: Entries<PlayerView>,
    id: Seq<int>,
) -> Option<PlayerView> {
    if holds(sessions, id) && holds(persisted, id) {
        lookup(persisted, id)
    } else {
        lookup(saved, id)
    }
}

impl ServerCore {
    /// A game that nobody has joined.
    pub fn new(config: CoreConfig) -> (result: Self)
        ensures
            result.sound(),
            result@ == fresh_core(config@),
    {
        let world_meta = WorldMeta {
            level_name: config.level_name.clone(),
            seed: config.seed,
            spawn: config.spawn,
            dimension: DimensionId::Overworld,
            age: 0,
            time: 6000,
            level_type: "FLAT".to_string(),
            game_mode: config.game_mode,
            difficulty: config.difficulty,
            max_players: config.max_players,
        };
        ServerCore {
            world: WorldStore {
                config,
                world_meta,
                chunks: OrderedMap::new(),
                block_entities: OrderedMap::new(),
                container_viewers: OrderedMap::new(),
                saved_players: OrderedMap::new(),
            },
            entities: EntityStore {
                entity_kinds: OrderedMap::new(),
                players_by_player_id: OrderedMap::new(),
                player_identity: OrderedMap::new(),
                player_transform: OrderedMap::new(),
                player_vitals: OrderedMap::new(),
                player_inventory: OrderedMap::new(),
                player_selected_hotbar: OrderedMap::new(),
                player_active_mining: OrderedMap::new(),
                dropped_items: OrderedMap::new(),
                next_entity_id: 1,
            },
            sessions: SessionStore {
                player_sessions: OrderedMap::new(),
                next_keep_alive_id: 1,
                keepalive_interval_ms: DEFAULT_KEEPALIVE_INTERVAL_MS,
                keepalive_timeout_ms: DEFAULT_KEEPALIVE_TIMEOUT_MS,
            },
            scheduler: SystemScheduler,
        }
    }

    /// A game that nobody has joined, in a world as it was saved.
    pub fn from_snapshot(config: CoreConfig, snapshot: WorldSnapshot) -> (result: Self)
        requires
            snapshot.chunks.sound(),
            snapshot.block_entities.sound(),
            snapshot.players.sound(),
        ensures
            result.sound(),
            result@ == (CoreView {
                world: WorldView {
                    world_meta: snapshot.meta@,
                    chunks: snapshot.chunks@,
                    block_entities: snapshot.block_entities@,
                    saved_players: snapshot.players@,
                    ..fresh_core(config@).world
                },
                ..fresh_core(config@)
            }),
    {
        let mut core = ServerCore::new(config);
        core.world.world_meta = snapshot.meta;
        core.world.chunks = snapshot.chunks;
        core.world.block_entities = snapshot.block_entities;
        core.world.saved_players = snapshot.players;
        core
    }

    /// The world as it is to be saved; `persisted` holds what is to be saved of the players in
    /// the game.
    pub fn snapshot(&self, persisted: &OrderedMap<PlayerId, PlayerSnapshot>) -> (result:
        WorldSnapshot)
        requires
            self.sound(),
            persisted.sound(),
        ensures
            result.meta@ == self@.world.world_meta,
            result.chunks@ == self@.world.chunks,
            result.block_entities@ == self@.world.block_entities,
            result.chunks.sound() && result.block_entities.sound() && result.players.sound(),
            forall|id: Seq<int>| #[trigger]
                lookup(result.players@, id) == saved_with_online(
                    self@.world.saved_players,
                    self@.sessions.player_sessions,
                    persisted@,
                    id,
                ),
    {
        let mut players = self.world.saved_players.replica();
        let ghost saved = self@.world.saved_players;
        let ghost sessions = self@.sessions.player_sessions;
        let mut i: usize = 0;
        while i < self.sessions.player_sessions.len()
            invariant
                self.sound(),
                persisted.sound(),
                i <= sessions.len(),
                sessions == self.sessions.player_sessions@,
                players.sound(),
                forall|id: Seq<int>| #[trigger]
                    lookup(players@, id) == if (exists|k: int|
                        0 <= k < i && (#[trigger] sessions[k]).0 == id) && holds(persisted@, id) {
                        lookup(persisted@, id)
                    } else {
                        lookup(saved, id)
                    },
            decreases sessions.len() - i,
        {
            let player_id = *self.sessions.player_sessions.key(i);
            let ghost before = players@;
            if let Some(snapshot) = persisted.look(&player_id) {
                players.put(player_id, snapshot.replica());
                proof {
                    assert forall|id: Seq<int>| id != player_id.id() implies #[trigger] lookup(
                        players@,
                        id,
                    ) == lookup(before, id) by {
                        insert_laws(before, player_id.id(), snapshot@, id);
                    }
                    insert_laws(before, player_id.id(), snapshot@, player_id.id());
                }
            }
            proof {
                assert forall|id: Seq<int>| #[trigger]
                    lookup(players@, id) == if (exists|k: int|
                        0 <= k < i + 1 && (#[trigger] sessions[k]).0 == id) && holds(
                        persisted@,
                        id,
                    ) {
                        lookup(persisted@, id)
                    } else {
                        lookup(saved, id)
                    } by {
                    if id == player_id.id() {
                        assert(sessions[i as int].0 == id);
                    } else {
                        assert(lookup(players@, id) == lookup(before, id));
                        if exists|k: int| 0 <= k < i + 1 && (#[trigger] sessions[k]).0 == id {
                            let k = choose|k: int|
                                0 <= k < i + 1 && (#[trigger] sessions[k]).0 == id;
                            assert(0 <= k < i && sessions[k].0 == id);
                        }
                    }
                }
            }
            i += 1;
        }
        proof {
            assert forall|id: Seq<int>| #[trigger] lookup(players@, id) == saved_with_online(
                saved,
                sessions,
                persisted@,
                id,
            ) by {
                rank_bounds(sessions, id);
                if exists|k: int| 0 <= k < sessions.len() && (#[trigger] sessions[k]).0 == id {
                    let k = choose|k: int|
                        0 <= k < sessions.len() && (#[trigger] sessions[k]).0 == id;
                    lookup_entry(sessions, k);
                }
                if holds(sessions, id) {
                    assert(sessions[crate::ordered::rank(sessions, id)].0 == id);
                }
            }
        }
        WorldSnapshot {
            meta: self.world.world_meta.duplicate(),
            chunks: self.world.chunks.replica(),
            block_entities: self.world.block_entities.replica(),
            players,
        }
    }

    /// How many players are in the game and how many can be.
    pub fn player_summary(&self) -> (result: PlayerSummary)
        ensures
            result.online_players == self@.sessions.player_sessions.len(),
            result.max_players == self@.world.config.max_players,
    {
        PlayerSummary {
            online_players: self.sessions.player_sessions.len(),
            max_players: self.world.config.max_players,
        }
    }

    /// Changes how many players can be in the game.
    pub fn set_max_players(&mut self, max_players: u8)
        ensures
            old(self).sound() ==> final(self).sound(),
            final(self)@ == with_max_players(old(self)@, max_players),
    {
        self.world.config.max_players = max_players;
        self.world.world_meta.max_players = max_players;
    }

    /// Changes how the game is set up. The seed and the place where players start stay what they
    /// are in the world itself.
    pub fn reconfigure(&mut self, config: CoreConfig)
        ensures
            old(self).sound() ==> final(self).sound(),
            final(self)@ == reconfigured(old(self)@, config@),
    {
        self.world.world_meta.level_name = config.level_name.clone();
        self.world.world_meta.game_mode = config.game_mode;
        self.world.world_meta.difficulty = config.difficulty;
        self.world.world_meta.max_players = config.max_players;
        self.world.config = config;
    }

    /// The world as a whole.
    pub fn world_meta(&self) -> (result: &WorldMeta)
        ensures
            result@ == self@.world.world_meta,
    {
        &self.world.world_meta
    }

    /// The entity of a player.
    pub fn player_entity_id(&self, player_id: PlayerId) -> (result: Option<EntityId>)
        requires
            self.sound(),
        ensures
            result == self@.entity(player_id),
    {
        match self.entities.players_by_player_id.look(&player_id) {
            Some(entity_id) => Some(*entity_id),
            None => None,
        }
    }

    /// The session of a player.
    pub fn player_session(&self, player_id: PlayerId) -> (result: Option<&PlayerSessionState>)
        requires
            self.sound(),
        ensures
            match result {
                Some(session) => self@.session(player_id) == Some(session@) && session.sound(),
                None => self@.session(player_id) is None,
            },
    {
        self.sessions.player_sessions.look(&player_id)
    }

    /// A copy of the session of a player.
    pub fn player_session_state(&self, player_id: PlayerId) -> (result: Option<PlayerSessionState>)
        requires
            self.sound(),
        ensures
            match result {
                Some(session) => self@.session(player_id) == Some(session@) && session.sound(),
                None => self@.session(player_id) is None,
            },
    {
        match self.player_session(player_id) {
            Some(session) => Some(session.replica()),
            None => None,
        }
    }

    /// A player, put together from the parts that are kept of an entity, if all are there.
    pub fn compose_player_snapshot_by_entity(&self, entity_id: EntityId) -> (result: Option<
        PlayerSnapshot,
    >)
        requires
            self.sound(),
        ensures
            match result {
                Some(player) => composed(self@.entities, entity_id) == Some(player@)
                    && player.sound(),
                None => composed(self@.entities, entity_id) is None,
            },
    {
        let identity = self.entities.player_identity.look(&entity_id)?;
        let transform = self.entities.player_transform.look(&entity_id)?;
        let vitals = self.entities.player_vitals.look(&entity_id)?;
        let inventory = self.entities.player_inventory.look(&entity_id)?;
        let selected_hotbar_slot: u8 = *self.entities.player_selected_hotbar.look(&entity_id)?;
        Some(
            PlayerSnapshot {
                id: identity.player_id,
                username: identity.username.clone(),
                position: transform.position,
                yaw: transform.yaw,
                pitch: transform.pitch,
                on_ground: transform.on_ground,
                dimension: transform.dimension,
                health: vitals.health,
                food: vitals.food,
                food_saturation: vitals.food_saturation,
                inventory: inventory.replica(),
                selected_hotbar_slot,
            },
        )
    }

    /// A player, if the player is in the game.
    pub fn player_snapshot(&self, player_id: PlayerId) -> (result: Option<PlayerSnapshot>)
        requires
            self.sound(),
        ensures
            match result {
                Some(player) => self@.player(player_id) == Some(player@) && player.sound(),
                None => self@.player(player_id) is None,
            },
    {
        let entity_id = self.player_entity_id(player_id)?;
        self.compose_player_snapshot_by_entity(entity_id)
    }

    /// The block at a place.
    pub fn block_state<B: ContentBehavior>(&self, content_behavior: &B, position: BlockPos) -> (result:
        Option<BlockState>)
        requires
            self.sound(),
        ensures
            block_wf(result),
            block_view(result) == self@.chunk(
                *content_behavior,
                position.spec_chunk_pos(),
            ).block(fine(position.x as int), position.y as int, fine(position.z as int)),
    {
        let chunk_pos = position.chunk_pos();
        let local_x: u8 = fine_of(position.x);
        let local_z: u8 = fine_of(position.z);
        match self.world.chunks.look(&chunk_pos) {
            Some(chunk) => chunk.get_block(local_x, position.y, local_z),
            None => content_behavior.generate_chunk(&self.world.world_meta, chunk_pos).get_block(
                local_x,
                position.y,
                local_z,
            ),
        }
    }

    /// Keeps the chunk at a place, working out its terrain where it is not kept yet.
    pub fn ensure_chunk<B: ContentBehavior>(&mut self, content_behavior: &B, pos: ChunkPos)
        requires
            old(self).sound(),
        ensures
            final(self).sound(),
            final(self)@ == with_chunk_kept(old(self)@, *content_behavior, pos),
            lookup(final(self)@.world.chunks, pos.id()) == Some(
                old(self)@.chunk(*content_behavior, pos),
            ),
    {
        let ghost before = self@.world.chunks;
        if !self.world.chunks.contains(&pos) {
            let generated = content_behavior.generate_chunk(&self.world.world_meta, pos);
            proof {
                insert_laws(before, pos.id(), generated@, pos.id());
            }
            self.world.chunks.put(pos, generated);
        }
    }

    /// Puts a block, or none, at a place.
    pub fn set_block_at<B: ContentBehavior>(
        &mut self,
        content_behavior: &B,
        position: BlockPos,
        state: Option<BlockState>,
    )
        requires
            old(self).sound(),
            block_wf(state),
        ensures
            final(self).sound(),
            final(self)@ == with_block_at(
                old(self)@,
                *content_behavior,
                position,
                block_view(state),
            ),
    {
        let chunk_pos = position.chunk_pos();
        let local_x: u8 = fine_of(position.x);
        let local_z: u8 = fine_of(position.z);
        match self.world.chunks.look_mut(&chunk_pos) {
            Some(chunk) => {
                chunk.set_block(local_x, position.y, local_z, state);
            },
            None => {
                let mut chunk = content_behavior.generate_chunk(&self.world.world_meta, chunk_pos);
                chunk.set_block(local_x, position.y, local_z, state);
                self.world.chunks.put(chunk_pos, chunk);
            },
        }
    }

    /// What the block at a place holds.
    pub fn block_entity(&self, position: BlockPos) -> (result: Option<BlockEntityState>)
        requires
            self.sound(),
        ensures
            match result {
                Some(state) => lookup(self@.world.block_entities, position.id()) == Some(state@)
                    && state.sound(),
                None => lookup(self@.world.block_entities, position.id()) is None,
            },
    {
        match self.world.block_entities.look(&position) {
            Some(state) => Some(state.replica()),
            None => None,
        }
    }

    /// Changes what the block at a place holds.
    pub fn set_block_entity(&mut self, position: BlockPos, state: Option<BlockEntityState>)
        requires
            old(self).sound(),
            state matches Some(state) ==> state.sound(),
        ensures
            final(self).sound(),
            final(self)@ == with_block_entity(
                old(self)@,
                position,
                match state {
                    Some(state) => Some(state@),
                    None => None,
                },
            ),
    {
        match state {
            Some(state) => {
                self.world.block_entities.put(position, state);
            },
            None => {
                let _ = self.world.block_entities.take(&position);
            },
        }
    }

    /// Takes a player and all that is kept of the player's entity out of the game.
    pub fn remove_online_player(&mut self, player_id: PlayerId) -> (result: Option<
        PlayerSessionState,
    >)
        requires
            old(self).sound(),
        ensures
            final(self).sound(),
            final(self)@ == without_player(old(self)@, player_id),
            match result {
                Some(session) => old(self)@.session(player_id) == Some(session@)
                    && session.sound(),
                None => old(self)@.session(player_id) is None,
            },
    {
        let session = self.sessions.player_sessions.take(&player_id)?;
        let entity_id = session.entity_id;
        let _ = self.entities.players_by_player_id.take(&player_id);
        let _ = self.entities.entity_kinds.take(&entity_id);
        let _ = self.entities.player_identity.take(&entity_id);
        let _ = self.entities.player_transform.take(&entity_id);
        let _ = self.entities.player_vitals.take(&entity_id);
        let _ = self.entities.player_inventory.take(&entity_id);
        let _ = self.entities.player_selected_hotbar.take(&entity_id);
        let _ = self.entities.player_active_mining.take(&entity_id);
        Some(session)
    }
}

/// A game in which another number of players can be.
pub open spec fn with_max_players(core: CoreView, max_players: u8) -> CoreView {
    CoreView {
        world: WorldView {
            config: ConfigView { max_players, ..core.world.config },
            world_meta: WorldMetaView { max_players, ..core.world.world_meta },
            ..core.world
        },
        ..core
    }
}

/// A game that is set up in another way.
pub open spec fn reconfigured(core: CoreView, config: ConfigView) -> CoreView {
    CoreView {
        world: WorldView {
            config,
            world_meta: WorldMetaView {
                level_name: config.level_name,
                game_mode: config.game_mode,
                difficulty: config.difficulty,
                max_players: config.max_players,
                ..core.world.world_meta
            },
            ..core.world
        },
        ..core
    }
}

/// A game that keeps the chunk at a place.
pub open spec fn with_chunk_kept<B: ContentBehavior>(core: CoreView, behavior: B, pos: ChunkPos) ->
    CoreView {
    if holds(core.world.chunks, pos.id()) {
        core
    } else {
        CoreView {
            world: WorldView {
                chunks: inserted(core.world.chunks, pos.id(), core.chunk(behavior, pos)),
                ..core.world
            },
            ..core
        }
    }
}

/// A game with a block, or none, at a place.
pub open spec fn with_block_at<B: ContentBehavior>(
    core: CoreView,
    behavior: B,
    position: BlockPos,
    block: Option<crate::model::block::BlockView>,
) -> CoreView {
    let pos = position.spec_chunk_pos();
    CoreView {
        world: WorldView {
            chunks: inserted(
                core.world.chunks,
                pos.id(),
                core.chunk(behavior, pos).with_block(
                    fine(position.x as int),
                    position.y as int,
                    fine(position.z as int),
                    block,
                ),
            ),
            ..core.world
        },
        ..core
    }
}

/// A game in which the block at a place holds something else, or nothing.
pub open spec fn with_block_entity(
    core: CoreView,
    position: BlockPos,
    state: Option<BlockEntityView>,
) -> CoreView {
    CoreView {
        world: WorldView {
            block_entities: match state {
                Some(state) => inserted(core.world.block_entities, position.id(), state),
                None => removed(core.world.block_entities, position.id()),
            },
            ..core.world
        },
        ..core
    }
}

/// A game without a player and without what is kept of the player's entity.
pub open spec fn without_player(core: CoreView, player_id: PlayerId) -> CoreView {
    match core.session(player_id) {
        None => core,
        Some(session) => {
            let id = session.entity_id.id();
            CoreView {
                sessions: SessionsView {
                    player_sessions: removed(core.sessions.player_sessions, player_id.id()),
                    ..core.sessions
                },
                entities: EntitiesView {
                    players_by_player_id: removed(
                        core.entities.players_by_player_id,
                        player_id.id(),
                    ),
                    entity_kinds: removed(core.entities.entity_kinds, id),
                    player_identity: removed(core.entities.player_identity, id),
                    player_transform: removed(core.entities.player_transform, id),
                    player_vitals: removed(core.entities.player_vitals, id),
                    player_inventory: removed(core.entities.player_inventory, id),
                    player_selected_hotbar: removed(core.entities.player_selected_hotbar, id),
                    player_active_mining: removed(core.entities.player_active_mining, id),
                    ..core.entities
                },
                ..core
            }
        },
    }
}

} // verus!
