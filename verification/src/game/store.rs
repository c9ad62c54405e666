//! The parts that the state of a game is made of.

use crate::bytes::copy_bytes;
use crate::game::session::{PlayerSessionState, SessionView};
use crate::model::block::{BlockPos, ChunkPos, DimensionId, Vec3, WorldMeta, WorldMetaView};
use crate::model::chunk::{ChunkColumn, ColumnView};
use crate::model::ids::{EntityId, PlayerId};
use crate::model::inventory::{InventoryView, PlayerInventory};
use crate::model::item::OpaqueF32;
use crate::model::names::ContainerKindId;
use crate::model::player::{
    BlockEntityState, BlockEntityView, DroppedItemSnapshot, DroppedItemView, PlayerSnapshot,
    PlayerView,
};
use crate::ordered::{Entries, OrderedMap, Stored};
use vstd::prelude::*;

verus! {

/// How a game is set up.
#[derive(Debug, PartialEq, Eq)]
pub struct CoreConfig {
    pub level_name: String,
    pub seed: u64,
    pub max_players: u8,
    pub view_distance: u8,
    pub game_mode: u8,
    pub difficulty: u8,
    pub spawn: BlockPos,
}

/// How a game is set up.
pub struct ConfigView {
    pub level_name: Seq<char>,
    pub seed: u64,
    pub max_players: u8,
    pub view_distance: u8,
    pub game_mode: u8,
    pub difficulty: u8,
    pub spawn: BlockPos,
}

impl View for CoreConfig {
    type V = ConfigView;

    open spec fn view(&self) -> ConfigView {
        ConfigView {
            level_name: self.level_name@,
            seed: self.seed,
            max_players: self.max_players,
            view_distance: self.view_distance,
            game_mode: self.game_mode,
            difficulty: self.difficulty,
            spawn: self.spawn,
        }
    }
}

impl Default for CoreConfig {
    fn default() -> (result: Self)
        ensures
            result@ == (ConfigView {
                level_name: "world"@,
                seed: 0,
                max_players: 20,
                view_distance: 2,
                game_mode: 0,
                difficulty: 1,
                spawn: BlockPos { x: 0, y: 4, z: 0 },
            }),
    {
        CoreConfig {
            level_name: "world".to_string(),
            seed: 0,
            max_players: 20,
            view_distance: 2,
            game_mode: 0,
            difficulty: 1,
            spawn: BlockPos::new(0, 4, 0),
        }
    }
}

impl CoreConfig {
    /// A copy.
    pub fn duplicate(&self) -> (result: Self)
        ensures
            result@ == self@,
    {
        CoreConfig {
            level_name: self.level_name.clone(),
            seed: self.seed,
            max_players: self.max_players,
            view_distance: self.view_distance,
            game_mode: self.game_mode,
            difficulty: self.difficulty,
            spawn: self.spawn,
        }
    }
}

/// Who looks into a container of the world, and in which windows.
#[derive(Debug, PartialEq, Eq)]
pub struct WorldContainerViewers {
    pub kind: ContainerKindId,
    pub viewers: OrderedMap<PlayerId, u8>,
}

/// Who looks into a container of the world, and in which windows.
pub struct ViewersView {
    pub kind: Seq<char>,
    pub viewers: Entries<u8>,
}

impl View for WorldContainerViewers {
    type V = ViewersView;

    open spec fn view(&self) -> ViewersView {
        ViewersView { kind: self.kind@, viewers: self.viewers@ }
    }
}

impl Stored for WorldContainerViewers {
    open spec fn sound(&self) -> bool {
        self.viewers.wf()
    }

    fn is_sound(&self) -> (result: bool) {
        self.viewers.in_order()
    }

    fn replica(&self) -> (result: Self) {
        WorldContainerViewers { kind: self.kind.duplicate(), viewers: self.viewers.replica() }
    }
}

/// What an entity is.
#[derive(Clone, Copy, Debug, PartialEq, Eq, Structural)]
pub enum EntityKind {
    Player,
    DroppedItem,
}

impl View for EntityKind {
    type V = EntityKind;

    open spec fn view(&self) -> EntityKind {
        *self
    }
}

impl Stored for EntityKind {
    open spec fn sound(&self) -> bool {
        true
    }

    fn is_sound(&self) -> (result: bool) {
        true
    }

    fn replica(&self) -> (result: Self) {
        *self
    }
}

/// Who an entity is.
#[derive(Debug, PartialEq, Eq)]
pub struct PlayerIdentity {
    pub player_id: PlayerId,
    pub username: String,
}

/// Who an entity is.
pub struct IdentityView {
    pub player_id: PlayerId,
    pub username: Seq<char>,
}

impl View for PlayerIdentity {
    type V = IdentityView;

    open spec fn view(&self) -> IdentityView {
        IdentityView { player_id: self.player_id, username: self.username@ }
    }
}

impl Stored for PlayerIdentity {
    open spec fn sound(&self) -> bool {
        true
    }

    fn is_sound(&self) -> (result: bool) {
        true
    }

    fn replica(&self) -> (result: Self) {
        PlayerIdentity { player_id: self.player_id, username: self.username.clone() }
    }
}

/// Where a player is and where the player looks; `chunk` is the chunk that the position lies in.
#[derive(Clone, Copy, Debug, PartialEq, Eq, Structural)]
pub struct PlayerTransform {
    pub position: Vec3,
    pub chunk: ChunkPos,
    pub yaw: OpaqueF32,
    pub pitch: OpaqueF32,
    pub on_ground: bool,
    pub dimension: DimensionId,
}

impl View for PlayerTransform {
    type V = PlayerTransform;

    open spec fn view(&self) -> PlayerTransform {
        *self
    }
}

impl Stored for PlayerTransform {
    open spec fn sound(&self) -> bool {
        true
    }

    fn is_sound(&self) -> (result: bool) {
        true
    }

    fn replica(&self) -> (result: Self) {
        *self
    }
}

/// How a player does.
#[derive(Clone, Copy, Debug, PartialEq, Eq, Structural)]
pub struct PlayerVitals {
    pub health: OpaqueF32,
    pub food: i16,
    pub food_saturation: OpaqueF32,
}

impl View for PlayerVitals {
    type V = PlayerVitals;

    open spec fn view(&self) -> PlayerVitals {
        *self
    }
}

impl Stored for PlayerVitals {
    open spec fn sound(&self) -> bool {
        true
    }

    fn is_sound(&self) -> (result: bool) {
        true
    }

    fn replica(&self) -> (result: Self) {
        *self
    }
}

/// How a tool breaks blocks, as the rules of the game write it down.
#[derive(Debug, PartialEq, Eq)]
pub struct MiningToolSpec {
    pub bytes: Vec<u8>,
}

/// A block that a player is breaking, and the tool that breaks it.
#[derive(Debug, PartialEq, Eq)]
pub struct ActiveMiningState {
    pub position: BlockPos,
    pub started_at_ms: u64,
    pub duration_ms: u64,
    pub last_stage: Option<u8>,
    pub tool_context: Option<MiningToolSpec>,
}

/// A block that a player is breaking.
pub struct MiningView {
    pub position: BlockPos,
    pub started_at_ms: u64,
    pub duration_ms: u64,
    pub last_stage: Option<u8>,
    pub tool_context: Option<Seq<u8>>,
}

impl View for ActiveMiningState {
    type V = MiningView;

    open spec fn view(&self) -> MiningView {
        MiningView {
            position: self.position,
            started_at_ms: self.started_at_ms,
            duration_ms: self.duration_ms,
            last_stage: self.last_stage,
            tool_context: match self.tool_context {
                Some(tool) => Some(tool.bytes@),
                None => None,
            },
        }
    }
}

impl Stored for ActiveMiningState {
    open spec fn sound(&self) -> bool {
        true
    }

    fn is_sound(&self) -> (result: bool) {
        true
    }

    fn replica(&self) -> (result: Self) {
        ActiveMiningState {
            position: self.position,
            started_at_ms: self.started_at_ms,
            duration_ms: self.duration_ms,
            last_stage: self.last_stage,
            tool_context: match &self.tool_context {
                Some(tool) => Some(MiningToolSpec { bytes: copy_bytes(tool.bytes.as_slice()) }),
                None => None,
            },
        }
    }
}

/// Items that lie in the world; `chunk` is the chunk that the position lies in.
#[derive(Debug, PartialEq, Eq)]
pub struct DroppedItemState {
    pub snapshot: DroppedItemSnapshot,
    pub chunk: ChunkPos,
    pub last_updated_at_ms: u64,
    pub pickup_allowed_at_ms: u64,
    pub despawn_at_ms: u64,
}

/// Items that lie in the world.
pub struct DroppedStateView {
    pub snapshot: DroppedItemView,
    pub chunk: ChunkPos,
    pub last_updated_at_ms: u64,
    pub pickup_allowed_at_ms: u64,
    pub despawn_at_ms: u64,
}

impl View for DroppedItemState {
    type V = DroppedStateView;

    open spec fn view(&self) -> DroppedStateView {
        DroppedStateView {
            snapshot: self.snapshot@,
            chunk: self.chunk,
            last_updated_at_ms: self.last_updated_at_ms,
            pickup_allowed_at_ms: self.pickup_allowed_at_ms,
            despawn_at_ms: self.despawn_at_ms,
        }
    }
}

impl Stored for DroppedItemState {
    open spec fn sound(&self) -> bool {
        self.snapshot.item.wf()
    }

    fn is_sound(&self) -> (result: bool) {
        self.snapshot.item.is_wf()
    }

    fn replica(&self) -> (result: Self) {
        DroppedItemState {
            snapshot: self.snapshot.duplicate(),
            chunk: self.chunk,
            last_updated_at_ms: self.last_updated_at_ms,
            pickup_allowed_at_ms: self.pickup_allowed_at_ms,
            despawn_at_ms: self.despawn_at_ms,
        }
    }
}

/// The world of a game.
#[derive(Debug, PartialEq, Eq)]
pub struct WorldStore {
    pub config: CoreConfig,
    pub world_meta: WorldMeta,
    pub chunks: OrderedMap<ChunkPos, ChunkColumn>,
    pub block_entities: OrderedMap<BlockPos, BlockEntityState>,
    pub container_viewers: OrderedMap<BlockPos, WorldContainerViewers>,
    pub saved_players: OrderedMap<PlayerId, PlayerSnapshot>,
}

/// The world of a game.
pub struct WorldView {
    pub config: ConfigView,
    pub world_meta: WorldMetaView,
    pub chunks: Entries<ColumnView>,
    pub block_entities: Entries<BlockEntityView>,
    pub container_viewers: Entries<ViewersView>,
    pub saved_players: Entries<PlayerView>,
}

impl View for WorldStore {
    type V = WorldView;

    open spec fn view(&self) -> WorldView {
        WorldView {
            config: self.config@,
            world_meta: self.world_meta@,
            chunks: self.chunks@,
            block_entities: self.block_entities@,
            container_viewers: self.container_viewers@,
            saved_players: self.saved_players@,
        }
    }
}

impl Stored for WorldStore {
    open spec fn sound(&self) -> bool {
        &&& self.chunks.sound()
        &&& self.block_entities.sound()
        &&& self.container_viewers.sound()
        &&& self.saved_players.sound()
    }

    fn is_sound(&self) -> (result: bool) {
        self.chunks.is_sound() && self.block_entities.is_sound()
            && self.container_viewers.is_sound() && self.saved_players.is_sound()
    }

    fn replica(&self) -> (result: Self) {
        WorldStore {
            config: self.config.duplicate(),
            world_meta: self.world_meta.duplicate(),
            chunks: self.chunks.replica(),
            block_entities: self.block_entities.replica(),
            container_viewers: self.container_viewers.replica(),
            saved_players: self.saved_players.replica(),
        }
    }
}

/// The entities of a game.
#[derive(Debug, PartialEq, Eq)]
pub struct EntityStore {
    pub entity_kinds: OrderedMap<EntityId, EntityKind>,
    pub players_by_player_id: OrderedMap<PlayerId, EntityId>,
    pub player_identity: OrderedMap<EntityId, PlayerIdentity>,
    pub player_transform: OrderedMap<EntityId, PlayerTransform>,
    pub player_vitals: OrderedMap<EntityId, PlayerVitals>,
    pub player_inventory: OrderedMap<EntityId, PlayerInventory>,
    pub player_selected_hotbar: OrderedMap<EntityId, u8>,
    pub player_active_mining: OrderedMap<EntityId, ActiveMiningState>,
    pub dropped_items: OrderedMap<EntityId, DroppedItemState>,
    pub next_entity_id: i32,
}

/// The entities of a game.
pub struct EntitiesView {
    pub entity_kinds: Entries<EntityKind>,
    pub players_by_player_id: Entries<EntityId>,
    pub player_identity: Entries<IdentityView>,
    pub player_transform: Entries<PlayerTransform>,
    pub player_vitals: Entries<PlayerVitals>,
    pub player_inventory: Entries<InventoryView>,
    pub player_selected_hotbar: Entries<u8>,
    pub player_active_mining: Entries<MiningView>,
    pub dropped_items: Entries<DroppedStateView>,
    pub next_entity_id: i32,
}

impl View for EntityStore {
    type V = EntitiesView;

    open spec fn view(&self) -> EntitiesView {
        EntitiesView {
            entity_kinds: self.entity_kinds@,
            players_by_player_id: self.players_by_player_id@,
            player_identity: self.player_identity@,
            player_transform: self.player_transform@,
            player_vitals: self.player_vitals@,
            player_inventory: self.player_inventory@,
            player_selected_hotbar: self.player_selected_hotbar@,
            player_active_mining: self.player_active_mining@,
            dropped_items: self.dropped_items@,
            next_entity_id: self.next_entity_id,
        }
    }
}

impl Stored for EntityStore {
    open spec fn sound(&self) -> bool {
        &&& self.entity_kinds.sound()
        &&& self.players_by_player_id.sound()
        &&& self.player_identity.sound()
        &&& self.player_transform.sound()
        &&& self.player_vitals.sound()
        &&& self.player_inventory.sound()
        &&& self.player_selected_hotbar.sound()
        &&& self.player_active_mining.sound()
        &&& self.dropped_items.sound()
    }

    fn is_sound(&self) -> (result: bool) {
        self.entity_kinds.is_sound() && self.players_by_player_id.is_sound()
            && self.player_identity.is_sound() && self.player_transform.is_sound()
            && self.player_vitals.is_sound() && self.player_inventory.is_sound()
            && self.player_selected_hotbar.is_sound() && self.player_active_mining.is_sound()
            && self.dropped_items.is_sound()
    }

    fn replica(&self) -> (result: Self) {
        EntityStore {
            entity_kinds: self.entity_kinds.replica(),
            players_by_player_id: self.players_by_player_id.replica(),
            player_identity: self.player_identity.replica(),
            player_transform: self.player_transform.replica(),
            player_vitals: self.player_vitals.replica(),
            player_inventory: self.player_inventory.replica(),
            player_selected_hotbar: self.player_selected_hotbar.replica(),
            player_active_mining: self.player_active_mining.replica(),
            dropped_items: self.dropped_items.replica(),
            next_entity_id: self.next_entity_id,
        }
    }
}

/// The sessions of a game.
#[derive(Debug, PartialEq, Eq)]
pub struct SessionStore {
    pub player_sessions: OrderedMap<PlayerId, PlayerSessionState>,
    pub next_keep_alive_id: i32,
    pub keepalive_interval_ms: u64,
    pub keepalive_timeout_ms: u64,
}

/// The sessions of a game.
pub struct SessionsView {
    pub player_sessions: Entries<SessionView>,
    pub next_keep_alive_id: i32,
    pub keepalive_interval_ms: u64,
    pub keepalive_timeout_ms: u64,
}

impl View for SessionStore {
    type V = SessionsView;

    open spec fn view(&self) -> SessionsView {
        SessionsView {
            player_sessions: self.player_sessions@,
            next_keep_alive_id: self.next_keep_alive_id,
            keepalive_interval_ms: self.keepalive_interval_ms,
            keepalive_timeout_ms: self.keepalive_timeout_ms,
        }
    }
}

impl Stored for SessionStore {
    open spec fn sound(&self) -> bool {
        &&& self.player_sessions.sound()
    }

    fn is_sound(&self) -> (result: bool) {
        self.player_sessions.is_sound()
    }

    fn replica(&self) -> (result: Self) {
        SessionStore {
            player_sessions: self.player_sessions.replica(),
            next_keep_alive_id: self.next_keep_alive_id,
            keepalive_interval_ms: self.keepalive_interval_ms,
            keepalive_timeout_ms: self.keepalive_timeout_ms,
        }
    }
}

} // verus!
