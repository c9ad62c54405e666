//! What clients ask for and what happens to them.

use crate::model::block::{BlockFace, BlockPos, BlockState, Vec3, WorldMeta};
use crate::model::chunk::ChunkColumn;
use crate::model::ids::{ConnectionId, EntityId, PlayerId};
use crate::model::inventory::{
    InteractionHand, InventoryClickButton, InventoryClickTarget, InventoryClickValidation,
    InventorySlot, InventoryTransactionContext, InventoryWindowContents,
};
use crate::model::item::{ItemStack, OpaqueF32};
use crate::model::names::{ContainerKindId, ContainerPropertyKey};
use crate::model::player::{DroppedItemSnapshot, PlayerSnapshot};
use vstd::prelude::*;

verus! {

/// What a client asks for.
#[allow(inconsistent_fields)]
#[derive(Debug, PartialEq, Eq)]
pub enum CoreCommand {
    LoginStart { connection_id: ConnectionId, username: String, player_id: PlayerId },
    UpdateClientView { player_id: PlayerId, view_distance: u8 },
    ClientStatus { player_id: PlayerId, action_id: i8 },
    MoveIntent {
        player_id: PlayerId,
        position: Option<Vec3>,
        yaw: Option<OpaqueF32>,
        pitch: Option<OpaqueF32>,
        on_ground: bool,
    },
    KeepAliveResponse { player_id: PlayerId, keep_alive_id: i32 },
    SetHeldSlot { player_id: PlayerId, slot: i16 },
    CreativeInventorySet { player_id: PlayerId, slot: InventorySlot, stack: Option<ItemStack> },
    InventoryClick {
        player_id: PlayerId,
        transaction: InventoryTransactionContext,
        target: InventoryClickTarget,
        button: InventoryClickButton,
        validation: InventoryClickValidation,
    },
    InventoryTransactionAck {
        player_id: PlayerId,
        transaction: InventoryTransactionContext,
        accepted: bool,
    },
    CloseContainer { player_id: PlayerId, window_id: u8 },
    DigBlock { player_id: PlayerId, position: BlockPos, status: u8, face: Option<BlockFace> },
    PlaceBlock {
        player_id: PlayerId,
        hand: InteractionHand,
        position: BlockPos,
        face: Option<BlockFace>,
        held_item: Option<ItemStack>,
    },
    UseBlock {
        player_id: PlayerId,
        hand: InteractionHand,
        position: BlockPos,
        face: Option<BlockFace>,
        held_item: Option<ItemStack>,
    },
    Disconnect { player_id: PlayerId },
}

/// What a client asks for within the rules of the game.
#[allow(inconsistent_fields)]
#[derive(Debug, PartialEq, Eq)]
pub enum GameplayCommand {
    MoveIntent {
        player_id: PlayerId,
        position: Option<Vec3>,
        yaw: Option<OpaqueF32>,
        pitch: Option<OpaqueF32>,
        on_ground: bool,
    },
    SetHeldSlot { player_id: PlayerId, slot: i16 },
    CreativeInventorySet { player_id: PlayerId, slot: InventorySlot, stack: Option<ItemStack> },
    DigBlock { player_id: PlayerId, position: BlockPos, status: u8, face: Option<BlockFace> },
    PlaceBlock {
        player_id: PlayerId,
        hand: InteractionHand,
        position: BlockPos,
        face: Option<BlockFace>,
        held_item: Option<ItemStack>,
    },
    UseBlock {
        player_id: PlayerId,
        hand: InteractionHand,
        position: BlockPos,
        face: Option<BlockFace>,
        held_item: Option<ItemStack>,
    },
}

/// What a client asks for.
#[derive(Debug, PartialEq, Eq)]
pub enum RuntimeCommand {
    Core(CoreCommand),
}

/// A property of a container: games name it, plugins know it by a number.
#[derive(Debug, PartialEq, Eq)]
pub enum ContainerProperty {
    Named(ContainerPropertyKey),
    Numbered(u8),
}

/// A property of a container.
pub enum PropertyView {
    Named(Seq<char>),
    Numbered(u8),
}

impl View for ContainerProperty {
    type V = PropertyView;

    open spec fn view(&self) -> PropertyView {
        match self {
            ContainerProperty::Named(key) => PropertyView::Named(key@),
            ContainerProperty::Numbered(id) => PropertyView::Numbered(*id),
        }
    }
}

/// What happens to a client.
#[allow(inconsistent_fields)]
#[derive(Debug, PartialEq, Eq)]
pub enum CoreEvent {
    LoginAccepted { player_id: PlayerId, entity_id: EntityId, player: PlayerSnapshot },
    PlayBootstrap {
        player: PlayerSnapshot,
        entity_id: EntityId,
        world_meta: WorldMeta,
        view_distance: u8,
    },
    ChunkBatch { chunks: Vec<ChunkColumn> },
    EntitySpawned { entity_id: EntityId, player: PlayerSnapshot },
    EntityMoved { entity_id: EntityId, player: PlayerSnapshot },
    DroppedItemSpawned { entity_id: EntityId, item: DroppedItemSnapshot },
    BlockBreakingProgress {
        breaker_entity_id: EntityId,
        position: BlockPos,
        stage: Option<u8>,
        duration_ms: u64,
    },
    EntityDespawned { entity_ids: Vec<EntityId> },
    InventoryContents {
        window_id: u8,
        container: ContainerKindId,
        contents: InventoryWindowContents,
    },
    ContainerOpened { window_id: u8, container: ContainerKindId, title: String },
    ContainerClosed { window_id: u8 },
    ContainerPropertyChanged { window_id: u8, property: ContainerProperty, value: i16 },
    InventorySlotChanged {
        window_id: u8,
        container: ContainerKindId,
        slot: InventorySlot,
        stack: Option<ItemStack>,
    },
    InventoryTransactionProcessed { transaction: InventoryTransactionContext, accepted: bool },
    CursorChanged { stack: Option<ItemStack> },
    SelectedHotbarSlotChanged { slot: u8 },
    BlockChanged { position: BlockPos, block: BlockState },
    KeepAliveRequested { keep_alive_id: i32 },
    Disconnect { reason: String },
}

/// Whom an event concerns.
#[derive(Clone, Copy, Debug, PartialEq, Eq, Structural)]
pub enum EventTarget {
    Connection(ConnectionId),
    Player(PlayerId),
    EveryoneExcept(PlayerId),
}

/// An event with whom it concerns.
#[derive(Debug, PartialEq, Eq)]
pub struct TargetedEvent {
    pub target: EventTarget,
    pub event: CoreEvent,
}

} // verus!
