//! What a gameplay plugin read of a world and wants done to it.

use crate::model::block::{BlockPos, BlockState, Vec3, WorldMeta};
use crate::model::event::TargetedEvent;
use crate::model::ids::PlayerId;
use crate::model::inventory::InventorySlot;
use crate::model::item::{ItemStack, OpaqueF32};
use crate::model::names::ContainerKindId;
use crate::model::player::{BlockEntityState, PlayerSnapshot};
use crate::ordered::{smaller_from, lex_by_place, Key, OrderedMap};
use vstd::prelude::*;

verus! {

/// Who wants to edit which block.
#[derive(Clone, Copy, Debug, PartialEq, Eq, Structural)]
pub struct GameplayCanEditBlockKey {
    pub player_id: PlayerId,
    pub position: BlockPos,
}

impl Key for GameplayCanEditBlockKey {
    open spec fn id(&self) -> Seq<int> {
        self.player_id.id() + self.position.id()
    }

    fn precedes(&self, other: &Self) -> (result: bool) {
        proof {
            let a = self.id();
            let b = other.id();
            lex_by_place(a, b, 0);
            reveal_with_fuel(smaller_from, 5);
            assert(a[0] == self.player_id.0 && b[0] == other.player_id.0);
            assert(a[1] == self.position.x && b[1] == other.position.x);
            assert(a[2] == self.position.y && b[2] == other.position.y);
            assert(a[3] == self.position.z && b[3] == other.position.z);
        }
        self.player_id.0 < other.player_id.0 || (self.player_id.0 == other.player_id.0 && (
        self.position.x < other.position.x || (self.position.x == other.position.x && (
        self.position.y < other.position.y || (self.position.y == other.position.y
            && self.position.z < other.position.z)))))
    }
}

/// What was read of a world.
#[derive(Debug, PartialEq, Eq)]
pub struct GameplayReadSet {
    pub world_meta: Option<WorldMeta>,
    pub player_snapshots: OrderedMap<PlayerId, Option<PlayerSnapshot>>,
    pub block_states: OrderedMap<BlockPos, Option<BlockState>>,
    pub block_entities: OrderedMap<BlockPos, Option<BlockEntityState>>,
    pub can_edit_block: OrderedMap<GameplayCanEditBlockKey, bool>,
}

impl GameplayReadSet {
    /// Whether nothing was read.
    pub open spec fn is_empty(&self) -> bool {
        &&& self.world_meta is None
        &&& self.player_snapshots.wf() && self.player_snapshots@.len() == 0
        &&& self.block_states.wf() && self.block_states@.len() == 0
        &&& self.block_entities.wf() && self.block_entities@.len() == 0
        &&& self.can_edit_block.wf() && self.can_edit_block@.len() == 0
    }
}

impl Default for GameplayReadSet {
    fn default() -> (result: Self)
        ensures
            result.is_empty(),
    {
        GameplayReadSet {
            world_meta: None,
            player_snapshots: OrderedMap::new(),
            block_states: OrderedMap::new(),
            block_entities: OrderedMap::new(),
            can_edit_block: OrderedMap::new(),
        }
    }
}

/// Something that is to be done to a world.
#[allow(inconsistent_fields)]
#[derive(Debug, PartialEq, Eq)]
pub enum GameplayEffect {
    SetPlayerPose {
        player_id: PlayerId,
        position: Option<Vec3>,
        yaw: Option<OpaqueF32>,
        pitch: Option<OpaqueF32>,
        on_ground: bool,
    },
    SetSelectedHotbarSlot { player_id: PlayerId, slot: u8 },
    SetInventorySlot { player_id: PlayerId, slot: InventorySlot, stack: Option<ItemStack> },
    ClearMining { player_id: PlayerId },
    BeginMining { player_id: PlayerId, position: BlockPos, duration_ms: u64 },
    OpenContainerAt { player_id: PlayerId, position: BlockPos },
    OpenVirtualContainer { player_id: PlayerId, kind: ContainerKindId },
    SetBlock { position: BlockPos, block: Option<BlockState> },
    SpawnDroppedItem { position: Vec3, item: ItemStack },
    EmitEvent { event: TargetedEvent },
}

/// What was read of a world and what is to be done to it for that.
#[derive(Debug, PartialEq, Eq)]
pub struct GameplayEffectBatch {
    pub now_ms: u64,
    pub reads: GameplayReadSet,
    pub effects: Vec<GameplayEffect>,
}

impl GameplayEffectBatch {
    /// Nothing read and nothing to be done.
    pub fn empty(now_ms: u64) -> (result: Self)
        ensures
            result.now_ms == now_ms,
            result.reads.is_empty(),
            result.effects@.len() == 0,
    {
        GameplayEffectBatch { now_ms, reads: GameplayReadSet::default(), effects: Vec::new() }
    }
}

} // verus!
