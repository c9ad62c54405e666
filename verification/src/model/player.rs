//! Players, dropped items, blocks with contents, and whole worlds.

use crate::model::block::{BlockPos, ChunkPos, DimensionId, Vec3, WorldMeta};
use crate::model::chunk::ChunkColumn;
use crate::model::ids::PlayerId;
use crate::model::inventory::{slot_views, InventoryView, PlayerInventory};
use crate::model::item::{ItemStack, OpaqueF32, StackView};
use crate::model::names::{BlockEntityKindId, ContainerPropertyKey};
use crate::ordered::{Entries, OrderedMap};
use vstd::prelude::*;

verus! {

/// What is known of a player.
#[derive(Debug, PartialEq, Eq)]
pub struct PlayerSnapshot {
    pub id: PlayerId,
    pub username: String,
    pub position: Vec3,
    pub yaw: OpaqueF32,
    pub pitch: OpaqueF32,
    pub on_ground: bool,
    pub dimension: DimensionId,
    pub health: OpaqueF32,
    pub food: i16,
    pub food_saturation: OpaqueF32,
    pub inventory: PlayerInventory,
    pub selected_hotbar_slot: u8,
}

/// What a player is.
pub struct PlayerView {
    pub id: PlayerId,
    pub username: Seq<char>,
    pub position: Vec3,
    pub yaw: OpaqueF32,
    pub pitch: OpaqueF32,
    pub on_ground: bool,
    pub dimension: DimensionId,
    pub health: OpaqueF32,
    pub food: i16,
    pub food_saturation: OpaqueF32,
    pub inventory: InventoryView,
    pub selected_hotbar_slot: u8,
}

impl View for PlayerSnapshot {
    type V = PlayerView;

    open spec fn view(&self) -> PlayerView {
        PlayerView {
            id: self.id,
            username: self.username@,
            position: self.position,
            yaw: self.yaw,
            pitch: self.pitch,
            on_ground: self.on_ground,
            dimension: self.dimension,
            health: self.health,
            food: self.food,
            food_saturation: self.food_saturation,
            inventory: self.inventory@,
            selected_hotbar_slot: self.selected_hotbar_slot,
        }
    }
}

impl PlayerSnapshot {
    /// A copy.
    pub fn duplicate(&self) -> (result: Self)
        ensures
            result@ == self@,
            self.inventory.wf() ==> result.inventory.wf(),
            self.inventory.data_wf() ==> result.inventory.data_wf(),
    {
        PlayerSnapshot {
            id: self.id,
            username: self.username.clone(),
            position: self.position,
            yaw: self.yaw,
            pitch: self.pitch,
            on_ground: self.on_ground,
            dimension: self.dimension,
            health: self.health,
            food: self.food,
            food_saturation: self.food_saturation,
            inventory: self.inventory.duplicate(),
            selected_hotbar_slot: self.selected_hotbar_slot,
        }
    }
}

/// Items that lie in the world.
#[derive(Debug, PartialEq, Eq)]
pub struct DroppedItemSnapshot {
    pub item: ItemStack,
    pub position: Vec3,
    pub velocity: Vec3,
}

/// What items that lie in the world are.
pub struct DroppedItemView {
    pub item: StackView,
    pub position: Vec3,
    pub velocity: Vec3,
}

impl View for DroppedItemSnapshot {
    type V = DroppedItemView;

    open spec fn view(&self) -> DroppedItemView {
        DroppedItemView { item: self.item@, position: self.position, velocity: self.velocity }
    }
}

impl DroppedItemSnapshot {
    /// A copy.
    pub fn duplicate(&self) -> (result: Self)
        ensures
            result@ == self@,
            self.item.wf() ==> result.item.wf(),
    {
        DroppedItemSnapshot {
            item: self.item.duplicate(),
            position: self.position,
            velocity: self.velocity,
        }
    }
}

/// The contents of a container block.
#[derive(Debug, PartialEq, Eq)]
pub struct ContainerBlockEntityState {
    pub kind: BlockEntityKindId,
    pub slots: Vec<Option<ItemStack>>,
    pub properties: OrderedMap<ContainerPropertyKey, i16>,
}

/// The contents of a block.
#[derive(Debug, PartialEq, Eq)]
pub enum BlockEntityState {
    Chest { slots: Vec<Option<ItemStack>> },
    Furnace {
        input: Option<ItemStack>,
        fuel: Option<ItemStack>,
        output: Option<ItemStack>,
        burn_left: i16,
        burn_max: i16,
        cook_progress: i16,
        cook_total: i16,
    },
    Container(ContainerBlockEntityState),
}

/// What the contents of a block are.
pub enum BlockEntityView {
    Chest { slots: Seq<Option<StackView>> },
    Furnace {
        input: Option<StackView>,
        fuel: Option<StackView>,
        output: Option<StackView>,
        burn_left: i16,
        burn_max: i16,
        cook_progress: i16,
        cook_total: i16,
    },
    Container { kind: Seq<char>, slots: Seq<Option<StackView>>, properties: Entries<i16> },
}

impl View for BlockEntityState {
    type V = BlockEntityView;

    open spec fn view(&self) -> BlockEntityView {
        match self {
            BlockEntityState::Chest { slots } => BlockEntityView::Chest {
                slots: slot_views(slots@),
            },
            BlockEntityState::Furnace {
                input,
                fuel,
                output,
                burn_left,
                burn_max,
                cook_progress,
                cook_total,
            } => BlockEntityView::Furnace {
                input: crate::model::item::stack_view(*input),
                fuel: crate::model::item::stack_view(*fuel),
                output: crate::model::item::stack_view(*output),
                burn_left: *burn_left,
                burn_max: *burn_max,
                cook_progress: *cook_progress,
                cook_total: *cook_total,
            },
            BlockEntityState::Container(state) => BlockEntityView::Container {
                kind: state.kind@,
                slots: slot_views(state.slots@),
                properties: state.properties@,
            },
        }
    }
}

/// A whole world.
#[derive(Debug, PartialEq, Eq)]
pub struct WorldSnapshot {
    pub meta: WorldMeta,
    pub chunks: OrderedMap<ChunkPos, ChunkColumn>,
    pub block_entities: OrderedMap<BlockPos, BlockEntityState>,
    pub players: OrderedMap<PlayerId, PlayerSnapshot>,
}

} // verus!
