//! Which parts of a world maps keep.

use crate::bytes::copy_bytes;
use crate::game::content::duplicate_properties;
use crate::model::chunk::{ChunkColumn, ChunkSection};
use crate::model::inventory::{are_slots_wf, duplicate_slots, slots_wf, PlayerInventory};
use crate::model::item::{duplicate_stack, is_stack_wf, stack_wf};
use crate::model::player::{BlockEntityState, ContainerBlockEntityState, PlayerSnapshot};
use crate::ordered::{Key, Stored};
use vstd::prelude::*;

verus! {

impl Stored for u8 {
    open spec fn sound(&self) -> bool {
        true
    }

    fn is_sound(&self) -> (result: bool) {
        true
    }

    fn replica(&self) -> (result: Self) {
        *self
    }
}

impl Stored for ChunkSection {
    open spec fn sound(&self) -> bool {
        self.wf()
    }

    fn is_sound(&self) -> (result: bool) {
        if !self.blocks.in_order() {
            return false;
        }
        let mut i: usize = 0;
        proof {
            self.blocks.entries_are_pairs();
        }
        while i < self.blocks.len()
            invariant
                i <= self.blocks@.len(),
                self.blocks.wf(),
                self.blocks@.len() == self.blocks.pairs().len(),
                forall|j: int|
                    0 <= j < i ==> (#[trigger] self.blocks.pairs()[j]).0.wf()
                        && self.blocks.pairs()[j].1.wf(),
            decreases self.blocks@.len() - i,
        {
            let index: u16 = self.blocks.key(i).into_raw();
            if index >= 4096 || !self.blocks.at(i).properties.in_order() {
                return false;
            }
            i += 1;
        }
        true
    }

    fn replica(&self) -> (result: Self) {
        self.duplicate()
    }
}

impl Stored for ChunkColumn {
    open spec fn sound(&self) -> bool {
        self.wf()
    }

    fn is_sound(&self) -> (result: bool) {
        self.sections.is_sound()
    }

    fn replica(&self) -> (result: Self) {
        let sections = self.sections.replica();
        let biomes = copy_bytes(self.biomes.as_slice());
        ChunkColumn { pos: self.pos, sections, biomes }
    }
}

impl Stored for PlayerInventory {
    open spec fn sound(&self) -> bool {
        self.data_wf()
    }

    fn is_sound(&self) -> (result: bool) {
        self.is_data_wf()
    }

    fn replica(&self) -> (result: Self) {
        self.duplicate()
    }
}

impl Stored for PlayerSnapshot {
    open spec fn sound(&self) -> bool {
        self.inventory.data_wf()
    }

    fn is_sound(&self) -> (result: bool) {
        self.inventory.is_data_wf()
    }

    fn replica(&self) -> (result: Self) {
        self.duplicate()
    }
}

impl Stored for BlockEntityState {
    open spec fn sound(&self) -> bool {
        match self {
            BlockEntityState::Chest { slots } => slots_wf(slots@),
            BlockEntityState::Furnace { input, fuel, output, .. } => stack_wf(*input) && stack_wf(
                *fuel,
            ) && stack_wf(*output),
            BlockEntityState::Container(state) => slots_wf(state.slots@) && state.properties.wf(),
        }
    }

    fn is_sound(&self) -> (result: bool) {
        match self {
            BlockEntityState::Chest { slots } => are_slots_wf(slots),
            BlockEntityState::Furnace { input, fuel, output, .. } => is_stack_wf(input)
                && is_stack_wf(fuel) && is_stack_wf(output),
            BlockEntityState::Container(state) => are_slots_wf(&state.slots)
                && state.properties.in_order(),
        }
    }

    fn replica(&self) -> (result: Self) {
        match self {
            BlockEntityState::Chest { slots } => BlockEntityState::Chest {
                slots: duplicate_slots(slots),
            },
            BlockEntityState::Furnace {
                input,
                fuel,
                output,
                burn_left,
                burn_max,
                cook_progress,
                cook_total,
            } => BlockEntityState::Furnace {
                input: duplicate_stack(input),
                fuel: duplicate_stack(fuel),
                output: duplicate_stack(output),
                burn_left: *burn_left,
                burn_max: *burn_max,
                cook_progress: *cook_progress,
                cook_total: *cook_total,
            },
            BlockEntityState::Container(state) => BlockEntityState::Container(
                ContainerBlockEntityState {
                    kind: state.kind.duplicate(),
                    slots: duplicate_slots(&state.slots),
                    properties: duplicate_properties(&state.properties),
                },
            ),
        }
    }
}

} // verus!
