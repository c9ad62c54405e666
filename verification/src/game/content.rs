//! What the rules of a game decide: its containers, its recipes and its terrain.

use crate::model::block::{BlockPos, BlockState, BlockView, ChunkPos, WorldMeta, WorldMetaView};
use crate::model::chunk::{ChunkColumn, ColumnView};
use crate::model::inventory::{
    are_slots_wf, duplicate_slots, slot_views, slots_wf, InventoryClickButton, InventoryView,
    PlayerInventory,
};
use crate::model::item::{stack_view, stack_wf, ItemStack, StackView};
use crate::model::names::{BlockEntityKindId, ContainerKindId, ContainerPropertyKey};
use crate::model::player::ContainerBlockEntityState;
use crate::ordered::{insert_at_end, lex_before, sorted, Key, OrderedMap};
use vstd::prelude::*;

verus! {

/// What a slot of a container is for.
#[derive(Clone, Copy, Debug, PartialEq, Eq, Structural)]
pub enum ContainerSlotRole {
    /// Stacks are put in and taken out.
    Generic,
    /// Stacks are only taken out.
    OutputOnly,
    /// Nothing can be done with it.
    Unavailable,
}

/// How a kind of container is laid out.
#[derive(Debug, PartialEq, Eq)]
pub struct ContainerSpec {
    pub local_slot_count: u16,
    pub roles: Vec<ContainerSlotRole>,
}

/// How a kind of container is laid out.
pub struct SpecView {
    pub local_slot_count: u16,
    pub roles: Seq<ContainerSlotRole>,
}

impl SpecView {
    /// What a slot is for: one that is not listed takes and gives stacks.
    pub open spec fn role(self, index: u16) -> ContainerSlotRole {
        if index < self.roles.len() {
            self.roles[index as int]
        } else {
            ContainerSlotRole::Generic
        }
    }
}

/// A slot is for what the layout lists, and one that is not listed takes and gives stacks.
pub proof fn slots_are_for_what_is_listed(spec: SpecView, index: u16)
    ensures
        index < spec.roles.len() ==> spec.role(index) == spec.roles[index as int],
        spec.role(index) !is Generic ==> spec.roles.contains(spec.role(index)),
        index >= spec.roles.len() ==> spec.role(index) is Generic,
{
}

impl View for ContainerSpec {
    type V = SpecView;

    open spec fn view(&self) -> SpecView {
        SpecView { local_slot_count: self.local_slot_count, roles: self.roles@ }
    }
}

impl ContainerSpec {
    /// What a slot is for.
    pub fn slot_role(&self, index: u16) -> (result: ContainerSlotRole)
        ensures
            result == self@.role(index),
    {
        if (index as usize) < self.roles.len() {
            self.roles[index as usize]
        } else {
            ContainerSlotRole::Generic
        }
    }
}

/// What an open container belongs to.
#[derive(Debug, PartialEq, Eq)]
pub enum ContainerBinding {
    /// Nothing but the session that opened it.
    Virtual,
    /// A block of the world.
    Block { position: BlockPos, kind: BlockEntityKindId },
}

/// A container that is open.
#[derive(Debug, PartialEq, Eq)]
pub struct OpenContainerState {
    pub kind: ContainerKindId,
    pub local_slots: Vec<Option<ItemStack>>,
    pub properties: OrderedMap<ContainerPropertyKey, i16>,
    pub binding: ContainerBinding,
}

/// What an open container is.
pub struct ContainerView {
    pub kind: Seq<char>,
    pub local_slots: Seq<Option<StackView>>,
    pub properties: Seq<(Seq<char>, i16)>,
    pub block: Option<(BlockPos, Seq<char>)>,
}

/// Properties by their names.
pub open spec fn property_views(pairs: Seq<(ContainerPropertyKey, i16)>) -> Seq<(Seq<char>, i16)> {
    pairs.map_values(|pair: (ContainerPropertyKey, i16)| (pair.0@, pair.1))
}

impl View for OpenContainerState {
    type V = ContainerView;

    open spec fn view(&self) -> ContainerView {
        ContainerView {
            kind: self.kind@,
            local_slots: slot_views(self.local_slots@),
            properties: property_views(self.properties.pairs()),
            block: match self.binding {
                ContainerBinding::Virtual => None,
                ContainerBinding::Block { position, kind } => Some((position, kind@)),
            },
        }
    }
}

impl OpenContainerState {
    /// Whether all data stands in order.
    pub open spec fn wf(&self) -> bool {
        slots_wf(self.local_slots@) && self.properties.wf()
    }

    /// Whether all data stands in order.
    pub fn is_wf(&self) -> (result: bool)
        ensures
            result == self.wf(),
    {
        are_slots_wf(&self.local_slots) && self.properties.in_order()
    }

    /// A slot, to be changed, if the container has it.
    pub fn local_slot_mut(&mut self, index: u16) -> (result: Option<&mut Option<ItemStack>>)
        ensures
            result is Some == (index < old(self)@.local_slots.len()),
            match result {
                Some(place) => {
                    &&& stack_view(*place) == old(self)@.local_slots[index as int]
                    &&& old(self).wf() ==> stack_wf(*place)
                    &&& final(self)@.local_slots =~= old(self)@.local_slots.update(
                        index as int,
                        stack_view(*final(place)),
                    )
                    &&& final(self)@.kind == old(self)@.kind
                    &&& final(self)@.properties == old(self)@.properties
                    &&& final(self)@.block == old(self)@.block
                    &&& old(self).wf() && stack_wf(*final(place)) ==> final(self).wf()
                },
                None => *final(self) == *old(self),
            },
    {
        if (index as usize) < self.local_slots.len() {
            assert(self@.local_slots[index as int] == stack_view(self.local_slots@[index as int]));
            Some(&mut self.local_slots[index as usize])
        } else {
            None
        }
    }

    /// The properties with their values, in the order of their names.
    pub fn property_entries(&self) -> (result: Vec<(ContainerPropertyKey, i16)>)
        ensures
            property_views(result@) == self@.properties,
    {
        let mut result: Vec<(ContainerPropertyKey, i16)> = Vec::new();
        let mut i: usize = 0;
        proof {
            self.properties.entries_are_pairs();
        }
        while i < self.properties.len()
            invariant
                i <= self.properties@.len() == self.properties.pairs().len(),
                result@.len() == i,
                forall|j: int|
                    0 <= j < i ==> (#[trigger] result@[j]).0@ == self.properties.pairs()[j].0@
                        && result@[j].1 == self.properties.pairs()[j].1,
            decreases self.properties@.len() - i,
        {
            result.push((self.properties.key(i).duplicate(), *self.properties.at(i)));
            i += 1;
        }
        assert(property_views(result@) =~= self@.properties);
        result
    }

    /// Where the container stands in the world.
    pub fn world_position(&self) -> (result: Option<BlockPos>)
        ensures
            result == match self@.block {
                Some((position, _)) => Some(position),
                None => None,
            },
    {
        match &self.binding {
            ContainerBinding::Virtual => None,
            ContainerBinding::Block { position, .. } => Some(*position),
        }
    }

    /// What the block that the container belongs to holds.
    pub fn block_entity_state(&self) -> (result: Option<ContainerBlockEntityState>)
        requires
            self.wf(),
        ensures
            match self@.block {
                None => result is None,
                Some((_, kind)) => result matches Some(state) && state.kind@ == kind && slot_views(
                    state.slots@,
                ) == self@.local_slots && property_views(state.properties.pairs())
                    == self@.properties && state.properties@ == self.properties@,
            },
    {
        match &self.binding {
            ContainerBinding::Virtual => None,
            ContainerBinding::Block { kind, .. } => Some(
                ContainerBlockEntityState {
                    kind: kind.duplicate(),
                    slots: duplicate_slots(&self.local_slots),
                    properties: duplicate_properties(&self.properties),
                },
            ),
        }
    }

    /// A copy of the container.
    pub fn duplicate(&self) -> (result: Self)
        requires
            self.wf(),
        ensures
            result@ == self@,
            result.wf(),
    {
        OpenContainerState {
            kind: self.kind.duplicate(),
            local_slots: duplicate_slots(&self.local_slots),
            properties: duplicate_properties(&self.properties),
            binding: match &self.binding {
                ContainerBinding::Virtual => ContainerBinding::Virtual,
                ContainerBinding::Block { position, kind } => ContainerBinding::Block {
                    position: *position,
                    kind: kind.duplicate(),
                },
            },
        }
    }
}

/// A copy of properties.
pub fn duplicate_properties(map: &OrderedMap<ContainerPropertyKey, i16>) -> (result: OrderedMap<
    ContainerPropertyKey,
    i16,
>)
    requires
        map.wf(),
    ensures
        result@ == map@,
        property_views(result.pairs()) == property_views(map.pairs()),
{
    let mut result: OrderedMap<ContainerPropertyKey, i16> = OrderedMap::new();
    let mut i: usize = 0;
    let ghost all = map@;
    proof {
        map.entries_are_pairs();
        assert(result@ =~= all.subrange(0, 0));
    }
    while i < map.len()
        invariant
            all == map@,
            sorted(all),
            i <= all.len() == map.pairs().len(),
            result.wf(),
            result@ == all.subrange(0, i as int),
            result.pairs().len() == i,
            forall|j: int|
                0 <= j < i ==> (#[trigger] result.pairs()[j]).0@ == map.pairs()[j].0@
                    && result.pairs()[j].1 == map.pairs()[j].1,
        decreases all.len() - i,
    {
        let key = map.key(i).duplicate();
        let value: i16 = *map.at(i);
        proof {
            map.entries_are_pairs();
            let done = all.subrange(0, i as int);
            if i > 0 {
                assert(done.last() == all[i - 1]);
                assert(lex_before(all[i - 1].0, all[i as int].0));
            }
            insert_at_end(done, key.id(), value);
            assert(done.push(all[i as int]) =~= all.subrange(0, i + 1));
        }
        result.insert(key, value);
        i += 1;
    }
    proof {
        assert(all.subrange(0, all.len() as int) =~= all);
        assert(property_views(result.pairs()) =~= property_views(map.pairs()));
    }
    result
}

/// The rules of a game. Every answer depends on nothing but the question; what it is, each set of
/// rules says for itself.
pub trait ContentBehavior: Sized {
    /// The kind of container that a player's own inventory is.
    closed spec fn player_kind(&self) -> Seq<char> {
        arbitrary()
    }

    /// How a kind of container is laid out, if it is known.
    closed spec fn layout(&self, kind: Seq<char>) -> Option<SpecView> {
        arbitrary()
    }

    /// Whether a click takes the output of a container, and the slots and the cursor after it.
    closed spec fn output_taken(
        &self,
        kind: Seq<char>,
        slots: Seq<Option<StackView>>,
        cursor: Option<StackView>,
        button: InventoryClickButton,
    ) -> (bool, Seq<Option<StackView>>, Option<StackView>) {
        arbitrary()
    }

    /// An inventory with the results that follow from what is in it.
    closed spec fn normal_inventory(&self, inventory: InventoryView) -> InventoryView {
        arbitrary()
    }

    /// A container with the results that follow from what is in it.
    closed spec fn normal_container(&self, container: ContainerView) -> ContainerView {
        arbitrary()
    }

    /// The chunk at a place of a world that nothing was done to.
    closed spec fn terrain(&self, meta: WorldMetaView, pos: ChunkPos) -> ColumnView {
        arbitrary()
    }

    /// The kind of container that a player's own inventory is.
    fn player_container_kind(&self) -> (result: ContainerKindId)
        ensures
            result@ == self.player_kind(),
    ;

    /// How a kind of container is laid out.
    fn container_spec(&self, kind: &ContainerKindId) -> (result: Option<ContainerSpec>)
        ensures
            match result {
                Some(spec) => self.layout(kind@) == Some(spec@),
                None => self.layout(kind@) is None,
            },
    ;

    /// Takes the output of a container.
    fn try_take_output(
        &self,
        kind: &ContainerKindId,
        local_slots: &mut Vec<Option<ItemStack>>,
        cursor: &mut Option<ItemStack>,
        button: InventoryClickButton,
    ) -> (result: bool)
        ensures
            (result, slot_views(final(local_slots)@), stack_view(*final(cursor)))
                == self.output_taken(
                kind@,
                slot_views(old(local_slots)@),
                stack_view(*old(cursor)),
                button,
            ),
            slots_wf(old(local_slots)@) && stack_wf(*old(cursor)) ==> slots_wf(
                final(local_slots)@,
            ) && stack_wf(*final(cursor)),
    ;

    /// Works out the results that follow from what is in an inventory.
    fn normalize_player_inventory(&self, inventory: &mut PlayerInventory)
        ensures
            final(inventory)@ == self.normal_inventory(old(inventory)@),
            old(inventory).data_wf() ==> final(inventory).data_wf(),
    ;

    /// Works out the results that follow from what is in a container.
    fn normalize_container(&self, container: &mut OpenContainerState)
        ensures
            final(container)@ == self.normal_container(old(container)@),
            old(container).wf() ==> final(container).wf(),
    ;

    /// The chunk at a place of a world that nothing was done to.
    fn generate_chunk(&self, meta: &WorldMeta, pos: ChunkPos) -> (result: ChunkColumn)
        ensures
            result.wf(),
            result@ == self.terrain(meta@, pos),
    ;

    /// What a block holds when it is placed, if it holds anything.
    closed spec fn placed_contents(&self, block: BlockView) -> Option<
        crate::model::player::BlockEntityView,
    > {
        arbitrary()
    }

    /// What a block holds when it is placed, if it holds anything.
    fn default_block_entity_for_block(&self, block: &BlockState) -> (result: Option<
        ContainerBlockEntityState,
    >)
        ensures
            match result {
                Some(state) => self.placed_contents(block@) == Some(
                    crate::model::player::BlockEntityState::Container(state)@,
                ) && slots_wf(state.slots@) && state.properties.wf(),
                None => self.placed_contents(block@) is None,
            },
    ;
}

} // verus!
