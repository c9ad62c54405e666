//! Inventories, windows on them, and clicks.

use crate::model::item::{duplicate_stack, is_stack_wf, stack_view, stack_wf, ItemStack, StackView};
use vstd::prelude::*;

verus! {

/// How many slots a player's inventory has.
pub const PLAYER_INVENTORY_SLOT_COUNT: usize = 45;

/// How many of them are for crafting and armor.
pub const AUXILIARY_SLOT_COUNT: u8 = 9;

/// How many of them are for storage.
pub const MAIN_INVENTORY_SLOT_COUNT: u8 = 27;

/// Where the slots at hand start.
pub const HOTBAR_START_SLOT: u8 = 36;

/// How many slots are at hand.
pub const HOTBAR_SLOT_COUNT: u8 = 9;

/// What the slots of a list hold.
pub open spec fn slot_views(slots: Seq<Option<ItemStack>>) -> Seq<Option<StackView>> {
    slots.map_values(|slot: Option<ItemStack>| stack_view(slot))
}

/// Whether the data of every stack of a list stands in order.
pub open spec fn slots_wf(slots: Seq<Option<ItemStack>>) -> bool {
    forall|i: int| 0 <= i < slots.len() ==> stack_wf(#[trigger] slots[i])
}

/// Whether the data of all slots of a list stands in order.
pub fn are_slots_wf(slots: &Vec<Option<ItemStack>>) -> (result: bool)
    ensures
        result == slots_wf(slots@),
{
    let mut i: usize = 0;
    while i < slots.len()
        invariant
            i <= slots@.len(),
            forall|j: int| 0 <= j < i ==> stack_wf(#[trigger] slots@[j]),
        decreases slots@.len() - i,
    {
        if !is_stack_wf(&slots[i]) {
            return false;
        }
        i += 1;
    }
    true
}

/// A copy of the slots of a list.
pub fn duplicate_slots(slots: &Vec<Option<ItemStack>>) -> (result: Vec<Option<ItemStack>>)
    ensures
        slot_views(result@) == slot_views(slots@),
        slots_wf(slots@) ==> slots_wf(result@),
{
    let mut result: Vec<Option<ItemStack>> = Vec::new();
    let mut i: usize = 0;
    while i < slots.len()
        invariant
            i <= slots@.len(),
            result@.len() == i,
            forall|j: int|
                0 <= j < i ==> stack_view(#[trigger] result@[j]) == stack_view(slots@[j]) && (
                stack_wf(slots@[j]) ==> stack_wf(result@[j])),
        decreases slots@.len() - i,
    {
        result.push(duplicate_stack(&slots[i]));
        i += 1;
    }
    assert(slot_views(result@) =~= slot_views(slots@));
    result
}

/// Where in a window a stack may lie.
#[derive(Clone, Copy, Debug, PartialEq, Eq, Structural)]
pub enum InventorySlot {
    WindowLocal(u16),
    MainInventory(u8),
    Hotbar(u8),
    Offhand,
}

impl InventorySlot {
    /// Where the result of crafting lies.
    pub fn crafting_result() -> (result: Self)
        ensures
            result == InventorySlot::WindowLocal(0),
    {
        InventorySlot::WindowLocal(0)
    }

    /// Where an ingredient of crafting lies; there are four.
    pub fn crafting_input(index: u8) -> (result: Option<Self>)
        ensures
            result == if index < 4 {
                Some(InventorySlot::WindowLocal((index + 1) as u16))
            } else {
                None
            },
    {
        if index < 4 {
            Some(InventorySlot::WindowLocal(index as u16 + 1))
        } else {
            None
        }
    }

    /// A slot of the window itself.
    pub fn container(index: u8) -> (result: Self)
        ensures
            result == InventorySlot::WindowLocal(index as u16),
    {
        InventorySlot::WindowLocal(index as u16)
    }

    /// The number of the slot among the slots of a player's inventory.
    pub open spec fn spec_window_index(self) -> Option<u8> {
        match self {
            InventorySlot::WindowLocal(index) => if index < 9 {
                Some(index as u8)
            } else {
                None
            },
            InventorySlot::MainInventory(index) => if index < 27 {
                Some((9 + index) as u8)
            } else {
                None
            },
            InventorySlot::Hotbar(index) => if index < 9 {
                Some((36 + index) as u8)
            } else {
                None
            },
            InventorySlot::Offhand => None,
        }
    }

    /// The number of the slot among the slots of a player's inventory.
    pub fn legacy_window_index(self) -> (result: Option<u8>)
        ensures
            result == self.spec_window_index(),
            result matches Some(index) ==> index < 45,
    {
        match self {
            InventorySlot::WindowLocal(index) => if index < AUXILIARY_SLOT_COUNT as u16 {
                Some(index as u8)
            } else {
                None
            },
            InventorySlot::MainInventory(index) => if index < MAIN_INVENTORY_SLOT_COUNT {
                Some(AUXILIARY_SLOT_COUNT + index)
            } else {
                None
            },
            InventorySlot::Hotbar(index) => if index < HOTBAR_SLOT_COUNT {
                Some(HOTBAR_START_SLOT + index)
            } else {
                None
            },
            InventorySlot::Offhand => None,
        }
    }

    /// Whether things are stored in the slot.
    pub fn is_storage_slot(self) -> (result: bool)
        ensures
            result == !(self is WindowLocal),
    {
        match self {
            InventorySlot::WindowLocal(_) => false,
            _ => true,
        }
    }

    /// The number of the slot among those of the window itself.
    pub fn container_index(self) -> (result: Option<u8>)
        ensures
            result == match self {
                InventorySlot::WindowLocal(index) => if index <= 255 {
                    Some(index as u8)
                } else {
                    None
                },
                _ => None,
            },
    {
        match self {
            InventorySlot::WindowLocal(index) => if index <= 255 {
                Some(index as u8)
            } else {
                None
            },
            _ => None,
        }
    }

    /// Whether the slot holds the result of crafting.
    pub open spec fn spec_is_crafting_result(self) -> bool {
        self == InventorySlot::WindowLocal(0)
    }

    /// Whether the slot holds the result of crafting.
    pub fn is_crafting_result(self) -> (result: bool)
        ensures
            result == self.spec_is_crafting_result(),
    {
        match self {
            InventorySlot::WindowLocal(index) => index == 0,
            _ => false,
        }
    }

    /// Which ingredient of crafting the slot holds.
    pub fn crafting_input_index(self) -> (result: Option<u8>)
        ensures
            result == match self {
                InventorySlot::WindowLocal(index) => if 1 <= index <= 4 {
                    Some((index - 1) as u8)
                } else {
                    None
                },
                _ => None,
            },
    {
        match self {
            InventorySlot::WindowLocal(index) => if index >= 1 && index <= 4 {
                Some((index - 1) as u8)
            } else {
                None
            },
            _ => None,
        }
    }

    /// Whether the slot is one for armor.
    pub fn is_reserved_auxiliary(self) -> (result: bool)
        ensures
            result == (self matches InventorySlot::WindowLocal(index) && 5 <= index <= 8),
    {
        match self {
            InventorySlot::WindowLocal(index) => index >= 5 && index <= 8,
            _ => false,
        }
    }
}

/// Which hand acts.
#[derive(Clone, Copy, Debug, PartialEq, Eq, Structural)]
pub enum InteractionHand {
    Main,
    Offhand,
}

/// The things a player carries.
#[derive(Debug, PartialEq, Eq)]
pub struct PlayerInventory {
    pub slots: Vec<Option<ItemStack>>,
    pub offhand: Option<ItemStack>,
}

/// What a player carries.
pub struct InventoryView {
    pub slots: Seq<Option<StackView>>,
    pub offhand: Option<StackView>,
}

impl View for PlayerInventory {
    type V = InventoryView;

    open spec fn view(&self) -> InventoryView {
        InventoryView { slots: slot_views(self.slots@), offhand: stack_view(self.offhand) }
    }
}

impl InventoryView {
    /// What lies in the slot with a number.
    pub open spec fn at(self, index: u8) -> Option<StackView> {
        if index < self.slots.len() {
            self.slots[index as int]
        } else {
            None
        }
    }

    /// What lies in a slot.
    pub open spec fn slot(self, slot: InventorySlot) -> Option<StackView> {
        match slot {
            InventorySlot::Offhand => self.offhand,
            _ => match slot.spec_window_index() {
                Some(index) => self.at(index),
                None => None,
            },
        }
    }

    /// Whether the inventory has a slot.
    pub open spec fn has_slot(self, slot: InventorySlot) -> bool {
        slot is Offhand || (slot.spec_window_index() matches Some(index) && index
            < self.slots.len())
    }

    /// Whether a slot, if it is one that inventories have, is one of this inventory.
    pub open spec fn reaches(self, slot: InventorySlot) -> bool {
        slot.spec_window_index() matches Some(index) ==> index < self.slots.len()
    }

    /// With a stack in a slot; the inventory itself where it has no such slot.
    pub open spec fn with_slot(
        self,
        slot: InventorySlot,
        stack: Option<StackView>,
    ) -> InventoryView {
        match slot {
            InventorySlot::Offhand => InventoryView { offhand: stack, ..self },
            _ => match slot.spec_window_index() {
                Some(index) => if index < self.slots.len() {
                    InventoryView { slots: self.slots.update(index as int, stack), ..self }
                } else {
                    self
                },
                None => self,
            },
        }
    }
}

impl Default for PlayerInventory {
    fn default() -> (result: Self)
        ensures
            result.wf(),
            result@ == empty_inventory(),
    {
        PlayerInventory::new_empty()
    }
}

/// An inventory with nothing in it.
pub open spec fn empty_inventory() -> InventoryView {
    InventoryView { slots: Seq::new(45, |i: int| None), offhand: None }
}

/// Nothing lies in any of the forty-five slots of an empty inventory, nor in the other hand.
pub proof fn nothing_lies_in_empty_inventories(slot: InventorySlot)
    ensures
        empty_inventory().slot(slot) is None,
        empty_inventory().slots.len() == 45,
{
}

impl PlayerInventory {
    /// Whether there are as many slots as there should be and all data stands in order.
    pub open spec fn wf(&self) -> bool {
        &&& self.slots@.len() == 45
        &&& self.data_wf()
    }

    /// Whether all data stands in order.
    pub open spec fn data_wf(&self) -> bool {
        &&& slots_wf(self.slots@)
        &&& stack_wf(self.offhand)
    }

    /// Whether all data stands in order.
    pub fn is_data_wf(&self) -> (result: bool)
        ensures
            result == self.data_wf(),
    {
        are_slots_wf(&self.slots) && is_stack_wf(&self.offhand)
    }

    /// An inventory with nothing in it.
    pub fn new_empty() -> (result: Self)
        ensures
            result.wf(),
            result@ == empty_inventory(),
    {
        let mut slots: Vec<Option<ItemStack>> = Vec::new();
        let mut i: usize = 0;
        while i < PLAYER_INVENTORY_SLOT_COUNT
            invariant
                i <= 45,
                slots@.len() == i,
                forall|j: int| 0 <= j < i ==> #[trigger] slots@[j] is None,
            decreases 45 - i,
        {
            slots.push(None);
            i += 1;
        }
        assert(slot_views(slots@) =~= Seq::new(45, |i: int| None));
        PlayerInventory { slots, offhand: None }
    }

    /// A copy of the inventory.
    pub fn duplicate(&self) -> (result: Self)
        ensures
            result@ == self@,
            self.wf() ==> result.wf(),
            self.data_wf() ==> result.data_wf(),
    {
        let slots = duplicate_slots(&self.slots);
        assert(slot_views(slots@).len() == slot_views(self.slots@).len());
        PlayerInventory { slots, offhand: duplicate_stack(&self.offhand) }
    }

    /// What lies in the slot with a number.
    pub fn get(&self, slot: u8) -> (result: Option<&ItemStack>)
        ensures
            match result {
                Some(stack) => self@.at(slot) == Some(stack@) && (self.data_wf() ==> stack.wf()),
                None => self@.at(slot) is None,
            },
    {
        if (slot as usize) < self.slots.len() {
            assert(self@.slots[slot as int] == stack_view(self.slots@[slot as int]));
            self.slots[slot as usize].as_ref()
        } else {
            None
        }
    }

    /// Puts a stack, or none, into the slot with a number, if there is such a slot.
    pub fn set(&mut self, slot: u8, stack: Option<ItemStack>) -> (result: bool)
        requires
            old(self).data_wf(),
            stack_wf(stack),
            slot < 45 ==> slot < old(self)@.slots.len(),
        ensures
            final(self).data_wf(),
            old(self).wf() ==> final(self).wf(),
            result == (slot < 45),
            final(self)@ == if slot < 45 {
                InventoryView {
                    slots: old(self)@.slots.update(slot as int, stack_view(stack)),
                    ..old(self)@
                }
            } else {
                old(self)@
            },
    {
        if slot as usize >= PLAYER_INVENTORY_SLOT_COUNT {
            return false;
        }
        self.slots[slot as usize] = stack;
        assert(self@.slots =~= old(self)@.slots.update(slot as int, stack_view(stack)));
        true
    }

    /// What lies in a slot at hand.
    pub fn selected_hotbar_stack(&self, selected_hotbar_slot: u8) -> (result: Option<&ItemStack>)
        ensures
            match result {
                Some(stack) => self@.slot(InventorySlot::Hotbar(selected_hotbar_slot)) == Some(
                    stack@,
                ) && (self.data_wf() ==> stack.wf()),
                None => self@.slot(InventorySlot::Hotbar(selected_hotbar_slot)) is None,
            },
    {
        if selected_hotbar_slot >= HOTBAR_SLOT_COUNT {
            return None;
        }
        self.get(HOTBAR_START_SLOT + selected_hotbar_slot)
    }

    /// What lies in a slot.
    pub fn get_slot(&self, slot: InventorySlot) -> (result: Option<&ItemStack>)
        ensures
            match result {
                Some(stack) => self@.slot(slot) == Some(stack@) && (self.data_wf() ==> stack.wf()),
                None => self@.slot(slot) is None,
            },
    {
        match slot {
            InventorySlot::Offhand => self.offhand.as_ref(),
            _ => match slot.legacy_window_index() {
                Some(index) => self.get(index),
                None => None,
            },
        }
    }

    /// Puts a stack, or none, into a slot, if the inventory has it.
    pub fn set_slot(&mut self, slot: InventorySlot, stack: Option<ItemStack>) -> (result: bool)
        requires
            old(self).data_wf(),
            stack_wf(stack),
            old(self)@.reaches(slot),
        ensures
            final(self).data_wf(),
            old(self).wf() ==> final(self).wf(),
            result == old(self)@.has_slot(slot),
            final(self)@ == old(self)@.with_slot(slot, stack_view(stack)),
    {
        match slot {
            InventorySlot::Offhand => {
                self.offhand = stack;
                true
            },
            _ => match slot.legacy_window_index() {
                Some(index) => self.set(index, stack),
                None => false,
            },
        }
    }

    /// A slot, to be changed, if the inventory has it.
    pub fn get_slot_mut(&mut self, slot: InventorySlot) -> (result: Option<&mut Option<ItemStack>>)
        ensures
            result is Some == old(self)@.has_slot(slot),
            match result {
                Some(place) => {
                    &&& stack_view(*place) == old(self)@.slot(slot)
                    &&& old(self).data_wf() ==> stack_wf(*place)
                    &&& final(self)@.slots =~= old(self)@.with_slot(
                        slot,
                        stack_view(*final(place)),
                    ).slots
                    &&& final(self)@.offhand == old(self)@.with_slot(
                        slot,
                        stack_view(*final(place)),
                    ).offhand
                    &&& old(self).data_wf() && stack_wf(*final(place))
                        ==> final(self).data_wf()
                },
                None => *final(self) == *old(self),
            },
    {
        match slot {
            InventorySlot::Offhand => Some(&mut self.offhand),
            _ => match slot.legacy_window_index() {
                Some(index) => {
                    if index as usize >= self.slots.len() {
                        return None;
                    }
                    assert(self@.slots[index as int] == stack_view(self.slots@[index as int]));
                    Some(&mut self.slots[index as usize])
                },
                None => None,
            },
        }
    }

    /// What a hand holds.
    pub fn selected_stack(&self, selected_hotbar_slot: u8, hand: InteractionHand) -> (result:
        Option<&ItemStack>)
        ensures
            match result {
                Some(stack) => (match hand {
                    InteractionHand::Main => self@.slot(
                        InventorySlot::Hotbar(selected_hotbar_slot),
                    ),
                    InteractionHand::Offhand => self@.offhand,
                }) == Some(stack@) && (self.data_wf() ==> stack.wf()),
                None => (match hand {
                    InteractionHand::Main => self@.slot(
                        InventorySlot::Hotbar(selected_hotbar_slot),
                    ),
                    InteractionHand::Offhand => self@.offhand,
                }) is None,
            },
    {
        match hand {
            InteractionHand::Main => self.selected_hotbar_stack(selected_hotbar_slot),
            InteractionHand::Offhand => self.offhand.as_ref(),
        }
    }

    /// The result of crafting.
    pub fn crafting_result(&self) -> (result: Option<&ItemStack>)
        ensures
            match result {
                Some(stack) => self@.at(0) == Some(stack@) && (self.data_wf() ==> stack.wf()),
                None => self@.at(0) is None,
            },
    {
        self.get_slot(InventorySlot::crafting_result())
    }

    /// Puts down the result of crafting.
    pub fn set_crafting_result(&mut self, stack: Option<ItemStack>) -> (result: bool)
        requires
            old(self).data_wf(),
            stack_wf(stack),
            old(self)@.slots.len() > 0,
        ensures
            final(self).data_wf(),
            old(self).wf() ==> final(self).wf(),
            result,
            final(self)@ == old(self)@.with_slot(
                InventorySlot::WindowLocal(0),
                stack_view(stack),
            ),
    {
        self.set_slot(InventorySlot::crafting_result(), stack)
    }

    /// An ingredient of crafting.
    pub fn crafting_input(&self, index: u8) -> (result: Option<&ItemStack>)
        ensures
            match result {
                Some(stack) => index < 4 && self@.at((index + 1) as u8) == Some(stack@) && (
                self.data_wf() ==> stack.wf()),
                None => index >= 4 || self@.at((index + 1) as u8) is None,
            },
    {
        match InventorySlot::crafting_input(index) {
            Some(slot) => self.get_slot(slot),
            None => None,
        }
    }

    /// Puts down an ingredient of crafting.
    pub fn set_crafting_input(&mut self, index: u8, stack: Option<ItemStack>) -> (result: bool)
        requires
            old(self).data_wf(),
            stack_wf(stack),
            index < 4 ==> index + 1 < old(self)@.slots.len(),
        ensures
            final(self).data_wf(),
            old(self).wf() ==> final(self).wf(),
            result == (index < 4),
            final(self)@ == if index < 4 {
                old(self)@.with_slot(
                    InventorySlot::WindowLocal((index + 1) as u16),
                    stack_view(stack),
                )
            } else {
                old(self)@
            },
    {
        match InventorySlot::crafting_input(index) {
            Some(slot) => self.set_slot(slot, stack),
            None => false,
        }
    }
}

/// A stack that was put into a slot is found there, and no other slot is affected.
pub proof fn slot_after_set(
    inventory: InventoryView,
    slot: InventorySlot,
    stack: Option<StackView>,
    other: InventorySlot,
)
    requires
        inventory.has_slot(slot),
    ensures
        inventory.with_slot(slot, stack).slot(slot) == stack,
        other != slot ==> inventory.with_slot(slot, stack).slot(other) == inventory.slot(other),
{
}

/// What a window shows: the player's inventory and slots of its own.
#[derive(Debug, PartialEq, Eq)]
pub struct InventoryWindowContents {
    pub player_inventory: PlayerInventory,
    pub local_slots: Vec<Option<ItemStack>>,
}

/// What a window shows.
pub struct ContentsView {
    pub player_inventory: InventoryView,
    pub local_slots: Seq<Option<StackView>>,
}

impl View for InventoryWindowContents {
    type V = ContentsView;

    open spec fn view(&self) -> ContentsView {
        ContentsView {
            player_inventory: self.player_inventory@,
            local_slots: slot_views(self.local_slots@),
        }
    }
}

impl ContentsView {
    /// What lies in a slot of the window.
    pub open spec fn slot(self, slot: InventorySlot) -> Option<StackView> {
        match slot {
            InventorySlot::WindowLocal(index) => if index < self.local_slots.len() {
                self.local_slots[index as int]
            } else {
                None
            },
            _ => self.player_inventory.slot(slot),
        }
    }
}

impl InventoryWindowContents {
    /// Whether all data stands in order.
    pub open spec fn wf(&self) -> bool {
        self.player_inventory.data_wf() && slots_wf(self.local_slots@)
    }

    /// A window on a player's inventory alone.
    pub fn player(player_inventory: PlayerInventory) -> (result: Self)
        ensures
            result@ == (ContentsView {
                player_inventory: player_inventory@,
                local_slots: Seq::empty(),
            }),
            player_inventory.data_wf() ==> result.wf(),
            result.player_inventory == player_inventory,
    {
        let result = InventoryWindowContents { player_inventory, local_slots: Vec::new() };
        assert(result@.local_slots =~= Seq::empty());
        result
    }

    /// A window with slots of its own.
    pub fn with_local_slots(
        player_inventory: PlayerInventory,
        local_slots: Vec<Option<ItemStack>>,
    ) -> (result: Self)
        ensures
            result.player_inventory == player_inventory,
            result.local_slots == local_slots,
    {
        InventoryWindowContents { player_inventory, local_slots }
    }

    /// A window on a container.
    pub fn with_container(
        player_inventory: PlayerInventory,
        container_slots: Vec<Option<ItemStack>>,
    ) -> (result: Self)
        ensures
            result.player_inventory == player_inventory,
            result.local_slots == container_slots,
    {
        InventoryWindowContents::with_local_slots(player_inventory, container_slots)
    }

    /// What lies in a slot of the window.
    pub fn get_slot(&self, slot: InventorySlot) -> (result: Option<&ItemStack>)
        ensures
            match result {
                Some(stack) => self@.slot(slot) == Some(stack@) && (self.wf() ==> stack.wf()),
                None => self@.slot(slot) is None,
            },
    {
        match slot {
            InventorySlot::WindowLocal(index) => if (index as usize) < self.local_slots.len() {
                assert(self@.local_slots[index as int] == stack_view(
                    self.local_slots@[index as int],
                ));
                self.local_slots[index as usize].as_ref()
            } else {
                None
            },
            _ => self.player_inventory.get_slot(slot),
        }
    }

    /// A copy.
    pub fn duplicate(&self) -> (result: Self)
        ensures
            result@ == self@,
            self.wf() ==> result.wf(),
    {
        InventoryWindowContents {
            player_inventory: self.player_inventory.duplicate(),
            local_slots: duplicate_slots(&self.local_slots),
        }
    }
}

/// Which window a click is in and which click it is.
#[derive(Clone, Copy, Debug, PartialEq, Eq, Structural)]
pub struct InventoryTransactionContext {
    pub window_id: u8,
    pub action_number: i16,
}

/// Which button was clicked.
#[derive(Clone, Copy, Debug, PartialEq, Eq, Structural)]
pub enum InventoryClickButton {
    Left,
    Right,
}

/// What was clicked.
#[derive(Clone, Copy, Debug, PartialEq, Eq, Structural)]
pub enum InventoryClickTarget {
    Slot(InventorySlot),
    Outside,
    Unsupported,
}

/// What the client claims of a click.
#[derive(Debug, PartialEq, Eq)]
pub enum InventoryClickValidation {
    StrictSlotEcho { clicked_item: Option<ItemStack> },
    Authoritative,
}

} // verus!
