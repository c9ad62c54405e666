//! What clicks do to the slots of windows.

use crate::game::content::{ContainerSlotRole, ContainerView, ContentBehavior};
use crate::game::session::{PlayerSessionState, SessionView, WindowView};
use crate::game::stacks::{
    apply_outside_click, apply_slot_click, can_merge, outside_click, slot_click,
};
use crate::model::inventory::{
    slot_views, slots_wf, InventoryClickButton, InventoryClickTarget, InventorySlot, InventoryView,
    PlayerInventory,
};
use crate::model::item::{stack_view, stack_wf, ItemStack, StackView};
use vstd::prelude::*;

verus! {

/// The first slots of the player's own window.
pub open spec fn local_slots(inventory: InventoryView, count: u16) -> Seq<Option<StackView>> {
    Seq::new(count as nat, |i: int| inventory.slot(InventorySlot::WindowLocal(i as u16)))
}

/// The first slots of the player's own window.
pub fn collect_player_local_slots(inventory: &PlayerInventory, local_slot_count: u16) -> (result:
    Vec<Option<ItemStack>>)
    ensures
        slot_views(result@) == local_slots(inventory@, local_slot_count),
        inventory.data_wf() ==> slots_wf(result@),
{
    let mut result: Vec<Option<ItemStack>> = Vec::new();
    let mut index: u16 = 0;
    while index < local_slot_count
        invariant
            index <= local_slot_count,
            result@.len() == index,
            forall|j: int|
                0 <= j < index ==> stack_view(#[trigger] result@[j]) == inventory@.slot(
                    InventorySlot::WindowLocal(j as u16),
                ),
            inventory.data_wf() ==> slots_wf(result@),
        decreases local_slot_count - index,
    {
        let stack = match inventory.get_slot(InventorySlot::WindowLocal(index)) {
            Some(stack) => Some(stack.duplicate()),
            None => None,
        };
        result.push(stack);
        index += 1;
    }
    assert(slot_views(result@) =~= local_slots(inventory@, local_slot_count));
    result
}

/// An inventory with stacks in the first slots of the player's own window: only nine of them
/// belong to the inventory.
pub open spec fn with_local_slots(
    inventory: InventoryView,
    slots: Seq<Option<StackView>>,
) -> InventoryView {
    InventoryView {
        slots: Seq::new(
            inventory.slots.len(),
            |i: int|
                if i < 9 && i < slots.len() {
                    slots[i]
                } else {
                    inventory.slots[i]
                },
        ),
        ..inventory
    }
}

/// Whether an inventory has slots for so many stacks of the player's own window.
pub open spec fn has_room(inventory: InventoryView, count: nat) -> bool {
    count <= inventory.slots.len() || 9 <= inventory.slots.len()
}

/// Puts stacks into the first slots of the player's own window.
pub fn store_player_local_slots(
    inventory: &mut PlayerInventory,
    local_slots: &Vec<Option<ItemStack>>,
)
    requires
        old(inventory).data_wf(),
        slots_wf(local_slots@),
        has_room(old(inventory)@, local_slots@.len()),
    ensures
        final(inventory).data_wf(),
        final(inventory)@ == with_local_slots(old(inventory)@, slot_views(local_slots@)),
{
    let mut index: u16 = 0;
    let ghost before = inventory@;
    let ghost slots = slot_views(local_slots@);
    while (index as usize) < local_slots.len() && index < 9
        invariant
            index <= 9,
            index <= local_slots@.len(),
            inventory.data_wf(),
            has_room(before, local_slots@.len()),
            slots == slot_views(local_slots@),
            slots_wf(local_slots@),
            inventory@.offhand == before.offhand,
            inventory@.slots =~= Seq::new(
                before.slots.len(),
                |i: int|
                    if i < index {
                        slots[i]
                    } else {
                        before.slots[i]
                    },
            ),
        decreases 9 - index,
    {
        let stack = match &local_slots[index as usize] {
            Some(stack) => Some(stack.duplicate()),
            None => None,
        };
        assert(stack_view(stack) == slots[index as int]);
        let _ = inventory.set_slot(InventorySlot::WindowLocal(index), stack);
        index += 1;
    }
    assert(inventory@.slots =~= with_local_slots(before, slots).slots);
}

/// Whether a click on a slot that holds a stack can be worked out.
pub open spec fn clickable(
    cursor: Option<StackView>,
    slot: Option<StackView>,
    button: InventoryClickButton,
) -> bool {
    button is Left ==> can_merge(cursor, slot)
}

/// What a click on a slot of the inventory does: whether it did something, the inventory and the
/// cursor after it.
pub open spec fn inventory_click(
    inventory: InventoryView,
    cursor: Option<StackView>,
    slot: InventorySlot,
    button: InventoryClickButton,
) -> (bool, InventoryView, Option<StackView>) {
    if inventory.has_slot(slot) {
        let (applied, c, s) = slot_click(cursor, inventory.slot(slot), button);
        (
            applied,
            if applied {
                inventory.with_slot(slot, s)
            } else {
                inventory
            },
            c,
        )
    } else {
        (false, inventory, cursor)
    }
}

/// Clicks on a slot of the inventory.
pub fn apply_inventory_slot_click(
    inventory: &mut PlayerInventory,
    cursor: &mut Option<ItemStack>,
    slot: InventorySlot,
    button: InventoryClickButton,
) -> (result: bool)
    requires
        old(inventory).data_wf(),
        stack_wf(*old(cursor)),
        clickable(stack_view(*old(cursor)), old(inventory)@.slot(slot), button),
    ensures
        final(inventory).data_wf(),
        stack_wf(*final(cursor)),
        (result, final(inventory)@, stack_view(*final(cursor))) == inventory_click(
            old(inventory)@,
            stack_view(*old(cursor)),
            slot,
            button,
        ),
{
    let result = match inventory.get_slot_mut(slot) {
        Some(slot_stack) => apply_slot_click(cursor, slot_stack, button),
        None => false,
    };
    proof {
        let expected = inventory_click(
            old(inventory)@,
            stack_view(*old(cursor)),
            slot,
            button,
        );
        assert(inventory@.slots =~= expected.1.slots);
        assert(inventory@.offhand == expected.1.offhand);
    }
    result
}

/// What a click in the player's own window does: whether it did something, the inventory and the
/// cursor after it.
pub open spec fn player_window_click<B: ContentBehavior>(
    behavior: B,
    inventory: InventoryView,
    cursor: Option<StackView>,
    slot: Option<InventorySlot>,
    button: InventoryClickButton,
) -> (bool, InventoryView, Option<StackView>) {
    match (slot, behavior.layout(behavior.player_kind())) {
        (Some(slot), Some(spec)) => match slot {
            InventorySlot::WindowLocal(index) => if index >= spec.local_slot_count {
                (false, inventory, cursor)
            } else {
                match spec.role(index) {
                    ContainerSlotRole::Unavailable => (false, inventory, cursor),
                    ContainerSlotRole::OutputOnly => {
                        let (applied, slots, c) = behavior.output_taken(
                            behavior.player_kind(),
                            local_slots(inventory, spec.local_slot_count),
                            cursor,
                            button,
                        );
                        (
                            applied,
                            if applied {
                                behavior.normal_inventory(with_local_slots(inventory, slots))
                            } else {
                                inventory
                            },
                            c,
                        )
                    },
                    ContainerSlotRole::Generic => {
                        let (applied, after, c) = inventory_click(inventory, cursor, slot, button);
                        (
                            applied,
                            if applied {
                                behavior.normal_inventory(after)
                            } else {
                                after
                            },
                            c,
                        )
                    },
                }
            },
            _ => inventory_click(inventory, cursor, slot, button),
        },
        _ => (false, inventory, cursor),
    }
}

/// Whether a click in the player's own window can be worked out: stacks that are to be put together
/// fit, and there is room for what is left after an output was taken.
pub open spec fn player_window_clickable<B: ContentBehavior>(
    behavior: B,
    inventory: InventoryView,
    cursor: Option<StackView>,
    slot: Option<InventorySlot>,
    button: InventoryClickButton,
) -> bool {
    match (slot, behavior.layout(behavior.player_kind())) {
        (Some(slot), Some(spec)) => match slot {
            InventorySlot::WindowLocal(index) => index < spec.local_slot_count ==> match spec.role(
                index,
            ) {
                ContainerSlotRole::Unavailable => true,
                ContainerSlotRole::OutputOnly => {
                    let (applied, slots, c) = behavior.output_taken(
                        behavior.player_kind(),
                        local_slots(inventory, spec.local_slot_count),
                        cursor,
                        button,
                    );
                    applied ==> has_room(inventory, slots.len())
                },
                ContainerSlotRole::Generic => clickable(cursor, inventory.slot(slot), button),
            },
            _ => clickable(cursor, inventory.slot(slot), button),
        },
        _ => true,
    }
}

/// Clicks in the player's own window.
pub fn apply_player_window_click<B: ContentBehavior>(
    content_behavior: &B,
    inventory: &mut PlayerInventory,
    cursor: &mut Option<ItemStack>,
    slot: Option<InventorySlot>,
    button: InventoryClickButton,
) -> (result: bool)
    requires
        old(inventory).data_wf(),
        stack_wf(*old(cursor)),
        player_window_clickable(
            *content_behavior,
            old(inventory)@,
            stack_view(*old(cursor)),
            slot,
            button,
        ),
    ensures
        final(inventory).data_wf(),
        stack_wf(*final(cursor)),
        (result, final(inventory)@, stack_view(*final(cursor))) == player_window_click(
            *content_behavior,
            old(inventory)@,
            stack_view(*old(cursor)),
            slot,
            button,
        ),
{
    let slot = match slot {
        Some(slot) => slot,
        None => {
            return false;
        },
    };
    let player_container = content_behavior.player_container_kind();
    let spec = match content_behavior.container_spec(&player_container) {
        Some(spec) => spec,
        None => {
            return false;
        },
    };
    match slot {
        InventorySlot::WindowLocal(index) => {
            if index >= spec.local_slot_count {
                return false;
            }
            match spec.slot_role(index) {
                ContainerSlotRole::Unavailable => false,
                ContainerSlotRole::OutputOnly => {
                    let mut slots = collect_player_local_slots(inventory, spec.local_slot_count);
                    let applied = content_behavior.try_take_output(
                        &player_container,
                        &mut slots,
                        cursor,
                        button,
                    );
                    if applied {
                        store_player_local_slots(inventory, &slots);
                        content_behavior.normalize_player_inventory(inventory);
                    }
                    applied
                },
                ContainerSlotRole::Generic => {
                    let applied = apply_inventory_slot_click(inventory, cursor, slot, button);
                    if applied {
                        content_behavior.normalize_player_inventory(inventory);
                    }
                    applied
                },
            }
        },
        _ => apply_inventory_slot_click(inventory, cursor, slot, button),
    }
}

/// A container with a stack in a slot.
pub open spec fn with_container_slot(
    container: ContainerView,
    index: u16,
    stack: Option<StackView>,
) -> ContainerView {
    ContainerView { local_slots: container.local_slots.update(index as int, stack), ..container }
}

/// What a click on a slot of an open container does: whether it did something, the container and
/// the cursor after it.
pub open spec fn container_slot_click<B: ContentBehavior>(
    behavior: B,
    container: ContainerView,
    cursor: Option<StackView>,
    index: u16,
    button: InventoryClickButton,
) -> (bool, ContainerView, Option<StackView>) {
    match behavior.layout(container.kind) {
        None => (false, container, cursor),
        Some(spec) => if index >= spec.local_slot_count {
            (false, container, cursor)
        } else {
            match spec.role(index) {
                ContainerSlotRole::Unavailable => (false, container, cursor),
                ContainerSlotRole::OutputOnly => {
                    let (applied, slots, c) = behavior.output_taken(
                        container.kind,
                        container.local_slots,
                        cursor,
                        button,
                    );
                    let after = ContainerView { local_slots: slots, ..container };
                    (
                        applied,
                        if applied {
                            behavior.normal_container(after)
                        } else {
                            after
                        },
                        c,
                    )
                },
                ContainerSlotRole::Generic => if index >= container.local_slots.len() {
                    (false, container, cursor)
                } else {
                    let (applied, c, s) = slot_click(
                        cursor,
                        container.local_slots[index as int],
                        button,
                    );
                    (
                        applied,
                        if applied {
                            behavior.normal_container(with_container_slot(container, index, s))
                        } else {
                            container
                        },
                        c,
                    )
                },
            }
        },
    }
}

/// What a click in the window on an open container does: whether it did something, the session
/// and the inventory after it.
pub open spec fn container_window_click<B: ContentBehavior>(
    behavior: B,
    session: SessionView,
    inventory: InventoryView,
    window_id: u8,
    target: InventoryClickTarget,
    button: InventoryClickButton,
) -> (bool, SessionView, InventoryView) {
    match target {
        InventoryClickTarget::Outside => (
            true,
            SessionView { cursor: outside_click(session.cursor, button), ..session },
            inventory,
        ),
        InventoryClickTarget::Unsupported => (false, session, inventory),
        InventoryClickTarget::Slot(slot) => match session.window(window_id) {
            None => (false, session, inventory),
            Some(window) => match slot {
                InventorySlot::WindowLocal(index) => {
                    let (applied, container, cursor) = container_slot_click(
                        behavior,
                        window.container,
                        session.cursor,
                        index,
                        button,
                    );
                    (
                        applied,
                        SessionView {
                            cursor,
                            active_container: Some(WindowView { container, ..window }),
                            ..session
                        },
                        inventory,
                    )
                },
                _ => if behavior.layout(window.container.kind) is None {
                    (false, session, inventory)
                } else {
                    let (applied, after, cursor) = inventory_click(
                        inventory,
                        session.cursor,
                        slot,
                        button,
                    );
                    (applied, SessionView { cursor, ..session }, after)
                },
            },
        },
    }
}

/// Whether a click on a slot of an open container can be worked out.
pub open spec fn container_slot_clickable<B: ContentBehavior>(
    behavior: B,
    container: ContainerView,
    cursor: Option<StackView>,
    index: u16,
    button: InventoryClickButton,
) -> bool {
    behavior.layout(container.kind) matches Some(spec) ==> (index < spec.local_slot_count
        && spec.role(index) is Generic && index < container.local_slots.len() ==> clickable(
        cursor,
        container.local_slots[index as int],
        button,
    ))
}

/// Whether a click in the window on an open container can be worked out: stacks that are to be put
/// together fit.
pub open spec fn container_window_clickable<B: ContentBehavior>(
    behavior: B,
    session: SessionView,
    inventory: InventoryView,
    window_id: u8,
    target: InventoryClickTarget,
    button: InventoryClickButton,
) -> bool {
    match (target, session.window(window_id)) {
        (InventoryClickTarget::Slot(slot), Some(window)) => match slot {
            InventorySlot::WindowLocal(index) => container_slot_clickable(
                behavior,
                window.container,
                session.cursor,
                index,
                button,
            ),
            _ => behavior.layout(window.container.kind) is Some ==> clickable(
                session.cursor,
                inventory.slot(slot),
                button,
            ),
        },
        _ => true,
    }
}

/// Clicks in the window on an open container.
pub fn apply_active_container_click<B: ContentBehavior>(
    content_behavior: &B,
    session: &mut PlayerSessionState,
    player_inventory: &mut PlayerInventory,
    window_id: u8,
    target: &InventoryClickTarget,
    button: InventoryClickButton,
) -> (result: bool)
    requires
        old(player_inventory).data_wf(),
        stack_wf(old(session).cursor),
        old(session).active_container matches Some(window) ==> window.container.wf(),
        container_window_clickable(
            *content_behavior,
            old(session)@,
            old(player_inventory)@,
            window_id,
            *target,
            button,
        ),
    ensures
        final(player_inventory).data_wf(),
        stack_wf(final(session).cursor),
        final(session).active_container matches Some(window) ==> window.container.wf(),
        final(session).view == old(session).view,
        (result, final(session)@, final(player_inventory)@) == container_window_click(
            *content_behavior,
            old(session)@,
            old(player_inventory)@,
            window_id,
            *target,
            button,
        ),
{
    let slot = match target {
        InventoryClickTarget::Outside => {
            return apply_outside_click(&mut session.cursor, button);
        },
        InventoryClickTarget::Unsupported => {
            return false;
        },
        InventoryClickTarget::Slot(slot) => *slot,
    };
    match session.active_container.take() {
        None => false,
        Some(mut window) => {
            let ghost before = window@.container;
            if window.window_id != window_id {
                session.active_container = Some(window);
                return false;
            }
            let applied = match content_behavior.container_spec(&window.container.kind) {
                None => false,
                Some(spec) => match slot {
                    InventorySlot::WindowLocal(index) => {
                        if index >= spec.local_slot_count {
                            false
                        } else {
                            match spec.slot_role(index) {
                                ContainerSlotRole::Unavailable => false,
                                ContainerSlotRole::OutputOnly => {
                                    let kind = window.container.kind.duplicate();
                                    let applied = content_behavior.try_take_output(
                                        &kind,
                                        &mut window.container.local_slots,
                                        &mut session.cursor,
                                        button,
                                    );
                                    if applied {
                                        content_behavior.normalize_container(
                                            &mut window.container,
                                        );
                                    }
                                    applied
                                },
                                ContainerSlotRole::Generic => {
                                    let applied = match window.container.local_slot_mut(index) {
                                        Some(slot_stack) => apply_slot_click(
                                            &mut session.cursor,
                                            slot_stack,
                                            button,
                                        ),
                                        None => false,
                                    };
                                    proof {
                                        if index < before.local_slots.len() {
                                            let (_, c, s) = slot_click(
                                                old(session)@.cursor,
                                                before.local_slots[index as int],
                                                button,
                                            );
                                            assert(window.container@.local_slots
                                                =~= with_container_slot(
                                                before,
                                                index,
                                                s,
                                            ).local_slots);
                                            if !applied {
                                                assert(window.container@.local_slots
                                                    =~= before.local_slots);
                                            }
                                        }
                                    }
                                    if applied {
                                        content_behavior.normalize_container(
                                            &mut window.container,
                                        );
                                    }
                                    applied
                                },
                            }
                        }
                    },
                    _ => apply_inventory_slot_click(
                        player_inventory,
                        &mut session.cursor,
                        slot,
                        button,
                    ),
                },
            };
            session.active_container = Some(window);
            applied
        },
    }
}

} // verus!
