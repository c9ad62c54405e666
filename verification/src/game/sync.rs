//! What windows show, and what clients are told when it changes.

use crate::game::content::{property_views, ContentBehavior};
use crate::game::session::{PlayerSessionState, SessionView};
use crate::lists::{at_most_one, picked, picked_contains, picked_ends, picked_step};
use crate::model::event::{ContainerProperty, CoreEvent, PropertyView, TargetedEvent};
use crate::model::event_view::{event_views, tell, told, EventView, TargetedView};
use crate::model::ids::PlayerId;
use crate::model::inventory::{
    ContentsView, InventoryClickTarget, InventorySlot, InventoryView, InventoryWindowContents,
    PlayerInventory,
};
use crate::model::item::{stack_view, ItemStack, StackView};
use crate::model::names::{ContainerKindId, ContainerPropertyKey};
use crate::model::sameness::same_stack;
use vstd::prelude::*;

verus! {

/// The kind of container in the window with a number: the player's own where that is zero.
pub open spec fn container_in_window(
    player_kind: Seq<char>,
    session: SessionView,
    window_id: u8,
) -> Option<Seq<char>> {
    if window_id == 0 {
        Some(player_kind)
    } else {
        match session.window(window_id) {
            Some(window) => Some(window.container.kind),
            None => None,
        }
    }
}

/// The kind of container in the window with a number.
pub fn active_window_container<B: ContentBehavior>(
    content_behavior: &B,
    session: &PlayerSessionState,
    window_id: u8,
) -> (result: Option<ContainerKindId>)
    ensures
        match result {
            Some(kind) => container_in_window(content_behavior.player_kind(), session@, window_id)
                == Some(kind@),
            None => container_in_window(content_behavior.player_kind(), session@, window_id)
                is None,
        },
{
    if window_id == 0 {
        Some(content_behavior.player_container_kind())
    } else {
        match session.window(window_id) {
            Some(window) => Some(window.container.kind.duplicate()),
            None => None,
        }
    }
}

/// What a window on a kind of container shows: the player's inventory, and the slots of the
/// container where that is open.
pub open spec fn shown_contents(
    player_kind: Seq<char>,
    session: SessionView,
    inventory: InventoryView,
    container: Seq<char>,
) -> ContentsView {
    ContentsView {
        player_inventory: inventory,
        local_slots: if container == player_kind {
            Seq::empty()
        } else {
            match session.active_container {
                Some(window) => if window.container.kind == container {
                    window.container.local_slots
                } else {
                    Seq::empty()
                },
                None => Seq::empty(),
            }
        },
    }
}

/// What a window on a kind of container shows.
pub fn window_contents<B: ContentBehavior>(
    content_behavior: &B,
    session: &PlayerSessionState,
    inventory: &PlayerInventory,
    container: &ContainerKindId,
) -> (result: InventoryWindowContents)
    ensures
        result@ == shown_contents(
            content_behavior.player_kind(),
            session@,
            inventory@,
            container@,
        ),
{
    if container.same(&content_behavior.player_container_kind()) {
        return InventoryWindowContents::player(inventory.duplicate());
    }
    match &session.active_container {
        Some(window) => if window.container.kind.same(container) {
            window.contents(inventory)
        } else {
            InventoryWindowContents::player(inventory.duplicate())
        },
        None => InventoryWindowContents::player(inventory.duplicate()),
    }
}

/// The slot that a click is on, if it is on one.
pub open spec fn clicked_slot(target: InventoryClickTarget) -> Option<InventorySlot> {
    match target {
        InventoryClickTarget::Slot(slot) => Some(slot),
        _ => None,
    }
}

/// The slot that a click is on, if it is on one.
pub fn resolve_inventory_target(target: &InventoryClickTarget) -> (result: Option<InventorySlot>)
    ensures
        result == clicked_slot(*target),
{
    match target {
        InventoryClickTarget::Slot(slot) => Some(*slot),
        InventoryClickTarget::Outside | InventoryClickTarget::Unsupported => None,
    }
}

/// The slots of a window on a kind of container: its own, those of the inventory, those at hand,
/// and the other hand where it is the player's own window.
pub open spec fn seen_slots<B: ContentBehavior>(behavior: B, container: Seq<char>) -> Seq<
    InventorySlot,
> {
    Seq::new(
        match behavior.layout(container) {
            Some(spec) => spec.local_slot_count as nat,
            None => 0,
        },
        |i: int| InventorySlot::WindowLocal(i as u16),
    ) + Seq::new(27, |i: int| InventorySlot::MainInventory(i as u8)) + Seq::new(
        9,
        |i: int| InventorySlot::Hotbar(i as u8),
    ) + if container == behavior.player_kind() {
        seq![InventorySlot::Offhand]
    } else {
        Seq::empty()
    }
}

/// The slots of a window on a kind of container.
pub fn visible_slots<B: ContentBehavior>(
    content_behavior: &B,
    container: &ContainerKindId,
) -> (result: Vec<InventorySlot>)
    ensures
        result@ == seen_slots(*content_behavior, container@),
{
    let mut slots: Vec<InventorySlot> = Vec::new();
    let count: u16 = match content_behavior.container_spec(container) {
        Some(spec) => spec.local_slot_count,
        None => 0,
    };
    let ghost own = Seq::new(count as nat, |i: int| InventorySlot::WindowLocal(i as u16));
    let ghost main = Seq::new(27, |i: int| InventorySlot::MainInventory(i as u8));
    let ghost hand = Seq::new(9, |i: int| InventorySlot::Hotbar(i as u8));
    let mut i: u16 = 0;
    while i < count
        invariant
            i <= count,
            own == Seq::new(count as nat, |i: int| InventorySlot::WindowLocal(i as u16)),
            slots@ =~= own.subrange(0, i as int),
        decreases count - i,
    {
        slots.push(InventorySlot::WindowLocal(i));
        i += 1;
    }
    assert(slots@ =~= own);
    let mut j: u8 = 0;
    while j < 27
        invariant
            j <= 27,
            main == Seq::new(27, |i: int| InventorySlot::MainInventory(i as u8)),
            slots@ =~= own + main.subrange(0, j as int),
        decreases 27 - j,
    {
        slots.push(InventorySlot::MainInventory(j));
        j += 1;
    }
    assert(slots@ =~= own + main);
    let mut k: u8 = 0;
    while k < 9
        invariant
            k <= 9,
            hand == Seq::new(9, |i: int| InventorySlot::Hotbar(i as u8)),
            slots@ =~= own + main + hand.subrange(0, k as int),
        decreases 9 - k,
    {
        slots.push(InventorySlot::Hotbar(k));
        k += 1;
    }
    assert(slots@ =~= own + main + hand);
    if container.same(&content_behavior.player_container_kind()) {
        slots.push(InventorySlot::Offhand);
    }
    assert(slots@ =~= seen_slots(*content_behavior, container@));
    slots
}

/// What a client is told of a slot whose contents changed.
pub open spec fn slot_change(
    window_id: u8,
    container: Seq<char>,
    player_id: PlayerId,
    before: ContentsView,
    after: ContentsView,
) -> spec_fn(InventorySlot) -> Option<TargetedView> {
    |slot: InventorySlot|
        if before.slot(slot) == after.slot(slot) {
            None
        } else {
            Some(
                told(
                    player_id,
                    EventView::InventorySlotChanged {
                        window_id,
                        container,
                        slot,
                        stack: after.slot(slot),
                    },
                ),
            )
        }
}

fn copy_of(stack: Option<&ItemStack>) -> (result: Option<ItemStack>)
    ensures
        stack_view(result) == (match stack {
            Some(stack) => Some(stack@),
            None => None,
        }),
{
    match stack {
        Some(stack) => Some(stack.duplicate()),
        None => None,
    }
}

/// Tells a client of the slots whose contents changed.
pub fn inventory_diff_events<B: ContentBehavior>(
    content_behavior: &B,
    window_id: u8,
    container: &ContainerKindId,
    player_id: PlayerId,
    before: &InventoryWindowContents,
    after: &InventoryWindowContents,
) -> (result: Vec<TargetedEvent>)
    ensures
        event_views(result@) == picked(
            seen_slots(*content_behavior, container@),
            slot_change(window_id, container@, player_id, before@, after@),
        ),
{
    let slots = visible_slots(content_behavior, container);
    let mut events: Vec<TargetedEvent> = Vec::new();
    let ghost make = slot_change(window_id, container@, player_id, before@, after@);
    let mut i: usize = 0;
    proof {
        picked_ends(slots@, make);
        assert(event_views(events@) =~= Seq::empty());
    }
    while i < slots.len()
        invariant
            i <= slots@.len(),
            make == slot_change(window_id, container@, player_id, before@, after@),
            event_views(events@) == picked(slots@.subrange(0, i as int), make),
        decreases slots@.len() - i,
    {
        let slot = slots[i];
        let ghost done = event_views(events@);
        proof {
            picked_step(slots@, i as int, make);
        }
        if !same_stack(before.get_slot(slot), after.get_slot(slot)) {
            tell(
                &mut events,
                player_id,
                CoreEvent::InventorySlotChanged {
                    window_id,
                    container: container.duplicate(),
                    slot,
                    stack: copy_of(after.get_slot(slot)),
                },
            );
            assert(event_views(events@) =~= done + at_most_one(make(slot)));
        } else {
            assert(done + at_most_one(make(slot)) =~= done);
        }
        i += 1;
    }
    proof {
        picked_ends(slots@, make);
    }
    events
}

/// What a client is told of a property.
pub open spec fn property_told(player_id: PlayerId, window_id: u8, entry: (Seq<char>, i16)) ->
    TargetedView {
    told(
        player_id,
        EventView::ContainerPropertyChanged {
            window_id,
            property: PropertyView::Named(entry.0),
            value: entry.1,
        },
    )
}

/// Tells a client of properties.
pub fn property_events(
    window_id: u8,
    player_id: PlayerId,
    entries: &Vec<(ContainerPropertyKey, i16)>,
) -> (result: Vec<TargetedEvent>)
    ensures
        event_views(result@) == property_views(entries@).map_values(
            |entry: (Seq<char>, i16)| property_told(player_id, window_id, entry),
        ),
{
    let mut events: Vec<TargetedEvent> = Vec::new();
    let ghost all = property_views(entries@).map_values(
        |entry: (Seq<char>, i16)| property_told(player_id, window_id, entry),
    );
    let mut i: usize = 0;
    while i < entries.len()
        invariant
            i <= entries@.len(),
            all == property_views(entries@).map_values(
                |entry: (Seq<char>, i16)| property_told(player_id, window_id, entry),
            ),
            event_views(events@) =~= all.subrange(0, i as int),
        decreases entries@.len() - i,
    {
        let value: i16 = entries[i].1;
        tell(
            &mut events,
            player_id,
            CoreEvent::ContainerPropertyChanged {
                window_id,
                property: ContainerProperty::Named(entries[i].0.duplicate()),
                value,
            },
        );
        i += 1;
    }
    assert(event_views(events@) =~= all);
    events
}

/// The value of the first property with a name.
pub open spec fn property_value(entries: Seq<(Seq<char>, i16)>, name: Seq<char>) -> Option<i16>
    decreases entries.len(),
{
    if entries.len() == 0 {
        None
    } else if entries[0].0 == name {
        Some(entries[0].1)
    } else {
        property_value(entries.drop_first(), name)
    }
}

fn find_property(entries: &Vec<(ContainerPropertyKey, i16)>, name: &ContainerPropertyKey) -> (result:
    Option<i16>)
    ensures
        result == property_value(property_views(entries@), name@),
{
    let ghost all = property_views(entries@);
    let mut i: usize = 0;
    assert(all.subrange(0, all.len() as int) =~= all);
    while i < entries.len()
        invariant
            i <= entries@.len(),
            all == property_views(entries@),
            property_value(all, name@) == property_value(
                all.subrange(i as int, all.len() as int),
                name@,
            ),
        decreases entries@.len() - i,
    {
        let ghost rest = all.subrange(i as int, all.len() as int);
        assert(rest.drop_first() =~= all.subrange(i + 1, all.len() as int));
        assert(rest[0] == all[i as int]);
        if entries[i].0.same(name) {
            return Some(entries[i].1);
        }
        i += 1;
    }
    None
}

/// What a client is told of a property whose value changed.
pub open spec fn property_change(
    window_id: u8,
    player_id: PlayerId,
    before: Seq<(Seq<char>, i16)>,
) -> spec_fn((Seq<char>, i16)) -> Option<TargetedView> {
    |entry: (Seq<char>, i16)|
        if property_value(before, entry.0) == Some(entry.1) {
            None
        } else {
            Some(property_told(player_id, window_id, entry))
        }
}

/// Tells a client of the properties whose values changed.
pub fn property_diff_events(
    window_id: u8,
    player_id: PlayerId,
    before: &Vec<(ContainerPropertyKey, i16)>,
    after: &Vec<(ContainerPropertyKey, i16)>,
) -> (result: Vec<TargetedEvent>)
    ensures
        event_views(result@) == picked(
            property_views(after@),
            property_change(window_id, player_id, property_views(before@)),
        ),
{
    let mut events: Vec<TargetedEvent> = Vec::new();
    let ghost all = property_views(after@);
    let ghost make = property_change(window_id, player_id, property_views(before@));
    let mut i: usize = 0;
    proof {
        picked_ends(all, make);
        assert(event_views(events@) =~= Seq::empty());
    }
    while i < after.len()
        invariant
            i <= after@.len() == all.len(),
            all == property_views(after@),
            make == property_change(window_id, player_id, property_views(before@)),
            event_views(events@) == picked(all.subrange(0, i as int), make),
        decreases after@.len() - i,
    {
        let value: i16 = after[i].1;
        let ghost done = event_views(events@);
        let ghost entry = all[i as int];
        proof {
            picked_step(all, i as int, make);
        }
        let changed = match find_property(before, &after[i].0) {
            Some(old_value) => old_value != value,
            None => true,
        };
        if changed {
            tell(
                &mut events,
                player_id,
                CoreEvent::ContainerPropertyChanged {
                    window_id,
                    property: ContainerProperty::Named(after[i].0.duplicate()),
                    value,
                },
            );
            assert(event_views(events@) =~= done + at_most_one(make(entry)));
        } else {
            assert(done + at_most_one(make(entry)) =~= done);
        }
        i += 1;
    }
    proof {
        picked_ends(all, make);
    }
    events
}

/// What a client is told to see a window anew: its contents, the slot in question, what is at
/// hand where it is the player's own window, and the cursor.
pub open spec fn window_resync(
    player_kind: Seq<char>,
    player_id: PlayerId,
    window_id: u8,
    container: Seq<char>,
    contents: ContentsView,
    selected_hotbar_slot: u8,
    cursor: Option<StackView>,
    slot: Option<InventorySlot>,
) -> Seq<TargetedView> {
    seq![told(player_id, EventView::InventoryContents { window_id, container, contents })]
        + at_most_one(
        match slot {
            Some(slot) => Some(
                told(
                    player_id,
                    EventView::InventorySlotChanged {
                        window_id,
                        container,
                        slot,
                        stack: contents.slot(slot),
                    },
                ),
            ),
            None => None,
        },
    ) + at_most_one(
        if container == player_kind {
            Some(
                told(
                    player_id,
                    EventView::SelectedHotbarSlotChanged { slot: selected_hotbar_slot },
                ),
            )
        } else {
            None
        },
    ) + seq![told(player_id, EventView::CursorChanged { stack: cursor })]
}

/// Tells a client what it takes to see a window anew.
pub fn window_resync_events<B: ContentBehavior>(
    content_behavior: &B,
    player_id: PlayerId,
    window_id: u8,
    container: &ContainerKindId,
    contents: &InventoryWindowContents,
    selected_hotbar_slot: u8,
    cursor: Option<&ItemStack>,
    slot: Option<InventorySlot>,
) -> (result: Vec<TargetedEvent>)
    ensures
        event_views(result@) == window_resync(
            content_behavior.player_kind(),
            player_id,
            window_id,
            container@,
            contents@,
            selected_hotbar_slot,
            match cursor {
                Some(stack) => Some(stack@),
                None => None,
            },
            slot,
        ),
{
    let mut events: Vec<TargetedEvent> = Vec::new();
    tell(
        &mut events,
        player_id,
        CoreEvent::InventoryContents {
            window_id,
            container: container.duplicate(),
            contents: contents.duplicate(),
        },
    );
    if let Some(slot) = slot {
        tell(
            &mut events,
            player_id,
            CoreEvent::InventorySlotChanged {
                window_id,
                container: container.duplicate(),
                slot,
                stack: copy_of(contents.get_slot(slot)),
            },
        );
    }
    if container.same(&content_behavior.player_container_kind()) {
        tell(
            &mut events,
            player_id,
            CoreEvent::SelectedHotbarSlotChanged { slot: selected_hotbar_slot },
        );
    }
    tell(&mut events, player_id, CoreEvent::CursorChanged { stack: copy_of(cursor) });
    proof {
        let expected = window_resync(
            content_behavior.player_kind(),
            player_id,
            window_id,
            container@,
            contents@,
            selected_hotbar_slot,
            match cursor {
                Some(stack) => Some(stack@),
                None => None,
            },
            slot,
        );
        assert(event_views(events@) =~= expected);
    }
    events
}

/// A client is told of a slot if and only if its contents changed, and what it is told are the
/// contents after the change.
pub proof fn changed_slots_are_told<B: ContentBehavior>(
    behavior: B,
    window_id: u8,
    container: Seq<char>,
    player_id: PlayerId,
    before: ContentsView,
    after: ContentsView,
    slot: InventorySlot,
)
    requires
        seen_slots(behavior, container).contains(slot),
    ensures
        picked(
            seen_slots(behavior, container),
            slot_change(window_id, container, player_id, before, after),
        ).contains(
            told(
                player_id,
                EventView::InventorySlotChanged {
                    window_id,
                    container,
                    slot,
                    stack: after.slot(slot),
                },
            ),
        ) <==> before.slot(slot) != after.slot(slot),
{
    let slots = seen_slots(behavior, container);
    let make = slot_change(window_id, container, player_id, before, after);
    let event = told(
        player_id,
        EventView::InventorySlotChanged { window_id, container, slot, stack: after.slot(slot) },
    );
    picked_contains(slots, make, event);
    if before.slot(slot) != after.slot(slot) {
        let i = choose|i: int| 0 <= i < slots.len() && slots[i] == slot;
        assert(make(slots[i]) == Some(event));
    }
}

} // verus!
