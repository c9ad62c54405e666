//! What clicks do to stacks, to inventories and to containers, and what is told of them.

use crate::game::click::{local_slots, with_local_slots};
use crate::game::content::{ContainerView, ContentBehavior};
use crate::game::session::{SessionView, WindowView};
use crate::game::stacks::{
    left_click, outside_click, refused_click_changes_nothing, right_click, slot_click,
};
use crate::game::state::CoreView;
use crate::game::window_click::{inventory_of, player_click, window_click};
use crate::model::ids::PlayerId;
use crate::model::inventory::{
    InventoryClickButton, InventoryClickTarget, InventoryClickValidation, InventorySlot,
    InventoryTransactionContext, InventoryView,
};
use crate::model::item::{stack_view, StackView};
use crate::ordered::{insert_laws, sorted, Key};
use vstd::prelude::*;

verus! {

/// Whether a stack is another with so many items.
pub open spec fn is_so_many(stack: Option<StackView>, kind: StackView, count: int) -> bool {
    stack matches Some(stack) && stack.count == count && stack.key == kind.key && stack.damage
        == kind.damage && stack.components == kind.components && stack.extra == kind.extra
}

/// Whether two stacks are of one kind, whatever their size.
pub open spec fn alike(a: StackView, b: StackView) -> bool {
    a.key == b.key && a.damage == b.damage && a.components == b.components && a.extra == b.extra
}

/// Whether a stack is another with one item less, or none where that had one at most.
pub open spec fn is_one_less(stack: Option<StackView>, before: StackView) -> bool {
    if before.count > 1 {
        is_so_many(stack, before, before.count - 1)
    } else {
        stack is None
    }
}

/// A right click puts one item of the cursor onto a stack of its kind that is not full.
pub proof fn right_click_adds_one(cursor: StackView, slot: StackView)
    requires
        alike(cursor, slot),
        cursor.count >= 1,
        slot.count < 64,
    ensures
        ({
            let (applied, c, s) = right_click(Some(cursor), Some(slot));
            &&& applied
            &&& is_so_many(s, slot, slot.count + 1)
            &&& is_one_less(c, cursor)
        }),
{
}

/// A right click puts one item of the cursor into an empty slot.
pub proof fn right_click_puts_one_down(cursor: StackView)
    ensures
        ({
            let (applied, c, s) = right_click(Some(cursor), None);
            &&& applied
            &&& is_so_many(s, cursor, 1)
            &&& is_one_less(c, cursor)
        }),
{
}

/// A right click with nothing on the cursor takes half of a stack, the larger one where the halves
/// differ, and leaves the rest.
pub proof fn right_click_takes_half(slot: StackView)
    requires
        1 <= slot.count < 255,
    ensures
        ({
            let (applied, c, s) = right_click(None, Some(slot));
            &&& applied
            &&& c matches Some(taken)
            &&& is_so_many(c, slot, taken.count as int)
            &&& 2 * taken.count == slot.count || 2 * taken.count == slot.count + 1
            &&& slot.count == taken.count ==> s is None
            &&& slot.count > taken.count ==> is_so_many(s, slot, slot.count - taken.count)
        }),
{
}

/// A right click is refused, and changes nothing, exactly where both stacks are there and are of
/// different kinds or the one in the slot is full. With nothing anywhere, nothing happens.
pub proof fn right_click_is_refused(cursor: Option<StackView>, slot: Option<StackView>)
    ensures
        right_click(cursor, slot).0 <==> !(cursor is Some && slot is Some && (!alike(
            cursor->Some_0,
            slot->Some_0,
        ) || slot->Some_0.count >= 64)),
        !right_click(cursor, slot).0 ==> right_click(cursor, slot).1 == cursor && right_click(
            cursor,
            slot,
        ).2 == slot,
        cursor is None && slot is None ==> right_click(cursor, slot) == (
            true,
            None::<StackView>,
            None::<StackView>,
        ),
{
}

/// A left click puts as much of the cursor as goes onto a stack of its kind: all of it, or so much
/// that the stack is full.
pub proof fn left_click_fills_up(cursor: StackView, slot: StackView)
    requires
        alike(cursor, slot),
        cursor.count + slot.count <= 319,
    ensures
        ({
            let (c, s) = left_click(Some(cursor), Some(slot));
            let all = cursor.count + slot.count;
            &&& all <= 64 ==> c is None && is_so_many(s, slot, all)
            &&& all > 64 ==> is_so_many(c, cursor, all - 64) && is_so_many(s, slot, 64)
        }),
{
}

/// A left click exchanges what hangs on the cursor and what lies in the slot, where they are not
/// two stacks of one kind.
pub proof fn left_click_exchanges(cursor: Option<StackView>, slot: Option<StackView>)
    requires
        !(cursor is Some && slot is Some && alike(cursor->Some_0, slot->Some_0)),
    ensures
        left_click(cursor, slot) == (slot, cursor),
{
}

/// A click outside of the window drops all of the cursor, or one item with the right button.
pub proof fn outside_click_drops(cursor: StackView)
    ensures
        outside_click(Some(cursor), InventoryClickButton::Left) is None,
        is_one_less(outside_click(Some(cursor), InventoryClickButton::Right), cursor),
        outside_click(None, InventoryClickButton::Left) is None,
        outside_click(None, InventoryClickButton::Right) is None,
{
}

/// A click of either button on a slot is what the button does.
pub proof fn buttons_do_what_they_do(cursor: Option<StackView>, slot: Option<StackView>)
    ensures
        slot_click(cursor, slot, InventoryClickButton::Right) == right_click(cursor, slot),
        slot_click(cursor, slot, InventoryClickButton::Left) == (
            true,
            left_click(cursor, slot).0,
            left_click(cursor, slot).1,
        ),
{
}

/// Whether a slot is one of the player's inventory proper, in whatever window it is shown.
pub open spec fn of_inventory(slot: InventorySlot) -> bool {
    slot is MainInventory || slot is Hotbar || slot is Offhand
}

/// A click on a slot of the inventory does, in every open window alike, to the cursor and to that
/// slot what the button does; no other slot changes, and neither does the open container.
pub proof fn click_on_an_inventory_slot<B: ContentBehavior>(
    behavior: B,
    session: SessionView,
    inventory: InventoryView,
    window_id: u8,
    slot: InventorySlot,
    button: InventoryClickButton,
    other: InventorySlot,
)
    requires
        of_inventory(slot),
        inventory.slots.len() == 45,
        slot is Offhand || (slot matches InventorySlot::MainInventory(i) && i < 27) || (
        slot matches InventorySlot::Hotbar(i) && i < 9),
        window_id == 0 ==> behavior.layout(behavior.player_kind()) is Some,
        window_id != 0 ==> (session.window(window_id) matches Some(window) && behavior.layout(
            window.container.kind,
        ) is Some),
    ensures
        ({
            let (applied, s, i) = window_click(
                behavior,
                session,
                inventory,
                window_id,
                InventoryClickTarget::Slot(slot),
                button,
            );
            let (done, c, lies) = slot_click(session.cursor, inventory.slot(slot), button);
            &&& applied == done
            &&& s.cursor == c
            &&& i.slot(slot) == lies
            &&& other != slot ==> i.slot(other) == inventory.slot(other)
            &&& i.slots.len() == inventory.slots.len()
            &&& s.active_container == session.active_container
            &&& s.view == session.view
            &&& s.entity_id == session.entity_id
        }),
{
    if !slot_click(session.cursor, inventory.slot(slot), button).0 {
        refused_click_changes_nothing(session.cursor, inventory.slot(slot), button);
    }
}

/// A click on a slot of an open container that takes and gives stacks does to the cursor and to
/// that slot what the button does; the rules work out what follows for the container. The inventory
/// does not change.
pub proof fn click_on_a_container_slot<B: ContentBehavior>(
    behavior: B,
    session: SessionView,
    inventory: InventoryView,
    window: WindowView,
    index: u16,
    button: InventoryClickButton,
)
    requires
        window.window_id != 0,
        session.active_container == Some(window),
        behavior.layout(window.container.kind) matches Some(spec) && index
            < spec.local_slot_count && (index < spec.roles.len() ==> spec.roles[index as int]
            is Generic),
        index < window.container.local_slots.len(),
    ensures
        ({
            let (applied, s, i) = window_click(
                behavior,
                session,
                inventory,
                window.window_id,
                InventoryClickTarget::Slot(InventorySlot::WindowLocal(index)),
                button,
            );
            let lay = window.container.local_slots[index as int];
            let (done, c, lies) = slot_click(session.cursor, lay, button);
            &&& applied == done
            &&& s.cursor == c
            &&& i == inventory
            &&& s.active_container matches Some(after)
            &&& after.window_id == window.window_id
            &&& !applied ==> after == window
            &&& applied ==> after.container == behavior.normal_container(
                ContainerView {
                    local_slots: window.container.local_slots.update(index as int, lies),
                    ..window.container
                },
            )
        }),
{
}

/// A click on a slot of the player's own window that takes and gives stacks does to the cursor and
/// to that slot what the button does; the rules work out what follows for the inventory.
pub proof fn click_on_a_crafting_slot<B: ContentBehavior>(
    behavior: B,
    session: SessionView,
    inventory: InventoryView,
    index: u16,
    button: InventoryClickButton,
)
    requires
        behavior.layout(behavior.player_kind()) matches Some(spec) && index
            < spec.local_slot_count && (index < spec.roles.len() ==> spec.roles[index as int]
            is Generic),
        index < 9,
        inventory.slots.len() == 45,
    ensures
        ({
            let (applied, s, i) = window_click(
                behavior,
                session,
                inventory,
                0,
                InventoryClickTarget::Slot(InventorySlot::WindowLocal(index)),
                button,
            );
            let (done, c, lies) = slot_click(
                session.cursor,
                inventory.slots[index as int],
                button,
            );
            &&& applied == done
            &&& s == (SessionView { cursor: c, ..session })
            &&& !applied ==> i == inventory
            &&& applied ==> i == behavior.normal_inventory(
                InventoryView { slots: inventory.slots.update(index as int, lies), ..inventory },
            )
        }),
{
}

/// A click on a slot that only gives what the rules make takes it, as far as the rules allow: the
/// slots and the cursor are what the rules say, and what follows from them is worked out.
pub proof fn click_on_an_output_slot<B: ContentBehavior>(
    behavior: B,
    session: SessionView,
    inventory: InventoryView,
    window: WindowView,
    index: u16,
    button: InventoryClickButton,
)
    requires
        window.window_id != 0,
        session.active_container == Some(window),
        behavior.layout(window.container.kind) matches Some(spec) && index
            < spec.local_slot_count && index < spec.roles.len() && spec.roles[index as int]
            is OutputOnly,
    ensures
        ({
            let (applied, s, i) = window_click(
                behavior,
                session,
                inventory,
                window.window_id,
                InventoryClickTarget::Slot(InventorySlot::WindowLocal(index)),
                button,
            );
            let (taken, slots, c) = behavior.output_taken(
                window.container.kind,
                window.container.local_slots,
                session.cursor,
                button,
            );
            let with_slots = ContainerView { local_slots: slots, ..window.container };
            &&& applied == taken
            &&& s.cursor == c
            &&& i == inventory
            &&& s.active_container matches Some(after)
            &&& after.container == if taken {
                behavior.normal_container(with_slots)
            } else {
                with_slots
            }
        }),
{
}

/// Taking what the rules make in the player's own window: the first nine slots of the inventory
/// become what the rules leave, and what follows from them is worked out; where the rules give
/// nothing, the inventory stays as it is.
pub proof fn click_on_the_crafting_output<B: ContentBehavior>(
    behavior: B,
    session: SessionView,
    inventory: InventoryView,
    index: u16,
    button: InventoryClickButton,
)
    requires
        behavior.layout(behavior.player_kind()) matches Some(spec) && index
            < spec.local_slot_count && index < spec.roles.len() && spec.roles[index as int]
            is OutputOnly && spec.local_slot_count == 9,
        inventory.slots.len() == 45,
    ensures
        ({
            let (applied, s, i) = window_click(
                behavior,
                session,
                inventory,
                0,
                InventoryClickTarget::Slot(InventorySlot::WindowLocal(index)),
                button,
            );
            let (taken, slots, c) = behavior.output_taken(
                behavior.player_kind(),
                inventory.slots.take(9),
                session.cursor,
                button,
            );
            &&& applied == taken
            &&& s == (SessionView { cursor: c, ..session })
            &&& !taken ==> i == inventory
            &&& taken && slots.len() == 9 ==> i == behavior.normal_inventory(
                InventoryView { slots: slots + inventory.slots.skip(9), ..inventory },
            )
        }),
{
    assert(local_slots(inventory, 9) =~= inventory.slots.take(9));
    let (taken, slots, c) = behavior.output_taken(
        behavior.player_kind(),
        inventory.slots.take(9),
        session.cursor,
        button,
    );
    if slots.len() == 9 {
        assert(with_local_slots(inventory, slots).slots =~= slots + inventory.slots.skip(9));
    }
}

/// A click that is on no slot that can be clicked changes nothing and is not carried out: on no
/// slot at all, on one that the layout does not have, or on one that it does not make available. A
/// click outside of the window changes nothing but the cursor.
pub proof fn click_on_nothing<B: ContentBehavior>(
    behavior: B,
    session: SessionView,
    inventory: InventoryView,
    window_id: u8,
    target: InventoryClickTarget,
    button: InventoryClickButton,
)
    requires
        window_id != 0 ==> session.window(window_id) is Some,
    ensures
        ({
            let kind = if window_id == 0 {
                behavior.player_kind()
            } else {
                session.active_container->Some_0.container.kind
            };
            let after = window_click(behavior, session, inventory, window_id, target, button);
            &&& target is Unsupported ==> after == (false, session, inventory)
            &&& target is Outside ==> after == (
                true,
                SessionView { cursor: outside_click(session.cursor, button), ..session },
                inventory,
            )
            &&& target is Slot && behavior.layout(kind) is None ==> after == (
                false,
                session,
                inventory,
            )
            &&& target matches InventoryClickTarget::Slot(InventorySlot::WindowLocal(index)) ==> (
            behavior.layout(kind) matches Some(spec) ==> (index >= spec.local_slot_count || (index
                < spec.roles.len() && spec.roles[index as int] is Unavailable) ==> after == (
                false,
                session,
                inventory,
            )))
        }),
{
}

/// What is told of a click in an open window: the session and the inventory afterwards are those of
/// the click, and of nobody else anything changes; the cursors before and after are told; and the
/// client was right where the click was carried out and, if the client said what lies in the slot
/// then, that is what lies there.
pub proof fn click_is_told<B: ContentBehavior>(
    core: CoreView,
    behavior: B,
    player_id: PlayerId,
    transaction: InventoryTransactionContext,
    target: InventoryClickTarget,
    button: InventoryClickButton,
    validation: InventoryClickValidation,
    other: PlayerId,
)
    requires
        sorted(core.sessions.player_sessions),
        sorted(core.entities.player_inventory),
        core.player(player_id) is Some,
        inventory_of(core, player_id) is Some,
        core.session(player_id) matches Some(session) && (transaction.window_id == 0
            || session.window(transaction.window_id) is Some),
    ensures
        ({
            let session = core.session(player_id)->Some_0;
            let inventory = inventory_of(core, player_id)->Some_0;
            let (applied, s, i) = window_click(
                behavior,
                session,
                inventory,
                transaction.window_id,
                target,
                button,
            );
            let (delta, after) = player_click(
                core,
                behavior,
                player_id,
                transaction,
                target,
                button,
                validation,
            );
            &&& after.session(player_id) == Some(s)
            &&& inventory_of(after, player_id) == Some(i)
            &&& other.id() != player_id.id() ==> after.session(other) == core.session(other)
            &&& other.id() != player_id.id() && core.entity(other) is Some && core.entity(
                other,
            )->Some_0.id() != core.entity(player_id)->Some_0.id() ==> inventory_of(after, other)
                == inventory_of(core, other)
            &&& after.world == core.world
            &&& delta matches Some(d)
            &&& d.player_id == player_id
            &&& d.transaction == transaction
            &&& d.window_id == transaction.window_id
            &&& d.before_cursor == session.cursor
            &&& d.after_cursor == s.cursor
            &&& d.before_contents.player_inventory == inventory
            &&& d.after_contents.player_inventory == i
            &&& d.should_resync_on_reject
            &&& target matches InventoryClickTarget::Slot(slot) ==> d.resolved_slot == Some(slot)
            &&& !(target is Slot) ==> d.resolved_slot is None
            &&& validation is Authoritative ==> d.accepted == applied
            &&& validation matches InventoryClickValidation::StrictSlotEcho { clicked_item } ==> (
            target matches InventoryClickTarget::Slot(slot) ==> d.accepted == (applied
                && stack_view(clicked_item) == d.after_contents.slot(slot)))
            &&& validation is StrictSlotEcho && !(target is Slot) ==> !d.accepted
            &&& !d.accepted ==> d.world_sync is None
            &&& core.player(player_id) matches Some(player) && d.selected_hotbar_before
                == player.selected_hotbar_slot && d.selected_hotbar_after
                == player.selected_hotbar_slot
        }),
{
    let session = core.session(player_id)->Some_0;
    let inventory = inventory_of(core, player_id)->Some_0;
    let (applied, s, i) = window_click(
        behavior,
        session,
        inventory,
        transaction.window_id,
        target,
        button,
    );
    let entity_id = core.entity(player_id)->Some_0;
    insert_laws(core.sessions.player_sessions, player_id.id(), s, other.id());
    insert_laws(core.entities.player_inventory, entity_id.id(), i, entity_id.id());
    if core.entity(other) is Some {
        insert_laws(
            core.entities.player_inventory,
            entity_id.id(),
            i,
            core.entity(other)->Some_0.id(),
        );
    }
}

/// The place of a container in the world is told exactly where the client was right, so that others
/// who look into it see it anew; the slots and properties that are told are those of the open
/// container before and after.
pub proof fn container_of_a_click_is_told<B: ContentBehavior>(
    core: CoreView,
    behavior: B,
    player_id: PlayerId,
    transaction: InventoryTransactionContext,
    target: InventoryClickTarget,
    button: InventoryClickButton,
    validation: InventoryClickValidation,
    window: WindowView,
)
    requires
        sorted(core.sessions.player_sessions),
        sorted(core.entities.player_inventory),
        core.player(player_id) is Some,
        inventory_of(core, player_id) is Some,
        transaction.window_id != 0,
        core.session(player_id) matches Some(session) && session.active_container == Some(window)
            && window.window_id == transaction.window_id,
        window.container.kind != behavior.player_kind(),
    ensures
        ({
            let (delta, after) = player_click(
                core,
                behavior,
                player_id,
                transaction,
                target,
                button,
                validation,
            );
            &&& delta matches Some(d)
            &&& d.container == window.container.kind
            &&& d.before_contents.local_slots == window.container.local_slots
            &&& d.before_properties == window.container.properties
            &&& d.world_sync == match window.container.block {
                Some((position, _)) => if d.accepted {
                    Some(position)
                } else {
                    None
                },
                None => None,
            }
            &&& after.session(player_id) matches Some(s)
            &&& s.active_container matches Some(next)
            &&& next.window_id == window.window_id
            &&& d.after_properties == next.container.properties
            &&& next.container.kind == window.container.kind ==> d.after_contents.local_slots
                == next.container.local_slots
        }),
{
    let session = core.session(player_id)->Some_0;
    let inventory = inventory_of(core, player_id)->Some_0;
    let (applied, s, i) = window_click(
        behavior,
        session,
        inventory,
        transaction.window_id,
        target,
        button,
    );
    insert_laws(core.sessions.player_sessions, player_id.id(), s, player_id.id());
}

} // verus!
