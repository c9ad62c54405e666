//! What clicks do to the stack that hangs on the cursor and the stack that lies in a slot.

use crate::model::inventory::InventoryClickButton;
use crate::model::item::{duplicate_stack, stack_view, stack_wf, ItemStack, StackView};
use crate::model::sameness::of_one_kind;
use vstd::prelude::*;

verus! {

/// How many items a stack takes.
pub const MAX_STACK_SIZE: u8 = 64;

/// A stack with another number of items.
pub open spec fn with_count(stack: StackView, count: int) -> StackView {
    StackView { count: count as u8, ..stack }
}

/// A stack with one item less, or none where that was the last.
pub open spec fn one_less(stack: Option<StackView>) -> Option<StackView> {
    match stack {
        Some(stack) => if stack.count <= 1 {
            None
        } else {
            Some(with_count(stack, stack.count - 1))
        },
        None => None,
    }
}

/// The smaller of two numbers.
pub open spec fn least(a: int, b: int) -> int {
    if a <= b {
        a
    } else {
        b
    }
}

/// Whether two stacks, where they are of one kind, can be put together: what does not go on the
/// second must be a number of items that the first can have.
pub open spec fn can_merge(cursor: Option<StackView>, slot: Option<StackView>) -> bool {
    match (cursor, slot) {
        (Some(c), Some(s)) => of_one_kind(c, s) ==> c.count + s.count <= 64 + 255,
        _ => true,
    }
}

/// What hangs on the cursor and what lies in the slot after a click of the left button: stacks of
/// one kind are put together in the slot as far as they go, others change places.
pub open spec fn left_click(cursor: Option<StackView>, slot: Option<StackView>) -> (
    Option<StackView>,
    Option<StackView>,
) {
    match (cursor, slot) {
        (Some(c), Some(s)) if of_one_kind(c, s) => {
            let total = c.count + s.count;
            let placed = least(total, 64);
            (
                if total == placed {
                    None
                } else {
                    Some(with_count(c, total - placed))
                },
                Some(with_count(s, placed)),
            )
        },
        _ => (slot, cursor),
    }
}

/// Whether a click of the right button does something, and what hangs on the cursor and lies in
/// the slot after it: an empty cursor takes half, rounded up; a full one leaves one item.
pub open spec fn right_click(cursor: Option<StackView>, slot: Option<StackView>) -> (
    bool,
    Option<StackView>,
    Option<StackView>,
) {
    match (cursor, slot) {
        (None, None) => (true, None, None),
        (None, Some(s)) => (
            true,
            Some(with_count(s, least(s.count + 1, 255) / 2)),
            if s.count / 2 == 0 {
                None
            } else {
                Some(with_count(s, s.count as int / 2))
            },
        ),
        (Some(c), None) => (true, one_less(cursor), Some(with_count(c, 1))),
        (Some(c), Some(s)) => if of_one_kind(c, s) && s.count < 64 {
            (true, one_less(cursor), Some(with_count(s, s.count + 1)))
        } else {
            (false, cursor, slot)
        },
    }
}

/// What hangs on the cursor after a click outside of the window: nothing, or one item less.
pub open spec fn outside_click(cursor: Option<StackView>, button: InventoryClickButton) -> Option<
    StackView,
> {
    match button {
        InventoryClickButton::Left => None,
        InventoryClickButton::Right => one_less(cursor),
    }
}

/// What a click on a slot does.
pub open spec fn slot_click(
    cursor: Option<StackView>,
    slot: Option<StackView>,
    button: InventoryClickButton,
) -> (bool, Option<StackView>, Option<StackView>) {
    match button {
        InventoryClickButton::Left => {
            let (c, s) = left_click(cursor, slot);
            (true, c, s)
        },
        InventoryClickButton::Right => right_click(cursor, slot),
    }
}

fn resized(stack: &ItemStack, count: u8) -> (result: ItemStack)
    ensures
        result@ == with_count(stack@, count as int),
        stack.wf() ==> result.wf(),
{
    let mut result = stack.duplicate();
    result.count = count;
    result
}

/// Takes one item off the cursor.
pub fn decrement_cursor(cursor: &mut Option<ItemStack>)
    ensures
        stack_view(*final(cursor)) == one_less(stack_view(*old(cursor))),
        stack_wf(*old(cursor)) ==> stack_wf(*final(cursor)),
{
    let next = match cursor {
        Some(stack) => if stack.count <= 1 {
            None
        } else {
            Some(resized(stack, stack.count - 1))
        },
        None => None,
    };
    *cursor = next;
}

/// Clicks outside of the window.
pub fn apply_outside_click(cursor: &mut Option<ItemStack>, button: InventoryClickButton) -> (result:
    bool)
    ensures
        result,
        stack_view(*final(cursor)) == outside_click(stack_view(*old(cursor)), button),
        stack_wf(*old(cursor)) ==> stack_wf(*final(cursor)),
{
    match button {
        InventoryClickButton::Left => {
            *cursor = None;
            true
        },
        InventoryClickButton::Right => {
            decrement_cursor(cursor);
            true
        },
    }
}

/// Clicks the left button on a slot.
pub fn apply_left_click_slot_value(
    cursor: &mut Option<ItemStack>,
    slot_stack: &mut Option<ItemStack>,
) -> (result: bool)
    requires
        can_merge(stack_view(*old(cursor)), stack_view(*old(slot_stack))),
    ensures
        result,
        (stack_view(*final(cursor)), stack_view(*final(slot_stack))) == left_click(
            stack_view(*old(cursor)),
            stack_view(*old(slot_stack)),
        ),
        stack_wf(*old(cursor)) && stack_wf(*old(slot_stack)) ==> stack_wf(*final(cursor))
            && stack_wf(*final(slot_stack)),
{
    let merged = match (&*cursor, &*slot_stack) {
        (Some(cursor_stack), Some(existing_stack)) => if cursor_stack.same_kind(existing_stack) {
            let total: u16 = cursor_stack.count as u16 + existing_stack.count as u16;
            let placed: u16 = if total < MAX_STACK_SIZE as u16 {
                total
            } else {
                MAX_STACK_SIZE as u16
            };
            let remainder: u16 = total - placed;
            let left = if remainder == 0 {
                None
            } else {
                Some(resized(cursor_stack, remainder as u8))
            };
            Some((left, resized(existing_stack, placed as u8)))
        } else {
            None
        },
        _ => None,
    };
    match merged {
        Some((left, placed)) => {
            *cursor = left;
            *slot_stack = Some(placed);
        },
        None => {
            let held = cursor.take();
            *cursor = slot_stack.take();
            *slot_stack = held;
        },
    }
    true
}

/// Clicks the right button on a slot.
pub fn apply_right_click_slot_value(
    cursor: &mut Option<ItemStack>,
    slot_stack: &mut Option<ItemStack>,
) -> (result: bool)
    ensures
        (result, stack_view(*final(cursor)), stack_view(*final(slot_stack))) == right_click(
            stack_view(*old(cursor)),
            stack_view(*old(slot_stack)),
        ),
        stack_wf(*old(cursor)) && stack_wf(*old(slot_stack)) ==> stack_wf(*final(cursor))
            && stack_wf(*final(slot_stack)),
{
    let next = match (&*cursor, &*slot_stack) {
        (None, None) => {
            return true;
        },
        (None, Some(existing_stack)) => {
            let cursor_count: u8 = existing_stack.count.saturating_add(1) / 2;
            let slot_count: u8 = existing_stack.count / 2;
            let taken = resized(existing_stack, cursor_count);
            let left = if slot_count == 0 {
                None
            } else {
                Some(resized(existing_stack, slot_count))
            };
            (Some(taken), left)
        },
        (Some(cursor_stack), None) => {
            let mut left = duplicate_stack(cursor);
            decrement_cursor(&mut left);
            (left, Some(resized(cursor_stack, 1)))
        },
        (Some(cursor_stack), Some(existing_stack)) => {
            if !cursor_stack.same_kind(existing_stack) || existing_stack.count >= MAX_STACK_SIZE {
                return false;
            }
            let mut left = duplicate_stack(cursor);
            decrement_cursor(&mut left);
            (left, Some(resized(existing_stack, existing_stack.count + 1)))
        },
    };
    let (held, placed) = next;
    *cursor = held;
    *slot_stack = placed;
    true
}

/// Clicks a button on a slot.
pub fn apply_slot_click(
    cursor: &mut Option<ItemStack>,
    slot_stack: &mut Option<ItemStack>,
    button: InventoryClickButton,
) -> (result: bool)
    requires
        button is Left ==> can_merge(stack_view(*old(cursor)), stack_view(*old(slot_stack))),
    ensures
        (result, stack_view(*final(cursor)), stack_view(*final(slot_stack))) == slot_click(
            stack_view(*old(cursor)),
            stack_view(*old(slot_stack)),
            button,
        ),
        stack_wf(*old(cursor)) && stack_wf(*old(slot_stack)) ==> stack_wf(*final(cursor))
            && stack_wf(*final(slot_stack)),
{
    match button {
        InventoryClickButton::Left => apply_left_click_slot_value(cursor, slot_stack),
        InventoryClickButton::Right => apply_right_click_slot_value(cursor, slot_stack),
    }
}

/// How many items of a kind a stack holds.
pub open spec fn amount(stack: Option<StackView>, kind: StackView) -> int {
    match stack {
        Some(stack) => if of_one_kind(stack, kind) {
            stack.count as int
        } else {
            0
        },
        None => 0,
    }
}

/// A click of the left button neither makes nor loses items of any kind.
pub proof fn left_click_keeps_items(
    cursor: Option<StackView>,
    slot: Option<StackView>,
    kind: StackView,
)
    requires
        can_merge(cursor, slot),
    ensures
        ({
            let (c, s) = left_click(cursor, slot);
            amount(c, kind) + amount(s, kind) == amount(cursor, kind) + amount(slot, kind)
        }),
{
}

/// A click of the right button neither makes nor loses items of any kind, where a stack on the
/// cursor holds at least one item and the stack in the slot is not full to the last number.
pub proof fn right_click_keeps_items(
    cursor: Option<StackView>,
    slot: Option<StackView>,
    kind: StackView,
)
    requires
        cursor matches Some(c) ==> c.count >= 1,
        slot matches Some(s) ==> s.count < 255,
    ensures
        ({
            let (_, c, s) = right_click(cursor, slot);
            amount(c, kind) + amount(s, kind) == amount(cursor, kind) + amount(slot, kind)
        }),
{
}

/// A refused click changes nothing.
pub proof fn refused_click_changes_nothing(
    cursor: Option<StackView>,
    slot: Option<StackView>,
    button: InventoryClickButton,
)
    requires
        !slot_click(cursor, slot, button).0,
    ensures
        slot_click(cursor, slot, button).1 == cursor,
        slot_click(cursor, slot, button).2 == slot,
{
}

} // verus!
