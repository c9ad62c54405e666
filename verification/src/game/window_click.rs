//! Clicks of players in their windows.

use crate::game::click::{
    apply_active_container_click, apply_player_window_click, container_window_click,
    container_window_clickable, player_window_click, player_window_clickable,
};
use crate::game::content::{property_views, ContentBehavior};
use crate::game::session::{PlayerSessionState, SessionView};
use crate::game::stacks::{apply_outside_click, outside_click};
use crate::game::state::{CoreView, ServerCore};
use crate::game::store::{EntitiesView, SessionsView};
use crate::game::sync::{
    active_window_container, clicked_slot, container_in_window, resolve_inventory_target,
    shown_contents, window_contents,
};
use crate::model::block::BlockPos;
use crate::model::ids::PlayerId;
use crate::model::inventory::{
    ContentsView, InventoryClickButton, InventoryClickTarget, InventoryClickValidation,
    InventorySlot, InventoryTransactionContext, InventoryView, InventoryWindowContents,
    PlayerInventory,
};
use crate::model::item::{duplicate_stack, stack_view, ItemStack, StackView};
use crate::model::names::{ContainerKindId, ContainerPropertyKey};
use crate::model::sameness::same_stack;
use crate::ordered::{insert_same, inserted, lookup, Key, Stored};
use vstd::prelude::*;

verus! {

/// What a click did.
#[derive(Debug, PartialEq, Eq)]
pub struct InventoryClickDelta {
    pub player_id: PlayerId,
    pub transaction: InventoryTransactionContext,
    /// Whether the client was right about what the click does.
    pub accepted: bool,
    /// Whether the client is to see the window anew where it was not.
    pub should_resync_on_reject: bool,
    pub container: ContainerKindId,
    pub window_id: u8,
    pub resolved_slot: Option<InventorySlot>,
    pub before_contents: InventoryWindowContents,
    pub after_contents: InventoryWindowContents,
    pub before_properties: Vec<(ContainerPropertyKey, i16)>,
    pub after_properties: Vec<(ContainerPropertyKey, i16)>,
    pub before_cursor: Option<ItemStack>,
    pub after_cursor: Option<ItemStack>,
    pub selected_hotbar_before: u8,
    pub selected_hotbar_after: u8,
    /// The container of the world whose other viewers are to be told.
    pub world_sync: Option<BlockPos>,
}

/// What a click did.
pub struct ClickView {
    pub player_id: PlayerId,
    pub transaction: InventoryTransactionContext,
    pub accepted: bool,
    pub should_resync_on_reject: bool,
    pub container: Seq<char>,
    pub window_id: u8,
    pub resolved_slot: Option<InventorySlot>,
    pub before_contents: ContentsView,
    pub after_contents: ContentsView,
    pub before_properties: Seq<(Seq<char>, i16)>,
    pub after_properties: Seq<(Seq<char>, i16)>,
    pub before_cursor: Option<StackView>,
    pub after_cursor: Option<StackView>,
    pub selected_hotbar_before: u8,
    pub selected_hotbar_after: u8,
    pub world_sync: Option<BlockPos>,
}

impl View for InventoryClickDelta {
    type V = ClickView;

    open spec fn view(&self) -> ClickView {
        ClickView {
            player_id: self.player_id,
            transaction: self.transaction,
            accepted: self.accepted,
            should_resync_on_reject: self.should_resync_on_reject,
            container: self.container@,
            window_id: self.window_id,
            resolved_slot: self.resolved_slot,
            before_contents: self.before_contents@,
            after_contents: self.after_contents@,
            before_properties: property_views(self.before_properties@),
            after_properties: property_views(self.after_properties@),
            before_cursor: stack_view(self.before_cursor),
            after_cursor: stack_view(self.after_cursor),
            selected_hotbar_before: self.selected_hotbar_before,
            selected_hotbar_after: self.selected_hotbar_after,
            world_sync: self.world_sync,
        }
    }
}

/// What a click does in the window with a number: whether it did something, the session and the
/// inventory after it.
pub open spec fn window_click<B: ContentBehavior>(
    behavior: B,
    session: SessionView,
    inventory: InventoryView,
    window_id: u8,
    target: InventoryClickTarget,
    button: InventoryClickButton,
) -> (bool, SessionView, InventoryView) {
    if window_id != 0 {
        container_window_click(behavior, session, inventory, window_id, target, button)
    } else if target is Outside {
        (true, SessionView { cursor: outside_click(session.cursor, button), ..session }, inventory)
    } else {
        let (applied, after, cursor) = player_window_click(
            behavior,
            inventory,
            session.cursor,
            clicked_slot(target),
            button,
        );
        (applied, SessionView { cursor, ..session }, after)
    }
}

/// Whether a click in the window with a number can be worked out: stacks that are to be put
/// together fit, and there is room for what is left after an output was taken.
pub open spec fn window_clickable<B: ContentBehavior>(
    behavior: B,
    session: SessionView,
    inventory: InventoryView,
    window_id: u8,
    target: InventoryClickTarget,
    button: InventoryClickButton,
) -> bool {
    if window_id != 0 {
        container_window_clickable(behavior, session, inventory, window_id, target, button)
    } else {
        player_window_clickable(behavior, inventory, session.cursor, clicked_slot(target), button)
    }
}

/// Whether a click of a player can be worked out. One in a window that is not open always can.
pub open spec fn player_clickable<B: ContentBehavior>(
    core: CoreView,
    behavior: B,
    player_id: PlayerId,
    window_id: u8,
    target: InventoryClickTarget,
    button: InventoryClickButton,
) -> bool {
    match (core.session(player_id), core.player(player_id), inventory_of(core, player_id)) {
        (Some(session), Some(player), Some(inventory)) => container_in_window(
            behavior.player_kind(),
            session,
            window_id,
        ) is Some ==> window_clickable(behavior, session, inventory, window_id, target, button),
        _ => true,
    }
}

/// The properties of the window with a number.
pub open spec fn shown_properties(session: SessionView, window_id: u8) -> Seq<(Seq<char>, i16)> {
    match session.window(window_id) {
        Some(window) => window.container.properties,
        None => Seq::empty(),
    }
}

/// Where the container in the window with a number stands in the world.
pub open spec fn window_position(session: SessionView, window_id: u8) -> Option<BlockPos> {
    match session.window(window_id) {
        Some(window) => match window.container.block {
            Some((position, _)) => Some(position),
            None => None,
        },
        None => None,
    }
}

/// Whether the client was right about what a click does.
pub open spec fn click_accepted(
    validation: InventoryClickValidation,
    applied: bool,
    slot: Option<InventorySlot>,
    after: ContentsView,
) -> bool {
    match validation {
        InventoryClickValidation::Authoritative => applied,
        InventoryClickValidation::StrictSlotEcho { clicked_item } => applied && (
        slot matches Some(slot) && stack_view(clicked_item) == after.slot(slot)),
    }
}

/// The inventory of a player.
pub open spec fn inventory_of(core: CoreView, player_id: PlayerId) -> Option<InventoryView> {
    match core.entity(player_id) {
        Some(entity_id) => lookup(core.entities.player_inventory, entity_id.id()),
        None => None,
    }
}

/// What a click of a player did, and the game after it, where the player is in the game.
pub open spec fn player_click<B: ContentBehavior>(
    core: CoreView,
    behavior: B,
    player_id: PlayerId,
    transaction: InventoryTransactionContext,
    target: InventoryClickTarget,
    button: InventoryClickButton,
    validation: InventoryClickValidation,
) -> (Option<ClickView>, CoreView) {
    match (core.session(player_id), core.player(player_id), inventory_of(core, player_id)) {
        (Some(session), Some(player), Some(inventory)) => match container_in_window(
            behavior.player_kind(),
            session,
            transaction.window_id,
        ) {
            None => {
                let contents = ContentsView {
                    player_inventory: inventory,
                    local_slots: Seq::empty(),
                };
                (
                    Some(
                        ClickView {
                            player_id,
                            transaction,
                            accepted: false,
                            should_resync_on_reject: false,
                            container: behavior.player_kind(),
                            window_id: transaction.window_id,
                            resolved_slot: None,
                            before_contents: contents,
                            after_contents: contents,
                            before_properties: Seq::empty(),
                            after_properties: Seq::empty(),
                            before_cursor: session.cursor,
                            after_cursor: session.cursor,
                            selected_hotbar_before: player.selected_hotbar_slot,
                            selected_hotbar_after: player.selected_hotbar_slot,
                            world_sync: None,
                        },
                    ),
                    core,
                )
            },
            Some(container) => {
                let window_id = transaction.window_id;
                let (applied, next_session, next_inventory) = window_click(
                    behavior,
                    session,
                    inventory,
                    window_id,
                    target,
                    button,
                );
                let after = shown_contents(
                    behavior.player_kind(),
                    next_session,
                    next_inventory,
                    container,
                );
                let accepted = click_accepted(validation, applied, clicked_slot(target), after);
                (
                    Some(
                        ClickView {
                            player_id,
                            transaction,
                            accepted,
                            should_resync_on_reject: true,
                            container,
                            window_id,
                            resolved_slot: clicked_slot(target),
                            before_contents: shown_contents(
                                behavior.player_kind(),
                                session,
                                inventory,
                                container,
                            ),
                            after_contents: after,
                            before_properties: shown_properties(session, window_id),
                            after_properties: shown_properties(next_session, window_id),
                            before_cursor: session.cursor,
                            after_cursor: next_session.cursor,
                            selected_hotbar_before: player.selected_hotbar_slot,
                            selected_hotbar_after: player.selected_hotbar_slot,
                            world_sync: if accepted {
                                window_position(session, window_id)
                            } else {
                                None
                            },
                        },
                    ),
                    with_session_and_inventory(core, player_id, next_session, next_inventory),
                )
            },
        },
        _ => (None, core),
    }
}

/// A click that names a window that is not open is refused and changes nothing: what it tells is
/// the same before and after, and the client is not shown the window anew.
pub proof fn click_in_closed_window_changes_nothing<B: ContentBehavior>(
    core: CoreView,
    behavior: B,
    player_id: PlayerId,
    transaction: InventoryTransactionContext,
    target: InventoryClickTarget,
    button: InventoryClickButton,
    validation: InventoryClickValidation,
)
    requires
        core.player(player_id) is Some,
        inventory_of(core, player_id) is Some,
        core.session(player_id) matches Some(session) && session.window(transaction.window_id)
            is None,
        transaction.window_id != 0,
    ensures
        player_clickable(core, behavior, player_id, transaction.window_id, target, button),
        ({
            let (delta, after) = player_click(
                core,
                behavior,
                player_id,
                transaction,
                target,
                button,
                validation,
            );
            &&& after == core
            &&& delta matches Some(delta)
            &&& !delta.accepted
            &&& !delta.should_resync_on_reject
            &&& delta.resolved_slot is None
            &&& delta.window_id == transaction.window_id
            &&& delta.before_contents == delta.after_contents
            &&& delta.before_cursor == delta.after_cursor
        }),
{
}

/// A game with another session and another inventory of a player.
pub open spec fn with_session_and_inventory(
    core: CoreView,
    player_id: PlayerId,
    session: SessionView,
    inventory: InventoryView,
) -> CoreView {
    match core.entity(player_id) {
        Some(entity_id) => CoreView {
            sessions: SessionsView {
                player_sessions: inserted(core.sessions.player_sessions, player_id.id(), session),
                ..core.sessions
            },
            entities: EntitiesView {
                player_inventory: inserted(
                    core.entities.player_inventory,
                    entity_id.id(),
                    inventory,
                ),
                ..core.entities
            },
            ..core
        },
        None => core,
    }
}

fn properties_in_window(session: &PlayerSessionState, window_id: u8) -> (result: Vec<
    (ContainerPropertyKey, i16),
>)
    ensures
        property_views(result@) == shown_properties(session@, window_id),
{
    match session.window(window_id) {
        Some(window) => window.property_entries(),
        None => {
            let none: Vec<(ContainerPropertyKey, i16)> = Vec::new();
            assert(property_views(none@) =~= Seq::empty());
            none
        },
    }
}

fn apply_window_click<B: ContentBehavior>(
    content_behavior: &B,
    session: &mut PlayerSessionState,
    inventory: &mut PlayerInventory,
    window_id: u8,
    target: &InventoryClickTarget,
    button: InventoryClickButton,
) -> (result: bool)
    requires
        old(session).sound(),
        old(inventory).data_wf(),
        window_clickable(
            *content_behavior,
            old(session)@,
            old(inventory)@,
            window_id,
            *target,
            button,
        ),
    ensures
        final(session).sound(),
        final(inventory).data_wf(),
        (result, final(session)@, final(inventory)@) == window_click(
            *content_behavior,
            old(session)@,
            old(inventory)@,
            window_id,
            *target,
            button,
        ),
{
    if window_id != 0 {
        return apply_active_container_click(
            content_behavior,
            session,
            inventory,
            window_id,
            target,
            button,
        );
    }
    match target {
        InventoryClickTarget::Outside => apply_outside_click(&mut session.cursor, button),
        _ => apply_player_window_click(
            content_behavior,
            inventory,
            &mut session.cursor,
            resolve_inventory_target(target),
            button,
        ),
    }
}

impl ServerCore {
    /// Carries out a click of a player. The game changes even where the client was wrong about
    /// what the click does.
    pub fn apply_inventory_click_state<B: ContentBehavior>(
        &mut self,
        content_behavior: &B,
        player_id: PlayerId,
        transaction: InventoryTransactionContext,
        target: InventoryClickTarget,
        button: InventoryClickButton,
        validation: &InventoryClickValidation,
    ) -> (result: Option<InventoryClickDelta>)
        requires
            old(self).sound(),
            player_clickable(
                old(self)@,
                *content_behavior,
                player_id,
                transaction.window_id,
                target,
                button,
            ),
        ensures
            final(self).sound(),
            ({
                let (delta, after) = player_click(
                    old(self)@,
                    *content_behavior,
                    player_id,
                    transaction,
                    target,
                    button,
                    *validation,
                );
                &&& final(self)@ == after
                &&& match result {
                    Some(result) => delta == Some(result@),
                    None => delta is None,
                }
            }),
    {
        let ghost core = self@;
        let player = self.player_snapshot(player_id)?;
        let entity_id = self.player_entity_id(player_id)?;
        let selected_hotbar_slot: u8 = player.selected_hotbar_slot;
        let session = self.sessions.player_sessions.look_mut(&player_id)?;
        let ghost session_before = session@;
        let inventory = match self.entities.player_inventory.look_mut(&entity_id) {
            Some(inventory) => inventory,
            None => {
                return None;
            },
        };
        let ghost inventory_before = inventory@;
        let window_id: u8 = transaction.window_id;
        let before_cursor = duplicate_stack(&session.cursor);
        let container = match active_window_container(content_behavior, session, window_id) {
            Some(container) => container,
            None => {
                let after_cursor = duplicate_stack(&session.cursor);
                let none: Vec<(ContainerPropertyKey, i16)> = Vec::new();
                let none_after: Vec<(ContainerPropertyKey, i16)> = Vec::new();
                assert(property_views(none@) =~= Seq::empty());
                assert(property_views(none_after@) =~= Seq::empty());
                let before_contents = InventoryWindowContents::player(inventory.duplicate());
                let after_contents = InventoryWindowContents::player(inventory.duplicate());
                let container = content_behavior.player_container_kind();
                proof {
                    insert_same(core.sessions.player_sessions, player_id.id(), session_before);
                    insert_same(core.entities.player_inventory, entity_id.id(), inventory_before);
                }
                return Some(
                    InventoryClickDelta {
                        player_id,
                        transaction,
                        accepted: false,
                        should_resync_on_reject: false,
                        container,
                        window_id,
                        resolved_slot: None,
                        before_contents,
                        after_contents,
                        before_properties: none,
                        after_properties: none_after,
                        before_cursor,
                        after_cursor,
                        selected_hotbar_before: selected_hotbar_slot,
                        selected_hotbar_after: selected_hotbar_slot,
                        world_sync: None,
                    },
                );
            },
        };
        let before_contents = window_contents(content_behavior, session, inventory, &container);
        let before_properties = properties_in_window(session, window_id);
        let world_position = match session.window(window_id) {
            Some(window) => window.world_position(),
            None => None,
        };
        let resolved_slot = resolve_inventory_target(&target);
        let applied = apply_window_click(
            content_behavior,
            session,
            inventory,
            window_id,
            &target,
            button,
        );
        let after_properties = properties_in_window(session, window_id);
        let after_contents = window_contents(content_behavior, session, inventory, &container);
        let after_cursor = duplicate_stack(&session.cursor);
        let accepted = match validation {
            InventoryClickValidation::Authoritative => applied,
            InventoryClickValidation::StrictSlotEcho { clicked_item } => match resolved_slot {
                Some(slot) => applied && same_stack(
                    clicked_item.as_ref(),
                    after_contents.get_slot(slot),
                ),
                None => false,
            },
        };
        let world_sync = if accepted {
            world_position
        } else {
            None
        };
        Some(
            InventoryClickDelta {
                player_id,
                transaction,
                accepted,
                should_resync_on_reject: true,
                container,
                window_id,
                resolved_slot,
                before_contents,
                after_contents,
                before_properties,
                after_properties,
                before_cursor,
                after_cursor,
                selected_hotbar_before: selected_hotbar_slot,
                selected_hotbar_after: selected_hotbar_slot,
                world_sync,
            },
        )
    }
}

} // verus!
