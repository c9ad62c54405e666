//! The sessions of players: their windows, their cursors and what they see.

use crate::game::content::{ContainerView, OpenContainerState};
use crate::model::block::BlockPos;
use crate::model::ids::EntityId;
use crate::model::inventory::{
    duplicate_slots, slot_views, ContentsView, InventoryWindowContents, PlayerInventory,
};
use crate::model::item::{duplicate_stack, is_stack_wf, stack_view, stack_wf, ItemStack, StackView};
use crate::model::names::ContainerPropertyKey;
use crate::model::player::ContainerBlockEntityState;
use crate::model::view::{ClientView, Sight};
use crate::ordered::Stored;
use vstd::prelude::*;

verus! {

/// A window on a container.
#[derive(Debug, PartialEq, Eq)]
pub struct OpenInventoryWindow {
    pub window_id: u8,
    pub container: OpenContainerState,
}

/// What a window is.
pub struct WindowView {
    pub window_id: u8,
    pub container: ContainerView,
}

impl View for OpenInventoryWindow {
    type V = WindowView;

    open spec fn view(&self) -> WindowView {
        WindowView { window_id: self.window_id, container: self.container@ }
    }
}

impl OpenInventoryWindow {
    /// What the window shows.
    pub fn contents(&self, player_inventory: &PlayerInventory) -> (result: InventoryWindowContents)
        ensures
            result@ == (ContentsView {
                player_inventory: player_inventory@,
                local_slots: self@.container.local_slots,
            }),
            player_inventory.data_wf() && self.container.wf() ==> result.wf(),
    {
        InventoryWindowContents::with_local_slots(
            player_inventory.duplicate(),
            duplicate_slots(&self.container.local_slots),
        )
    }

    /// The properties of the container with their values, in the order of their names.
    pub fn property_entries(&self) -> (result: Vec<(ContainerPropertyKey, i16)>)
        ensures
            crate::game::content::property_views(result@) == self@.container.properties,
    {
        self.container.property_entries()
    }

    /// Where the container stands in the world.
    pub fn world_position(&self) -> (result: Option<BlockPos>)
        ensures
            result == match self@.container.block {
                Some((position, _)) => Some(position),
                None => None,
            },
    {
        self.container.world_position()
    }

    /// Where the container stands in the world and what the block there holds.
    pub fn world_block_entity(&self) -> (result: Option<(BlockPos, ContainerBlockEntityState)>)
        requires
            self.container.wf(),
        ensures
            match self@.container.block {
                None => result is None,
                Some((position, kind)) => result matches Some((at, state)) && at == position
                    && state.kind@ == kind && slot_views(state.slots@)
                    == self@.container.local_slots && state.properties@
                    == self.container.properties@,
            },
    {
        match self.world_position() {
            Some(position) => match self.container.block_entity_state() {
                Some(state) => Some((position, state)),
                None => None,
            },
            None => None,
        }
    }
}

/// A session of a player.
#[derive(Debug, PartialEq, Eq)]
pub struct PlayerSessionState {
    pub entity_id: EntityId,
    pub cursor: Option<ItemStack>,
    pub active_container: Option<OpenInventoryWindow>,
    pub next_non_player_window_id: u8,
    pub view: ClientView,
    pub pending_keep_alive_id: Option<i32>,
    pub last_keep_alive_sent_at: Option<u64>,
    pub next_keep_alive_at: u64,
}

/// What a session is.
pub struct SessionView {
    pub entity_id: EntityId,
    pub cursor: Option<StackView>,
    pub active_container: Option<WindowView>,
    pub next_non_player_window_id: u8,
    pub view: Sight,
    pub pending_keep_alive_id: Option<i32>,
    pub last_keep_alive_sent_at: Option<u64>,
    pub next_keep_alive_at: u64,
}

/// A window that may be absent.
pub open spec fn window_view(window: Option<OpenInventoryWindow>) -> Option<WindowView> {
    match window {
        Some(window) => Some(window@),
        None => None,
    }
}

impl View for PlayerSessionState {
    type V = SessionView;

    open spec fn view(&self) -> SessionView {
        SessionView {
            entity_id: self.entity_id,
            cursor: stack_view(self.cursor),
            active_container: window_view(self.active_container),
            next_non_player_window_id: self.next_non_player_window_id,
            view: self.view@,
            pending_keep_alive_id: self.pending_keep_alive_id,
            last_keep_alive_sent_at: self.last_keep_alive_sent_at,
            next_keep_alive_at: self.next_keep_alive_at,
        }
    }
}

impl SessionView {
    /// The open window, if it has a number.
    pub open spec fn window(self, window_id: u8) -> Option<WindowView> {
        match self.active_container {
            Some(window) => if window.window_id == window_id {
                Some(window)
            } else {
                None
            },
            None => None,
        }
    }
}

impl Stored for PlayerSessionState {
    open spec fn sound(&self) -> bool {
        &&& stack_wf(self.cursor)
        &&& self.active_container matches Some(window) ==> window.container.wf()
        &&& self.view.wf()
    }

    fn is_sound(&self) -> (result: bool) {
        is_stack_wf(&self.cursor) && match &self.active_container {
            Some(window) => window.container.is_wf(),
            None => true,
        } && self.view.loaded_chunks.in_order()
    }

    fn replica(&self) -> (result: Self) {
        PlayerSessionState {
            entity_id: self.entity_id,
            cursor: duplicate_stack(&self.cursor),
            active_container: match &self.active_container {
                Some(window) => Some(
                    OpenInventoryWindow {
                        window_id: window.window_id,
                        container: window.container.duplicate(),
                    },
                ),
                None => None,
            },
            next_non_player_window_id: self.next_non_player_window_id,
            view: self.view.duplicate(),
            pending_keep_alive_id: self.pending_keep_alive_id,
            last_keep_alive_sent_at: self.last_keep_alive_sent_at,
            next_keep_alive_at: self.next_keep_alive_at,
        }
    }
}

impl PlayerSessionState {
    /// The open window, if it has a number.
    pub fn window(&self, window_id: u8) -> (result: Option<&OpenInventoryWindow>)
        ensures
            match result {
                Some(window) => self@.window(window_id) == Some(window@)
                    && self.active_container == Some(*window),
                None => self@.window(window_id) is None,
            },
    {
        match &self.active_container {
            Some(window) => if window.window_id == window_id {
                Some(window)
            } else {
                None
            },
            None => None,
        }
    }
}

} // verus!
