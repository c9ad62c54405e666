//! What events say.

use crate::model::block::{BlockPos, BlockView, WorldMetaView};
use crate::model::chunk::{ChunkColumn, ColumnView};
use crate::model::event::{CoreEvent, EventTarget, PropertyView, TargetedEvent};
use crate::model::ids::{EntityId, PlayerId};
use crate::model::inventory::{ContentsView, InventorySlot, InventoryTransactionContext};
use crate::model::item::{stack_view, StackView};
use crate::model::player::{DroppedItemView, PlayerView};
use vstd::prelude::*;

verus! {

/// What columns are.
pub open spec fn column_views(columns: Seq<ChunkColumn>) -> Seq<ColumnView> {
    columns.map_values(|column: ChunkColumn| column@)
}

/// What an event says.
#[allow(inconsistent_fields)]
pub enum EventView {
    LoginAccepted { player_id: PlayerId, entity_id: EntityId, player: PlayerView },
    PlayBootstrap {
        player: PlayerView,
        entity_id: EntityId,
        world_meta: WorldMetaView,
        view_distance: u8,
    },
    ChunkBatch { chunks: Seq<ColumnView> },
    EntitySpawned { entity_id: EntityId, player: PlayerView },
    EntityMoved { entity_id: EntityId, player: PlayerView },
    DroppedItemSpawned { entity_id: EntityId, item: DroppedItemView },
    BlockBreakingProgress {
        breaker_entity_id: EntityId,
        position: BlockPos,
        stage: Option<u8>,
        duration_ms: u64,
    },
    EntityDespawned { entity_ids: Seq<EntityId> },
    InventoryContents { window_id: u8, container: Seq<char>, contents: ContentsView },
    ContainerOpened { window_id: u8, container: Seq<char>, title: Seq<char> },
    ContainerClosed { window_id: u8 },
    ContainerPropertyChanged { window_id: u8, property: PropertyView, value: i16 },
    InventorySlotChanged {
        window_id: u8,
        container: Seq<char>,
        slot: InventorySlot,
        stack: Option<StackView>,
    },
    InventoryTransactionProcessed { transaction: InventoryTransactionContext, accepted: bool },
    CursorChanged { stack: Option<StackView> },
    SelectedHotbarSlotChanged { slot: u8 },
    BlockChanged { position: BlockPos, block: BlockView },
    KeepAliveRequested { keep_alive_id: i32 },
    Disconnect { reason: Seq<char> },
}

impl View for CoreEvent {
    type V = EventView;

    open spec fn view(&self) -> EventView {
        match self {
            CoreEvent::LoginAccepted { player_id, entity_id, player } => EventView::LoginAccepted {
                player_id: *player_id,
                entity_id: *entity_id,
                player: player@,
            },
            CoreEvent::PlayBootstrap {
                player,
                entity_id,
                world_meta,
                view_distance,
            } => EventView::PlayBootstrap {
                player: player@,
                entity_id: *entity_id,
                world_meta: world_meta@,
                view_distance: *view_distance,
            },
            CoreEvent::ChunkBatch { chunks } => EventView::ChunkBatch {
                chunks: column_views(chunks@),
            },
            CoreEvent::EntitySpawned { entity_id, player } => EventView::EntitySpawned {
                entity_id: *entity_id,
                player: player@,
            },
            CoreEvent::EntityMoved { entity_id, player } => EventView::EntityMoved {
                entity_id: *entity_id,
                player: player@,
            },
            CoreEvent::DroppedItemSpawned { entity_id, item } => EventView::DroppedItemSpawned {
                entity_id: *entity_id,
                item: item@,
            },
            CoreEvent::BlockBreakingProgress {
                breaker_entity_id,
                position,
                stage,
                duration_ms,
            } => EventView::BlockBreakingProgress {
                breaker_entity_id: *breaker_entity_id,
                position: *position,
                stage: *stage,
                duration_ms: *duration_ms,
            },
            CoreEvent::EntityDespawned { entity_ids } => EventView::EntityDespawned {
                entity_ids: entity_ids@,
            },
            CoreEvent::InventoryContents {
                window_id,
                container,
                contents,
            } => EventView::InventoryContents {
                window_id: *window_id,
                container: container@,
                contents: contents@,
            },
            CoreEvent::ContainerOpened {
                window_id,
                container,
                title,
            } => EventView::ContainerOpened {
                window_id: *window_id,
                container: container@,
                title: title@,
            },
            CoreEvent::ContainerClosed { window_id } => EventView::ContainerClosed {
                window_id: *window_id,
            },
            CoreEvent::ContainerPropertyChanged {
                window_id,
                property,
                value,
            } => EventView::ContainerPropertyChanged {
                window_id: *window_id,
                property: property@,
                value: *value,
            },
            CoreEvent::InventorySlotChanged {
                window_id,
                container,
                slot,
                stack,
            } => EventView::InventorySlotChanged {
                window_id: *window_id,
                container: container@,
                slot: *slot,
                stack: stack_view(*stack),
            },
            CoreEvent::InventoryTransactionProcessed {
                transaction,
                accepted,
            } => EventView::InventoryTransactionProcessed {
                transaction: *transaction,
                accepted: *accepted,
            },
            CoreEvent::CursorChanged { stack } => EventView::CursorChanged {
                stack: stack_view(*stack),
            },
            CoreEvent::SelectedHotbarSlotChanged { slot } => EventView::SelectedHotbarSlotChanged {
                slot: *slot,
            },
            CoreEvent::BlockChanged { position, block } => EventView::BlockChanged {
                position: *position,
                block: block@,
            },
            CoreEvent::KeepAliveRequested { keep_alive_id } => EventView::KeepAliveRequested {
                keep_alive_id: *keep_alive_id,
            },
            CoreEvent::Disconnect { reason } => EventView::Disconnect {
                reason: reason@,
            },
        }
    }
}

/// What an event says, and whom it concerns.
pub struct TargetedView {
    pub target: EventTarget,
    pub event: EventView,
}

impl View for TargetedEvent {
    type V = TargetedView;

    open spec fn view(&self) -> TargetedView {
        TargetedView { target: self.target, event: self.event@ }
    }
}

/// What events say, and whom they concern.
pub open spec fn event_views(events: Seq<TargetedEvent>) -> Seq<TargetedView> {
    events.map_values(|event: TargetedEvent| event@)
}

/// An event for one player.
pub open spec fn told(player_id: PlayerId, event: EventView) -> TargetedView {
    TargetedView { target: EventTarget::Player(player_id), event }
}

/// Tells one player an event.
pub fn tell(events: &mut Vec<TargetedEvent>, player_id: PlayerId, event: CoreEvent)
    ensures
        event_views(final(events)@) == event_views(old(events)@).push(told(player_id, event@)),
        final(events)@.len() == old(events)@.len() + 1,
{
    events.push(TargetedEvent { target: EventTarget::Player(player_id), event });
    assert(event_views(events@) =~= event_views(old(events)@).push(told(player_id, event@)));
}

} // verus!
