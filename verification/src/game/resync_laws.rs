//! What clients are told who see the game, or a window, anew.

use crate::game::content::ContentBehavior;
use crate::game::mutation::slot_at_hand;
use crate::game::pose_laws::{has_chunk, place_of};
use crate::game::resync::{item_seen, mining_seen, player_seen, resync, seen_chunks, window_seen};
use crate::game::session::SessionView;
use crate::game::state::{composed, CoreView};
use crate::game::sync::{
    clicked_slot, container_in_window, property_change, property_told, property_value, seen_slots,
    shown_contents, window_resync,
};
use crate::lists::{picked, picked_contains};
use crate::model::block::{chunk_of, ChunkPos};
use crate::model::event::{EventTarget, PropertyView};
use crate::model::event_view::{EventView, TargetedView};
use crate::model::ids::{entity_of, player_of, EntityId, PlayerId};
use crate::model::inventory::{
    ContentsView, InteractionHand, InventoryClickTarget, InventorySlot, InventoryView,
};
use crate::model::item::StackView;
use crate::model::player::PlayerView;
use crate::model::view::of_chunks;
use crate::ordered::{found_entry, lookup, lookup_entry, sorted, Key};
use crate::transfer::consistency::well_keyed;
use vstd::prelude::*;

verus! {

proof fn in_either<T>(a: Seq<T>, b: Seq<T>, x: T)
    ensures
        (a + b).contains(x) <==> a.contains(x) || b.contains(x),
{
    let both = a + b;
    if a.contains(x) {
        let k = choose|k: int| 0 <= k < a.len() && a[k] == x;
        assert(both[k] == x);
    }
    if b.contains(x) {
        let k = choose|k: int| 0 <= k < b.len() && b[k] == x;
        assert(both[a.len() + k] == x);
    }
    if both.contains(x) {
        let k = choose|k: int| 0 <= k < both.len() && both[k] == x;
        if k < a.len() {
            assert(a[k] == x);
        } else {
            assert(b[k - a.len()] == x);
        }
    }
}

proof fn in_one<T>(a: T, x: T)
    ensures
        seq![a].contains(x) <==> x == a,
{
    assert(seq![a][0] == a);
}

proof fn in_two<T>(a: T, b: T, x: T)
    ensures
        seq![a, b].contains(x) <==> x == a || x == b,
{
    assert(seq![a, b][0] == a && seq![a, b][1] == b);
}

/// Whether a player is in the game whom a client sees that belongs to another player.
pub open spec fn is_in_sight(
    core: CoreView,
    player_id: PlayerId,
    session: SessionView,
    who: PlayerId,
    entity_id: EntityId,
    player: PlayerView,
) -> bool {
    &&& who.0 != player_id.0
    &&& entity_id.0 != session.entity_id.0
    &&& core.entity(who) == Some(entity_id)
    &&& core.player(who) == Some(player)
    &&& place_of(core, who) matches Some(place) && has_chunk(session, place.chunk)
}

/// Whether a window shows what it should: the one that is open, or else the player's own.
pub open spec fn is_window_shown(
    player_kind: Seq<char>,
    session: SessionView,
    inventory: InventoryView,
    window_id: u8,
    container: Seq<char>,
    contents: ContentsView,
) -> bool {
    &&& contents.player_inventory == inventory
    &&& match session.active_container {
        Some(window) => {
            &&& window_id == window.window_id
            &&& container == window.container.kind
            &&& contents.local_slots == window.container.local_slots
        },
        None => window_id == 0 && container == player_kind && contents.local_slots.len() == 0,
    }
}

/// Whether a client that sees the game anew is to be told something.
pub open spec fn is_to_be_told(
    core: CoreView,
    player_kind: Seq<char>,
    player_id: PlayerId,
    session: SessionView,
    told: TargetedView,
) -> bool {
    &&& told.target == EventTarget::Player(player_id)
    &&& match told.event {
        EventView::PlayBootstrap { player, entity_id, world_meta, view_distance } => {
            &&& entity_id == session.entity_id
            &&& composed(core.entities, entity_id) == Some(player)
            &&& world_meta == core.world.world_meta
            &&& view_distance == core.world.config.view_distance
        },
        EventView::ChunkBatch { chunks } => chunks == seen_chunks(core, session),
        EventView::EntitySpawned { entity_id, player } => exists|who: PlayerId| #[trigger]
            is_in_sight(core, player_id, session, who, entity_id, player),
        EventView::DroppedItemSpawned { entity_id, item } => lookup(
            core.entities.dropped_items,
            entity_id.id(),
        ) matches Some(state) && state.snapshot == item && has_chunk(session, state.chunk),
        EventView::BlockBreakingProgress {
            breaker_entity_id,
            position,
            stage,
            duration_ms,
        } => lookup(
            core.entities.player_active_mining,
            breaker_entity_id.id(),
        ) matches Some(mining) && mining.position == position && mining.last_stage == stage
            && mining.duration_ms == duration_ms && has_chunk(session, position.spec_chunk_pos()),
        EventView::InventoryContents { window_id, container, contents } => lookup(
            core.entities.player_inventory,
            session.entity_id.id(),
        ) matches Some(inventory) && is_window_shown(
            player_kind,
            session,
            inventory,
            window_id,
            container,
            contents,
        ),
        EventView::ContainerPropertyChanged {
            window_id,
            property,
            value,
        } => session.active_container matches Some(window) && window.window_id == window_id && (
        property matches PropertyView::Named(name) && window.container.properties.contains(
            (name, value),
        )),
        EventView::SelectedHotbarSlotChanged { slot } => lookup(
            core.entities.player_selected_hotbar,
            session.entity_id.id(),
        ) == Some(slot),
        EventView::CursorChanged { stack } => stack == session.cursor,
        _ => false,
    }
}

proof fn players_are_told(core: CoreView, player_id: PlayerId, session: SessionView, told: TargetedView)
    requires
        well_keyed(core),
    ensures
        picked(core.entities.players_by_player_id, player_seen(core, player_id, session)).contains(
            told,
        ) <==> told.target == EventTarget::Player(player_id) && (
        told.event matches EventView::EntitySpawned { entity_id, player } && exists|who: PlayerId|
            #[trigger]
            is_in_sight(core, player_id, session, who, entity_id, player)),
{
    let all = core.entities.players_by_player_id;
    let make = player_seen(core, player_id, session);
    picked_contains(all, make, told);
    if picked(all, make).contains(told) {
        let i = choose|i: int| 0 <= i < all.len() && make(#[trigger] all[i]) == Some(told);
        let who = player_of(all[i].0);
        lookup_entry(all, i);
        assert(who.id() == all[i].0);
        let player = composed(core.entities, all[i].1)->Some_0;
        assert(is_in_sight(core, player_id, session, who, all[i].1, player));
    }
    if told.target == EventTarget::Player(player_id) {
        if let EventView::EntitySpawned { entity_id, player } = told.event {
            if exists|who: PlayerId| #[trigger]
                is_in_sight(core, player_id, session, who, entity_id, player) {
                let who = choose|who: PlayerId| #[trigger]
                    is_in_sight(core, player_id, session, who, entity_id, player);
                found_entry(all, who.id());
                let i = choose|i: int|
                    0 <= i < all.len() && #[trigger] all[i] == (who.id(), entity_id);
                assert(player_of(all[i].0) == who);
                assert(make(all[i]) == Some(told));
            }
        }
    }
}

proof fn items_are_told(core: CoreView, player_id: PlayerId, session: SessionView, told: TargetedView)
    requires
        well_keyed(core),
    ensures
        picked(core.entities.dropped_items, item_seen(player_id, session)).contains(told)
            <==> told.target == EventTarget::Player(player_id) && (
        told.event matches EventView::DroppedItemSpawned { entity_id, item } && (lookup(
            core.entities.dropped_items,
            entity_id.id(),
        ) matches Some(state) && state.snapshot == item && has_chunk(session, state.chunk))),
{
    let all = core.entities.dropped_items;
    let make = item_seen(player_id, session);
    picked_contains(all, make, told);
    if picked(all, make).contains(told) {
        let i = choose|i: int| 0 <= i < all.len() && make(#[trigger] all[i]) == Some(told);
        lookup_entry(all, i);
        assert(entity_of(all[i].0).id() == all[i].0);
    }
    if told.target == EventTarget::Player(player_id) {
        if let EventView::DroppedItemSpawned { entity_id, item } = told.event {
            found_entry(all, entity_id.id());
            if let Some(state) = lookup(all, entity_id.id()) {
                let i = choose|i: int|
                    0 <= i < all.len() && #[trigger] all[i] == (entity_id.id(), state);
                assert(entity_of(all[i].0) == entity_id);
                if state.snapshot == item && has_chunk(session, state.chunk) {
                    assert(make(all[i]) == Some(told));
                }
            }
        }
    }
}

proof fn mining_is_told(core: CoreView, player_id: PlayerId, session: SessionView, told: TargetedView)
    requires
        well_keyed(core),
    ensures
        picked(core.entities.player_active_mining, mining_seen(player_id, session)).contains(told)
            <==> told.target == EventTarget::Player(player_id) && (
        told.event matches EventView::BlockBreakingProgress {
            breaker_entity_id,
            position,
            stage,
            duration_ms,
        } && (lookup(
            core.entities.player_active_mining,
            breaker_entity_id.id(),
        ) matches Some(mining) && mining.position == position && mining.last_stage == stage
            && mining.duration_ms == duration_ms && has_chunk(session, position.spec_chunk_pos()))),
{
    let all = core.entities.player_active_mining;
    let make = mining_seen(player_id, session);
    picked_contains(all, make, told);
    if picked(all, make).contains(told) {
        let i = choose|i: int| 0 <= i < all.len() && make(#[trigger] all[i]) == Some(told);
        lookup_entry(all, i);
        assert(entity_of(all[i].0).id() == all[i].0);
    }
    if told.target == EventTarget::Player(player_id) {
        if let EventView::BlockBreakingProgress {
            breaker_entity_id,
            position,
            stage,
            duration_ms,
        } = told.event {
            found_entry(all, breaker_entity_id.id());
            if let Some(mining) = lookup(all, breaker_entity_id.id()) {
                let i = choose|i: int|
                    0 <= i < all.len() && #[trigger] all[i] == (breaker_entity_id.id(), mining);
                assert(entity_of(all[i].0) == breaker_entity_id);
                if mining.position == position && mining.last_stage == stage && mining.duration_ms
                    == duration_ms && has_chunk(session, position.spec_chunk_pos()) {
                    assert(make(all[i]) == Some(told));
                }
            }
        }
    }
}

proof fn window_is_told(
    player_kind: Seq<char>,
    player_id: PlayerId,
    session: SessionView,
    inventory: InventoryView,
    told: TargetedView,
)
    ensures
        window_seen(player_kind, player_id, session, inventory).contains(told) <==> told.target
            == EventTarget::Player(player_id) && (match told.event {
            EventView::InventoryContents { window_id, container, contents } => is_window_shown(
                player_kind,
                session,
                inventory,
                window_id,
                container,
                contents,
            ),
            EventView::ContainerPropertyChanged {
                window_id,
                property,
                value,
            } => session.active_container matches Some(window) && window.window_id == window_id && (
            property matches PropertyView::Named(name) && window.container.properties.contains(
                (name, value),
            )),
            _ => false,
        }),
{
    let all = window_seen(player_kind, player_id, session, inventory);
    if let EventView::InventoryContents { window_id, container, contents } = told.event {
        if is_window_shown(player_kind, session, inventory, window_id, container, contents) {
            assert(session.active_container is None ==> contents.local_slots =~= Seq::empty());
            if told.target == EventTarget::Player(player_id) {
                assert(all[0] == told);
            }
        }
    }
    if let Some(window) = session.active_container {
        let properties = window.container.properties;
        let list = properties.map_values(
            |entry: (Seq<char>, i16)| property_told(player_id, window.window_id, entry),
        );
        assert(all == seq![all[0]] + list);
        in_either(seq![all[0]], list, told);
        in_one(all[0], told);
        if list.contains(told) {
            let k = choose|k: int| 0 <= k < list.len() && list[k] == told;
            assert(told == property_told(player_id, window.window_id, properties[k]));
            assert(properties.contains((properties[k].0, properties[k].1)));
        }
        if let EventView::ContainerPropertyChanged { window_id, property, value } = told.event {
            if let PropertyView::Named(name) = property {
                if properties.contains((name, value)) && window_id == window.window_id
                    && told.target == EventTarget::Player(player_id) {
                    let k = choose|k: int|
                        0 <= k < properties.len() && properties[k] == (name, value);
                    assert(list[k] == told);
                }
            }
        }
    } else {
        in_one(all[0], told);
        assert(all =~= seq![all[0]]);
    }
}

/// A client that sees the game anew is told exactly what it is to be told: where its player is, the
/// chunks that it has, the players, items and broken blocks in these, the window that is open, what
/// is at hand and the cursor; each of them as it is, and nothing else. It is told of its player
/// first, and of the cursor last.
pub proof fn all_that_is_seen_is_told(
    core: CoreView,
    player_kind: Seq<char>,
    player_id: PlayerId,
    told: TargetedView,
)
    requires
        well_keyed(core),
        core.session(player_id) matches Some(session) && composed(
            core.entities,
            session.entity_id,
        ) is Some,
    ensures
        ({
            let events = resync(core, player_kind, player_id);
            let session = core.session(player_id)->Some_0;
            &&& events.contains(told) <==> is_to_be_told(
                core,
                player_kind,
                player_id,
                session,
                told,
            )
            &&& events.len() >= 5
            &&& events[0].event is PlayBootstrap
            &&& events[1].event is ChunkBatch
            &&& events.last().event is CursorChanged
        }),
{
    let session = core.session(player_id)->Some_0;
    let inventory = lookup(core.entities.player_inventory, session.entity_id.id())->Some_0;
    let events = resync(core, player_kind, player_id);
    let head = seq![events[0], events[1]];
    let players = picked(
        core.entities.players_by_player_id,
        player_seen(core, player_id, session),
    );
    let items = picked(core.entities.dropped_items, item_seen(player_id, session));
    let mining = picked(core.entities.player_active_mining, mining_seen(player_id, session));
    let window = window_seen(player_kind, player_id, session, inventory);
    let tail = seq![events[events.len() - 2], events[events.len() - 1]];
    assert(events =~= head + players + items + mining + window + tail);
    in_either(head, players, told);
    in_either(head + players, items, told);
    in_either(head + players + items, mining, told);
    in_either(head + players + items + mining, window, told);
    in_either(head + players + items + mining + window, tail, told);
    in_two(events[0], events[1], told);
    in_two(events[events.len() - 2], events[events.len() - 1], told);
    players_are_told(core, player_id, session, told);
    items_are_told(core, player_id, session, told);
    mining_is_told(core, player_id, session, told);
    window_is_told(player_kind, player_id, session, inventory, told);
    assert(window.len() >= 1);
}

/// Who is not wholly in the game is told nothing.
pub proof fn nobody_is_told_nothing(core: CoreView, player_kind: Seq<char>, player_id: PlayerId)
    requires
        core.session(player_id) matches Some(session) ==> composed(
            core.entities,
            session.entity_id,
        ) is None,
    ensures
        resync(core, player_kind, player_id).len() == 0,
{
}

/// The chunks that a client is told are exactly those that it has and that are kept.
pub proof fn chunks_in_sight_are_told(core: CoreView, session: SessionView, pos: ChunkPos)
    requires
        sorted(session.view.loaded),
        of_chunks(session.view.loaded),
    ensures
        has_chunk(session, pos) ==> (lookup(core.world.chunks, pos.id()) matches Some(chunk)
            ==> seen_chunks(core, session).contains(chunk)),
        forall|k: int|
            0 <= k < seen_chunks(core, session).len() ==> exists|at: ChunkPos|
                has_chunk(session, at) && #[trigger] lookup(core.world.chunks, at.id()) == Some(
                    #[trigger] seen_chunks(core, session)[k],
                ),
{
    let all = session.view.loaded;
    let make = |entry: (Seq<int>, ())| lookup(core.world.chunks, entry.0);
    let list = seen_chunks(core, session);
    assert(list == picked(all, make));
    found_entry(all, pos.id());
    if has_chunk(session, pos) && lookup(core.world.chunks, pos.id()) is Some {
        let chunk = lookup(core.world.chunks, pos.id())->Some_0;
        picked_contains(all, make, chunk);
        let i = choose|i: int| 0 <= i < all.len() && #[trigger] all[i] == (pos.id(), ());
        assert(make(all[i]) == Some(chunk));
    }
    assert forall|k: int| 0 <= k < list.len() implies exists|at: ChunkPos|
        has_chunk(session, at) && #[trigger] lookup(core.world.chunks, at.id()) == Some(
            #[trigger] list[k],
        ) by {
        picked_contains(all, make, list[k]);
        assert(list.contains(list[k]));
        let i = choose|i: int| 0 <= i < all.len() && make(#[trigger] all[i]) == Some(list[k]);
        let at = chunk_of(all[i].0);
        lookup_entry(all, i);
        assert(at.id() == all[i].0);
        assert(has_chunk(session, at));
    }
}

/// Window zero is the player's own; another window is that on the container that is open under its
/// number, if one is.
pub proof fn windows_are_found(player_kind: Seq<char>, session: SessionView, window_id: u8)
    ensures
        ({
            let found = container_in_window(player_kind, session, window_id);
            &&& window_id == 0 ==> found == Some(player_kind)
            &&& window_id != 0 ==> (found matches Some(kind) ==> (
            session.active_container matches Some(window) && window.window_id == window_id
                && window.container.kind == kind))
            &&& window_id != 0 && found is None ==> (session.active_container matches Some(window)
                ==> window.window_id != window_id)
        }),
{
}

/// A window shows the inventory whole; it shows the slots of the container that is open where that
/// is of its kind and not the player's own kind, and otherwise no slots of a container.
pub proof fn window_shows(
    player_kind: Seq<char>,
    session: SessionView,
    inventory: InventoryView,
    container: Seq<char>,
)
    ensures
        ({
            let shown = shown_contents(player_kind, session, inventory, container);
            let open = session.active_container matches Some(window) && window.container.kind
                == container && container != player_kind;
            &&& shown.player_inventory == inventory
            &&& open ==> shown.local_slots
                == session.active_container->Some_0.container.local_slots
            &&& !open ==> shown.local_slots.len() == 0
        }),
{
}

/// A click is on a slot if and only if it names one.
pub proof fn clicks_name_slots(target: InventoryClickTarget, slot: InventorySlot)
    ensures
        clicked_slot(target) == Some(slot) <==> target == InventoryClickTarget::Slot(slot),
{
}

/// The slots of a window: each of its own up to their number, each of the inventory, each at hand,
/// and the other hand if and only if it is the player's own window. Every one is listed once.
pub proof fn window_has_its_slots<B: ContentBehavior>(
    behavior: B,
    container: Seq<char>,
    slot: InventorySlot,
)
    ensures
        ({
            let own = match behavior.layout(container) {
                Some(spec) => spec.local_slot_count as int,
                None => 0,
            };
            let slots = seen_slots(behavior, container);
            &&& slots.contains(slot) <==> (match slot {
                InventorySlot::WindowLocal(index) => index < own,
                InventorySlot::MainInventory(index) => index < 27,
                InventorySlot::Hotbar(index) => index < 9,
                InventorySlot::Offhand => container == behavior.player_kind(),
            })
            &&& slots.len() == own + 36 + if container == behavior.player_kind() {
                1int
            } else {
                0
            }
        }),
{
    let own = match behavior.layout(container) {
        Some(spec) => spec.local_slot_count as int,
        None => 0,
    };
    let slots = seen_slots(behavior, container);
    match slot {
        InventorySlot::WindowLocal(index) => {
            if index < own {
                assert(slots[index as int] == slot);
            }
        },
        InventorySlot::MainInventory(index) => {
            if index < 27 {
                assert(slots[own + index] == slot);
            }
        },
        InventorySlot::Hotbar(index) => {
            if index < 9 {
                assert(slots[own + 27 + index] == slot);
            }
        },
        InventorySlot::Offhand => {
            if container == behavior.player_kind() {
                assert(slots[own + 36] == slot);
            }
        },
    }
}

/// A client is told of a property if and only if it has no such property with that value before,
/// and what it is told is the value after.
pub proof fn changed_properties_are_told(
    window_id: u8,
    player_id: PlayerId,
    before: Seq<(Seq<char>, i16)>,
    after: Seq<(Seq<char>, i16)>,
    told: TargetedView,
)
    ensures
        picked(after, property_change(window_id, player_id, before)).contains(told) <==> (
        exists|k: int|
            {
                &&& 0 <= k < after.len()
                &&& property_value(before, (#[trigger] after[k]).0) != Some(after[k].1)
                &&& told.target == EventTarget::Player(player_id)
                &&& told.event == (EventView::ContainerPropertyChanged {
                    window_id,
                    property: PropertyView::Named(after[k].0),
                    value: after[k].1,
                })
            }),
{
    let make = property_change(window_id, player_id, before);
    picked_contains(after, make, told);
    if exists|k: int|
        {
            &&& 0 <= k < after.len()
            &&& property_value(before, (#[trigger] after[k]).0) != Some(after[k].1)
            &&& told.target == EventTarget::Player(player_id)
            &&& told.event == (EventView::ContainerPropertyChanged {
                window_id,
                property: PropertyView::Named(after[k].0),
                value: after[k].1,
            })
        } {
        let k = choose|k: int|
            {
                &&& 0 <= k < after.len()
                &&& property_value(before, (#[trigger] after[k]).0) != Some(after[k].1)
                &&& told.target == EventTarget::Player(player_id)
                &&& told.event == (EventView::ContainerPropertyChanged {
                    window_id,
                    property: PropertyView::Named(after[k].0),
                    value: after[k].1,
                })
            };
        assert(make(after[k]) == Some(told));
    }
}

/// The value of a property is that of the first with its name, and there is none where no property
/// has the name.
pub proof fn first_value_counts(entries: Seq<(Seq<char>, i16)>, name: Seq<char>, k: int)
    requires
        0 <= k < entries.len(),
        forall|j: int| 0 <= j < k ==> (#[trigger] entries[j]).0 != name,
    ensures
        entries[k].0 == name ==> property_value(entries, name) == Some(entries[k].1),
        k == entries.len() - 1 && entries[k].0 != name ==> property_value(entries, name) is None,
    decreases k,
{
    if k > 0 {
        assert(entries[0].0 != name);
        let rest = entries.drop_first();
        assert forall|j: int| 0 <= j < k - 1 implies (#[trigger] rest[j]).0 != name by {
            assert(rest[j] == entries[j + 1]);
        }
        first_value_counts(rest, name, k - 1);
        assert(rest[k - 1] == entries[k]);
    } else if entries.len() == 1 {
        assert(entries.drop_first().len() == 0);
        assert(property_value(entries.drop_first(), name) is None);
    }
}

/// A client that sees a window anew is told its contents first; of the slot in question, if there
/// is one, with what lies in it; of what is at hand if and only if it is the player's own window;
/// and of the cursor last.
pub proof fn window_is_seen_anew(
    player_kind: Seq<char>,
    player_id: PlayerId,
    window_id: u8,
    container: Seq<char>,
    contents: ContentsView,
    selected: u8,
    cursor: Option<StackView>,
    slot: Option<InventorySlot>,
    told: TargetedView,
)
    ensures
        ({
            let events = window_resync(
                player_kind,
                player_id,
                window_id,
                container,
                contents,
                selected,
                cursor,
                slot,
            );
            let aimed = told.target == EventTarget::Player(player_id);
            &&& events.contains(told) <==> aimed && (match told.event {
                EventView::InventoryContents { window_id: w, container: c, contents: shown } => w
                    == window_id && c == container && shown == contents,
                EventView::InventorySlotChanged { window_id: w, container: c, slot: s, stack } => w
                    == window_id && c == container && slot == Some(s) && stack == contents.slot(s),
                EventView::SelectedHotbarSlotChanged { slot: s } => container == player_kind && s
                    == selected,
                EventView::CursorChanged { stack } => stack == cursor,
                _ => false,
            })
            &&& events[0].event is InventoryContents
            &&& events.last().event is CursorChanged
        }),
{
    let events = window_resync(
        player_kind,
        player_id,
        window_id,
        container,
        contents,
        selected,
        cursor,
        slot,
    );
    let first = events[0];
    let last = events[events.len() - 1];
    let asked = if slot is Some {
        seq![events[1]]
    } else {
        Seq::empty()
    };
    let hand = if container == player_kind {
        seq![events[events.len() - 2]]
    } else {
        Seq::empty()
    };
    assert(events =~= seq![first] + asked + hand + seq![last]);
    in_either(seq![first], asked, told);
    in_either(seq![first] + asked, hand, told);
    in_either(seq![first] + asked + hand, seq![last], told);
    in_one(first, told);
    in_one(last, told);
    in_one(events[1], told);
    in_one(events[events.len() - 2], told);
}

/// The main hand holds the slot at hand, and the other hand the slot beside it.
pub proof fn hands_hold_slots(player: PlayerView)
    ensures
        slot_at_hand(InteractionHand::Main, player) == InventorySlot::Hotbar(
            player.selected_hotbar_slot,
        ),
        slot_at_hand(InteractionHand::Offhand, player) == InventorySlot::Offhand,
{
}

} // verus!
