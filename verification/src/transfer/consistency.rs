//! What changes to a game leave as it should be.

use crate::game::content::ContentBehavior;
use crate::game::pose::{moved, pose, with_pose};
use crate::game::session::SessionView;
use crate::game::state::{fresh_core, without_player, CoreView, ServerCore};
use crate::game::store::{ConfigView, DroppedStateView, EntityKind, PlayerTransform};
use crate::game::mutation::{with_dropped, with_inventory, with_selected_slot};
use crate::game::terrain::with_chunks_kept;
use crate::game::window_click::{
    inventory_of, player_click, window_click, with_session_and_inventory,
};
use crate::model::block::{ChunkPos, Vec3};
use crate::model::ids::{entity_of, player_of, EntityId, PlayerId};
use crate::model::inventory::{
    InventoryClickButton, InventoryClickTarget, InventoryClickValidation,
    InventoryTransactionContext, InventoryView,
};
use crate::model::item::OpaqueF32;
use crate::model::view::{difference, sight};
use crate::ordered::{
    holds, insert_laws, inserted, lookup, lookup_entry, rank, rank_bounds, remove_laws, removed,
    sorted, Entries, Key, OrderedMap, Stored,
};
use crate::transfer::handover::{
    consistent, identity_fault, item_fault, no_fault_each, player_fault, session_fault,
};
use vstd::prelude::*;

verus! {

/// Whether keys are those of players, in order.
pub open spec fn keyed_by_players<W>(s: Entries<W>) -> bool {
    sorted(s) && forall|i: int| 0 <= i < s.len() ==> player_of((#[trigger] s[i]).0).id() == s[i].0
}

/// Whether keys are those of entities, in order.
pub open spec fn keyed_by_entities<W>(s: Entries<W>) -> bool {
    sorted(s) && forall|i: int| 0 <= i < s.len() ==> entity_of((#[trigger] s[i]).0).id() == s[i].0
}

/// Whether the maps of a game have keys of the right kind, in order.
pub open spec fn well_keyed(core: CoreView) -> bool {
    &&& keyed_by_players(core.entities.players_by_player_id)
    &&& keyed_by_players(core.sessions.player_sessions)
    &&& keyed_by_entities(core.entities.entity_kinds)
    &&& keyed_by_entities(core.entities.player_identity)
    &&& keyed_by_entities(core.entities.player_transform)
    &&& keyed_by_entities(core.entities.player_vitals)
    &&& keyed_by_entities(core.entities.player_inventory)
    &&& keyed_by_entities(core.entities.player_selected_hotbar)
    &&& keyed_by_entities(core.entities.player_active_mining)
    &&& keyed_by_entities(core.entities.dropped_items)
}

proof fn map_of_players<V: View>(map: OrderedMap<PlayerId, V>)
    requires
        map.wf(),
    ensures
        keyed_by_players(map@),
{
    map.entries_are_pairs();
    assert forall|i: int| 0 <= i < map@.len() implies player_of((#[trigger] map@[i]).0).id()
        == map@[i].0 by {
        let key = map.pairs()[i].0;
        assert(map@[i].0 == key.id());
        assert(player_of(key.id()) == key);
    }
}

proof fn map_of_entities<V: View>(map: OrderedMap<EntityId, V>)
    requires
        map.wf(),
    ensures
        keyed_by_entities(map@),
{
    map.entries_are_pairs();
    assert forall|i: int| 0 <= i < map@.len() implies entity_of((#[trigger] map@[i]).0).id()
        == map@[i].0 by {
        let key = map.pairs()[i].0;
        assert(map@[i].0 == key.id());
        assert(entity_of(key.id()) == key);
    }
}

/// The maps of every game have keys of the right kind, in order.
pub proof fn games_are_well_keyed(core: ServerCore)
    requires
        core.sound(),
    ensures
        well_keyed(core@),
{
    map_of_players(core.entities.players_by_player_id);
    map_of_players(core.sessions.player_sessions);
    map_of_entities(core.entities.entity_kinds);
    map_of_entities(core.entities.player_identity);
    map_of_entities(core.entities.player_transform);
    map_of_entities(core.entities.player_vitals);
    map_of_entities(core.entities.player_inventory);
    map_of_entities(core.entities.player_selected_hotbar);
    map_of_entities(core.entities.player_active_mining);
    map_of_entities(core.entities.dropped_items);
}

/// Whether a player's entity and session are what they should be.
pub open spec fn player_is_whole(core: CoreView, player_id: PlayerId) -> bool {
    core.entity(player_id) matches Some(entity_id) ==> {
        let id = entity_id.id();
        &&& lookup(core.entities.entity_kinds, id) == Some(EntityKind::Player)
        &&& lookup(core.entities.player_identity, id) matches Some(identity) && identity.player_id
            == player_id
        &&& holds(core.entities.player_transform, id)
        &&& holds(core.entities.player_vitals, id)
        &&& holds(core.entities.player_inventory, id)
        &&& holds(core.entities.player_selected_hotbar, id)
        &&& core.session(player_id) matches Some(session) && session.entity_id == entity_id
    }
}

/// Whether an entity that is known to be a player is that player's.
pub open spec fn identity_is_indexed(core: CoreView, entity_id: EntityId) -> bool {
    lookup(core.entities.player_identity, entity_id.id()) matches Some(identity) ==> core.entity(
        identity.player_id,
    ) == Some(entity_id)
}

/// Whether the entity of a session is the player's.
pub open spec fn session_is_indexed(core: CoreView, player_id: PlayerId) -> bool {
    core.session(player_id) matches Some(session) ==> core.entity(player_id) == Some(
        session.entity_id,
    )
}

/// Whether the entity of items is one of items.
pub open spec fn item_is_item(core: CoreView, entity_id: EntityId) -> bool {
    holds(core.entities.dropped_items, entity_id.id()) ==> lookup(
        core.entities.entity_kinds,
        entity_id.id(),
    ) == Some(EntityKind::DroppedItem)
}

/// Whether the parts of a game belong together, said of each part.
pub open spec fn belongs_together(core: CoreView) -> bool {
    &&& forall|player_id: PlayerId| #[trigger] player_is_whole(core, player_id)
    &&& forall|entity_id: EntityId| #[trigger] identity_is_indexed(core, entity_id)
    &&& forall|player_id: PlayerId| #[trigger] session_is_indexed(core, player_id)
    &&& forall|entity_id: EntityId| #[trigger] item_is_item(core, entity_id)
    &&& !holds(core.entities.entity_kinds, EntityId(core.entities.next_entity_id).id())
}

/// The parts of a game belong together if and only if each does.
pub proof fn consistent_means(core: CoreView)
    requires
        well_keyed(core),
    ensures
        consistent(core) <==> belongs_together(core),
{
    let players = core.entities.players_by_player_id;
    let identities = core.entities.player_identity;
    let sessions = core.sessions.player_sessions;
    let items = core.entities.dropped_items;
    let f = player_fault(core.entities, core.sessions);
    let g = identity_fault(core.entities);
    let h = session_fault(core.entities);
    let k = item_fault(core.entities);
    no_fault_each(players, f);
    no_fault_each(identities, g);
    no_fault_each(sessions, h);
    no_fault_each(items, k);
    if consistent(core) {
        assert forall|player_id: PlayerId| #[trigger] player_is_whole(core, player_id) by {
            let i = rank(players, player_id.id());
            rank_bounds(players, player_id.id());
            if holds(players, player_id.id()) {
                assert(f(players[i]) is None);
                assert(player_of(player_id.id()) == player_id);
            }
        }
        assert forall|entity_id: EntityId| #[trigger] identity_is_indexed(core, entity_id) by {
            let i = rank(identities, entity_id.id());
            rank_bounds(identities, entity_id.id());
            if holds(identities, entity_id.id()) {
                assert(g(identities[i]) is None);
                assert(entity_of(entity_id.id()) == entity_id);
            }
        }
        assert forall|player_id: PlayerId| #[trigger] session_is_indexed(core, player_id) by {
            let i = rank(sessions, player_id.id());
            rank_bounds(sessions, player_id.id());
            if holds(sessions, player_id.id()) {
                assert(h(sessions[i]) is None);
                assert(player_of(player_id.id()) == player_id);
            }
        }
        assert forall|entity_id: EntityId| #[trigger] item_is_item(core, entity_id) by {
            let i = rank(items, entity_id.id());
            rank_bounds(items, entity_id.id());
            if holds(items, entity_id.id()) {
                assert(k(items[i]) is None);
                assert(entity_of(entity_id.id()) == entity_id);
            }
        }
    }
    if belongs_together(core) {
        assert forall|i: int| 0 <= i < players.len() implies f(#[trigger] players[i]) is None by {
            lookup_entry(players, i);
            assert(player_is_whole(core, player_of(players[i].0)));
        }
        assert forall|i: int| 0 <= i < identities.len() implies g(
            #[trigger] identities[i],
        ) is None by {
            lookup_entry(identities, i);
            assert(identity_is_indexed(core, entity_of(identities[i].0)));
        }
        assert forall|i: int| 0 <= i < sessions.len() implies h(#[trigger] sessions[i]) is None by {
            lookup_entry(sessions, i);
            assert(session_is_indexed(core, player_of(sessions[i].0)));
        }
        assert forall|i: int| 0 <= i < items.len() implies k(#[trigger] items[i]) is None by {
            lookup_entry(items, i);
            assert(item_is_item(core, entity_of(items[i].0)));
        }
    }
}

/// Inserting under a player keeps the keys those of players.
pub proof fn insert_keeps_players<W>(s: Entries<W>, player_id: PlayerId, value: W)
    requires
        keyed_by_players(s),
    ensures
        keyed_by_players(inserted(s, player_id.id(), value)),
{
    let t = inserted(s, player_id.id(), value);
    let place = rank(s, player_id.id());
    rank_bounds(s, player_id.id());
    insert_laws(s, player_id.id(), value, player_id.id());
    assert(player_of(player_id.id()) == player_id);
    assert forall|i: int| 0 <= i < t.len() implies player_of((#[trigger] t[i]).0).id()
        == t[i].0 by {
        if i < place {
            assert(t[i] == s[i]);
        } else if i > place {
            assert(t[i] == s[i] || t[i] == s[i - 1]);
        }
    }
}

proof fn insert_keeps_entities<W>(s: Entries<W>, entity_id: EntityId, value: W)
    requires
        keyed_by_entities(s),
    ensures
        keyed_by_entities(inserted(s, entity_id.id(), value)),
{
    let t = inserted(s, entity_id.id(), value);
    let place = rank(s, entity_id.id());
    rank_bounds(s, entity_id.id());
    insert_laws(s, entity_id.id(), value, entity_id.id());
    assert(entity_of(entity_id.id()) == entity_id);
    assert forall|i: int| 0 <= i < t.len() implies entity_of((#[trigger] t[i]).0).id()
        == t[i].0 by {
        if i < place {
            assert(t[i] == s[i]);
        } else if i > place {
            assert(t[i] == s[i] || t[i] == s[i - 1]);
        }
    }
}

proof fn remove_keeps_players<W>(s: Entries<W>, id: Seq<int>)
    requires
        keyed_by_players(s),
    ensures
        keyed_by_players(removed(s, id)),
{
    let t = removed(s, id);
    rank_bounds(s, id);
    remove_laws(s, id, id);
    assert forall|i: int| 0 <= i < t.len() implies player_of((#[trigger] t[i]).0).id()
        == t[i].0 by {
        if holds(s, id) {
            assert(t[i] == s[i] || t[i] == s[i + 1]);
        }
    }
}

proof fn remove_keeps_entities<W>(s: Entries<W>, id: Seq<int>)
    requires
        keyed_by_entities(s),
    ensures
        keyed_by_entities(removed(s, id)),
{
    let t = removed(s, id);
    rank_bounds(s, id);
    remove_laws(s, id, id);
    assert forall|i: int| 0 <= i < t.len() implies entity_of((#[trigger] t[i]).0).id()
        == t[i].0 by {
        if holds(s, id) {
            assert(t[i] == s[i] || t[i] == s[i + 1]);
        }
    }
}

proof fn same_player(a: PlayerId, b: PlayerId)
    ensures
        a.id() == b.id() <==> a == b,
{
    assert(a.id()[0] == a.0 && b.id()[0] == b.0);
}

proof fn same_entity(a: EntityId, b: EntityId)
    ensures
        a.id() == b.id() <==> a == b,
{
    assert(a.id()[0] == a.0 && b.id()[0] == b.0);
}

/// A game that nobody has joined belongs together.
pub proof fn fresh_game_is_consistent(config: ConfigView)
    ensures
        well_keyed(fresh_core(config)),
        consistent(fresh_core(config)),
{
}

/// Taking a player out of a game leaves the rest together.
pub proof fn removing_a_player_keeps_consistency(core: CoreView, player_id: PlayerId)
    requires
        well_keyed(core),
        consistent(core),
    ensures
        well_keyed(without_player(core, player_id)),
        consistent(without_player(core, player_id)),
{
    let next = without_player(core, player_id);
    consistent_means(core);
    if let Some(session) = core.session(player_id) {
        let gone = session.entity_id;
        let id = gone.id();
        remove_keeps_players(core.entities.players_by_player_id, player_id.id());
        remove_keeps_players(core.sessions.player_sessions, player_id.id());
        remove_keeps_entities(core.entities.entity_kinds, id);
        remove_keeps_entities(core.entities.player_identity, id);
        remove_keeps_entities(core.entities.player_transform, id);
        remove_keeps_entities(core.entities.player_vitals, id);
        remove_keeps_entities(core.entities.player_inventory, id);
        remove_keeps_entities(core.entities.player_selected_hotbar, id);
        remove_keeps_entities(core.entities.player_active_mining, id);
        assert(session_is_indexed(core, player_id));
        assert(player_is_whole(core, player_id));
        assert forall|p: PlayerId| #[trigger] player_is_whole(next, p) by {
            same_player(p, player_id);
            remove_laws(core.entities.players_by_player_id, player_id.id(), p.id());
            remove_laws(core.sessions.player_sessions, player_id.id(), p.id());
            assert(player_is_whole(core, p));
            if let Some(e) = next.entity(p) {
                same_entity(e, gone);
                if e == gone {
                    assert(identity_is_indexed(core, e));
                }
                remove_laws(core.entities.entity_kinds, id, e.id());
                remove_laws(core.entities.player_identity, id, e.id());
                remove_laws(core.entities.player_transform, id, e.id());
                remove_laws(core.entities.player_vitals, id, e.id());
                remove_laws(core.entities.player_inventory, id, e.id());
                remove_laws(core.entities.player_selected_hotbar, id, e.id());
            }
        }
        assert forall|e: EntityId| #[trigger] identity_is_indexed(next, e) by {
            same_entity(e, gone);
            remove_laws(core.entities.player_identity, id, e.id());
            assert(identity_is_indexed(core, e));
            if let Some(identity) = lookup(next.entities.player_identity, e.id()) {
                same_player(identity.player_id, player_id);
                remove_laws(
                    core.entities.players_by_player_id,
                    player_id.id(),
                    identity.player_id.id(),
                );
            }
        }
        assert forall|p: PlayerId| #[trigger] session_is_indexed(next, p) by {
            same_player(p, player_id);
            remove_laws(core.entities.players_by_player_id, player_id.id(), p.id());
            remove_laws(core.sessions.player_sessions, player_id.id(), p.id());
            assert(session_is_indexed(core, p));
        }
        assert forall|e: EntityId| #[trigger] item_is_item(next, e) by {
            same_entity(e, gone);
            assert(item_is_item(core, e));
            remove_laws(core.entities.entity_kinds, id, e.id());
        }
        let free = EntityId(core.entities.next_entity_id);
        same_entity(free, gone);
        remove_laws(core.entities.entity_kinds, id, free.id());
        consistent_means(next);
    }
}

/// Dropping items leaves a game together, where the number after the one they get is free.
pub proof fn dropping_keeps_consistency(core: CoreView, state: DroppedStateView)
    requires
        well_keyed(core),
        consistent(core),
        core.entities.next_entity_id < i32::MAX,
        !holds(
            core.entities.entity_kinds,
            EntityId((core.entities.next_entity_id + 1) as i32).id(),
        ),
    ensures
        well_keyed(with_dropped(core, state)),
        consistent(with_dropped(core, state)),
{
    let next = with_dropped(core, state);
    let added = EntityId(core.entities.next_entity_id);
    let id = added.id();
    consistent_means(core);
    insert_keeps_entities(core.entities.entity_kinds, added, EntityKind::DroppedItem);
    insert_keeps_entities(core.entities.dropped_items, added, state);
    assert forall|p: PlayerId| #[trigger] player_is_whole(next, p) by {
        assert(player_is_whole(core, p));
        if let Some(e) = core.entity(p) {
            same_entity(e, added);
            insert_laws(core.entities.entity_kinds, id, EntityKind::DroppedItem, e.id());
        }
    }
    assert forall|e: EntityId| #[trigger] identity_is_indexed(next, e) by {
        assert(identity_is_indexed(core, e));
    }
    assert forall|p: PlayerId| #[trigger] session_is_indexed(next, p) by {
        assert(session_is_indexed(core, p));
    }
    assert forall|e: EntityId| #[trigger] item_is_item(next, e) by {
        same_entity(e, added);
        assert(item_is_item(core, e));
        insert_laws(core.entities.entity_kinds, id, EntityKind::DroppedItem, e.id());
        insert_laws(core.entities.dropped_items, id, state, e.id());
    }
    let free = EntityId(next.entities.next_entity_id);
    same_entity(free, added);
    insert_laws(core.entities.entity_kinds, id, EntityKind::DroppedItem, free.id());
    consistent_means(next);
}

/// Whether two games have the same players, sessions and entities, whatever is kept of each.
spec fn same_shape(a: CoreView, b: CoreView) -> bool {
    &&& a.entities.players_by_player_id == b.entities.players_by_player_id
    &&& a.entities.entity_kinds == b.entities.entity_kinds
    &&& a.entities.player_identity == b.entities.player_identity
    &&& a.entities.dropped_items == b.entities.dropped_items
    &&& a.entities.next_entity_id == b.entities.next_entity_id
    &&& a.entities.player_vitals == b.entities.player_vitals
    &&& forall|id: Seq<int>| #[trigger]
        holds(b.entities.player_transform, id) || !holds(a.entities.player_transform, id)
    &&& forall|id: Seq<int>| #[trigger]
        holds(b.entities.player_inventory, id) || !holds(a.entities.player_inventory, id)
    &&& forall|id: Seq<int>| #[trigger]
        holds(b.entities.player_selected_hotbar, id) || !holds(
            a.entities.player_selected_hotbar,
            id,
        )
    &&& forall|p: PlayerId|
        match (#[trigger] a.session(p), b.session(p)) {
            (Some(x), Some(y)) => x.entity_id == y.entity_id,
            (None, None) => true,
            _ => false,
        }
}

proof fn same_shape_keeps_consistency(a: CoreView, b: CoreView)
    requires
        well_keyed(a),
        well_keyed(b),
        consistent(a),
        same_shape(a, b),
    ensures
        consistent(b),
{
    consistent_means(a);
    assert forall|p: PlayerId| #[trigger] player_is_whole(b, p) by {
        assert(player_is_whole(a, p));
        assert(match (a.session(p), b.session(p)) {
            (Some(x), Some(y)) => x.entity_id == y.entity_id,
            (None, None) => true,
            _ => false,
        });
        if let Some(e) = b.entity(p) {
            assert(holds(b.entities.player_transform, e.id()) || !holds(
                a.entities.player_transform,
                e.id(),
            ));
            assert(holds(b.entities.player_inventory, e.id()) || !holds(
                a.entities.player_inventory,
                e.id(),
            ));
            assert(holds(b.entities.player_selected_hotbar, e.id()) || !holds(
                a.entities.player_selected_hotbar,
                e.id(),
            ));
        }
    }
    assert forall|e: EntityId| #[trigger] identity_is_indexed(b, e) by {
        assert(identity_is_indexed(a, e));
    }
    assert forall|p: PlayerId| #[trigger] session_is_indexed(b, p) by {
        assert(session_is_indexed(a, p));
        assert(match (a.session(p), b.session(p)) {
            (Some(x), Some(y)) => x.entity_id == y.entity_id,
            (None, None) => true,
            _ => false,
        });
    }
    assert forall|e: EntityId| #[trigger] item_is_item(b, e) by {
        assert(item_is_item(a, e));
    }
    consistent_means(b);
}

proof fn insert_holds_more<W>(s: Entries<W>, id: Seq<int>, value: W)
    requires
        sorted(s),
    ensures
        forall|other: Seq<int>| #[trigger]
            holds(inserted(s, id, value), other) || !holds(s, other),
{
    assert forall|other: Seq<int>| #[trigger]
        holds(inserted(s, id, value), other) || !holds(s, other) by {
        insert_laws(s, id, value, other);
        assert(holds(s, other) == (lookup(s, other) is Some));
        assert(holds(inserted(s, id, value), other) == (lookup(
            inserted(s, id, value),
            other,
        ) is Some));
    }
}

proof fn session_replaced(core: CoreView, next: CoreView, player_id: PlayerId, session: SessionView)
    requires
        well_keyed(core),
        core.session(player_id) matches Some(before) && before.entity_id == session.entity_id,
        next.sessions.player_sessions == inserted(
            core.sessions.player_sessions,
            player_id.id(),
            session,
        ),
    ensures
        forall|p: PlayerId|
            match (#[trigger] core.session(p), next.session(p)) {
                (Some(x), Some(y)) => x.entity_id == y.entity_id,
                (None, None) => true,
                _ => false,
            },
{
    assert forall|p: PlayerId|
        match (#[trigger] core.session(p), next.session(p)) {
            (Some(x), Some(y)) => x.entity_id == y.entity_id,
            (None, None) => true,
            _ => false,
        } by {
        same_player(p, player_id);
        insert_laws(core.sessions.player_sessions, player_id.id(), session, p.id());
    }
}

/// Moving a player leaves a game together.
pub proof fn moving_keeps_consistency(
    core: CoreView,
    player_id: PlayerId,
    entity_id: EntityId,
    session: SessionView,
    transform: PlayerTransform,
)
    requires
        well_keyed(core),
        consistent(core),
        core.session(player_id) == Some(session),
    ensures
        well_keyed(with_pose(core, player_id, entity_id, session, transform)),
        consistent(with_pose(core, player_id, entity_id, session, transform)),
{
    let next = with_pose(core, player_id, entity_id, session, transform);
    let after = SessionView {
        view: sight(transform.chunk, session.view.view_distance),
        ..session
    };
    insert_keeps_players(core.sessions.player_sessions, player_id, after);
    insert_keeps_entities(core.entities.player_transform, entity_id, transform);
    insert_holds_more(core.entities.player_transform, entity_id.id(), transform);
    session_replaced(core, next, player_id, after);
    same_shape_keeps_consistency(core, next);
}

/// Putting another slot at hand leaves a game together.
pub proof fn selecting_keeps_consistency(core: CoreView, entity_id: EntityId, slot: u8)
    requires
        well_keyed(core),
        consistent(core),
    ensures
        well_keyed(with_selected_slot(core, entity_id, slot)),
        consistent(with_selected_slot(core, entity_id, slot)),
{
    let next = with_selected_slot(core, entity_id, slot);
    insert_keeps_entities(core.entities.player_selected_hotbar, entity_id, slot);
    insert_holds_more(core.entities.player_selected_hotbar, entity_id.id(), slot);
    same_shape_keeps_consistency(core, next);
}

/// Changing an inventory leaves a game together.
pub proof fn changing_inventory_keeps_consistency(
    core: CoreView,
    entity_id: EntityId,
    inventory: InventoryView,
)
    requires
        well_keyed(core),
        consistent(core),
    ensures
        well_keyed(with_inventory(core, entity_id, inventory)),
        consistent(with_inventory(core, entity_id, inventory)),
{
    let next = with_inventory(core, entity_id, inventory);
    insert_keeps_entities(core.entities.player_inventory, entity_id, inventory);
    insert_holds_more(core.entities.player_inventory, entity_id.id(), inventory);
    same_shape_keeps_consistency(core, next);
}

/// A click leaves a game together.
pub proof fn clicking_keeps_consistency(
    core: CoreView,
    player_id: PlayerId,
    session: SessionView,
    inventory: InventoryView,
)
    requires
        well_keyed(core),
        consistent(core),
        core.session(player_id) matches Some(before) && before.entity_id == session.entity_id,
    ensures
        well_keyed(with_session_and_inventory(core, player_id, session, inventory)),
        consistent(with_session_and_inventory(core, player_id, session, inventory)),
{
    let next = with_session_and_inventory(core, player_id, session, inventory);
    if let Some(entity_id) = core.entity(player_id) {
        insert_keeps_players(core.sessions.player_sessions, player_id, session);
        insert_keeps_entities(core.entities.player_inventory, entity_id, inventory);
        insert_holds_more(core.entities.player_inventory, entity_id.id(), inventory);
        session_replaced(core, next, player_id, session);
        same_shape_keeps_consistency(core, next);
    }
}

/// In a game whose parts belong together every player in the game is whole, and so can be put
/// together and told what there is to see.
pub proof fn consistent_players_are_composed(core: CoreView, player_id: PlayerId)
    requires
        well_keyed(core),
        consistent(core),
        core.entity(player_id) is Some,
    ensures
        core.session(player_id) is Some,
        core.player(player_id) is Some,
        core.player(player_id)->0.id == player_id,
{
    consistent_means(core);
    assert(player_is_whole(core, player_id));
}

/// Carrying out a click of a player leaves a game together.
pub proof fn player_click_keeps_consistency<B: ContentBehavior>(
    core: CoreView,
    behavior: B,
    player_id: PlayerId,
    transaction: InventoryTransactionContext,
    target: InventoryClickTarget,
    button: InventoryClickButton,
    validation: InventoryClickValidation,
)
    requires
        well_keyed(core),
        consistent(core),
    ensures
        consistent(
            player_click(
                core,
                behavior,
                player_id,
                transaction,
                target,
                button,
                validation,
            ).1,
        ),
{
    match (core.session(player_id), inventory_of(core, player_id)) {
        (Some(session), Some(inventory)) => {
            let (_, next_session, next_inventory) = window_click(
                behavior,
                session,
                inventory,
                transaction.window_id,
                target,
                button,
            );
            clicking_keeps_consistency(core, player_id, next_session, next_inventory);
        },
        _ => {},
    }
}

/// Keeping chunks changes nothing but the chunks of the world.
pub proof fn keeping_chunks_changes_the_world_alone<B: ContentBehavior>(
    core: CoreView,
    behavior: B,
    places: Seq<ChunkPos>,
)
    ensures
        with_chunks_kept(core, behavior, places).entities == core.entities,
        with_chunks_kept(core, behavior, places).sessions == core.sessions,
    decreases places.len(),
{
    if places.len() > 0 {
        keeping_chunks_changes_the_world_alone(core, behavior, places.drop_last());
    }
}

/// Carrying out a move of a player leaves a game together.
pub proof fn player_move_keeps_consistency<B: ContentBehavior>(
    core: CoreView,
    behavior: B,
    player_id: PlayerId,
    position: Option<(Vec3, ChunkPos)>,
    yaw: Option<OpaqueF32>,
    pitch: Option<OpaqueF32>,
    on_ground: bool,
)
    requires
        well_keyed(core),
        consistent(core),
    ensures
        consistent(pose(core, behavior, player_id, position, yaw, pitch, on_ground).1),
{
    match (core.entity(player_id), core.session(player_id)) {
        (Some(entity_id), Some(session)) => {
            let from = lookup(core.entities.player_transform, entity_id.id())->0;
            let to = moved(from, position, yaw, pitch, on_ground);
            let next = with_pose(core, player_id, entity_id, session, to);
            let after = sight(to.chunk, session.view.view_distance);
            moving_keeps_consistency(core, player_id, entity_id, session, to);
            keeping_chunks_changes_the_world_alone(
                next,
                behavior,
                difference(after.loaded, session.view.loaded),
            );
        },
        _ => {},
    }
}

} // verus!
