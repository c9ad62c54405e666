//! A whole game, handed over from one process to the next.

use crate::game::session::SessionView;
use crate::game::state::{CoreView, ServerCore, SystemScheduler};
use crate::game::store::{
    DroppedStateView, EntitiesView, EntityKind, EntityStore, IdentityView, SessionStore,
    SessionsView, WorldStore,
};
use crate::model::ids::{entity_of, player_of, EntityId};
use crate::ordered::{holds, lookup, Key, Stored};
use crate::transfer::delta::{CoreRevision, CORE_TRANSFER_FORMAT_MAJOR};
use crate::transfer::fault::{CoreTransferError, StateFault};
use crate::transfer::version::CoreVersion;
use vstd::prelude::*;

verus! {

/// A revision of a game in bytes.
#[derive(Debug, PartialEq, Eq)]
pub struct CoreTransferSnapshot {
    pub revision: CoreRevision,
    pub bytes: Vec<u8>,
}

impl CoreTransferSnapshot {
    /// The revision.
    pub fn revision(&self) -> (result: CoreRevision)
        ensures
            result == self.revision,
    {
        self.revision
    }

    /// The bytes.
    pub fn bytes(&self) -> (result: &[u8])
        ensures
            result@ == self.bytes@,
    {
        self.bytes.as_slice()
    }

    /// The bytes.
    pub fn into_bytes(self) -> (result: Vec<u8>)
        ensures
            result == self.bytes,
    {
        self.bytes
    }
}

/// What is handed over of a game.
#[derive(Debug, PartialEq, Eq)]
pub struct CoreTransferSnapshotV1 {
    pub format_major: u16,
    pub revision: CoreRevision,
    pub world: WorldStore,
    pub entities: EntityStore,
    pub sessions: SessionStore,
}

/// The first fault among some things.
pub open spec fn first_fault<W>(items: Seq<W>, fault: spec_fn(W) -> Option<StateFault>) -> Option<
    StateFault,
>
    decreases items.len(),
{
    if items.len() == 0 {
        None
    } else {
        match first_fault(items.drop_last(), fault) {
            Some(found) => Some(found),
            None => fault(items.last()),
        }
    }
}

proof fn first_fault_stays<W>(items: Seq<W>, i: int, fault: spec_fn(W) -> Option<StateFault>)
    requires
        0 <= i < items.len(),
        first_fault(items.subrange(0, i), fault) is None,
    ensures
        first_fault(items.subrange(0, i + 1), fault) == fault(items[i]),
        fault(items[i]) is Some ==> first_fault(items, fault) == fault(items[i]),
    decreases items.len() - i,
{
    let more = items.subrange(0, i + 1);
    assert(more.drop_last() =~= items.subrange(0, i));
    assert(more.last() == items[i]);
    if fault(items[i]) is Some {
        fault_is_kept(items, i + 1, fault);
    }
}

proof fn fault_is_kept<W>(items: Seq<W>, n: int, fault: spec_fn(W) -> Option<StateFault>)
    requires
        0 <= n <= items.len(),
        first_fault(items.subrange(0, n), fault) is Some,
    ensures
        first_fault(items, fault) == first_fault(items.subrange(0, n), fault),
    decreases items.len() - n,
{
    if n < items.len() {
        let more = items.subrange(0, n + 1);
        assert(more.drop_last() =~= items.subrange(0, n));
        fault_is_kept(items, n + 1, fault);
    } else {
        assert(items.subrange(0, n) =~= items);
    }
}

proof fn no_fault_at_all<W>(items: Seq<W>, fault: spec_fn(W) -> Option<StateFault>)
    ensures
        first_fault(items.subrange(0, 0), fault) is None,
        first_fault(items.subrange(0, items.len() as int), fault) == first_fault(items, fault),
{
    assert(items.subrange(0, items.len() as int) =~= items);
}

/// There is no fault among things if and only if none of them has one.
pub proof fn no_fault_each<W>(items: Seq<W>, fault: spec_fn(W) -> Option<StateFault>)
    ensures
        first_fault(items, fault) is None <==> forall|i: int|
            0 <= i < items.len() ==> fault(#[trigger] items[i]) is None,
    decreases items.len(),
{
    if items.len() > 0 {
        let less = items.drop_last();
        no_fault_each(less, fault);
        if first_fault(items, fault) is None {
            assert forall|i: int| 0 <= i < items.len() implies fault(#[trigger] items[i]) is None by {
                if i < less.len() {
                    assert(less[i] == items[i]);
                }
            }
        } else if first_fault(less, fault) is None {
            assert(fault(items[items.len() - 1]) is Some);
        } else {
            let i = choose|i: int| 0 <= i < less.len() && fault(#[trigger] less[i]) is Some;
            assert(items[i] == less[i]);
        }
    }
}

/// What is wrong with a player: the entity has to be one of a player, known to be this player and
/// with all its parts, and the player's session has to have that entity.
pub open spec fn player_fault(entities: EntitiesView, sessions: SessionsView) -> spec_fn(
    (Seq<int>, EntityId),
) -> Option<StateFault> {
    |entry: (Seq<int>, EntityId)|
        {
            let player_id = player_of(entry.0);
            let entity_id = entry.1;
            let id = entity_id.id();
            if lookup(entities.entity_kinds, id) != Some(EntityKind::Player) {
                Some(StateFault::NonPlayerEntity { player_id, entity_id })
            } else if !(lookup(entities.player_identity, id) matches Some(identity)
                && identity.player_id == player_id) {
                Some(StateFault::NoIdentity { player_id, entity_id })
            } else if !holds(entities.player_transform, id) || !holds(entities.player_vitals, id)
                || !holds(entities.player_inventory, id) || !holds(
                entities.player_selected_hotbar,
                id,
            ) {
                Some(StateFault::NoComponent { entity_id })
            } else if !(lookup(sessions.player_sessions, player_id.id()) matches Some(session)
                && session.entity_id == entity_id) {
                Some(StateFault::NoSession { player_id })
            } else {
                None
            }
        }
}

/// What is wrong with an entity that is known to be a player: it has to be that player's.
pub open spec fn identity_fault(entities: EntitiesView) -> spec_fn(
    (Seq<int>, IdentityView),
) -> Option<StateFault> {
    |entry: (Seq<int>, IdentityView)|
        {
            let entity_id = entity_of(entry.0);
            if lookup(entities.players_by_player_id, entry.1.player_id.id()) != Some(entity_id) {
                Some(StateFault::IdentityNotIndexed { entity_id })
            } else {
                None
            }
        }
}

/// What is wrong with a session: its entity has to be the player's.
pub open spec fn session_fault(entities: EntitiesView) -> spec_fn(
    (Seq<int>, SessionView),
) -> Option<StateFault> {
    |entry: (Seq<int>, SessionView)|
        {
            let player_id = player_of(entry.0);
            if lookup(entities.players_by_player_id, player_id.id()) != Some(entry.1.entity_id) {
                Some(StateFault::SessionNotIndexed { player_id })
            } else {
                None
            }
        }
}

/// What is wrong with items: their entity has to be one of items.
pub open spec fn item_fault(entities: EntitiesView) -> spec_fn(
    (Seq<int>, DroppedStateView),
) -> Option<StateFault> {
    |entry: (Seq<int>, DroppedStateView)|
        {
            let entity_id = entity_of(entry.0);
            if lookup(entities.entity_kinds, entity_id.id()) != Some(EntityKind::DroppedItem) {
                Some(StateFault::NoItemEntity { entity_id })
            } else {
                None
            }
        }
}

/// What is wrong with a game, if anything is: the first fault among the players, then among the
/// entities known to be players, the sessions and the items; and the next number has to be free.
pub open spec fn state_fault(entities: EntitiesView, sessions: SessionsView) -> Option<StateFault> {
    match first_fault(entities.players_by_player_id, player_fault(entities, sessions)) {
        Some(fault) => Some(fault),
        None => match first_fault(entities.player_identity, identity_fault(entities)) {
            Some(fault) => Some(fault),
            None => match first_fault(sessions.player_sessions, session_fault(entities)) {
                Some(fault) => Some(fault),
                None => match first_fault(entities.dropped_items, item_fault(entities)) {
                    Some(fault) => Some(fault),
                    None => if holds(
                        entities.entity_kinds,
                        EntityId(entities.next_entity_id).id(),
                    ) {
                        Some(StateFault::NextEntityOccupied)
                    } else {
                        None
                    },
                },
            },
        },
    }
}

/// Whether the parts of a game belong together.
pub open spec fn consistent(core: CoreView) -> bool {
    state_fault(core.entities, core.sessions) is None
}

/// The revision and the game that were handed over, or why they are not taken.
pub open spec fn imported(format_major: u16, revision: CoreRevision, core: CoreView) -> Result<
    (CoreRevision, CoreView),
    CoreTransferError,
> {
    if format_major != 1 {
        Err(CoreTransferError::UnsupportedFormat { major: format_major })
    } else {
        match state_fault(core.entities, core.sessions) {
            Some(fault) => Err(CoreTransferError::InvalidState(fault)),
            None => Ok((revision, core)),
        }
    }
}

impl View for CoreTransferSnapshotV1 {
    type V = CoreView;

    open spec fn view(&self) -> CoreView {
        CoreView { world: self.world@, entities: self.entities@, sessions: self.sessions@ }
    }
}

/// What is handed over of a game whose parts belong together is taken, and gives back the same
/// revision and the same game.
pub proof fn handover_gives_back(revision: CoreRevision, core: CoreView)
    requires
        consistent(core),
    ensures
        imported(1, revision, core) == Ok::<(CoreRevision, CoreView), CoreTransferError>(
            (revision, core),
        ),
{
}

impl CoreTransferSnapshotV1 {
    /// Whether all data stands in order.
    pub open spec fn wf(&self) -> bool {
        self.world.sound() && self.entities.sound() && self.sessions.sound()
    }

    /// Whether all data stands in order.
    pub fn is_wf(&self) -> (result: bool)
        ensures
            result == self.wf(),
    {
        self.world.is_sound() && self.entities.is_sound() && self.sessions.is_sound()
    }

    /// What is handed over of a revision.
    pub fn from_version(version: &CoreVersion) -> (result: Self)
        requires
            version.state.sound(),
        ensures
            result.wf(),
            result.format_major == 1,
            result.revision == version.revision,
            result@ == version.state@,
    {
        CoreTransferSnapshotV1 {
            format_major: CORE_TRANSFER_FORMAT_MAJOR,
            revision: version.revision,
            world: version.state.world.replica(),
            entities: version.state.entities.replica(),
            sessions: version.state.sessions.replica(),
        }
    }

    fn validate_players(&self) -> (result: Result<(), CoreTransferError>)
        requires
            self.wf(),
        ensures
            result == match first_fault(
                self.entities@.players_by_player_id,
                player_fault(self.entities@, self.sessions@),
            ) {
                Some(fault) => Err::<(), CoreTransferError>(CoreTransferError::InvalidState(fault)),
                None => Ok(()),
            },
    {
        let ghost all = self.entities@.players_by_player_id;
        let ghost fault = player_fault(self.entities@, self.sessions@);
        let mut i: usize = 0;
        proof {
            no_fault_at_all(all, fault);
        }
        while i < self.entities.players_by_player_id.len()
            invariant
                self.wf(),
                all == self.entities.players_by_player_id@,
                fault == player_fault(self.entities@, self.sessions@),
                i <= all.len(),
                first_fault(all.subrange(0, i as int), fault) is None,
            decreases all.len() - i,
        {
            let player_id = *self.entities.players_by_player_id.key(i);
            let entity_id = *self.entities.players_by_player_id.at(i);
            proof {
                first_fault_stays(all, i as int, fault);
                assert(player_of(all[i as int].0) == player_id);
            }
            let is_player = match self.entities.entity_kinds.look(&entity_id) {
                Some(kind) => *kind == EntityKind::Player,
                None => false,
            };
            if !is_player {
                return Err(
                    CoreTransferError::InvalidState(
                        StateFault::NonPlayerEntity { player_id, entity_id },
                    ),
                );
            }
            let is_known = match self.entities.player_identity.look(&entity_id) {
                Some(identity) => identity.player_id == player_id,
                None => false,
            };
            if !is_known {
                return Err(
                    CoreTransferError::InvalidState(
                        StateFault::NoIdentity { player_id, entity_id },
                    ),
                );
            }
            if !self.entities.player_transform.contains(&entity_id)
                || !self.entities.player_vitals.contains(&entity_id)
                || !self.entities.player_inventory.contains(&entity_id)
                || !self.entities.player_selected_hotbar.contains(&entity_id) {
                return Err(CoreTransferError::InvalidState(StateFault::NoComponent { entity_id }));
            }
            let has_session = match self.sessions.player_sessions.look(&player_id) {
                Some(session) => session.entity_id == entity_id,
                None => false,
            };
            if !has_session {
                return Err(CoreTransferError::InvalidState(StateFault::NoSession { player_id }));
            }
            i += 1;
        }
        proof {
            no_fault_at_all(all, fault);
        }
        Ok(())
    }

    fn validate_identities(&self) -> (result: Result<(), CoreTransferError>)
        requires
            self.wf(),
        ensures
            result == match first_fault(
                self.entities@.player_identity,
                identity_fault(self.entities@),
            ) {
                Some(fault) => Err::<(), CoreTransferError>(CoreTransferError::InvalidState(fault)),
                None => Ok(()),
            },
    {
        let ghost all = self.entities@.player_identity;
        let ghost fault = identity_fault(self.entities@);
        let mut i: usize = 0;
        proof {
            no_fault_at_all(all, fault);
        }
        while i < self.entities.player_identity.len()
            invariant
                self.wf(),
                all == self.entities.player_identity@,
                fault == identity_fault(self.entities@),
                i <= all.len(),
                first_fault(all.subrange(0, i as int), fault) is None,
            decreases all.len() - i,
        {
            let entity_id = *self.entities.player_identity.key(i);
            let identity = self.entities.player_identity.at(i);
            proof {
                first_fault_stays(all, i as int, fault);
                assert(entity_of(all[i as int].0) == entity_id);
            }
            let is_indexed = match self.entities.players_by_player_id.look(&identity.player_id) {
                Some(found) => *found == entity_id,
                None => false,
            };
            if !is_indexed {
                return Err(
                    CoreTransferError::InvalidState(StateFault::IdentityNotIndexed { entity_id }),
                );
            }
            i += 1;
        }
        proof {
            no_fault_at_all(all, fault);
        }
        Ok(())
    }

    fn validate_sessions(&self) -> (result: Result<(), CoreTransferError>)
        requires
            self.wf(),
        ensures
            result == match first_fault(
                self.sessions@.player_sessions,
                session_fault(self.entities@),
            ) {
                Some(fault) => Err::<(), CoreTransferError>(CoreTransferError::InvalidState(fault)),
                None => Ok(()),
            },
    {
        let ghost all = self.sessions@.player_sessions;
        let ghost fault = session_fault(self.entities@);
        let mut i: usize = 0;
        proof {
            no_fault_at_all(all, fault);
        }
        while i < self.sessions.player_sessions.len()
            invariant
                self.wf(),
                all == self.sessions.player_sessions@,
                fault == session_fault(self.entities@),
                i <= all.len(),
                first_fault(all.subrange(0, i as int), fault) is None,
            decreases all.len() - i,
        {
            let player_id = *self.sessions.player_sessions.key(i);
            let session = self.sessions.player_sessions.at(i);
            proof {
                first_fault_stays(all, i as int, fault);
                assert(player_of(all[i as int].0) == player_id);
            }
            let is_indexed = match self.entities.players_by_player_id.look(&player_id) {
                Some(found) => *found == session.entity_id,
                None => false,
            };
            if !is_indexed {
                return Err(
                    CoreTransferError::InvalidState(StateFault::SessionNotIndexed { player_id }),
                );
            }
            i += 1;
        }
        proof {
            no_fault_at_all(all, fault);
        }
        Ok(())
    }

    fn validate_items(&self) -> (result: Result<(), CoreTransferError>)
        requires
            self.wf(),
        ensures
            result == match first_fault(
                self.entities@.dropped_items,
                item_fault(self.entities@),
            ) {
                Some(fault) => Err::<(), CoreTransferError>(CoreTransferError::InvalidState(fault)),
                None => Ok(()),
            },
    {
        let ghost all = self.entities@.dropped_items;
        let ghost fault = item_fault(self.entities@);
        let mut i: usize = 0;
        proof {
            no_fault_at_all(all, fault);
        }
        while i < self.entities.dropped_items.len()
            invariant
                self.wf(),
                all == self.entities.dropped_items@,
                fault == item_fault(self.entities@),
                i <= all.len(),
                first_fault(all.subrange(0, i as int), fault) is None,
            decreases all.len() - i,
        {
            let entity_id = *self.entities.dropped_items.key(i);
            proof {
                first_fault_stays(all, i as int, fault);
                assert(entity_of(all[i as int].0) == entity_id);
            }
            let is_item = match self.entities.entity_kinds.look(&entity_id) {
                Some(kind) => *kind == EntityKind::DroppedItem,
                None => false,
            };
            if !is_item {
                return Err(
                    CoreTransferError::InvalidState(StateFault::NoItemEntity { entity_id }),
                );
            }
            i += 1;
        }
        proof {
            no_fault_at_all(all, fault);
        }
        Ok(())
    }

    /// Checks that the parts of the game belong together.
    pub fn validate(&self) -> (result: Result<(), CoreTransferError>)
        requires
            self.wf(),
        ensures
            result == match state_fault(self.entities@, self.sessions@) {
                Some(fault) => Err::<(), CoreTransferError>(CoreTransferError::InvalidState(fault)),
                None => Ok(()),
            },
    {
        self.validate_players()?;
        self.validate_identities()?;
        self.validate_sessions()?;
        self.validate_items()?;
        if self.entities.entity_kinds.contains(&EntityId(self.entities.next_entity_id)) {
            return Err(CoreTransferError::InvalidState(StateFault::NextEntityOccupied));
        }
        Ok(())
    }

    /// The revision that was handed over.
    pub fn into_version(self) -> (result: Result<CoreVersion, CoreTransferError>)
        requires
            self.wf(),
        ensures
            match result {
                Ok(version) => imported(self.format_major, self.revision, self@) == Ok::<
                    (CoreRevision, CoreView),
                    CoreTransferError,
                >((version.revision, version.state@)) && version.state.sound(),
                Err(e) => imported(self.format_major, self.revision, self@) == Err::<
                    (CoreRevision, CoreView),
                    CoreTransferError,
                >(e),
            },
    {
        if self.format_major != CORE_TRANSFER_FORMAT_MAJOR {
            return Err(CoreTransferError::UnsupportedFormat { major: self.format_major });
        }
        self.validate()?;
        Ok(
            CoreVersion {
                revision: self.revision,
                state: ServerCore {
                    world: self.world,
                    entities: self.entities,
                    sessions: self.sessions,
                    scheduler: SystemScheduler,
                },
            },
        )
    }
}

} // verus!
