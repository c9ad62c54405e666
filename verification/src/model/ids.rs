//! Identifiers.

use crate::ordered::{lex_of_few, Key, Stored};
use vstd::prelude::*;

verus! {

/// A player, as the number that the sixteen bytes of the identifier spell.
#[derive(Clone, Copy, Debug, PartialEq, Eq, Structural, Hash)]
pub struct PlayerId(pub u128);

impl Key for PlayerId {
    open spec fn id(&self) -> Seq<int> {
        seq![self.0 as int]
    }

    fn precedes(&self, other: &Self) -> (result: bool) {
        proof {
            lex_of_few(self.0 as int, 0, 0, other.0 as int, 0, 0);
        }
        self.0 < other.0
    }
}

/// The player with a given identity.
pub open spec fn player_of(id: Seq<int>) -> PlayerId {
    PlayerId(id[0] as u128)
}

/// An entity of the world.
#[derive(Clone, Copy, Debug, PartialEq, Eq, Structural, Hash)]
pub struct EntityId(pub i32);

impl Key for EntityId {
    open spec fn id(&self) -> Seq<int> {
        seq![self.0 as int]
    }

    fn precedes(&self, other: &Self) -> (result: bool) {
        proof {
            lex_of_few(self.0 as int, 0, 0, other.0 as int, 0, 0);
        }
        self.0 < other.0
    }
}

/// The entity with a given identity.
pub open spec fn entity_of(id: Seq<int>) -> EntityId {
    EntityId(id[0] as i32)
}

impl View for EntityId {
    type V = EntityId;

    open spec fn view(&self) -> EntityId {
        *self
    }
}

impl Stored for EntityId {
    open spec fn sound(&self) -> bool {
        true
    }

    fn is_sound(&self) -> (result: bool) {
        true
    }

    fn replica(&self) -> (result: Self) {
        *self
    }
}

/// A connection of a client.
#[derive(Clone, Copy, Debug, PartialEq, Eq, Structural, Hash)]
pub struct ConnectionId(pub u64);

/// A generation of a plugin.
#[derive(Clone, Copy, Debug, PartialEq, Eq, Structural, Hash)]
pub struct PluginGenerationId(pub u64);

} // verus!
