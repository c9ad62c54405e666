//! Why a game cannot be handed over.

use crate::bytes::{be, be_halves, be_len, pow256_values, push_be};
use crate::model::ids::{EntityId, PlayerId};
use crate::text::{
    append_decimal, append_hex_byte, append_signed_decimal, decimal, hex_byte, signed_decimal,
};
use vstd::prelude::*;
use vstd::string::*;

verus! {

/// The hexadecimal rendering of some bytes.
pub open spec fn hex_bytes(bytes: Seq<u8>) -> Seq<char>
    decreases bytes.len(),
{
    if bytes.len() == 0 {
        Seq::empty()
    } else {
        hex_bytes(bytes.drop_last()) + hex_byte(bytes.last())
    }
}

fn append_hex_bytes(out: &mut String, bytes: &Vec<u8>, from: usize, to: usize)
    requires
        from <= to <= bytes@.len(),
    ensures
        final(out)@ == old(out)@ + hex_bytes(bytes@.subrange(from as int, to as int)),
{
    let mut i: usize = from;
    proof {
        assert(bytes@.subrange(from as int, from as int) =~= Seq::empty());
        assert(out@ + Seq::<char>::empty() =~= out@);
    }
    while i < to
        invariant
            from <= i <= to <= bytes@.len(),
            out@ == old(out)@ + hex_bytes(bytes@.subrange(from as int, i as int)),
        decreases to - i,
    {
        append_hex_byte(out, bytes[i]);
        proof {
            let done = bytes@.subrange(from as int, i as int);
            let more = bytes@.subrange(from as int, i + 1);
            assert(more.drop_last() =~= done);
            assert(more.last() == bytes@[i as int]);
            assert(out@ =~= old(out)@ + hex_bytes(more));
        }
        i += 1;
    }
}

/// The identifier of a player as text: groups of hexadecimal digits with hyphens between.
pub open spec fn player_text(player_id: PlayerId) -> Seq<char> {
    let bytes = be(player_id.0 as nat, 16);
    "PlayerId("@ + hex_bytes(bytes.subrange(0, 4)) + "-"@ + hex_bytes(bytes.subrange(4, 6)) + "-"@
        + hex_bytes(bytes.subrange(6, 8)) + "-"@ + hex_bytes(bytes.subrange(8, 10)) + "-"@
        + hex_bytes(bytes.subrange(10, 16)) + ")"@
}

fn append_player(out: &mut String, player_id: PlayerId)
    ensures
        final(out)@ == old(out)@ + player_text(player_id),
{
    broadcast use pow256_values, be_len;

    let high: u64 = (player_id.0 / 0x1_0000_0000_0000_0000) as u64;
    let low: u64 = (player_id.0 % 0x1_0000_0000_0000_0000) as u64;
    proof {
        be_halves(high as nat, low as nat);
        assert(high as nat * 0x1_0000_0000_0000_0000 + low as nat == player_id.0 as nat);
    }
    let mut bytes: Vec<u8> = Vec::new();
    push_be(&mut bytes, high, 8);
    push_be(&mut bytes, low, 8);
    assert(bytes@ =~= be(player_id.0 as nat, 16));
    out.append("PlayerId(");
    append_hex_bytes(out, &bytes, 0, 4);
    out.append("-");
    append_hex_bytes(out, &bytes, 4, 6);
    out.append("-");
    append_hex_bytes(out, &bytes, 6, 8);
    out.append("-");
    append_hex_bytes(out, &bytes, 8, 10);
    out.append("-");
    append_hex_bytes(out, &bytes, 10, 16);
    out.append(")");
    assert(out@ =~= old(out)@ + player_text(player_id));
}

/// The identifier of an entity as text.
pub open spec fn entity_text(entity_id: EntityId) -> Seq<char> {
    "EntityId("@ + signed_decimal(entity_id.0 as int) + ")"@
}

fn append_entity(out: &mut String, entity_id: EntityId)
    ensures
        final(out)@ == old(out)@ + entity_text(entity_id),
{
    out.append("EntityId(");
    append_signed_decimal(out, entity_id.0 as i64);
    out.append(")");
    assert(out@ =~= old(out)@ + entity_text(entity_id));
}

/// What is wrong with a game or with what was handed over of it.
#[derive(Clone, Copy, Debug, PartialEq, Eq, Structural)]
pub enum StateFault {
    /// A commit does not follow the one before it.
    CommitNotAdjacent { base: u64, next: u64, expected: u64 },
    /// A delta does not start as one.
    DeltaMagic,
    /// A delta ends within its header.
    DeltaHeaderTruncated,
    /// A delta ends within a frame.
    DeltaFrameTruncated,
    /// A delta starts at another revision.
    DeltaBase { base: u64, imported: u64 },
    /// A commit in a delta does not follow the one before it.
    DeltaCommitNotAdjacent { base: u64, next: u64, revision: u64 },
    /// A delta ends at another revision than it says.
    DeltaEnd { reached: u64, declared: u64 },
    /// What was committed cannot be done again.
    GameplayConflict,
    /// What was committed for a player who joined cannot be done again.
    LoginConflict,
    /// The entity of a player is none of a player.
    NonPlayerEntity { player_id: PlayerId, entity_id: EntityId },
    /// The entity of a player is not known to be the player.
    NoIdentity { player_id: PlayerId, entity_id: EntityId },
    /// A part of the entity of a player is missing.
    NoComponent { entity_id: EntityId },
    /// A player has no session with the right entity.
    NoSession { player_id: PlayerId },
    /// An entity is known to be a player who has another entity or none.
    IdentityNotIndexed { entity_id: EntityId },
    /// A session has an entity that the player has not.
    SessionNotIndexed { player_id: PlayerId },
    /// The entity of items is none of items.
    NoItemEntity { entity_id: EntityId },
    /// The next number for an entity is taken.
    NextEntityOccupied,
}

impl StateFault {
    /// The text of the fault.
    pub open spec fn spec_message(self) -> Seq<char> {
        match self {
            StateFault::CommitNotAdjacent {
                base,
                next,
                expected,
            } => "core transfer commit "@ + decimal(base as nat) + " -> "@ + decimal(
                next as nat,
            ) + " is not adjacent to revision "@ + decimal(expected as nat),
            StateFault::DeltaMagic => "core delta magic is invalid"@,
            StateFault::DeltaHeaderTruncated => "core delta header is truncated"@,
            StateFault::DeltaFrameTruncated => "core delta frame is truncated"@,
            StateFault::DeltaBase { base, imported } => "core delta base revision "@ + decimal(
                base as nat,
            ) + " does not match imported revision "@ + decimal(imported as nat),
            StateFault::DeltaCommitNotAdjacent {
                base,
                next,
                revision,
            } => "core delta commit "@ + decimal(base as nat) + " -> "@ + decimal(
                next as nat,
            ) + " is not adjacent to revision "@ + decimal(revision as nat),
            StateFault::DeltaEnd {
                reached,
                declared,
            } => "core delta ended at revision "@ + decimal(
                reached as nat,
            ) + " instead of declared revision "@ + decimal(declared as nat),
            StateFault::GameplayConflict => {
                "committed gameplay effects conflicted during core delta replay"@
            },
            StateFault::LoginConflict => {
                "committed login effects conflicted during core delta replay"@
            },
            StateFault::NonPlayerEntity { player_id, entity_id } => "player "@ + player_text(
                player_id,
            ) + " references non-player entity "@ + entity_text(entity_id),
            StateFault::NoIdentity { player_id, entity_id } => "player "@ + player_text(
                player_id,
            ) + " has no matching identity for entity "@ + entity_text(entity_id),
            StateFault::NoComponent { entity_id } => "player entity "@ + entity_text(
                entity_id,
            ) + " is missing a required component"@,
            StateFault::NoSession { player_id } => "player "@ + player_text(
                player_id,
            ) + " has no matching live session"@,
            StateFault::IdentityNotIndexed {
                entity_id,
            } => "player identity for entity "@ + entity_text(entity_id) + " is not indexed"@,
            StateFault::SessionNotIndexed { player_id } => "session for player "@ + player_text(
                player_id,
            ) + " is not indexed by its entity"@,
            StateFault::NoItemEntity { entity_id } => "dropped item "@ + entity_text(
                entity_id,
            ) + " has no dropped-item entity kind"@,
            StateFault::NextEntityOccupied => "next entity id is already occupied"@,
        }
    }

    /// The text of the fault.
    pub fn message(self) -> (text: String)
        ensures
            text@ == self.spec_message(),
    {
        match self {
            StateFault::CommitNotAdjacent { base, next, expected } => {
                let mut text = "core transfer commit ".to_string();
                append_decimal(&mut text, base);
                text.append(" -> ");
                append_decimal(&mut text, next);
                text.append(" is not adjacent to revision ");
                append_decimal(&mut text, expected);
                text
            },
            StateFault::DeltaMagic => "core delta magic is invalid".to_string(),
            StateFault::DeltaHeaderTruncated => "core delta header is truncated".to_string(),
            StateFault::DeltaFrameTruncated => "core delta frame is truncated".to_string(),
            StateFault::DeltaBase { base, imported } => {
                let mut text = "core delta base revision ".to_string();
                append_decimal(&mut text, base);
                text.append(" does not match imported revision ");
                append_decimal(&mut text, imported);
                text
            },
            StateFault::DeltaCommitNotAdjacent { base, next, revision } => {
                let mut text = "core delta commit ".to_string();
                append_decimal(&mut text, base);
                text.append(" -> ");
                append_decimal(&mut text, next);
                text.append(" is not adjacent to revision ");
                append_decimal(&mut text, revision);
                text
            },
            StateFault::DeltaEnd { reached, declared } => {
                let mut text = "core delta ended at revision ".to_string();
                append_decimal(&mut text, reached);
                text.append(" instead of declared revision ");
                append_decimal(&mut text, declared);
                text
            },
            StateFault::GameplayConflict => {
                "committed gameplay effects conflicted during core delta replay".to_string()
            },
            StateFault::LoginConflict => {
                "committed login effects conflicted during core delta replay".to_string()
            },
            StateFault::NonPlayerEntity { player_id, entity_id } => {
                let mut text = "player ".to_string();
                append_player(&mut text, player_id);
                text.append(" references non-player entity ");
                append_entity(&mut text, entity_id);
                text
            },
            StateFault::NoIdentity { player_id, entity_id } => {
                let mut text = "player ".to_string();
                append_player(&mut text, player_id);
                text.append(" has no matching identity for entity ");
                append_entity(&mut text, entity_id);
                text
            },
            StateFault::NoComponent { entity_id } => {
                let mut text = "player entity ".to_string();
                append_entity(&mut text, entity_id);
                text.append(" is missing a required component");
                text
            },
            StateFault::NoSession { player_id } => {
                let mut text = "player ".to_string();
                append_player(&mut text, player_id);
                text.append(" has no matching live session");
                text
            },
            StateFault::IdentityNotIndexed { entity_id } => {
                let mut text = "player identity for entity ".to_string();
                append_entity(&mut text, entity_id);
                text.append(" is not indexed");
                text
            },
            StateFault::SessionNotIndexed { player_id } => {
                let mut text = "session for player ".to_string();
                append_player(&mut text, player_id);
                text.append(" is not indexed by its entity");
                text
            },
            StateFault::NoItemEntity { entity_id } => {
                let mut text = "dropped item ".to_string();
                append_entity(&mut text, entity_id);
                text.append(" has no dropped-item entity kind");
                text
            },
            StateFault::NextEntityOccupied => "next entity id is already occupied".to_string(),
        }
    }
}

/// Why a game cannot be handed over.
#[derive(Debug, PartialEq, Eq)]
pub enum CoreTransferError {
    /// A payload could not be written or read.
    Codec(String),
    /// A payload is too long.
    BudgetExceeded { actual: usize, limit: usize },
    /// There was no memory.
    Allocation { requested: usize },
    /// A payload could not be put out.
    Output(String),
    /// Something follows a payload.
    TrailingBytes { remaining: usize },
    /// A payload is in another format.
    UnsupportedFormat { major: u16 },
    /// A game, or what was handed over of it, is not what it should be.
    InvalidState(StateFault),
}

impl CoreTransferError {
    /// The text of the error.
    pub open spec fn spec_message(&self) -> Seq<char> {
        match self {
            CoreTransferError::Codec(text) => "core transfer payload codec failed: "@ + text@,
            CoreTransferError::BudgetExceeded { actual, limit } =>
                "core transfer payload length "@ + decimal(*actual as nat) + " exceeds limit "@
                    + decimal(*limit as nat),
            CoreTransferError::Allocation { requested } => "core transfer allocation of "@
                + decimal(*requested as nat) + " bytes failed"@,
            CoreTransferError::Output(text) => "core transfer output failed: "@ + text@,
            CoreTransferError::TrailingBytes { remaining } => "core transfer payload contains "@
                + decimal(*remaining as nat) + " trailing bytes"@,
            CoreTransferError::UnsupportedFormat { major } => "core transfer format major "@
                + decimal(*major as nat) + " is unsupported"@,
            CoreTransferError::InvalidState(fault) => "core transfer state is invalid: "@
                + fault.spec_message(),
        }
    }

    /// The text of the error.
    pub fn message(&self) -> (text: String)
        ensures
            text@ == self.spec_message(),
    {
        match self {
            CoreTransferError::Codec(reason) => {
                let mut text = "core transfer payload codec failed: ".to_string();
                text.append(reason.as_str());
                text
            },
            CoreTransferError::BudgetExceeded { actual, limit } => {
                let mut text = "core transfer payload length ".to_string();
                append_decimal(&mut text, *actual as u64);
                text.append(" exceeds limit ");
                append_decimal(&mut text, *limit as u64);
                text
            },
            CoreTransferError::Allocation { requested } => {
                let mut text = "core transfer allocation of ".to_string();
                append_decimal(&mut text, *requested as u64);
                text.append(" bytes failed");
                text
            },
            CoreTransferError::Output(reason) => {
                let mut text = "core transfer output failed: ".to_string();
                text.append(reason.as_str());
                text
            },
            CoreTransferError::TrailingBytes { remaining } => {
                let mut text = "core transfer payload contains ".to_string();
                append_decimal(&mut text, *remaining as u64);
                text.append(" trailing bytes");
                text
            },
            CoreTransferError::UnsupportedFormat { major } => {
                let mut text = "core transfer format major ".to_string();
                append_decimal(&mut text, *major as u64);
                text.append(" is unsupported");
                text
            },
            CoreTransferError::InvalidState(fault) => {
                let mut text = "core transfer state is invalid: ".to_string();
                text.append(fault.message().as_str());
                text
            },
        }
    }
}

} // verus!
