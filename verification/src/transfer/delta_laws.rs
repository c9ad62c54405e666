//! What sealed deltas are, byte for byte, and what is taken of what is handed over.

use crate::bytes::{from_le, from_le_of_le, le, le_len, pow256_values};
use crate::game::state::CoreView;
use crate::game::store::EntityKind;
use crate::ordered::{holds, lookup, lookup_entry, Key};
use crate::model::ids::{entity_of, player_of, EntityId};
use crate::transfer::consistency::{belongs_together, consistent_means, well_keyed};
use crate::transfer::delta::{
    after_commits, delta_bytes, described, frames_from, next_frame_of, replay_end, replay_start,
    revision_after, CoreRevision, EncodedCoreTransferCommit, ReplayView,
};
use crate::transfer::fault::{CoreTransferError, StateFault};
use crate::transfer::handover::{
    first_fault, identity_fault, imported, item_fault, player_fault, session_fault, state_fault,
};
use crate::transfer::payload::{taken, write_failure, BoundedTransferWriter, TransferWriteFailure};
use crate::transfer::version::{
    commit_limit, made_again, CoreTransferMutation, GameplayEffectApplyResult,
};
use vstd::prelude::*;

verus! {

/// The revision that commits start from: the one before the first, or the one that the commit
/// before led to.
pub open spec fn revision_before(
    base: CoreRevision,
    commits: Seq<EncodedCoreTransferCommit>,
    i: int,
) -> CoreRevision {
    if i == 0 {
        base
    } else {
        commits[i - 1].next_revision
    }
}

/// Whether a commit follows the one before it and leads one revision further; the last revision
/// there can be leads to itself.
pub open spec fn follows(
    base: CoreRevision,
    commits: Seq<EncodedCoreTransferCommit>,
    i: int,
) -> bool {
    let from = commits[i].base_revision.0;
    let to = commits[i].next_revision.0;
    &&& from == revision_before(base, commits, i).0
    &&& to == from + 1 || (from == u64::MAX && to == u64::MAX)
}

/// How many bytes the first commits take, each behind four bytes of its length.
pub open spec fn bytes_of_first(commits: Seq<EncodedCoreTransferCommit>, n: int) -> nat
    decreases n,
{
    if n <= 0 {
        0
    } else {
        bytes_of_first(commits, n - 1) + 4 + commits[n - 1].bytes@.len()
    }
}

proof fn first_bytes_are_fewer(commits: Seq<EncodedCoreTransferCommit>, m: int, n: int)
    requires
        0 <= m <= n,
    ensures
        bytes_of_first(commits, m) <= bytes_of_first(commits, n),
    decreases n - m,
{
    if m < n {
        first_bytes_are_fewer(commits, m, n - 1);
    }
}

proof fn first_commits(base: CoreRevision, commits: Seq<EncodedCoreTransferCommit>, n: nat)
    requires
        n <= commits.len(),
    ensures
        after_commits(base, commits, n) is Ok <==> {
            &&& n <= 16_384
            &&& forall|i: int| 0 <= i < n ==> #[trigger] follows(base, commits, i)
            &&& n > 0 ==> 30 + bytes_of_first(commits, n as int) <= usize::MAX
        },
        after_commits(base, commits, n) matches Ok((revision, length)) ==> revision
            == revision_before(base, commits, n as int) && length == 30 + bytes_of_first(
            commits,
            n as int,
        ),
    decreases n,
{
    if n > 0 {
        first_commits(base, commits, (n - 1) as nat);
        first_bytes_are_fewer(commits, n - 1, n as int);
        let last = follows(base, commits, n - 1);
        if after_commits(base, commits, n) is Ok {
            assert(last);
            assert forall|i: int| 0 <= i < n implies #[trigger] follows(base, commits, i) by {
                if i < n - 1 {
                    assert(follows(base, commits, i));
                }
            }
        }
    }
}

/// Commits make a delta if and only if each follows the one before it, there are at most 16384 of
/// them, and the delta takes at most 512 MiB. It leads from the revision before the first commit to
/// the one after the last, and its length is that of its header and of its commits with their
/// lengths.
pub proof fn commits_make_a_delta(base: CoreRevision, commits: Seq<EncodedCoreTransferCommit>)
    ensures
        described(base, commits) is Ok <==> {
            &&& commits.len() <= 16_384
            &&& forall|i: int| 0 <= i < commits.len() ==> #[trigger] follows(base, commits, i)
            &&& 30 + bytes_of_first(commits, commits.len() as int) <= 536_870_912
        },
        described(base, commits) matches Ok(delta) ==> {
            &&& delta.base_revision == base
            &&& delta.final_revision == revision_before(base, commits, commits.len() as int)
            &&& delta.encoded_len == 30 + bytes_of_first(commits, commits.len() as int)
        },
{
    first_commits(base, commits, commits.len());
}

/// A sealed delta starts with eight letters, then the format one, the revision that it leads from,
/// the revision that it leads to and the number of its commits, least significant byte first. Its
/// commits follow.
pub proof fn delta_is_laid_out(
    base: CoreRevision,
    last: CoreRevision,
    commits: Seq<EncodedCoreTransferCommit>,
)
    requires
        commits.len() <= 16_384,
    ensures
        ({
            let s = delta_bytes(base, last, commits);
            &&& s.len() >= 30
            &&& s[0] == 0x52 && s[1] == 0x56 && s[2] == 0x43 && s[3] == 0x44
            &&& s[4] == 0x43 && s[5] == 0x4f && s[6] == 0x52 && s[7] == 0x45
            &&& s[8] == 1 && s[9] == 0
            &&& from_le(s.subrange(10, 18)) == base.0
            &&& from_le(s.subrange(18, 26)) == last.0
            &&& s[26] + 256 * s[27] == commits.len()
            &&& s[28] == 0 && s[29] == 0
            &&& s.subrange(30, s.len() as int) == frames_from(commits, 0)
        }),
{
    broadcast use le_len, pow256_values;

    let s = delta_bytes(base, last, commits);
    from_le_of_le(1, 2);
    from_le_of_le(base.0 as nat, 8);
    from_le_of_le(last.0 as nat, 8);
    from_le_of_le(commits.len(), 4);
    assert(s.subrange(10, 18) =~= le(base.0 as nat, 8));
    assert(s.subrange(18, 26) =~= le(last.0 as nat, 8));
    assert(s.subrange(30, s.len() as int) =~= frames_from(commits, 0));
    let major = le(1, 2);
    let count = le(commits.len(), 4);
    assert(s.subrange(8, 10) =~= major);
    assert(s.subrange(26, 30) =~= count);
    assert(s[8] == s.subrange(8, 10)[0] && s[9] == s.subrange(8, 10)[1]);
    assert(s[26] == s.subrange(26, 30)[0] && s[27] == s.subrange(26, 30)[1]);
    assert(s[28] == s.subrange(26, 30)[2] && s[29] == s.subrange(26, 30)[3]);
    assert(major[0] == 1 && major[1] == 0) by {
        reveal_with_fuel(le, 3);
    }
    assert(count[0] + 256 * count[1] == commits.len() && count[2] == 0 && count[3] == 0) by {
        reveal_with_fuel(le, 5);
        assert(commits.len() / 256 / 256 == 0);
    }
}

/// The bytes of each commit stand behind those of the commits before it, after four bytes of their
/// length.
pub proof fn commits_are_laid_out(commits: Seq<EncodedCoreTransferCommit>, i: nat)
    requires
        i < commits.len(),
    ensures
        ({
            let s = frames_from(commits, i);
            let n = commits[i as int].bytes@.len();
            &&& s.len() >= 4 + n
            &&& n < 0x1_0000_0000 ==> from_le(s.subrange(0, 4)) == n
            &&& s.subrange(4, 4 + n as int) == commits[i as int].bytes@
            &&& s.subrange(4 + n as int, s.len() as int) == frames_from(commits, i + 1)
        }),
        frames_from(commits, commits.len()).len() == 0,
{
    broadcast use le_len, pow256_values;

    let s = frames_from(commits, i);
    let bytes = commits[i as int].bytes@;
    if bytes.len() < 0x1_0000_0000 {
        from_le_of_le(bytes.len(), 4);
    }
    assert(s.subrange(0, 4) =~= le(bytes.len(), 4));
    assert(s.subrange(4, 4 + bytes.len() as int) =~= bytes);
    assert(s.subrange(4 + bytes.len() as int, s.len() as int) =~= frames_from(commits, i + 1));
}

/// Whether bytes start like a delta: long enough, not too long, and with the eight letters.
pub open spec fn starts_like_delta(s: Seq<u8>) -> bool {
    &&& 30 <= s.len() <= 536_870_912
    &&& s[0] == 0x52 && s[1] == 0x56 && s[2] == 0x43 && s[3] == 0x44
    &&& s[4] == 0x43 && s[5] == 0x4f && s[6] == 0x52 && s[7] == 0x45
}

/// Going through a delta starts if and only if it starts like a delta of format one, holds at most
/// 16384 commits, and leads from the revision that was reached. It starts behind the header, at
/// that revision, and is to reach the revision that the delta names.
pub proof fn delta_starts_where_the_game_is(s: Seq<u8>, revision: CoreRevision)
    requires
        s.len() <= usize::MAX,
    ensures
        replay_start(s, revision) is Ok <==> {
            &&& starts_like_delta(s)
            &&& from_le(s.subrange(8, 10)) == 1
            &&& from_le(s.subrange(10, 18)) == revision.0
            &&& from_le(s.subrange(26, 30)) <= 16_384
        },
        replay_start(s, revision) matches Ok(start) ==> {
            &&& start.revision == revision
            &&& start.last.0 == from_le(s.subrange(18, 26))
            &&& start.left == from_le(s.subrange(26, 30))
            &&& start.rest == s.subrange(30, s.len() as int)
        },
        s.len() > 536_870_912 ==> replay_start(s, revision) == Err::<ReplayView, CoreTransferError>(
            CoreTransferError::BudgetExceeded { actual: s.len() as usize, limit: 536_870_912 },
        ),
        s.len() < 30 ==> replay_start(s, revision) == Err::<ReplayView, CoreTransferError>(
            CoreTransferError::InvalidState(StateFault::DeltaHeaderTruncated),
        ),
        30 <= s.len() <= 536_870_912 && !starts_like_delta(s) ==> replay_start(s, revision) == Err::<
            ReplayView,
            CoreTransferError,
        >(CoreTransferError::InvalidState(StateFault::DeltaMagic)),
{
    broadcast use pow256_values;

    if s.len() >= 30 {
        let head = s.subrange(0, 8);
        let magic = crate::transfer::delta::magic();
        crate::bytes::from_le_bound(s.subrange(10, 18));
        crate::bytes::from_le_bound(s.subrange(18, 26));
        if starts_like_delta(s) {
            assert(head =~= magic);
        } else if s.len() <= 536_870_912 && head == magic {
            assert(head[0] == magic[0] && head[1] == magic[1] && head[2] == magic[2] && head[3]
                == magic[3] && head[4] == magic[4] && head[5] == magic[5] && head[6] == magic[6]
                && head[7] == magic[7]);
        }
    }
}

/// A commit is cut out of what follows if and only if its length and all its bytes are there.
pub proof fn commit_is_cut_out(s: Seq<u8>)
    ensures
        next_frame_of(s) is Ok <==> s.len() >= 4 && s.len() >= 4 + from_le(s.subrange(0, 4)),
        next_frame_of(s) matches Ok((frame, rest)) ==> {
            &&& frame.len() == from_le(s.subrange(0, 4))
            &&& s == s.subrange(0, 4) + frame + rest
        },
        next_frame_of(s) matches Err(e) ==> e == CoreTransferError::InvalidState(
            StateFault::DeltaFrameTruncated,
        ),
{
    if let Ok((frame, rest)) = next_frame_of(s) {
        assert(s =~= s.subrange(0, 4) + frame + rest);
    }
}

/// Going through a delta ends well if and only if nothing follows and the revision was reached that
/// was to be.
pub proof fn delta_ends_where_it_says(at: ReplayView, revision: CoreRevision)
    ensures
        replay_end(at) == Ok::<CoreRevision, CoreTransferError>(revision) <==> at.rest.len() == 0
            && at.revision.0 == at.last.0 && revision == at.revision,
        at.rest.len() > 0 ==> replay_end(at) is Err,
{
}

/// Revisions go up by one; the last there can be stays.
pub proof fn revisions_go_up(revision: CoreRevision)
    ensures
        revision.0 < u64::MAX ==> revision_after(revision).0 == revision.0 + 1,
        revision.0 == u64::MAX ==> revision_after(revision) == revision,
{
}

/// A change that is made again leads to the state that it led to, with the settings that it
/// changed; where it led to no other state, it leaves the state and changes the settings alone.
pub proof fn change_made_again_leads_on(
    before: CoreView,
    mutation: CoreTransferMutation,
    next: CoreView,
)
    ensures
        ({
            let after = made_again(before, mutation, Some(next));
            let alone = made_again(before, mutation, None);
            let sets = mutation is SetMaxPlayers || mutation is Reconfigure;
            &&& !sets ==> after == next && alone == before
            &&& mutation matches CoreTransferMutation::SetMaxPlayers { max_players } ==> {
                &&& after.world.config.max_players == max_players
                &&& alone.world.config.max_players == max_players
                &&& after.world.chunks == next.world.chunks
                &&& alone.world.chunks == before.world.chunks
            }
            &&& mutation matches CoreTransferMutation::Reconfigure { config } ==> {
                &&& after.world.config == config@
                &&& alone.world.config == config@
                &&& after.world.chunks == next.world.chunks
                &&& alone.world.chunks == before.world.chunks
            }
            &&& after.entities == next.entities && after.sessions == next.sessions
            &&& alone.entities == before.entities && alone.sessions == before.sessions
        }),
{
}

/// Effects that cannot be applied again are an error, and nothing else is.
pub proof fn only_effects_can_conflict(
    mutation: CoreTransferMutation,
    result: GameplayEffectApplyResult,
)
    ensures
        mutation.spec_conflict(result) is Some <==> result is Conflict && (
        mutation is GameplayEffects || mutation is LoginEffects),
        mutation is GameplayEffects && result is Conflict ==> mutation.spec_conflict(result) == Some(
            StateFault::GameplayConflict,
        ),
        mutation is LoginEffects && result is Conflict ==> mutation.spec_conflict(result) == Some(
            StateFault::LoginConflict,
        ),
{
}

/// Bytes are taken if and only if there are not too many and there is memory for them; too many are
/// reported before missing memory is.
pub proof fn bytes_are_taken_within_limits(before: nat, added: nat, limit: usize, reserved: bool)
    ensures
        write_failure(before, added, limit, reserved) is None <==> before + added <= limit
            && reserved,
        before + added > limit ==> write_failure(
            before,
            added,
            limit,
            reserved,
        ) is Some && write_failure(before, added, limit, reserved)->Some_0 is BudgetExceeded,
        limit < before + added <= usize::MAX ==> write_failure(before, added, limit, reserved)
            == Some(TransferWriteFailure::BudgetExceeded { actual: (before + added) as usize }),
        before + added <= limit && !reserved ==> write_failure(before, added, limit, reserved)
            == Some(TransferWriteFailure::Allocation { requested: (before + added) as usize }),
{
}

/// What a writer took is given out if and only if the payload was written; otherwise the failure of
/// the writer is reported, and only where it had none, why the payload was not written.
pub proof fn writer_reports_its_failure(
    writer: BoundedTransferWriter,
    written: Result<(), String>,
)
    ensures
        taken(writer, written) is Ok <==> written is Ok,
        taken(writer, written) matches Ok(bytes) ==> bytes == writer.bytes,
        written is Err ==> (writer.failure matches Some(
            TransferWriteFailure::BudgetExceeded { actual },
        ) ==> taken(writer, written) == Err::<Vec<u8>, CoreTransferError>(
            CoreTransferError::BudgetExceeded { actual, limit: writer.limit },
        )),
        written is Err ==> (writer.failure matches Some(
            TransferWriteFailure::Allocation { requested },
        ) ==> taken(writer, written) == Err::<Vec<u8>, CoreTransferError>(
            CoreTransferError::Allocation { requested },
        )),
        written matches Err(reason) ==> (writer.failure is None ==> taken(writer, written) == Err::<
            Vec<u8>,
            CoreTransferError,
        >(CoreTransferError::Codec(reason))),
{
}

/// Changes may take as many bytes as they are let, and never more than can be handed over.
pub proof fn commits_are_limited(byte_limit: usize)
    ensures
        commit_limit(byte_limit) <= byte_limit,
        commit_limit(byte_limit) <= 536_870_912,
        commit_limit(byte_limit) == byte_limit || commit_limit(byte_limit) == 536_870_912,
{
}

/// A game that is handed over is taken if and only if it is in format one and its parts belong
/// together; it is taken as it is, at its revision. Another format is reported before anything
/// else.
pub proof fn whole_games_are_taken(format_major: u16, revision: CoreRevision, core: CoreView)
    requires
        well_keyed(core),
    ensures
        imported(format_major, revision, core) is Ok <==> format_major == 1 && belongs_together(core),
        imported(format_major, revision, core) matches Ok((at, game)) ==> at == revision && game
            == core,
        format_major != 1 ==> imported(format_major, revision, core) == Err::<
            (CoreRevision, CoreView),
            CoreTransferError,
        >(CoreTransferError::UnsupportedFormat { major: format_major }),
{
    consistent_means(core);
}

/// Whether something really is wrong with a game in the way that is reported.
pub open spec fn is_wrong(core: CoreView, fault: StateFault) -> bool {
    match fault {
        StateFault::NonPlayerEntity { player_id, entity_id } => core.entity(player_id) == Some(
            entity_id,
        ) && lookup(core.entities.entity_kinds, entity_id.id()) != Some(EntityKind::Player),
        StateFault::NoIdentity { player_id, entity_id } => core.entity(player_id) == Some(entity_id)
            && (lookup(core.entities.player_identity, entity_id.id()) matches Some(identity)
            ==> identity.player_id != player_id),
        StateFault::NoComponent { entity_id } => lookup(
            core.entities.player_transform,
            entity_id.id(),
        ) is None || lookup(core.entities.player_vitals, entity_id.id()) is None || lookup(
            core.entities.player_inventory,
            entity_id.id(),
        ) is None || lookup(core.entities.player_selected_hotbar, entity_id.id()) is None,
        StateFault::NoSession { player_id } => core.entity(player_id) matches Some(entity_id) && (
        core.session(player_id) matches Some(session) ==> session.entity_id != entity_id),
        StateFault::IdentityNotIndexed { entity_id } => lookup(
            core.entities.player_identity,
            entity_id.id(),
        ) matches Some(identity) && core.entity(identity.player_id) != Some(entity_id),
        StateFault::SessionNotIndexed { player_id } => core.session(player_id) matches Some(session)
            && core.entity(player_id) != Some(session.entity_id),
        StateFault::NoItemEntity { entity_id } => lookup(
            core.entities.dropped_items,
            entity_id.id(),
        ) is Some && lookup(core.entities.entity_kinds, entity_id.id()) != Some(
            EntityKind::DroppedItem,
        ),
        StateFault::NextEntityOccupied => lookup(
            core.entities.entity_kinds,
            EntityId(core.entities.next_entity_id).id(),
        ) is Some,
        _ => false,
    }
}

proof fn fault_of_one<W>(items: Seq<W>, fault: spec_fn(W) -> Option<StateFault>) -> (i: int)
    requires
        first_fault(items, fault) is Some,
    ensures
        0 <= i < items.len(),
        fault(items[i]) == first_fault(items, fault),
    decreases items.len(),
{
    let less = items.drop_last();
    if first_fault(less, fault) is Some {
        let i = fault_of_one(less, fault);
        assert(less[i] == items[i]);
        i
    } else {
        items.len() - 1
    }
}

/// What is reported to be wrong with a game is wrong with it.
pub proof fn reported_fault_is_one(core: CoreView)
    requires
        well_keyed(core),
    ensures
        state_fault(core.entities, core.sessions) matches Some(fault) ==> is_wrong(core, fault),
{
    let players = core.entities.players_by_player_id;
    let identities = core.entities.player_identity;
    let sessions = core.sessions.player_sessions;
    let items = core.entities.dropped_items;
    let f = player_fault(core.entities, core.sessions);
    let g = identity_fault(core.entities);
    let h = session_fault(core.entities);
    let k = item_fault(core.entities);
    if first_fault(players, f) is Some {
        let i = fault_of_one(players, f);
        lookup_entry(players, i);
        assert(player_of(players[i].0).id() == players[i].0);
    } else if first_fault(identities, g) is Some {
        let i = fault_of_one(identities, g);
        lookup_entry(identities, i);
        assert(entity_of(identities[i].0).id() == identities[i].0);
    } else if first_fault(sessions, h) is Some {
        let i = fault_of_one(sessions, h);
        lookup_entry(sessions, i);
        assert(player_of(sessions[i].0).id() == sessions[i].0);
    } else if first_fault(items, k) is Some {
        let i = fault_of_one(items, k);
        lookup_entry(items, i);
        assert(entity_of(items[i].0).id() == items[i].0);
        assert(holds(items, items[i].0));
    }
}

} // verus!
