//! Which checkpoints of peers are accepted.

use crate::raknet::budget::RakNetBudgets;
use crate::raknet::error::{RakNetError, WireError};
use crate::raknet::snapshot::{
    batch_fault, holdback_fault, part_bytes, payload_fault, reassembly_fault, snapshot_fault,
    unacked_entry_fault, unacked_fault, window_fault, PeerSnapshot, PeerSnapshotView,
    UnackedSnapshotView,
};
use crate::raknet::timing::delay_after;
use vstd::prelude::*;

verus! {

/// How many parts the assemblies from one on have.
pub open spec fn parts_from(s: Seq<(u16, Seq<Option<Seq<u8>>>)>, i: int) -> nat
    decreases s.len() - i,
{
    if i < 0 || i >= s.len() {
        0
    } else {
        s[i].1.len() + parts_from(s, i + 1)
    }
}

/// How many bytes the parts from one on hold.
pub open spec fn bytes_in(parts: Seq<Option<Seq<u8>>>, j: int) -> nat
    decreases parts.len() - j,
{
    if j < 0 || j >= parts.len() {
        0
    } else {
        (match parts[j] {
            Some(part) => part.len(),
            None => 0,
        }) + bytes_in(parts, j + 1)
    }
}

/// How many bytes the assemblies from one on hold.
pub open spec fn bytes_from(s: Seq<(u16, Seq<Option<Seq<u8>>>)>, i: int) -> nat
    decreases s.len() - i,
{
    if i < 0 || i >= s.len() {
        0
    } else {
        bytes_in(s[i].1, 0) + bytes_from(s, i + 1)
    }
}

/// Whether an unconfirmed datagram can go on waiting: it is not too long, was sent at least once
/// and not too often, and waits no longer than datagrams do.
pub open spec fn can_go_on_waiting(sent: UnackedSnapshotView, budgets: RakNetBudgets) -> bool {
    &&& sent.bytes.len() <= budgets.max_datagram_bytes
    &&& 1 <= sent.attempts <= 60
    &&& sent.retransmit_remaining <= delay_after(sent.attempts)
}

/// Whether no part of an assembly is too long.
pub open spec fn parts_fit(parts: Seq<Option<Seq<u8>>>, limit: usize) -> bool {
    forall|j: int|
        0 <= j < parts.len() ==> (#[trigger] parts[j] matches Some(part) ==> part.len() <= limit)
}

/// Whether the size of datagrams is one that peers agree on.
pub open spec fn size_fits(mtu: u16, budgets: RakNetBudgets) -> bool {
    576 <= mtu && (mtu <= budgets.max_datagram_bytes || mtu == 576)
}

/// Whether the payloads that wait to be read are not too many, and none is too long.
pub open spec fn queue_fits(s: PeerSnapshotView, budgets: RakNetBudgets) -> bool {
    &&& s.queued_payloads.len() <= budgets.application_queue
    &&& forall|i: int|
        0 <= i < s.queued_payloads.len() ==> (#[trigger] s.queued_payloads[i]).len()
            <= budgets.max_payload_bytes
}

/// Whether the unconfirmed datagrams are not too many, have different numbers, and can go on
/// waiting.
pub open spec fn unacked_fit(s: PeerSnapshotView, budgets: RakNetBudgets) -> bool {
    let sent = s.unacked_datagrams;
    &&& sent.len() <= budgets.max_unacked_datagrams
    &&& forall|i: int| 0 <= i < sent.len() ==> can_go_on_waiting(#[trigger] sent[i], budgets)
    &&& forall|i: int, j: int|
        0 <= j < i < sent.len() ==> (#[trigger] sent[j]).sequence != (#[trigger] sent[i]).sequence
}

/// Whether the assemblies have different identifiers and parts, no part is too long, and parts and
/// bytes are not too many.
pub open spec fn assemblies_fit(s: PeerSnapshotView, budgets: RakNetBudgets) -> bool {
    let all = s.reassembly;
    &&& forall|i: int| 0 <= i < all.len() ==> (#[trigger] all[i]).1.len() > 0
    &&& forall|i: int|
        0 <= i < all.len() ==> parts_fit((#[trigger] all[i]).1, budgets.max_payload_bytes)
    &&& forall|i: int, j: int|
        0 <= j < i < all.len() ==> (#[trigger] all[j]).0 != (#[trigger] all[i]).0
    &&& parts_from(all, 0) <= budgets.max_reassembly_parts_per_peer
    &&& bytes_from(all, 0) <= budgets.max_reassembly_bytes_per_peer
}

/// Whether the payloads that are held back are not too many, have different numbers on each
/// channel, and none is too long.
pub open spec fn holdback_fits(s: PeerSnapshotView, budgets: RakNetBudgets) -> bool {
    let held = s.ordered_holdback;
    &&& held.len() <= budgets.max_ordered_holdback
    &&& forall|i: int|
        0 <= i < held.len() ==> (#[trigger] held[i]).2.len() <= budgets.max_payload_bytes
    &&& forall|i: int, j: int|
        0 <= j < i < held.len() ==> !((#[trigger] held[j]).0 == (#[trigger] held[i]).0 && held[j].1
            == held[i].1)
}

/// Whether numbers that were seen are not too many, and none is there twice.
pub open spec fn memory_fits(seen: Seq<nat>, budgets: RakNetBudgets) -> bool {
    &&& seen.no_duplicates()
    &&& seen.len() <= 2 * budgets.max_unacked_datagrams || seen.len() <= 1
}

/// Whether no channel is there twice.
pub open spec fn channels_differ(s: Seq<(u8, nat)>) -> bool {
    forall|i: int, j: int| 0 <= j < i < s.len() ==> (#[trigger] s[j]).0 != (#[trigger] s[i]).0
}

/// Whether a peer can go on from a checkpoint.
pub open spec fn is_acceptable(s: PeerSnapshotView, budgets: RakNetBudgets) -> bool {
    &&& size_fits(s.mtu, budgets)
    &&& queue_fits(s, budgets)
    &&& unacked_fit(s, budgets)
    &&& assemblies_fit(s, budgets)
    &&& holdback_fits(s, budgets)
    &&& memory_fits(s.seen_datagram_order, budgets)
    &&& memory_fits(s.seen_reliable_order, budgets)
    &&& channels_differ(s.ordered_expected)
    &&& channels_differ(s.sequenced_latest)
    &&& s.timeout_remaining <= 12_000_000_000
}

proof fn payloads_are_checked(payloads: Seq<Seq<u8>>, i: int, limit: usize)
    requires
        0 <= i <= payloads.len(),
    ensures
        payload_fault(payloads, i, limit) is None <==> forall|k: int|
            i <= k < payloads.len() ==> (#[trigger] payloads[k]).len() <= limit,
    decreases payloads.len() - i,
{
    if i < payloads.len() {
        payloads_are_checked(payloads, i + 1, limit);
    }
}

spec fn unacked_sound(s: Seq<UnackedSnapshotView>, k: int, budgets: RakNetBudgets) -> bool {
    can_go_on_waiting(s[k], budgets) && forall|j: int|
        0 <= j < k ==> (#[trigger] s[j]).sequence != s[k].sequence
}

proof fn unacked_are_checked(s: Seq<UnackedSnapshotView>, i: int, budgets: RakNetBudgets)
    requires
        0 <= i <= s.len(),
    ensures
        unacked_fault(s, i, budgets) is None <==> forall|k: int|
            i <= k < s.len() ==> #[trigger] unacked_sound(s, k, budgets),
    decreases s.len() - i,
{
    if i < s.len() {
        unacked_are_checked(s, i + 1, budgets);
        assert(unacked_entry_fault(s, i, budgets) is None <==> unacked_sound(s, i, budgets));
    }
}

proof fn part_bytes_are_counted(
    parts: Seq<Option<Seq<u8>>>,
    j: int,
    bytes: nat,
    budgets: RakNetBudgets,
)
    requires
        0 <= j <= parts.len(),
    ensures
        part_bytes(parts, j, bytes, budgets) matches Ok(total) ==> total == bytes + bytes_in(
            parts,
            j,
        ) && forall|k: int|
            j <= k < parts.len() ==> (#[trigger] parts[k] matches Some(part) ==> part.len()
                <= budgets.max_payload_bytes),
        bytes + bytes_in(parts, j) <= usize::MAX && (forall|k: int|
            j <= k < parts.len() ==> (#[trigger] parts[k] matches Some(part) ==> part.len()
                <= budgets.max_payload_bytes)) ==> part_bytes(parts, j, bytes, budgets) is Ok,
    decreases parts.len() - j,
{
    if j < parts.len() {
        match parts[j] {
            None => {
                part_bytes_are_counted(parts, j + 1, bytes, budgets);
            },
            Some(part) => {
                part_bytes_are_counted(parts, j + 1, bytes + part.len(), budgets);
            },
        }
    }
}

spec fn assembly_sound(s: Seq<(u16, Seq<Option<Seq<u8>>>)>, k: int, limit: usize) -> bool {
    &&& s[k].1.len() > 0
    &&& parts_fit(s[k].1, limit)
    &&& forall|j: int| 0 <= j < k ==> (#[trigger] s[j]).0 != s[k].0
}

proof fn assemblies_are_checked(
    s: Seq<(u16, Seq<Option<Seq<u8>>>)>,
    i: int,
    parts: nat,
    bytes: nat,
    budgets: RakNetBudgets,
)
    requires
        0 <= i <= s.len(),
    ensures
        reassembly_fault(s, i, parts, bytes, budgets) is None <==> {
            &&& forall|k: int|
                i <= k < s.len() ==> #[trigger] assembly_sound(s, k, budgets.max_payload_bytes)
            &&& parts + parts_from(s, i) <= budgets.max_reassembly_parts_per_peer
            &&& bytes + bytes_from(s, i) <= budgets.max_reassembly_bytes_per_peer
        },
    decreases s.len() - i,
{
    if i < s.len() {
        part_bytes_are_counted(s[i].1, 0, bytes, budgets);
        let total = bytes + bytes_in(s[i].1, 0);
        assemblies_are_checked(s, i + 1, parts + s[i].1.len(), total, budgets);
        let sound = assembly_sound(s, i, budgets.max_payload_bytes);
        if reassembly_fault(s, i, parts, bytes, budgets) is None {
            assert(sound);
            assert forall|k: int| i <= k < s.len() implies #[trigger] assembly_sound(
                s,
                k,
                budgets.max_payload_bytes,
            ) by {
                if k > i {
                    assert(assembly_sound(s, k, budgets.max_payload_bytes));
                }
            }
        }
    }
}

spec fn held_sound(s: Seq<(u8, nat, Seq<u8>)>, k: int, limit: usize) -> bool {
    s[k].2.len() <= limit && forall|j: int|
        0 <= j < k ==> !((#[trigger] s[j]).0 == s[k].0 && s[j].1 == s[k].1)
}

proof fn holdback_is_checked(s: Seq<(u8, nat, Seq<u8>)>, i: int, limit: usize)
    requires
        0 <= i <= s.len(),
    ensures
        holdback_fault(s, i, limit) is None <==> forall|k: int|
            i <= k < s.len() ==> #[trigger] held_sound(s, k, limit),
    decreases s.len() - i,
{
    if i < s.len() {
        holdback_is_checked(s, i + 1, limit);
        let sound = held_sound(s, i, limit);
        if holdback_fault(s, i, limit) is None {
            assert(sound);
            assert forall|k: int| i <= k < s.len() implies #[trigger] held_sound(s, k, limit) by {
                if k > i {
                    assert(held_sound(s, k, limit));
                }
            }
        }
    }
}

proof fn memory_is_checked(
    s: Seq<nat>,
    resource: &'static str,
    repeat: &'static str,
    budgets: RakNetBudgets,
)
    requires
        s.len() <= usize::MAX,
    ensures
        window_fault(s, resource, repeat, budgets) is None <==> memory_fits(s, budgets),
{
    assert(crate::raknet::window::distinct(s) <==> s.no_duplicates()) by {
        if crate::raknet::window::distinct(s) {
            assert forall|i: int, j: int| 0 <= i < s.len() && 0 <= j < s.len() && i != j implies s[i]
                != s[j] by {
                if i < j {
                    assert(s[i] != s[j]);
                } else {
                    assert(s[j] != s[i]);
                }
            }
        }
    }
}

/// A checkpoint is accepted if and only if a peer can go on from it.
pub proof fn acceptable_checkpoints_are_accepted(s: PeerSnapshotView, budgets: RakNetBudgets)
    requires
        s.seen_datagram_order.len() <= usize::MAX,
        s.seen_reliable_order.len() <= usize::MAX,
    ensures
        snapshot_fault(s, budgets) is None <==> is_acceptable(s, budgets),
{
    payloads_are_checked(s.queued_payloads, 0, budgets.max_payload_bytes);
    unacked_are_checked(s.unacked_datagrams, 0, budgets);
    assemblies_are_checked(s.reassembly, 0, 0, 0, budgets);
    holdback_is_checked(s.ordered_holdback, 0, budgets.max_payload_bytes);
    memory_is_checked(
        s.seen_datagram_order,
        "datagram duplicate window",
        "transferred peer repeats a datagram duplicate-window sequence",
        budgets,
    );
    memory_is_checked(
        s.seen_reliable_order,
        "reliable duplicate window",
        "transferred peer repeats a reliable duplicate-window sequence",
        budgets,
    );
    let sent = s.unacked_datagrams;
    assert(unacked_fault(sent, 0, budgets) is None <==> {
        &&& forall|i: int| 0 <= i < sent.len() ==> can_go_on_waiting(#[trigger] sent[i], budgets)
        &&& forall|i: int, j: int|
            0 <= j < i < sent.len() ==> (#[trigger] sent[j]).sequence != (
            #[trigger] sent[i]).sequence
    }) by {
        if unacked_fault(sent, 0, budgets) is None {
            assert forall|i: int, j: int| 0 <= j < i < sent.len() implies (
            #[trigger] sent[j]).sequence != (#[trigger] sent[i]).sequence by {
                assert(unacked_sound(sent, i, budgets));
            }
            assert forall|i: int| 0 <= i < sent.len() implies can_go_on_waiting(
                #[trigger] sent[i],
                budgets,
            ) by {
                assert(unacked_sound(sent, i, budgets));
            }
        }
    }
    let all = s.reassembly;
    assert(reassembly_fault(all, 0, 0, 0, budgets) is None <==> assemblies_fit(s, budgets)) by {
        let limit = budgets.max_payload_bytes;
        if reassembly_fault(all, 0, 0, 0, budgets) is None {
            assert forall|i: int, j: int| 0 <= j < i < all.len() implies (#[trigger] all[j]).0 != (
            #[trigger] all[i]).0 by {
                assert(assembly_sound(all, i, limit));
            }
            assert forall|i: int| 0 <= i < all.len() implies (#[trigger] all[i]).1.len() > 0
                && parts_fit(all[i].1, limit) by {
                assert(assembly_sound(all, i, limit));
            }
        }
    }
    let held = s.ordered_holdback;
    assert(holdback_fault(held, 0, budgets.max_payload_bytes) is None <==> {
        &&& forall|i: int|
            0 <= i < held.len() ==> (#[trigger] held[i]).2.len() <= budgets.max_payload_bytes
        &&& forall|i: int, j: int|
            0 <= j < i < held.len() ==> !((#[trigger] held[j]).0 == (#[trigger] held[i]).0
                && held[j].1 == held[i].1)
    }) by {
        if holdback_fault(held, 0, budgets.max_payload_bytes) is None {
            assert forall|i: int, j: int| 0 <= j < i < held.len() implies !((
            #[trigger] held[j]).0 == (#[trigger] held[i]).0 && held[j].1 == held[i].1) by {
                assert(held_sound(held, i, budgets.max_payload_bytes));
            }
            assert forall|i: int| 0 <= i < held.len() implies (#[trigger] held[i]).2.len()
                <= budgets.max_payload_bytes by {
                assert(held_sound(held, i, budgets.max_payload_bytes));
            }
        }
    }
    assert(crate::raknet::snapshot::channels_distinct(s.ordered_expected) <==> channels_differ(
        s.ordered_expected,
    ));
    assert(crate::raknet::snapshot::channels_distinct(s.sequenced_latest) <==> channels_differ(
        s.sequenced_latest,
    ));
}

/// What is wrong with a checkpoint is named in a fixed order: the size of datagrams first, and with
/// it the largest that could be; then that too many payloads wait.
pub proof fn size_is_checked_first(s: PeerSnapshotView, budgets: RakNetBudgets)
    ensures
        !size_fits(s.mtu, budgets) ==> (snapshot_fault(s, budgets) matches Some(
            RakNetError::Wire(WireError::SnapshotMtu { mtu, maximum }),
        ) && mtu == s.mtu && size_fits(maximum, budgets) && (maximum == 0xffff || !size_fits(
            (maximum + 1) as u16,
            budgets,
        ))),
        size_fits(s.mtu, budgets) && s.queued_payloads.len() > budgets.application_queue
            && s.queued_payloads.len() <= usize::MAX ==> (snapshot_fault(s, budgets) matches Some(
            RakNetError::Budget(e),
        ) && e.limit == budgets.application_queue && e.requested == s.queued_payloads.len()),
{
}

/// A batch of checkpoints is accepted if and only if each of them is; what is reported is what is
/// wrong with the first that is not.
pub proof fn batch_is_accepted_as_a_whole(
    s: Seq<PeerSnapshot>,
    i: int,
    budgets: RakNetBudgets,
    k: int,
)
    requires
        0 <= i <= k < s.len(),
    ensures
        batch_fault(s, i, budgets) is None ==> snapshot_fault(s[k]@, budgets) is None,
        (forall|j: int| i <= j < k ==> snapshot_fault((#[trigger] s[j])@, budgets) is None)
            && snapshot_fault(s[k]@, budgets) is Some ==> batch_fault(s, i, budgets)
            == snapshot_fault(s[k]@, budgets),
        (forall|j: int| i <= j < s.len() ==> snapshot_fault((#[trigger] s[j])@, budgets) is None)
            ==> batch_fault(s, i, budgets) is None,
    decreases k - i,
{
    if i < k {
        batch_is_accepted_as_a_whole(s, i + 1, budgets, k);
        if snapshot_fault(s[i]@, budgets) is None {
            assert(batch_fault(s, i, budgets) == batch_fault(s, i + 1, budgets));
        }
    } else {
        rest_of_batch(s, i, budgets);
    }
}

proof fn rest_of_batch(s: Seq<PeerSnapshot>, i: int, budgets: RakNetBudgets)
    requires
        0 <= i <= s.len(),
    ensures
        (forall|j: int| i <= j < s.len() ==> snapshot_fault((#[trigger] s[j])@, budgets) is None)
            ==> batch_fault(s, i, budgets) is None,
    decreases s.len() - i,
{
    if i < s.len() {
        rest_of_batch(s, i + 1, budgets);
    }
}

} // verus!
