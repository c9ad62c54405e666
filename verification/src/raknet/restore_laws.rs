//! What holds of a peer that goes on from a checkpoint.

use crate::ordered::{gathered, gathered_is_sorted, holds, insert_laws, lookup, Entries};
use crate::raknet::budget::RakNetBudgets;
use crate::raknet::peer::reassembly_totals;
use crate::raknet::peer_laws::{
    byte_counts, channel_ok, countable, counts_inserted, every, every_inserted, holdback_ok,
    in_bounds, part_counts, reassembly_ok, total, unacked_ok,
};
use crate::raknet::peer_model::{
    all_bytes, all_parts, channel_entries, holdback_entries, reassembly_entries, unacked_entries,
    PeerModel, UnackedView,
};
use crate::raknet::sequence::MODULUS;
use crate::raknet::snapshot::{
    part_bytes, reassembly_fault, snapshot_fault, unacked_entry_fault, unacked_fault,
    PeerSnapshotView, UnackedSnapshotView,
};
use vstd::prelude::*;

verus! {

/// Whether the numbers in a checkpoint are numbers of datagrams and of payloads.
pub open spec fn numbers_fit(s: PeerSnapshotView) -> bool {
    &&& s.next_datagram < MODULUS
    &&& forall|i: int|
        0 <= i < s.unacked_datagrams.len() ==> (#[trigger] s.unacked_datagrams[i]).sequence
            < MODULUS
    &&& forall|i: int|
        0 <= i < s.ordered_expected.len() ==> (#[trigger] s.ordered_expected[i]).1 < MODULUS
    &&& forall|i: int|
        0 <= i < s.ordered_holdback.len() ==> (#[trigger] s.ordered_holdback[i]).1 < MODULUS
}

/// What holds of every entry of a list holds of every entry that is gathered from it.
proof fn every_gathered<W>(list: Entries<W>, ok: spec_fn((Seq<int>, W)) -> bool)
    requires
        every(list, ok),
    ensures
        every(gathered(list), ok),
        gathered(list).len() <= list.len(),
    decreases list.len(),
{
    if list.len() > 0 {
        let front = list.drop_last();
        assert forall|i: int| 0 <= i < front.len() implies ok(#[trigger] front[i]) by {
            assert(front[i] == list[i]);
        }
        every_gathered(front, ok);
        assert(ok(list[list.len() - 1]));
        every_inserted(gathered(front), list.last().0, list.last().1, ok);
        gathered_is_sorted(front);
        insert_laws(gathered(front), list.last().0, list.last().1, list.last().0);
    }
}

proof fn unacked_are_ok(s: Seq<UnackedSnapshotView>, i: int, budgets: RakNetBudgets)
    requires
        0 <= i <= s.len(),
        unacked_fault(s, i, budgets) is None,
    ensures
        forall|j: int|
            i <= j < s.len() ==> #[trigger] unacked_entry_fault(s, j, budgets) is None,
    decreases s.len() - i,
{
    if i < s.len() {
        unacked_are_ok(s, i + 1, budgets);
    }
}

/// Whether assemblies have different identifiers and at least one part each.
spec fn assemblies_differ(s: Seq<(u16, Seq<Option<Seq<u8>>>)>) -> bool {
    &&& forall|i: int, j: int|
        0 <= i < j < s.len() ==> (#[trigger] s[i]).0 != (#[trigger] s[j]).0
    &&& forall|i: int| 0 <= i < s.len() ==> (#[trigger] s[i]).1.len() > 0
}

proof fn assemblies_are_ok(
    s: Seq<(u16, Seq<Option<Seq<u8>>>)>,
    i: int,
    parts: nat,
    bytes: nat,
    budgets: RakNetBudgets,
)
    requires
        0 <= i <= s.len(),
        reassembly_fault(s, i, parts, bytes, budgets) is None,
    ensures
        forall|j: int| i <= j < s.len() ==> (#[trigger] s[j]).1.len() > 0,
        forall|k: int, j: int|
            0 <= k < j < s.len() && i <= j ==> (#[trigger] s[k]).0 != (#[trigger] s[j]).0,
    decreases s.len() - i,
{
    if i < s.len() {
        let all = part_bytes(s[i].1, 0, bytes, budgets)->Ok_0;
        assemblies_are_ok(s, i + 1, parts + s[i].1.len(), all, budgets);
    }
}

/// The parts and bytes of assemblies with different identifiers are all counted.
proof fn assemblies_are_counted(s: Seq<(u16, Seq<Option<Seq<u8>>>)>, other: u16)
    requires
        assemblies_differ(s),
    ensures
        ({
            let entries = gathered(reassembly_entries(s));
            &&& total(part_counts(entries)) == all_parts(s)
            &&& total(byte_counts(entries)) == all_bytes(s)
            &&& (forall|i: int| 0 <= i < s.len() ==> (#[trigger] s[i]).0 != other) ==> !holds(
                entries,
                seq![other as int],
            )
        }),
    decreases s.len(),
{
    let all = reassembly_entries(s);
    if s.len() > 0 {
        let front = s.drop_last();
        let (id, parts) = s.last();
        assert forall|i: int| 0 <= i < front.len() implies (#[trigger] front[i]).1.len() > 0 by {
            assert(front[i] == s[i]);
        }
        assert forall|i: int, j: int| 0 <= i < j < front.len() implies (#[trigger] front[i]).0
            != (#[trigger] front[j]).0 by {
            assert(front[i] == s[i] && front[j] == s[j]);
        }
        assert(all.drop_last() =~= reassembly_entries(front));
        assert(all.last() == (seq![id as int], parts));
        assemblies_are_counted(front, id);
        assemblies_are_counted(front, other);
        let before = gathered(reassembly_entries(front));
        assert forall|i: int| 0 <= i < front.len() implies (#[trigger] front[i]).0 != id by {
            assert(front[i] == s[i]);
            assert(s[s.len() - 1].0 == id);
        }
        assert(!holds(before, seq![id as int]));
        counts_inserted(before, seq![id as int], parts);
        gathered_is_sorted(reassembly_entries(front));
        insert_laws(before, seq![id as int], parts, seq![other as int]);
        if forall|i: int| 0 <= i < s.len() ==> (#[trigger] s[i]).0 != other {
            assert(s[s.len() - 1].0 != other);
            assert(seq![id as int][0] != seq![other as int][0]);
            assert forall|i: int| 0 <= i < front.len() implies (#[trigger] front[i]).0
                != other by {
                assert(front[i] == s[i]);
            }
            assert(lookup(gathered(all), seq![other as int]) is None);
        }
    } else {
        assert(part_counts(gathered(all)) =~= Seq::empty());
        assert(byte_counts(gathered(all)) =~= Seq::empty());
    }
}

/// A peer that goes on from an accepted checkpoint keeps to its budgets, and its books are in
/// order.
pub proof fn restored_is_in_bounds(s: PeerSnapshotView, budgets: RakNetBudgets, now: u64)
    requires
        snapshot_fault(s, budgets) is None,
        numbers_fit(s),
        countable(budgets),
    ensures
        in_bounds(PeerModel::restored(s, budgets, now)),
{
    let m = PeerModel::restored(s, budgets, now);
    // What was sent.
    let sent = unacked_entries(s.unacked_datagrams, now);
    unacked_are_ok(s.unacked_datagrams, 0, budgets);
    let sent_ok = |entry: (Seq<int>, UnackedView)| unacked_ok(entry, budgets);
    assert forall|i: int| 0 <= i < sent.len() implies sent_ok(#[trigger] sent[i]) by {
        assert(unacked_entry_fault(s.unacked_datagrams, i, budgets) is None);
        assert(s.unacked_datagrams[i].sequence < MODULUS);
    }
    every_gathered(sent, sent_ok);
    gathered_is_sorted(sent);
    assert forall|i: int| 0 <= i < m.unacked.len() implies unacked_ok(
        #[trigger] m.unacked[i],
        budgets,
    ) by {
        assert(sent_ok(m.unacked[i]));
    }
    // What is being put together.
    let parts = reassembly_entries(s.reassembly);
    assert(s.reassembly.subrange(0, 0) =~= Seq::empty());
    reassembly_totals(s.reassembly, 0, 0, 0, budgets);
    assemblies_are_ok(s.reassembly, 0, 0, 0, budgets);
    assemblies_are_counted(s.reassembly, 0);
    let parts_ok = |entry: (Seq<int>, Seq<Option<Seq<u8>>>)| reassembly_ok(entry);
    assert forall|i: int| 0 <= i < parts.len() implies parts_ok(#[trigger] parts[i]) by {
        assert(s.reassembly[i].1.len() > 0);
    }
    every_gathered(parts, parts_ok);
    gathered_is_sorted(parts);
    assert forall|i: int| 0 <= i < m.reassembly.len() implies reassembly_ok(
        #[trigger] m.reassembly[i],
    ) by {
        assert(parts_ok(m.reassembly[i]));
    }
    // What comes in order.
    let expected = channel_entries(s.ordered_expected);
    let numbered = |entry: (Seq<int>, nat)| channel_ok(entry) && entry.1 < MODULUS;
    assert forall|i: int| 0 <= i < expected.len() implies numbered(#[trigger] expected[i]) by {
        assert(s.ordered_expected[i].1 < MODULUS);
    }
    every_gathered(expected, numbered);
    gathered_is_sorted(expected);
    assert forall|i: int| 0 <= i < m.ordered_expected.len() implies channel_ok(
        #[trigger] m.ordered_expected[i],
    ) && m.ordered_expected[i].1 < MODULUS by {
        assert(numbered(m.ordered_expected[i]));
    }
    let newest = channel_entries(s.sequenced_latest);
    let of_channel = |entry: (Seq<int>, nat)| channel_ok(entry);
    assert(every(newest, of_channel));
    every_gathered(newest, of_channel);
    gathered_is_sorted(newest);
    assert forall|i: int| 0 <= i < m.sequenced_latest.len() implies channel_ok(
        #[trigger] m.sequenced_latest[i],
    ) by {
        assert(of_channel(m.sequenced_latest[i]));
    }
    let held = holdback_entries(s.ordered_holdback);
    let held_ok = |entry: (Seq<int>, Seq<u8>)| holdback_ok(entry);
    assert forall|i: int| 0 <= i < held.len() implies held_ok(#[trigger] held[i]) by {
        assert(s.ordered_holdback[i].1 < MODULUS);
    }
    every_gathered(held, held_ok);
    gathered_is_sorted(held);
    assert forall|i: int| 0 <= i < m.ordered_holdback.len() implies holdback_ok(
        #[trigger] m.ordered_holdback[i],
    ) by {
        assert(held_ok(m.ordered_holdback[i]));
    }
}

} // verus!
