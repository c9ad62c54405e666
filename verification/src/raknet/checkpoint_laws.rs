//! What checkpoints, pauses, fragments and ordering promise.

use crate::ordered::{
    gathered, gathered_sorted, holds, insert_laws, lex_before, lex_is_total, lookup, rank,
    rank_bounds, remove_laws, removed, sorted, sorted_by_keys, Entries,
};
use crate::raknet::budget::RakNetBudgets;
use crate::raknet::inbox::InboxView;
use crate::raknet::peer_laws::{
    byte_counts, holdback_ok, in_bounds, part_counts, reassembly_ok, total, unacked_ok,
};
use crate::raknet::peer_model::{
    after, all_bytes, all_parts, byte_total, channel_entries, channel_list, complete, fragment,
    fragment_count, fragment_start, holdback_entries, holdback_snapshot, joined,
    reassembly_entries, reassembly_snapshot, unacked_entries, unacked_snapshot, PeerModel,
};
use crate::raknet::sequence::{successor_is_newer, MODULUS};
use crate::raknet::snapshot::{
    channels_distinct, holdback_fault, maximum_mtu, part_bytes, payload_fault, reassembly_fault,
    snapshot_fault, unacked_entry_fault, unacked_fault,
};
use crate::raknet::timing::{elapsed, PEER_TIMEOUT};
use vstd::prelude::*;

verus! {

/// Whether a clock reaches back far enough for every timer that had run at an instant.
pub open spec fn clock_reaches(m: PeerModel, frozen_at: u64, resumed_at: u64) -> bool {
    &&& elapsed(frozen_at, m.last_observed) <= resumed_at
    &&& forall|i: int|
        0 <= i < m.unacked.len() ==> elapsed(frozen_at, (#[trigger] m.unacked[i]).1.sent_at)
            <= resumed_at
}

/// A pause leaves no trace: the checkpoint at its end is the checkpoint at its start.
pub proof fn pause_keeps_checkpoint(m: PeerModel, frozen_at: u64, resumed_at: u64)
    requires
        clock_reaches(m, frozen_at, resumed_at),
    ensures
        m.resumed(frozen_at, resumed_at).snapshot(resumed_at) == m.snapshot(frozen_at),
{
    let a = m.resumed(frozen_at, resumed_at).snapshot(resumed_at);
    let b = m.snapshot(frozen_at);
    assert forall|i: int| 0 <= i < m.unacked.len() implies #[trigger] a.unacked_datagrams[i]
        == b.unacked_datagrams[i] by {
        assert(elapsed(frozen_at, m.unacked[i].1.sent_at) <= resumed_at);
    }
    assert(a.unacked_datagrams =~= b.unacked_datagrams);
}

/// A list of channels comes back from the entries it makes up.
proof fn channels_restored(entries: Entries<nat>)
    requires
        sorted(entries),
        forall|i: int|
            0 <= i < entries.len() ==> (#[trigger] entries[i]).0.len() == 1 && 0 <= entries[i].0[0]
                < 256,
    ensures
        gathered(channel_entries(channel_list(entries))) == entries,
{
    let list = channel_entries(channel_list(entries));
    assert forall|i: int| 0 <= i < entries.len() implies #[trigger] list[i] == entries[i] by {
        assert(seq![entries[i].0[0] as u8 as int] =~= entries[i].0);
    }
    assert(list =~= entries);
    gathered_sorted(list);
}

/// The sums over assemblies are those over their listing.
proof fn totals_of_listing(entries: Entries<Seq<Option<Seq<u8>>>>)
    ensures
        all_parts(reassembly_snapshot(entries)) == total(part_counts(entries)),
        all_bytes(reassembly_snapshot(entries)) == total(byte_counts(entries)),
    decreases entries.len(),
{
    if entries.len() > 0 {
        let front = entries.drop_last();
        totals_of_listing(front);
        assert(reassembly_snapshot(entries).drop_last() =~= reassembly_snapshot(front));
        assert(part_counts(entries).drop_last() =~= part_counts(front));
        assert(byte_counts(entries).drop_last() =~= byte_counts(front));
    }
}

/// A checkpoint survives being restored: the restored peer gives the same checkpoint again. But for
/// its timers, it is the peer that the checkpoint was taken of, open and with nothing to send.
pub proof fn checkpoint_survives_restoring(m: PeerModel, taken_at: u64, restored_at: u64)
    requires
        in_bounds(m),
        restored_at >= PEER_TIMEOUT,
    ensures
        PeerModel::restored(m.snapshot(taken_at), m.budgets, restored_at).snapshot(restored_at)
            == m.snapshot(taken_at),
        ({
            let r = PeerModel::restored(m.snapshot(taken_at), m.budgets, restored_at);
            r == PeerModel {
                last_observed: r.last_observed,
                unacked: r.unacked,
                inbox: InboxView {
                    queue: m.inbox.queue,
                    closed: false,
                    capacity: m.budgets.application_queue,
                },
                outbox: Seq::empty(),
                ..m
            }
        }),
{
    totals_of_listing(m.reassembly);
    let s = m.snapshot(taken_at);
    let r = PeerModel::restored(s, m.budgets, restored_at);
    channels_restored(m.ordered_expected);
    channels_restored(m.sequenced_latest);
    let held = holdback_entries(s.ordered_holdback);
    assert forall|i: int| 0 <= i < held.len() implies #[trigger] held[i]
        == m.ordered_holdback[i] by {
        let entry = m.ordered_holdback[i];
        assert(holdback_ok(entry));
        assert(seq![entry.0[0] as u8 as int, entry.0[1] as nat as int] =~= entry.0);
    }
    assert(held =~= m.ordered_holdback);
    gathered_sorted(held);
    let splits = reassembly_entries(s.reassembly);
    assert forall|i: int| 0 <= i < splits.len() implies #[trigger] splits[i] == m.reassembly[i] by {
        let entry = m.reassembly[i];
        assert(reassembly_ok(entry));
        assert(seq![entry.0[0] as u16 as int] =~= entry.0);
    }
    assert(splits =~= m.reassembly);
    gathered_sorted(splits);
    let sent = unacked_entries(s.unacked_datagrams, restored_at);
    assert forall|i: int| 0 <= i < sent.len() implies (#[trigger] sent[i]).0
        == m.unacked[i].0 by {
        assert(unacked_ok(m.unacked[i], m.budgets));
        assert(seq![m.unacked[i].0[0] as nat as int] =~= m.unacked[i].0);
    }
    sorted_by_keys(m.unacked, sent);
    gathered_sorted(sent);
    let again = r.snapshot(restored_at);
    assert(again.unacked_datagrams =~= s.unacked_datagrams) by {
        assert forall|i: int| 0 <= i < s.unacked_datagrams.len() implies again.unacked_datagrams[i]
            == s.unacked_datagrams[i] by {
            assert(unacked_ok(m.unacked[i], m.budgets));
            assert(sent[i].0 == m.unacked[i].0);
        }
    }
}

/// Whether every payload that a peer keeps is one that a checkpoint may hold.
pub open spec fn payloads_fit(m: PeerModel) -> bool {
    let limit = m.budgets.max_payload_bytes;
    &&& forall|i: int|
        0 <= i < m.inbox.queue.len() ==> (#[trigger] m.inbox.queue[i]).len() <= limit
    &&& forall|i: int|
        0 <= i < m.ordered_holdback.len() ==> (#[trigger] m.ordered_holdback[i]).1.len() <= limit
    &&& forall|i: int, j: int|
        0 <= i < m.reassembly.len() && 0 <= j < m.reassembly[i].1.len() ==> ((
        #[trigger] m.reassembly[i].1[j]) matches Some(part) ==> part.len() <= limit)
}

proof fn payloads_pass(payloads: Seq<Seq<u8>>, i: int, limit: usize)
    requires
        0 <= i,
        forall|j: int| 0 <= j < payloads.len() ==> (#[trigger] payloads[j]).len() <= limit,
    ensures
        payload_fault(payloads, i, limit) is None,
    decreases payloads.len() - i,
{
    if i < payloads.len() {
        payloads_pass(payloads, i + 1, limit);
    }
}

proof fn unacked_pass(m: PeerModel, now: u64, i: int)
    requires
        in_bounds(m),
        0 <= i,
    ensures
        unacked_fault(unacked_snapshot(m.unacked, now), i, m.budgets) is None,
    decreases m.unacked.len() - i,
{
    let s = unacked_snapshot(m.unacked, now);
    if i < s.len() {
        unacked_pass(m, now, i + 1);
        assert(unacked_ok(m.unacked[i], m.budgets));
        assert forall|j: int| 0 <= j < i implies (#[trigger] s[j]).sequence != s[i].sequence by {
            assert(unacked_ok(m.unacked[j], m.budgets));
            assert(lex_before(m.unacked[j].0, m.unacked[i].0));
            if s[j].sequence == s[i].sequence {
                assert(m.unacked[j].0 =~= m.unacked[i].0);
                lex_is_total(m.unacked[i].0, m.unacked[i].0, m.unacked[i].0);
            }
        }
        assert(unacked_entry_fault(s, i, m.budgets) is None);
    }
}

proof fn holdback_pass(m: PeerModel, i: int)
    requires
        in_bounds(m),
        payloads_fit(m),
        0 <= i,
    ensures
        holdback_fault(
            holdback_snapshot(m.ordered_holdback),
            i,
            m.budgets.max_payload_bytes,
        ) is None,
    decreases m.ordered_holdback.len() - i,
{
    let s = holdback_snapshot(m.ordered_holdback);
    if i < s.len() {
        holdback_pass(m, i + 1);
        assert(holdback_ok(m.ordered_holdback[i]));
        assert forall|j: int| 0 <= j < i implies !((#[trigger] s[j]).0 == s[i].0 && s[j].1
            == s[i].1) by {
            let a = m.ordered_holdback[j].0;
            let b = m.ordered_holdback[i].0;
            assert(holdback_ok(m.ordered_holdback[j]));
            assert(lex_before(a, b));
            if s[j].0 == s[i].0 && s[j].1 == s[i].1 {
                assert(a =~= b);
                lex_is_total(a, a, a);
            }
        }
    }
}

proof fn parts_pass(
    parts: Seq<Option<Seq<u8>>>,
    j: int,
    bytes: nat,
    budgets: RakNetBudgets,
)
    requires
        0 <= j <= parts.len(),
        forall|k: int|
            0 <= k < parts.len() ==> ((#[trigger] parts[k]) matches Some(part) ==> part.len()
                <= budgets.max_payload_bytes),
        bytes + byte_total(parts) <= usize::MAX + byte_total(parts.subrange(0, j)),
    ensures
        part_bytes(parts, j, bytes, budgets) is Ok,
        part_bytes(parts, j, bytes, budgets)->Ok_0 + byte_total(parts.subrange(0, j)) == bytes
            + byte_total(parts),
    decreases parts.len() - j,
{
    if j < parts.len() {
        assert(parts.subrange(0, j + 1).drop_last() =~= parts.subrange(0, j));
        totals_of_prefix(parts, j + 1);
        match parts[j] {
            None => parts_pass(parts, j + 1, bytes, budgets),
            Some(part) => parts_pass(parts, j + 1, bytes + part.len(), budgets),
        }
    } else {
        assert(parts.subrange(0, j) =~= parts);
    }
}

proof fn totals_of_prefix(parts: Seq<Option<Seq<u8>>>, j: int)
    requires
        0 <= j <= parts.len(),
    ensures
        byte_total(parts.subrange(0, j)) <= byte_total(parts),
    decreases parts.len() - j,
{
    if j < parts.len() {
        totals_of_prefix(parts, j + 1);
        assert(parts.subrange(0, j + 1).drop_last() =~= parts.subrange(0, j));
    } else {
        assert(parts.subrange(0, j) =~= parts);
    }
}

proof fn sums_of_prefix(s: Seq<(u16, Seq<Option<Seq<u8>>>)>, i: int)
    requires
        0 <= i <= s.len(),
    ensures
        all_parts(s.subrange(0, i)) <= all_parts(s),
        all_bytes(s.subrange(0, i)) <= all_bytes(s),
    decreases s.len() - i,
{
    if i < s.len() {
        sums_of_prefix(s, i + 1);
        assert(s.subrange(0, i + 1).drop_last() =~= s.subrange(0, i));
    } else {
        assert(s.subrange(0, i) =~= s);
    }
}

proof fn reassembly_pass(m: PeerModel, i: int)
    requires
        in_bounds(m),
        payloads_fit(m),
        0 <= i <= m.reassembly.len(),
    ensures
        ({
            let s = reassembly_snapshot(m.reassembly);
            reassembly_fault(
                s,
                i,
                all_parts(s.subrange(0, i)),
                all_bytes(s.subrange(0, i)),
                m.budgets,
            ) is None
        }),
    decreases m.reassembly.len() - i,
{
    let s = reassembly_snapshot(m.reassembly);
    totals_of_listing(m.reassembly);
    if i < s.len() {
        reassembly_pass(m, i + 1);
        sums_of_prefix(s, i + 1);
        assert(s.subrange(0, i + 1).drop_last() =~= s.subrange(0, i));
        assert(reassembly_ok(m.reassembly[i]));
        assert forall|j: int| 0 <= j < i implies (#[trigger] s[j]).0 != s[i].0 by {
            let a = m.reassembly[j].0;
            let b = m.reassembly[i].0;
            assert(reassembly_ok(m.reassembly[j]));
            assert(lex_before(a, b));
            if s[j].0 == s[i].0 {
                assert(a =~= b);
                lex_is_total(a, a, a);
            }
        }
        let parts = s[i].1;
        assert forall|k: int| 0 <= k < parts.len() implies ((#[trigger] parts[k]) matches Some(part)
            ==> part.len() <= m.budgets.max_payload_bytes) by {
            assert(m.reassembly[i].1[k] == parts[k]);
        }
        assert(parts.subrange(0, 0) =~= Seq::empty());
        parts_pass(parts, 0, all_bytes(s.subrange(0, i)), m.budgets);
    } else {
        assert(s.subrange(0, i) =~= s);
    }
}

/// The checkpoint of a peer in bounds, all of whose payloads fit, is accepted under its budgets.
pub proof fn checkpoint_is_accepted(m: PeerModel, now: u64)
    requires
        in_bounds(m),
        payloads_fit(m),
        576 <= m.mtu <= maximum_mtu(m.budgets),
    ensures
        snapshot_fault(m.snapshot(now), m.budgets) is None,
{
    let s = m.snapshot(now);
    payloads_pass(s.queued_payloads, 0, m.budgets.max_payload_bytes);
    unacked_pass(m, now, 0);
    reassembly_pass(m, 0);
    assert(s.reassembly.subrange(0, 0) =~= Seq::empty());
    holdback_pass(m, 0);
    channels_pass(m.ordered_expected);
    channels_pass(m.sequenced_latest);
}

proof fn channels_pass(entries: Entries<nat>)
    requires
        sorted(entries),
        forall|i: int|
            0 <= i < entries.len() ==> (#[trigger] entries[i]).0.len() == 1 && 0 <= entries[i].0[0]
                < 256,
    ensures
        channels_distinct(channel_list(entries)),
{
    let s = channel_list(entries);
    assert forall|i: int, j: int| 0 <= i < j < s.len() implies (#[trigger] s[i]).0 != (
    #[trigger] s[j]).0 by {
        assert(lex_before(entries[i].0, entries[j].0));
        if s[i].0 == s[j].0 {
            assert(entries[i].0 =~= entries[j].0);
            lex_is_total(entries[i].0, entries[i].0, entries[i].0);
        }
    }
}

/// The parts that the fragments of a payload carry.
pub open spec fn fragment_parts(payload: Seq<u8>, capacity: nat) -> Seq<Option<Seq<u8>>> {
    Seq::new(
        fragment_count(payload.len(), capacity),
        |i: int| Some(fragment(payload, capacity, 1, i as nat, 0, 0, 0).payload),
    )
}

proof fn fragments_join_up_to(payload: Seq<u8>, capacity: nat, i: nat)
    requires
        capacity > 0,
        i <= fragment_count(payload.len(), capacity),
    ensures
        joined(fragment_parts(payload, capacity).subrange(0, i as int)) == payload.subrange(
            0,
            fragment_start(payload.len(), capacity, i) as int,
        ),
    decreases i,
{
    let parts = fragment_parts(payload, capacity);
    if i > 0 {
        let taken = parts.subrange(0, i as int);
        fragments_join_up_to(payload, capacity, (i - 1) as nat);
        assert(taken.drop_last() =~= parts.subrange(0, i - 1));
        assert((i - 1) * capacity + capacity == i * capacity) by (nonlinear_arith)
            requires
                i > 0,
        ;
        let a = fragment_start(payload.len(), capacity, (i - 1) as nat) as int;
        let b = fragment_start(payload.len(), capacity, i) as int;
        assert(payload.subrange(0, a) + payload.subrange(a, b) =~= payload.subrange(0, b));
    } else {
        assert(parts.subrange(0, 0) =~= Seq::empty());
        assert(fragment_start(payload.len(), capacity, 0) == 0) by {
            assert(0 * capacity == 0) by (nonlinear_arith);
        }
        assert(payload.subrange(0, 0) =~= Seq::empty());
    }
}

/// The fragments of a payload, joined in their order, are the payload.
pub proof fn fragments_join_to_payload(payload: Seq<u8>, capacity: nat)
    requires
        capacity > 0,
    ensures
        complete(fragment_parts(payload, capacity)),
        joined(fragment_parts(payload, capacity)) == payload,
{
    let parts = fragment_parts(payload, capacity);
    let count = fragment_count(payload.len(), capacity);
    fragments_join_up_to(payload, capacity, count);
    assert(parts.subrange(0, count as int) =~= parts);
    assert(fragment_start(payload.len(), capacity, count) == payload.len()) by {
        if payload.len() > 0 {
            let n = payload.len() as int;
            let c = capacity as int;
            vstd::arithmetic::div_mod::lemma_fundamental_div_mod(n + c - 1, c);
            let q = (n + c - 1) / c;
            assert(q * c >= n) by (nonlinear_arith)
                requires
                    n + c - 1 == c * q + (n + c - 1) % c,
                    (n + c - 1) % c < c,
            ;
        } else {
            assert(1 * capacity == capacity) by (nonlinear_arith);
        }
    }
    assert(payload.subrange(0, payload.len() as int) =~= payload);
}

/// Whether a payload is one for the application.
pub open spec fn for_application(payload: Seq<u8>) -> bool {
    &&& payload.len() > 0
    &&& payload[0] != 0x00
    &&& payload[0] != 0x03
    &&& payload[0] != 0x09
    &&& payload[0] != 0x13
    &&& payload[0] != 0x15
    &&& payload[0] != 0x1c
}

proof fn application_payload_is_queued(m: PeerModel, payload: Seq<u8>, now: u64, epoch: i64)
    requires
        m.accepted,
        for_application(payload),
        m.inbox.queue.len() < m.inbox.capacity,
    ensures
        m.deliver_payload(payload, now, epoch) == (
            PeerModel {
                inbox: InboxView { queue: m.inbox.queue.push(payload), ..m.inbox },
                ..m
            },
            None::<crate::raknet::error::RakNetError>,
        ),
{
}

/// Order of delivery does not depend on order of arrival: of two ordered payloads for the
/// application, the one that comes second in the channel's order waits for the first.
pub proof fn early_payload_waits_for_its_turn(
    m: PeerModel,
    channel: u8,
    first: Seq<u8>,
    second: Seq<u8>,
    now: u64,
    epoch: i64,
)
    requires
        in_bounds(m),
        m.accepted,
        for_application(first),
        for_application(second),
        m.inbox.queue.len() + 1 < m.inbox.capacity,
        m.ordered_holdback.len() == 0,
        m.budgets.max_ordered_holdback > 0,
    ensures
        ({
            let expected = m.expected_on(channel);
            let next = after(expected);
            let early = m.accept_ordered(channel, next, second, now, epoch);
            let done = early.0.accept_ordered(channel, expected, first, now, epoch);
            &&& early.1 is None
            &&& early.0.inbox == m.inbox
            &&& done.1 is None
            &&& done.0.inbox.queue == m.inbox.queue.push(first).push(second)
            &&& done.0.expected_on(channel) == after(next)
            &&& done.0.ordered_holdback.len() == 0
        }),
{
    let expected = m.expected_on(channel);
    let next = after(expected);
    let slot = seq![channel as int];
    let key = seq![channel as int, next as int];
    rank_bounds(m.ordered_expected, slot);
    assert(expected < MODULUS) by {
        if holds(m.ordered_expected, slot) {
            assert(m.ordered_expected[rank(m.ordered_expected, slot)].1 < MODULUS);
        }
    }
    successor_is_newer(expected);
    assert(next != expected);
    rank_bounds(m.ordered_holdback, key);
    assert(!holds(m.ordered_holdback, key));
    insert_laws(m.ordered_expected, slot, expected, slot);
    insert_laws(m.ordered_holdback, key, second, key);
    let early = m.accept_ordered(channel, next, second, now, epoch).0;
    assert(early.expected_on(channel) == expected);
    assert(lookup(early.ordered_holdback, key) == Some(second));
    // The first payload arrives.
    insert_laws(early.ordered_expected, slot, next, slot);
    let ready = early.expecting(channel, next);
    application_payload_is_queued(ready, first, now, epoch);
    let delivered = ready.deliver_payload(first, now, epoch).0;
    assert(delivered.expected_on(channel) == next);
    // The second payload's turn has come.
    let taken = PeerModel {
        ordered_holdback: removed(delivered.ordered_holdback, key),
        ..delivered
    };
    remove_laws(delivered.ordered_holdback, key, key);
    insert_laws(delivered.ordered_expected, slot, after(next), slot);
    let last = taken.expecting(channel, after(next));
    application_payload_is_queued(last, second, now, epoch);
    let drained = last.deliver_payload(second, now, epoch).0;
    assert(drained.ordered_holdback.len() == 0);
    assert(drained.expected_on(channel) == after(next));
    let empty_key = seq![channel as int, after(next) as int];
    rank_bounds(drained.ordered_holdback, empty_key);
    assert(lookup(drained.ordered_holdback, empty_key) is None);
    reveal_with_fuel(PeerModel::drain_holdback, 3);
}

} // verus!
