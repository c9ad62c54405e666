//! What every event leaves true of a peer: it keeps to its budgets, and its books are in order.

use crate::bytes::{from_le_bound, pow256_values};
use crate::ordered::{
    holds, insert_laws, inserted, lex_before, lookup, rank, rank_bounds, remove_laws, removed,
    sorted, Entries,
};
use crate::raknet::budget::RakNetBudgets;
use crate::raknet::peer_model::{
    after, byte_total, due, fragment, fragment_count, in_ranges, kept, missing, saturating_sum,
    PeerModel, UnackedView, DATAGRAM_HEADER_BUDGET,
};
use crate::raknet::sequence::MODULUS;
use crate::raknet::snapshot::window_limit;
use crate::raknet::timing::MAX_RETRANSMIT_ATTEMPTS;
use crate::raknet::window::{distinct, latest};
use crate::raknet::wire::{
    ack_range_wire, acknowledgement, connected_ping, connected_pong, connection_accept,
    connection_request, datagram, datagram_wire, frame_layout, frames_from, next_frame, u24_at,
    FrameView, SplitHeader,
};
use vstd::prelude::*;

verus! {

/// Whether an unconfirmed datagram is numbered, small enough and not sent too often.
pub open spec fn unacked_ok(entry: (Seq<int>, UnackedView), budgets: RakNetBudgets) -> bool {
    &&& entry.0.len() == 1
    &&& 0 <= entry.0[0] < MODULUS
    &&& entry.1.bytes.len() <= budgets.max_datagram_bytes
    &&& 1 <= entry.1.attempts <= MAX_RETRANSMIT_ATTEMPTS
}

/// Whether a held-back payload has a channel and a number.
pub open spec fn holdback_ok(entry: (Seq<int>, Seq<u8>)) -> bool {
    &&& entry.0.len() == 2
    &&& 0 <= entry.0[0] < 256
    &&& 0 <= entry.0[1] < MODULUS
}

/// Whether an assembly has an identifier and parts.
pub open spec fn reassembly_ok(entry: (Seq<int>, Seq<Option<Seq<u8>>>)) -> bool {
    &&& entry.0.len() == 1
    &&& 0 <= entry.0[0] < 0x1_0000
    &&& entry.1.len() > 0
}

/// Whether an entry is about a channel.
pub open spec fn channel_ok(entry: (Seq<int>, nat)) -> bool {
    &&& entry.0.len() == 1
    &&& 0 <= entry.0[0] < 256
}

/// Whether every entry satisfies a condition.
pub open spec fn every<W>(s: Entries<W>, ok: spec_fn((Seq<int>, W)) -> bool) -> bool {
    forall|i: int| 0 <= i < s.len() ==> ok(#[trigger] s[i])
}

/// The sum of the numbers of a list.
pub open spec fn total(s: Seq<nat>) -> nat
    decreases s.len(),
{
    if s.len() == 0 {
        0
    } else {
        total(s.drop_last()) + s.last()
    }
}

/// How many parts each assembly has.
pub open spec fn part_counts(s: Entries<Seq<Option<Seq<u8>>>>) -> Seq<nat> {
    s.map_values(|entry: (Seq<int>, Seq<Option<Seq<u8>>>)| entry.1.len())
}

/// How many bytes each assembly holds.
pub open spec fn byte_counts(s: Entries<Seq<Option<Seq<u8>>>>) -> Seq<nat> {
    s.map_values(|entry: (Seq<int>, Seq<Option<Seq<u8>>>)| byte_total(entry.1))
}

/// Whether what a peer has sent keeps to its budgets.
pub open spec fn sending_in_bounds(m: PeerModel) -> bool {
    &&& sorted(m.unacked)
    &&& forall|i: int| 0 <= i < m.unacked.len() ==> unacked_ok(#[trigger] m.unacked[i], m.budgets)
    &&& m.unacked.len() <= m.budgets.max_unacked_datagrams
    &&& m.next_datagram < MODULUS
}

/// Whether the fragments that a peer has received keep to its budgets and are counted.
pub open spec fn reassembly_in_bounds(m: PeerModel) -> bool {
    &&& sorted(m.reassembly)
    &&& forall|i: int| 0 <= i < m.reassembly.len() ==> reassembly_ok(#[trigger] m.reassembly[i])
    &&& m.reassembly_parts == total(part_counts(m.reassembly))
    &&& m.reassembly_bytes == total(byte_counts(m.reassembly))
    &&& m.reassembly_parts <= m.budgets.max_reassembly_parts_per_peer
    &&& m.reassembly_bytes <= m.budgets.max_reassembly_bytes_per_peer
}

/// Whether the ordering of a peer keeps to its budgets.
pub open spec fn ordering_in_bounds(m: PeerModel) -> bool {
    &&& sorted(m.ordered_expected)
    &&& forall|i: int| 0 <= i < m.ordered_expected.len() ==> channel_ok(#[trigger] m.ordered_expected[i])
    &&& forall|i: int| 0 <= i < m.ordered_expected.len() ==> (#[trigger] m.ordered_expected[i]).1 < MODULUS
    &&& sorted(m.sequenced_latest)
    &&& forall|i: int| 0 <= i < m.sequenced_latest.len() ==> channel_ok(#[trigger] m.sequenced_latest[i])
    &&& sorted(m.ordered_holdback)
    &&& forall|i: int| 0 <= i < m.ordered_holdback.len() ==> holdback_ok(#[trigger] m.ordered_holdback[i])
    &&& m.ordered_holdback.len() <= m.budgets.max_ordered_holdback
}

/// Whether the duplicate windows and the inbox of a peer keep to its budgets.
pub open spec fn windows_in_bounds(m: PeerModel) -> bool {
    &&& distinct(m.seen_datagrams)
    &&& m.seen_datagrams.len() <= window_limit(m.budgets)
    &&& distinct(m.seen_reliable)
    &&& m.seen_reliable.len() <= window_limit(m.budgets)
    &&& m.inbox.capacity == m.budgets.application_queue
    &&& m.inbox.queue.len() <= m.budgets.application_queue
}

/// Whether no limit is the largest number that the machine can count to.
pub open spec fn countable(budgets: RakNetBudgets) -> bool {
    &&& budgets.max_unacked_datagrams < usize::MAX
    &&& budgets.max_ordered_holdback < usize::MAX
    &&& budgets.application_queue < usize::MAX
    &&& budgets.max_reassembly_parts_per_peer < usize::MAX
    &&& budgets.max_reassembly_bytes_per_peer < usize::MAX
}

/// Whether a peer keeps to its budgets and its books are in order.
pub open spec fn in_bounds(m: PeerModel) -> bool {
    &&& countable(m.budgets)
    &&& sending_in_bounds(m)
    &&& reassembly_in_bounds(m)
    &&& ordering_in_bounds(m)
    &&& windows_in_bounds(m)
}

/// A condition that holds of every entry and of a new one holds of every entry after inserting.
pub proof fn every_inserted<W>(
    s: Entries<W>,
    id: Seq<int>,
    value: W,
    ok: spec_fn((Seq<int>, W)) -> bool,
)
    requires
        every(s, ok),
        ok((id, value)),
    ensures
        every(inserted(s, id, value), ok),
{
    rank_bounds(s, id);
    let t = inserted(s, id, value);
    let place = rank(s, id);
    assert forall|i: int| 0 <= i < t.len() implies ok(#[trigger] t[i]) by {
        if i == place {
            assert(t[i] == (id, value));
        } else if holds(s, id) || i < place {
            assert(t[i] == s[i]);
        } else {
            assert(t[i] == s[i - 1]);
        }
    }
}

/// A condition that holds of every entry still does after removing one.
proof fn every_removed<W>(s: Entries<W>, id: Seq<int>, ok: spec_fn((Seq<int>, W)) -> bool)
    requires
        every(s, ok),
    ensures
        every(removed(s, id), ok),
{
    rank_bounds(s, id);
    let t = removed(s, id);
    let place = rank(s, id);
    assert forall|i: int| 0 <= i < t.len() implies ok(#[trigger] t[i]) by {
        if !holds(s, id) || i < place {
            assert(t[i] == s[i]);
        } else {
            assert(t[i] == s[i + 1]);
        }
    }
}

/// Replacing one number changes the sum by the difference.
proof fn total_update(s: Seq<nat>, i: int, n: nat)
    requires
        0 <= i < s.len(),
    ensures
        total(s.update(i, n)) + s[i] == total(s) + n,
        s[i] <= total(s),
    decreases s.len(),
{
    let t = s.update(i, n);
    if i == s.len() - 1 {
        assert(t.drop_last() =~= s.drop_last());
    } else {
        assert(t.drop_last() =~= s.drop_last().update(i, n));
        total_update(s.drop_last(), i, n);
    }
}

/// Inserting a number adds it to the sum.
proof fn total_insert(s: Seq<nat>, i: int, n: nat)
    requires
        0 <= i <= s.len(),
    ensures
        total(s.insert(i, n)) == total(s) + n,
    decreases s.len(),
{
    let t = s.insert(i, n);
    if i == s.len() {
        assert(t.drop_last() =~= s);
    } else {
        assert(t.drop_last() =~= s.drop_last().insert(i, n));
        assert(t.last() == s.last());
        total_insert(s.drop_last(), i, n);
    }
}

/// Removing a number takes it from the sum.
proof fn total_remove(s: Seq<nat>, i: int)
    requires
        0 <= i < s.len(),
    ensures
        total(s.remove(i)) + s[i] == total(s),
    decreases s.len(),
{
    let t = s.remove(i);
    if i == s.len() - 1 {
        assert(t =~= s.drop_last());
    } else {
        assert(t.drop_last() =~= s.drop_last().remove(i));
        assert(t.last() == s.last());
        total_remove(s.drop_last(), i);
    }
}

/// What inserting an assembly does to the counts of parts and bytes.
pub proof fn counts_inserted(
    s: Entries<Seq<Option<Seq<u8>>>>,
    id: Seq<int>,
    parts: Seq<Option<Seq<u8>>>,
)
    ensures
        ({
            let t = inserted(s, id, parts);
            let before = lookup(s, id);
            &&& total(part_counts(t)) + (if before is Some {
                before->Some_0.len()
            } else {
                0
            }) == total(part_counts(s)) + parts.len()
            &&& total(byte_counts(t)) + (if before is Some {
                byte_total(before->Some_0)
            } else {
                0
            }) == total(byte_counts(s)) + byte_total(parts)
        }),
{
    rank_bounds(s, id);
    let t = inserted(s, id, parts);
    let place = rank(s, id);
    if holds(s, id) {
        assert(part_counts(t) =~= part_counts(s).update(place, parts.len()));
        assert(byte_counts(t) =~= byte_counts(s).update(place, byte_total(parts)));
        total_update(part_counts(s), place, parts.len());
        total_update(byte_counts(s), place, byte_total(parts));
    } else {
        assert(part_counts(t) =~= part_counts(s).insert(place, parts.len()));
        assert(byte_counts(t) =~= byte_counts(s).insert(place, byte_total(parts)));
        total_insert(part_counts(s), place, parts.len());
        total_insert(byte_counts(s), place, byte_total(parts));
    }
}

/// What removing an assembly does to the counts of parts and bytes.
proof fn counts_removed(s: Entries<Seq<Option<Seq<u8>>>>, id: Seq<int>)
    requires
        holds(s, id),
    ensures
        ({
            let t = removed(s, id);
            let parts = lookup(s, id)->Some_0;
            &&& total(part_counts(t)) + parts.len() == total(part_counts(s))
            &&& total(byte_counts(t)) + byte_total(parts) == total(byte_counts(s))
        }),
{
    rank_bounds(s, id);
    let t = removed(s, id);
    let place = rank(s, id);
    assert(part_counts(t) =~= part_counts(s).remove(place));
    assert(byte_counts(t) =~= byte_counts(s).remove(place));
    total_remove(part_counts(s), place);
    total_remove(byte_counts(s), place);
}

/// Filling a part that was missing adds its bytes.
proof fn fill_part(parts: Seq<Option<Seq<u8>>>, i: int, payload: Seq<u8>)
    requires
        0 <= i < parts.len(),
        parts[i] is None,
    ensures
        byte_total(parts.update(i, Some(payload))) == byte_total(parts) + payload.len(),
    decreases parts.len(),
{
    let t = parts.update(i, Some(payload));
    if i == parts.len() - 1 {
        assert(t.drop_last() =~= parts.drop_last());
    } else {
        assert(t.drop_last() =~= parts.drop_last().update(i, Some(payload)));
        fill_part(parts.drop_last(), i, payload);
    }
}

/// Parts that are all missing hold no bytes.
proof fn nothing_yet(count: nat)
    ensures
        byte_total(Seq::new(count, |i: int| None::<Seq<u8>>)) == 0,
    decreases count,
{
    let parts = Seq::new(count, |i: int| None::<Seq<u8>>);
    if count > 0 {
        assert(parts.drop_last() =~= Seq::new((count - 1) as nat, |i: int| None::<Seq<u8>>));
        nothing_yet((count - 1) as nat);
    }
}

/// Sending a frame keeps a peer in bounds.
pub proof fn send_frame_keeps_bounds(m: PeerModel, frame: FrameView, now: u64)
    requires
        in_bounds(m),
    ensures
        in_bounds(m.send_frame(frame, now).0),
{
    let bytes = datagram_wire(m.next_datagram, frame);
    let key = seq![m.next_datagram as int];
    let sent = UnackedView { bytes, sent_at: now, attempts: 1 };
    let ok = |entry: (Seq<int>, UnackedView)| unacked_ok(entry, m.budgets);
    insert_laws(m.unacked, key, sent, key);
    if m.send_frame(frame, now).1 is None {
        every_inserted(m.unacked, key, sent, ok);
        let t = inserted(m.unacked, key, sent);
        assert forall|i: int| 0 <= i < t.len() implies unacked_ok(#[trigger] t[i], m.budgets) by {
            assert(ok(t[i]));
        }
    }
}

/// Sending fragments keeps a peer in bounds.
proof fn send_fragments_keeps_bounds(
    m: PeerModel,
    payload: Seq<u8>,
    capacity: nat,
    count: nat,
    i: nat,
    order: nat,
    split_id: u16,
    now: u64,
)
    requires
        in_bounds(m),
    ensures
        in_bounds(m.send_fragments(payload, capacity, count, i, order, split_id, now).0),
    decreases count - i,
{
    if i < count {
        let frame = fragment(payload, capacity, count, i, m.next_reliable, order, split_id);
        let numbered = PeerModel { next_reliable: after(m.next_reliable), ..m };
        send_frame_keeps_bounds(numbered, frame, now);
        let (sent, e) = numbered.send_frame(frame, now);
        send_fragments_keeps_bounds(sent, payload, capacity, count, i + 1, order, split_id, now);
    }
}

/// Sending a payload keeps a peer in bounds.
pub proof fn send_keeps_bounds(m: PeerModel, payload: Seq<u8>, now: u64)
    requires
        in_bounds(m),
    ensures
        in_bounds(m.send_reliable_ordered(payload, now).0),
        in_bounds(m.send_application(payload, now).0),
{
    if m.mtu > DATAGRAM_HEADER_BUDGET {
        let capacity = (m.mtu - DATAGRAM_HEADER_BUDGET) as nat;
        let count = fragment_count(payload.len(), capacity);
        let ordered = PeerModel {
            next_ordered: after(m.next_ordered),
            next_split_id: if m.next_split_id == u16::MAX {
                0
            } else {
                (m.next_split_id + 1) as u16
            },
            ..m
        };
        send_fragments_keeps_bounds(
            ordered,
            payload,
            capacity,
            count,
            0,
            m.next_ordered,
            m.next_split_id,
            now,
        );
    }
}

/// Delivering a payload keeps a peer in bounds.
pub proof fn deliver_keeps_bounds(m: PeerModel, payload: Seq<u8>, now: u64, epoch: i64)
    requires
        in_bounds(m),
    ensures
        in_bounds(m.deliver_payload(payload, now, epoch).0),
{
    if let Ok(Some(request_time)) = connection_request(payload) {
        send_keeps_bounds(m, connection_accept(m.remote_addr, request_time, epoch), now);
    }
    if let Ok(Some(ping_time)) = connected_ping(payload) {
        send_keeps_bounds(m, connected_pong(ping_time, epoch), now);
    }
}

/// Expecting a number on a channel keeps a peer in bounds.
proof fn expecting_keeps_bounds(m: PeerModel, channel: u8, n: nat)
    requires
        in_bounds(m),
        n < MODULUS,
    ensures
        in_bounds(m.expecting(channel, n)),
        m.expected_on(channel) < MODULUS,
{
    let key = seq![channel as int];
    let t = inserted(m.ordered_expected, key, n);
    let ok = |entry: (Seq<int>, nat)| channel_ok(entry) && entry.1 < MODULUS;
    insert_laws(m.ordered_expected, key, n, key);
    rank_bounds(m.ordered_expected, key);
    every_inserted(m.ordered_expected, key, n, ok);
    assert forall|i: int| 0 <= i < t.len() implies channel_ok(#[trigger] t[i]) && t[i].1
        < MODULUS by {
        assert(ok(t[i]));
    }
}

/// Delivering held-back payloads keeps a peer in bounds.
proof fn drain_keeps_bounds(m: PeerModel, channel: u8, now: u64, epoch: i64)
    requires
        in_bounds(m),
    ensures
        in_bounds(m.drain_holdback(channel, now, epoch).0),
    decreases m.ordered_holdback.len(),
{
    let expected = m.expected_on(channel);
    let key = seq![channel as int, expected as int];
    if let Some(payload) = lookup(m.ordered_holdback, key) {
        let taken = PeerModel { ordered_holdback: removed(m.ordered_holdback, key), ..m };
        let ok = |entry: (Seq<int>, Seq<u8>)| holdback_ok(entry);
        remove_laws(m.ordered_holdback, key, key);
        every_removed(m.ordered_holdback, key, ok);
        assert forall|i: int| 0 <= i < taken.ordered_holdback.len() implies holdback_ok(
            #[trigger] taken.ordered_holdback[i],
        ) by {
            assert(ok(taken.ordered_holdback[i]));
        }
        assert(in_bounds(taken));
        expecting_keeps_bounds(taken, channel, after(expected));
        let ready = taken.expecting(channel, after(expected));
        deliver_keeps_bounds(ready, payload, now, epoch);
        let (delivered, e) = ready.deliver_payload(payload, now, epoch);
        if e is None && delivered.ordered_holdback.len() < m.ordered_holdback.len() {
            drain_keeps_bounds(delivered, channel, now, epoch);
        }
    }
}

/// An ordered payload keeps a peer in bounds.
pub proof fn accept_ordered_keeps_bounds(
    m: PeerModel,
    channel: u8,
    sequence: nat,
    payload: Seq<u8>,
    now: u64,
    epoch: i64,
)
    requires
        in_bounds(m),
        sequence < MODULUS,
    ensures
        in_bounds(m.accept_ordered(channel, sequence, payload, now, epoch).0),
{
    let expected = m.expected_on(channel);
    expecting_keeps_bounds(m, channel, 0);
    expecting_keeps_bounds(m, channel, expected);
    expecting_keeps_bounds(m, channel, after(expected));
    let ready = m.expecting(channel, after(expected));
    deliver_keeps_bounds(ready, payload, now, epoch);
    drain_keeps_bounds(ready.deliver_payload(payload, now, epoch).0, channel, now, epoch);
    let key = seq![channel as int, sequence as int];
    let t = inserted(m.ordered_holdback, key, payload);
    let ok = |entry: (Seq<int>, Seq<u8>)| holdback_ok(entry);
    insert_laws(m.ordered_holdback, key, payload, key);
    every_inserted(m.ordered_holdback, key, payload, ok);
    assert forall|i: int| 0 <= i < t.len() implies holdback_ok(#[trigger] t[i]) by {
        assert(ok(t[i]));
    }
}

/// The state of a peer once it has room for the fragments of a payload.
spec fn opened_for(m: PeerModel, split: SplitHeader) -> PeerModel {
    let key = seq![split.id as int];
    if holds(m.reassembly, key) {
        m
    } else {
        PeerModel {
            reassembly: inserted(
                m.reassembly,
                key,
                Seq::new(split.count as nat, |i: int| None::<Seq<u8>>),
            ),
            reassembly_parts: saturating_sum(m.reassembly_parts, split.count as nat),
            ..m
        }
    }
}

/// Making room for fragments keeps a peer in bounds.
proof fn opening_keeps_bounds(m: PeerModel, split: SplitHeader)
    requires
        in_bounds(m),
        split.count > 0,
        !holds(m.reassembly, seq![split.id as int]) ==> saturating_sum(
            m.reassembly_parts,
            split.count as nat,
        ) <= m.budgets.max_reassembly_parts_per_peer,
    ensures
        in_bounds(opened_for(m, split)),
        holds(opened_for(m, split).reassembly, seq![split.id as int]),
{
    let key = seq![split.id as int];
    let empty = Seq::new(split.count as nat, |i: int| None::<Seq<u8>>);
    let ok = |entry: (Seq<int>, Seq<Option<Seq<u8>>>)| reassembly_ok(entry);
    if !holds(m.reassembly, key) {
        let opened = opened_for(m, split);
        nothing_yet(split.count as nat);
        insert_laws(m.reassembly, key, empty, key);
        counts_inserted(m.reassembly, key, empty);
        every_inserted(m.reassembly, key, empty, ok);
        assert forall|i: int| 0 <= i < opened.reassembly.len() implies reassembly_ok(
            #[trigger] opened.reassembly[i],
        ) by {
            assert(ok(opened.reassembly[i]));
        }
    }
}

/// Filling a missing part keeps a peer in bounds.
proof fn filling_keeps_bounds(m: PeerModel, key: Seq<int>, index: int, payload: Seq<u8>)
    requires
        in_bounds(m),
        holds(m.reassembly, key),
        0 <= index < lookup(m.reassembly, key)->Some_0.len(),
        lookup(m.reassembly, key)->Some_0[index] is None,
        saturating_sum(m.reassembly_bytes, payload.len())
            <= m.budgets.max_reassembly_bytes_per_peer,
    ensures
        ({
            let filled = lookup(m.reassembly, key)->Some_0.update(index, Some(payload));
            let next = PeerModel {
                reassembly: inserted(m.reassembly, key, filled),
                reassembly_bytes: saturating_sum(m.reassembly_bytes, payload.len()),
                ..m
            };
            in_bounds(next) && lookup(next.reassembly, key) == Some(filled)
        }),
{
    let parts = lookup(m.reassembly, key)->Some_0;
    let filled = parts.update(index, Some(payload));
    let next = inserted(m.reassembly, key, filled);
    let ok = |entry: (Seq<int>, Seq<Option<Seq<u8>>>)| reassembly_ok(entry);
    rank_bounds(m.reassembly, key);
    assert(reassembly_ok(m.reassembly[rank(m.reassembly, key)]));
    fill_part(parts, index, payload);
    insert_laws(m.reassembly, key, filled, key);
    counts_inserted(m.reassembly, key, filled);
    every_inserted(m.reassembly, key, filled, ok);
    assert forall|i: int| 0 <= i < next.len() implies reassembly_ok(#[trigger] next[i]) by {
        assert(ok(next[i]));
    }
}

/// A fragment keeps a peer in bounds.
pub proof fn accept_fragment_keeps_bounds(m: PeerModel, split: SplitHeader, payload: Seq<u8>)
    requires
        in_bounds(m),
    ensures
        in_bounds(m.accept_fragment(split, payload).0),
{
    let key = seq![split.id as int];
    let added = if holds(m.reassembly, key) {
        0
    } else {
        split.count as nat
    };
    if split.index < split.count && saturating_sum(m.reassembly_parts, added)
        <= m.budgets.max_reassembly_parts_per_peer {
        let opened = opened_for(m, split);
        opening_keeps_bounds(m, split);
        let parts = lookup(opened.reassembly, key)->Some_0;
        if parts.len() == split.count {
            if parts[split.index as int] is None {
                let bytes = saturating_sum(opened.reassembly_bytes, payload.len());
                if bytes <= m.budgets.max_reassembly_bytes_per_peer {
                    let filled = parts.update(split.index as int, Some(payload));
                    filling_keeps_bounds(opened, key, split.index as int, payload);
                    let next = PeerModel {
                        reassembly: inserted(opened.reassembly, key, filled),
                        reassembly_bytes: bytes,
                        ..opened
                    };
                    complete_keeps_bounds(next, key, filled);
                }
            } else {
                complete_keeps_bounds(opened, key, parts);
            }
        }
    }
}

/// Completing a payload keeps a peer in bounds.
proof fn complete_keeps_bounds(m: PeerModel, key: Seq<int>, parts: Seq<Option<Seq<u8>>>)
    requires
        in_bounds(m),
        lookup(m.reassembly, key) == Some(parts),
    ensures
        in_bounds(m.complete_fragments(key, parts).0),
{
    let t = removed(m.reassembly, key);
    let ok = |entry: (Seq<int>, Seq<Option<Seq<u8>>>)| reassembly_ok(entry);
    remove_laws(m.reassembly, key, key);
    every_removed(m.reassembly, key, ok);
    counts_removed(m.reassembly, key);
    assert forall|i: int| 0 <= i < t.len() implies reassembly_ok(#[trigger] t[i]) by {
        assert(ok(t[i]));
    }
}

/// Whether the place of a frame in its channel, if it has one, is in the sequence range.
pub open spec fn numbered(frame: FrameView) -> bool {
    frame.order_index matches Some(n) ==> n < MODULUS
}

/// The frames of a packet are numbered.
proof fn frames_are_numbered(s: Seq<u8>, at: int, max_payload: usize)
    requires
        0 <= at,
        frames_from(s, at, max_payload) is Ok,
    ensures
        forall|i: int|
            0 <= i < frames_from(s, at, max_payload)->Ok_0.len() ==> numbered(
                #[trigger] frames_from(s, at, max_payload)->Ok_0[i],
            ),
    decreases s.len() - at,
{
    broadcast use from_le_bound, pow256_values;

    if at < s.len() {
        let (frame, end) = next_frame(s, at, max_payload)->Ok_0;
        frames_are_numbered(s, end, max_payload);
        let rest = frames_from(s, end, max_payload)->Ok_0;
        let all = frames_from(s, at, max_payload)->Ok_0;
        assert(all == seq![frame] + rest);
        assert forall|i: int| 0 <= i < all.len() implies numbered(#[trigger] all[i]) by {
            if i == 0 {
                let order_at = frame_layout(s, at).2;
                if frame.order_index is Some {
                    assert(frame.order_index->Some_0 == u24_at(s, order_at));
                    assert(s.subrange(order_at, order_at + 3).len() == 3);
                }
            } else {
                assert(all[i] == rest[i - 1]);
            }
        }
    }
}

/// A window with a new number still has no repetition and keeps to its limit.
proof fn window_keeps_bounds(s: Seq<nat>, n: nat, limit: nat)
    requires
        distinct(s),
        !s.contains(n),
    ensures
        distinct(latest(s.push(n), limit)),
        latest(s.push(n), limit).len() <= limit,
{
    let pushed = s.push(n);
    assert(distinct(pushed));
    let t = latest(pushed, limit);
    if pushed.len() > limit {
        assert forall|i: int, j: int| 0 <= i < j < t.len() implies #[trigger] t[i]
            != #[trigger] t[j] by {
            assert(t[i] == pushed[i + pushed.len() - limit]);
            assert(t[j] == pushed[j + pushed.len() - limit]);
        }
    }
}

/// A frame keeps a peer in bounds.
pub proof fn receive_frame_keeps_bounds(m: PeerModel, frame: FrameView, now: u64, epoch: i64)
    requires
        in_bounds(m),
        numbered(frame),
    ensures
        in_bounds(m.receive_frame(frame, now, epoch).0),
{
    match frame.reliable_index {
        None => receive_new_keeps_bounds(m, frame, now, epoch),
        Some(index) => if !m.seen_reliable.contains(index) {
            let limit = window_limit(m.budgets) as nat;
            window_keeps_bounds(m.seen_reliable, index, limit);
            let seen = PeerModel {
                seen_reliable: latest(m.seen_reliable.push(index), limit),
                ..m
            };
            receive_new_keeps_bounds(seen, frame, now, epoch);
        },
    }
}

proof fn receive_new_keeps_bounds(m: PeerModel, frame: FrameView, now: u64, epoch: i64)
    requires
        in_bounds(m),
        numbered(frame),
    ensures
        in_bounds(m.receive_new(frame, now, epoch).0),
{
    match frame.split {
        None => receive_whole_keeps_bounds(m, frame, frame.payload, now, epoch),
        Some(split) => {
            accept_fragment_keeps_bounds(m, split, frame.payload);
            let (kept, whole) = m.accept_fragment(split, frame.payload);
            if let Ok(Some(payload)) = whole {
                receive_whole_keeps_bounds(kept, frame, payload, now, epoch);
            }
        },
    }
}

proof fn receive_whole_keeps_bounds(
    m: PeerModel,
    frame: FrameView,
    payload: Seq<u8>,
    now: u64,
    epoch: i64,
)
    requires
        in_bounds(m),
        numbered(frame),
    ensures
        in_bounds(m.receive_whole(frame, payload, now, epoch).0),
{
    if frame.reliability.spec_sequenced() {
        if let Some(sequence) = frame.sequence_index {
            let key = seq![frame.order_channel as int];
            let t = inserted(m.sequenced_latest, key, sequence);
            let ok = |entry: (Seq<int>, nat)| channel_ok(entry);
            insert_laws(m.sequenced_latest, key, sequence, key);
            every_inserted(m.sequenced_latest, key, sequence, ok);
            assert forall|i: int| 0 <= i < t.len() implies channel_ok(#[trigger] t[i]) by {
                assert(ok(t[i]));
            }
            deliver_keeps_bounds(PeerModel { sequenced_latest: t, ..m }, payload, now, epoch);
        }
    } else if frame.reliability.spec_ordered() {
        if let Some(sequence) = frame.order_index {
            accept_ordered_keeps_bounds(m, frame.order_channel, sequence, payload, now, epoch);
        }
    } else {
        deliver_keeps_bounds(m, payload, now, epoch);
    }
}

proof fn receive_frames_keeps_bounds(
    m: PeerModel,
    frames: Seq<FrameView>,
    i: int,
    now: u64,
    epoch: i64,
)
    requires
        in_bounds(m),
        0 <= i,
        forall|j: int| 0 <= j < frames.len() ==> numbered(#[trigger] frames[j]),
    ensures
        in_bounds(m.receive_frames(frames, i, now, epoch).0),
    decreases frames.len() - i,
{
    if i < frames.len() {
        receive_frame_keeps_bounds(m, frames[i], now, epoch);
        receive_frames_keeps_bounds(
            m.receive_frame(frames[i], now, epoch).0,
            frames,
            i + 1,
            now,
            epoch,
        );
    }
}

/// Sending datagrams again keeps a peer in bounds.
proof fn retransmit_keeps_bounds(m: PeerModel, sequences: Seq<nat>, i: int, now: u64)
    requires
        in_bounds(m),
        0 <= i,
    ensures
        in_bounds(m.retransmit_all(sequences, i, now).0),
    decreases sequences.len() - i,
{
    if i < sequences.len() {
        let key = seq![sequences[i] as int];
        if let Some(sent) = lookup(m.unacked, key) {
            rank_bounds(m.unacked, key);
            assert(unacked_ok(m.unacked[rank(m.unacked, key)], m.budgets));
            if sent.attempts < MAX_RETRANSMIT_ATTEMPTS {
                let again = UnackedView {
                    bytes: sent.bytes,
                    sent_at: now,
                    attempts: (sent.attempts + 1) as u16,
                };
                let t = inserted(m.unacked, key, again);
                let ok = |entry: (Seq<int>, UnackedView)| unacked_ok(entry, m.budgets);
                insert_laws(m.unacked, key, again, key);
                every_inserted(m.unacked, key, again, ok);
                assert forall|j: int| 0 <= j < t.len() implies unacked_ok(
                    #[trigger] t[j],
                    m.budgets,
                ) by {
                    assert(ok(t[j]));
                }
            }
        }
        let (sent, e) = m.retransmit(sequences[i], now);
        assert(in_bounds(sent));
        if e is None {
            retransmit_keeps_bounds(sent, sequences, i + 1, now);
        }
    }
}

/// The datagrams that stay unconfirmed are among those that were, in their order.
proof fn kept_is_part(unacked: Entries<UnackedView>, ranges: Seq<(nat, nat)>, i: int)
    requires
        0 <= i <= unacked.len(),
        sorted(unacked),
    ensures
        sorted(kept(unacked, ranges, i)),
        kept(unacked, ranges, i).len() <= unacked.len() - i,
        forall|k: int|
            0 <= k < kept(unacked, ranges, i).len() ==> exists|j: int|
                i <= j < unacked.len() && #[trigger] unacked[j] == #[trigger] kept(
                    unacked,
                    ranges,
                    i,
                )[k],
    decreases unacked.len() - i,
{
    if i < unacked.len() {
        kept_is_part(unacked, ranges, i + 1);
        let rest = kept(unacked, ranges, i + 1);
        let all = kept(unacked, ranges, i);
        if !in_ranges(unacked[i].0[0] as nat, ranges) {
            assert(all == seq![unacked[i]] + rest);
            assert forall|k: int| 0 <= k < all.len() implies exists|j: int|
                i <= j < unacked.len() && #[trigger] unacked[j] == #[trigger] all[k] by {
                if k == 0 {
                    assert(unacked[i] == all[0]);
                } else {
                    assert(all[k] == rest[k - 1]);
                }
            }
            assert forall|a: int, b: int| 0 <= a < b < all.len() implies lex_before(
                #[trigger] all[a].0,
                #[trigger] all[b].0,
            ) by {
                assert(all[b] == rest[b - 1]);
                if a > 0 {
                    assert(all[a] == rest[a - 1]);
                } else {
                    let j = choose|j: int|
                        i + 1 <= j < unacked.len() && #[trigger] unacked[j] == rest[b - 1];
                    assert(unacked[j] == rest[b - 1]);
                }
            }
        } else {
            assert forall|k: int| 0 <= k < all.len() implies exists|j: int|
                i <= j < unacked.len() && #[trigger] unacked[j] == #[trigger] all[k] by {
                assert(all[k] == rest[k]);
            }
        }
    }
}

/// A confirmed datagram is not sent again: none that stays unconfirmed lies in the ranges.
pub proof fn confirmed_are_forgotten(
    unacked: Entries<UnackedView>,
    ranges: Seq<(nat, nat)>,
    i: int,
)
    requires
        0 <= i <= unacked.len(),
    ensures
        forall|k: int|
            0 <= k < kept(unacked, ranges, i).len() ==> !in_ranges(
                (#[trigger] kept(unacked, ranges, i)[k]).0[0] as nat,
                ranges,
            ),
    decreases unacked.len() - i,
{
    if i < unacked.len() {
        confirmed_are_forgotten(unacked, ranges, i + 1);
        let rest = kept(unacked, ranges, i + 1);
        let all = kept(unacked, ranges, i);
        if !in_ranges(unacked[i].0[0] as nat, ranges) {
            assert(all == seq![unacked[i]] + rest);
            assert forall|k: int| 0 <= k < all.len() implies !in_ranges(
                (#[trigger] all[k]).0[0] as nat,
                ranges,
            ) by {
                if k > 0 {
                    assert(all[k] == rest[k - 1]);
                }
            }
        }
    }
}

/// A packet keeps a peer in bounds.
pub proof fn receive_datagram_keeps_bounds(m: PeerModel, bytes: Seq<u8>, now: u64, epoch: i64)
    requires
        in_bounds(m),
    ensures
        in_bounds(m.receive_datagram(bytes, now, epoch).0),
{
    let heard = m.observed(now);
    assert(in_bounds(heard));
    match acknowledgement(bytes) {
        Err(_) => {},
        Ok(Some((confirms, ranges))) => if confirms {
            kept_is_part(heard.unacked, ranges, 0);
            let t = kept(heard.unacked, ranges, 0);
            assert forall|k: int| 0 <= k < t.len() implies unacked_ok(#[trigger] t[k], m.budgets) by {
                let j = choose|j: int|
                    0 <= j < heard.unacked.len() && #[trigger] heard.unacked[j] == t[k];
                assert(unacked_ok(heard.unacked[j], m.budgets));
            }
        } else {
            retransmit_keeps_bounds(heard, missing(heard.unacked, ranges, 0), 0, now);
        },
        Ok(None) => if let Ok((sequence, frames)) = datagram(bytes, m.budgets) {
            frames_are_numbered(bytes, 4, m.budgets.max_payload_bytes);
            if !m.seen_datagrams.contains(sequence) {
                let limit = window_limit(m.budgets) as nat;
                window_keeps_bounds(m.seen_datagrams, sequence, limit);
                let confirmed = heard.sending(ack_range_wire(0xc0, sequence, sequence));
                let noted = confirmed.note_datagram(sequence);
                assert(in_bounds(noted));
                receive_frames_keeps_bounds(noted, frames, 0, now, epoch);
            }
        },
    }
}

/// A timer keeps a peer in bounds.
pub proof fn on_timer_keeps_bounds(m: PeerModel, now: u64)
    requires
        in_bounds(m),
    ensures
        in_bounds(m.on_timer(now).0),
{
    retransmit_keeps_bounds(m, due(m.unacked, now, 0), 0, now);
}

/// A pause keeps a peer in bounds.
pub proof fn resumed_keeps_bounds(m: PeerModel, frozen_at: u64, resumed_at: u64)
    requires
        in_bounds(m),
    ensures
        in_bounds(m.resumed(frozen_at, resumed_at)),
{
    let t = m.resumed(frozen_at, resumed_at).unacked;
    assert forall|i: int| 0 <= i < t.len() implies unacked_ok(#[trigger] t[i], m.budgets) by {
        assert(unacked_ok(m.unacked[i], m.budgets));
    }
    assert forall|i: int, j: int| 0 <= i < j < t.len() implies lex_before(
        #[trigger] t[i].0,
        #[trigger] t[j].0,
    ) by {
        assert(t[i].0 == m.unacked[i].0 && t[j].0 == m.unacked[j].0);
    }
}

/// A peer that has just been met is in bounds.
pub proof fn fresh_is_in_bounds(
    remote_addr: crate::raknet::address::PeerAddress,
    mtu: u16,
    budgets: RakNetBudgets,
    now: u64,
)
    requires
        countable(budgets),
    ensures
        in_bounds(PeerModel::fresh(remote_addr, mtu, budgets, now)),
{
    let m = PeerModel::fresh(remote_addr, mtu, budgets, now);
    assert(part_counts(m.reassembly) =~= Seq::empty());
    assert(byte_counts(m.reassembly) =~= Seq::empty());
}

} // verus!
