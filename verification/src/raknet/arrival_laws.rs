//! What becomes of frames that arrive: fragments are put together, gaps are reported, and what is
//! out of date is dropped.

use crate::ordered::{insert_laws, lookup, remove_laws, sorted};
use crate::raknet::answer_laws::is_for_application;
use crate::raknet::address::PeerAddress;
use crate::raknet::budget::RakNetBudgets;
use crate::raknet::error::RakNetError;
use crate::raknet::inbox::InboxView;
use crate::raknet::peer_model::{joined, ActionView, PeerModel};
use crate::raknet::resend_laws::lies_between;
use crate::raknet::wire::{acknowledgement, FrameView, Reliability, SplitHeader};
use crate::raknet::wire_laws::acknowledgement_round_trip;
use vstd::prelude::*;

verus! {

/// The parts that have come of a payload with an identifier.
pub open spec fn parts_of(m: PeerModel, id: int) -> Option<Seq<Option<Seq<u8>>>> {
    lookup(m.reassembly, seq![id])
}

/// Whether two peers differ at most in what has come of payloads in parts.
pub open spec fn differ_by_parts(a: PeerModel, b: PeerModel) -> bool {
    b == (PeerModel {
        reassembly: b.reassembly,
        reassembly_bytes: b.reassembly_bytes,
        reassembly_parts: b.reassembly_parts,
        ..a
    })
}

/// Whether there is room for some more bytes and parts.
pub open spec fn has_room(m: PeerModel, bytes: nat, parts: nat) -> bool {
    &&& m.reassembly_bytes + bytes <= m.budgets.max_reassembly_bytes_per_peer
    &&& m.reassembly_parts + parts <= m.budgets.max_reassembly_parts_per_peer
}

/// A fragment that is numbered beyond its payload is an error, and nothing changes.
pub proof fn fragment_beyond_its_payload_is_refused(
    m: PeerModel,
    split: SplitHeader,
    payload: Seq<u8>,
)
    requires
        split.index >= split.count,
    ensures
        m.accept_fragment(split, payload).0 == m,
        m.accept_fragment(split, payload).1 is Err,
{
}

/// The first fragment of a payload in several parts waits in its place; the other places are empty,
/// and there are as many as the payload has parts. Its bytes and its parts are counted. Nothing is
/// delivered, and other payloads are left alone.
pub proof fn first_fragment_waits(
    m: PeerModel,
    split: SplitHeader,
    payload: Seq<u8>,
    other: int,
)
    requires
        sorted(m.reassembly),
        parts_of(m, split.id as int) is None,
        split.index < split.count,
        split.count > 1,
        has_room(m, payload.len(), split.count as nat),
    ensures
        ({
            let (after, whole) = m.accept_fragment(split, payload);
            &&& whole matches Ok(None)
            &&& parts_of(after, split.id as int) matches Some(parts)
            &&& parts.len() == split.count
            &&& forall|i: int|
                0 <= i < parts.len() ==> #[trigger] parts[i] == if i == split.index {
                    Some(payload)
                } else {
                    None
                }
            &&& after.reassembly_parts == m.reassembly_parts + split.count
            &&& after.reassembly_bytes == m.reassembly_bytes + payload.len()
            &&& other != split.id ==> parts_of(after, other) == parts_of(m, other)
            &&& differ_by_parts(m, after)
        }),
{
    let key = seq![split.id as int];
    let none = Seq::new(split.count as nat, |i: int| None::<Seq<u8>>);
    let filled = none.update(split.index as int, Some(payload));
    keys_of_parts(split.id as int, other);
    insert_laws(m.reassembly, key, none, key);
    insert_laws(m.reassembly, key, none, seq![other]);
    let opened = crate::ordered::inserted(m.reassembly, key, none);
    insert_laws(opened, key, filled, key);
    insert_laws(opened, key, filled, seq![other]);
    let free: int = if split.index == 0 {
        1
    } else {
        0
    };
    assert(filled[free] is None);
}

proof fn keys_of_parts(a: int, b: int)
    ensures
        seq![a] == seq![b] <==> a == b,
{
    assert(seq![a][0] == a && seq![b][0] == b);
}

/// A fragment that leaves places empty fills its own and no other, and nothing is delivered.
pub proof fn further_fragment_waits(
    m: PeerModel,
    split: SplitHeader,
    payload: Seq<u8>,
    empty: int,
    other: int,
)
    requires
        sorted(m.reassembly),
        parts_of(m, split.id as int) matches Some(parts) && parts.len() == split.count
            && parts[split.index as int] is None && 0 <= empty < parts.len() && empty
            != split.index && parts[empty] is None,
        split.index < split.count,
        has_room(m, payload.len(), 0),
    ensures
        ({
            let (after, whole) = m.accept_fragment(split, payload);
            let before = parts_of(m, split.id as int)->Some_0;
            &&& whole matches Ok(None)
            &&& parts_of(after, split.id as int) matches Some(parts)
            &&& parts.len() == before.len()
            &&& forall|i: int|
                0 <= i < parts.len() ==> #[trigger] parts[i] == if i == split.index {
                    Some(payload)
                } else {
                    before[i]
                }
            &&& after.reassembly_parts == m.reassembly_parts
            &&& after.reassembly_bytes == m.reassembly_bytes + payload.len()
            &&& other != split.id ==> parts_of(after, other) == parts_of(m, other)
            &&& differ_by_parts(m, after)
        }),
{
    let key = seq![split.id as int];
    let parts = lookup(m.reassembly, key)->Some_0;
    let filled = parts.update(split.index as int, Some(payload));
    keys_of_parts(split.id as int, other);
    insert_laws(m.reassembly, key, filled, key);
    insert_laws(m.reassembly, key, filled, seq![other]);
    assert(filled[empty] is None);
}

/// A fragment that comes again changes nothing while its payload is not whole: the one that came
/// first counts.
pub proof fn repeated_fragment_is_dropped(
    m: PeerModel,
    split: SplitHeader,
    payload: Seq<u8>,
    empty: int,
)
    requires
        parts_of(m, split.id as int) matches Some(parts) && parts.len() == split.count
            && parts[split.index as int] is Some && 0 <= empty < parts.len() && parts[empty] is None,
        split.index < split.count,
        m.reassembly_parts <= m.budgets.max_reassembly_parts_per_peer,
    ensures
        m.accept_fragment(split, payload).0 == m,
        m.accept_fragment(split, payload).1 matches Ok(None),
{
}

/// A fragment of a payload that has another number of parts is an error, and nothing changes.
pub proof fn fragment_of_another_size_is_refused(
    m: PeerModel,
    split: SplitHeader,
    payload: Seq<u8>,
)
    requires
        parts_of(m, split.id as int) matches Some(parts) && parts.len() != split.count,
    ensures
        m.accept_fragment(split, payload).0 == m,
        m.accept_fragment(split, payload).1 is Err,
{
}

/// A fragment for which there is no room is an error: too many parts, or too many bytes. Nothing is
/// delivered, and no bytes are kept of it.
pub proof fn fragment_without_room_is_refused(
    m: PeerModel,
    split: SplitHeader,
    payload: Seq<u8>,
)
    requires
        split.index < split.count,
        m.reassembly_parts + split.count <= usize::MAX,
        m.reassembly_bytes + payload.len() <= usize::MAX,
    ensures
        ({
            let (after, whole) = m.accept_fragment(split, payload);
            &&& parts_of(m, split.id as int) is None && m.reassembly_parts + split.count
                > m.budgets.max_reassembly_parts_per_peer ==> after == m && whole is Err
            &&& parts_of(m, split.id as int) matches Some(parts) ==> (parts.len() == split.count
                && parts[split.index as int] is None && m.reassembly_bytes + payload.len()
                > m.budgets.max_reassembly_bytes_per_peer ==> after == m && whole is Err)
        }),
{
}

/// The parts of a payload, each there, one after the other.
pub open spec fn is_joined(whole: Seq<u8>, parts: Seq<Option<Seq<u8>>>) -> bool
    decreases parts.len(),
{
    if parts.len() == 0 {
        whole.len() == 0
    } else {
        parts[0] matches Some(first) && first.len() <= whole.len() && whole.subrange(
            0,
            first.len() as int,
        ) == first && is_joined(
            whole.subrange(first.len() as int, whole.len() as int),
            parts.subrange(1, parts.len() as int),
        )
    }
}

proof fn joined_from_front(parts: Seq<Option<Seq<u8>>>)
    requires
        parts.len() > 0,
        parts[0] is Some,
    ensures
        joined(parts) == parts[0]->Some_0 + joined(parts.subrange(1, parts.len() as int)),
    decreases parts.len(),
{
    let rest = parts.subrange(1, parts.len() as int);
    if parts.len() > 1 {
        let less = parts.drop_last();
        joined_from_front(less);
        assert(less.subrange(1, less.len() as int) =~= rest.drop_last());
        assert(rest.last() == parts.last());
        assert(joined(parts) =~= parts[0]->Some_0 + joined(rest));
    } else {
        assert(parts.drop_last() =~= Seq::empty());
        assert(rest =~= Seq::empty());
        assert(joined(parts.drop_last()) =~= Seq::<u8>::empty());
        assert(joined(parts) =~= parts[0]->Some_0 + joined(rest));
    }
}

proof fn joined_is_joined(parts: Seq<Option<Seq<u8>>>)
    requires
        forall|i: int| 0 <= i < parts.len() ==> #[trigger] parts[i] is Some,
    ensures
        is_joined(joined(parts), parts),
    decreases parts.len(),
{
    if parts.len() > 0 {
        let first = parts[0]->Some_0;
        let rest = parts.subrange(1, parts.len() as int);
        joined_from_front(parts);
        joined_is_joined(rest);
        assert(joined(parts).subrange(0, first.len() as int) =~= first);
        assert(joined(parts).subrange(first.len() as int, joined(parts).len() as int) =~= joined(
            rest,
        ));
    }
}

/// The fragment that was missing last makes the payload whole: what is delivered are the parts in
/// the order of their places, whatever the order in which they came. Nothing is kept of the
/// payload, its parts and bytes are counted no more, and other payloads are left alone.
pub proof fn last_fragment_makes_payload_whole(
    m: PeerModel,
    split: SplitHeader,
    payload: Seq<u8>,
    other: int,
)
    requires
        sorted(m.reassembly),
        parts_of(m, split.id as int) matches Some(parts) && parts.len() == split.count
            && parts[split.index as int] is None && (forall|i: int|
            0 <= i < parts.len() && i != split.index ==> #[trigger] parts[i] is Some),
        split.index < split.count,
        has_room(m, payload.len(), 0),
    ensures
        ({
            let (after, whole) = m.accept_fragment(split, payload);
            let parts = parts_of(m, split.id as int)->Some_0.update(
                split.index as int,
                Some(payload),
            );
            &&& whole matches Ok(Some(joined))
            &&& is_joined(joined, parts)
            &&& parts_of(after, split.id as int) is None
            &&& m.reassembly_parts >= parts.len() ==> after.reassembly_parts == m.reassembly_parts
                - parts.len()
            &&& m.reassembly_bytes + payload.len() >= joined.len() ==> after.reassembly_bytes
                == m.reassembly_bytes + payload.len() - joined.len()
            &&& other != split.id ==> parts_of(after, other) == parts_of(m, other)
            &&& differ_by_parts(m, after)
        }),
{
    let key = seq![split.id as int];
    let parts = lookup(m.reassembly, key)->Some_0;
    let filled = parts.update(split.index as int, Some(payload));
    keys_of_parts(split.id as int, other);
    insert_laws(m.reassembly, key, filled, key);
    insert_laws(m.reassembly, key, filled, seq![other]);
    let kept = crate::ordered::inserted(m.reassembly, key, filled);
    remove_laws(kept, key, key);
    remove_laws(kept, key, seq![other]);
    assert forall|i: int| 0 <= i < filled.len() implies #[trigger] filled[i] is Some by {
    }
    joined_is_joined(filled);
}

/// A payload that is sent in one part and neither sequenced nor ordered is delivered as soon as it
/// comes: once the handshake is complete, what is for the application waits to be read.
pub proof fn loose_payload_is_delivered_at_once(
    m: PeerModel,
    frame: FrameView,
    now: u64,
    epoch: i64,
)
    requires
        frame.reliability == Reliability::Unreliable || frame.reliability == Reliability::Reliable,
        frame.split is None,
        frame.reliable_index is None,
        m.accepted,
        is_for_application(frame.payload),
        m.inbox.queue.len() < m.inbox.capacity,
    ensures
        m.receive_frame(frame, now, epoch) == (
            PeerModel {
                inbox: InboxView { queue: m.inbox.queue.push(frame.payload), ..m.inbox },
                ..m
            },
            None::<RakNetError>,
        ),
{
    crate::raknet::answer_laws::application_payload_waits_to_be_read(
        m,
        frame.payload,
        now,
        epoch,
    );
}

/// The number of the newest sequenced payload that came on a channel.
pub open spec fn newest_on(m: PeerModel, channel: u8) -> Option<nat> {
    lookup(m.sequenced_latest, seq![channel as int])
}

/// Of sequenced payloads only those are delivered that are newer than all that came before on their
/// channel; one that is not is dropped, and nothing changes. The number of one that is delivered is
/// the newest then, and other channels are left alone.
pub proof fn only_newest_sequenced_payload_counts(
    m: PeerModel,
    frame: FrameView,
    sequence: nat,
    now: u64,
    epoch: i64,
    other: u8,
)
    requires
        sorted(m.sequenced_latest),
        frame.reliability == Reliability::UnreliableSequenced,
        frame.sequence_index == Some(sequence),
        frame.split is None,
        frame.reliable_index is None,
        m.accepted,
        is_for_application(frame.payload),
        m.inbox.queue.len() < m.inbox.capacity,
        sequence < 0x100_0000,
        newest_on(m, frame.order_channel) matches Some(n) ==> n < 0x100_0000,
    ensures
        ({
            let (after, e) = m.receive_frame(frame, now, epoch);
            let steps = match newest_on(m, frame.order_channel) {
                Some(n) => (sequence - n) % 0x100_0000,
                None => 1,
            };
            let is_new = 0 < steps < 0x80_0000;
            &&& e is None
            &&& !is_new ==> after == m
            &&& is_new ==> {
                &&& after.inbox.queue == m.inbox.queue.push(frame.payload)
                &&& newest_on(after, frame.order_channel) == Some(sequence)
                &&& other != frame.order_channel ==> newest_on(after, other) == newest_on(m, other)
                &&& after == (PeerModel {
                    inbox: after.inbox,
                    sequenced_latest: after.sequenced_latest,
                    ..m
                })
            }
        }),
{
    let key = seq![frame.order_channel as int];
    keys_of_parts(frame.order_channel as int, other as int);
    insert_laws(m.sequenced_latest, key, sequence, key);
    insert_laws(m.sequenced_latest, key, sequence, seq![other as int]);
    let noted = PeerModel {
        sequenced_latest: crate::ordered::inserted(m.sequenced_latest, key, sequence),
        ..m
    };
    crate::raknet::answer_laws::application_payload_waits_to_be_read(
        noted,
        frame.payload,
        now,
        epoch,
    );
}

/// An ordered payload that comes before its turn waits under its number, unless one already waits
/// there; nothing is delivered. Where there is no room it is an error.
pub proof fn early_payload_is_held_back(
    m: PeerModel,
    channel: u8,
    sequence: nat,
    payload: Seq<u8>,
    now: u64,
    epoch: i64,
    other: Seq<int>,
)
    requires
        sorted(m.ordered_holdback),
        sequence < 0x100_0000,
        m.expected_on(channel) < 0x100_0000,
        0 < (sequence - m.expected_on(channel)) % 0x100_0000 < 0x80_0000,
        m.ordered_holdback.len() < usize::MAX,
    ensures
        ({
            let (after, e) = m.accept_ordered(channel, sequence, payload, now, epoch);
            let key = seq![channel as int, sequence as int];
            let room = m.ordered_holdback.len() < m.budgets.max_ordered_holdback;
            &&& e is None == room
            &&& room ==> lookup(after.ordered_holdback, key) == (match lookup(
                m.ordered_holdback,
                key,
            ) {
                Some(earlier) => Some(earlier),
                None => Some(payload),
            })
            &&& room && other != key ==> lookup(after.ordered_holdback, other) == lookup(
                m.ordered_holdback,
                other,
            )
            &&& !room ==> after.ordered_holdback == m.ordered_holdback
            &&& after.inbox == m.inbox
            &&& after.outbox == m.outbox
            &&& after.accepted == m.accepted
            &&& after.unacked == m.unacked
        }),
{
    let key = seq![channel as int, sequence as int];
    insert_laws(m.ordered_holdback, key, payload, key);
    insert_laws(m.ordered_holdback, key, payload, other);
}

/// Frames are taken in one after the other: those up to any place, and then, unless one of them was
/// an error, those from there on.
pub proof fn frames_are_taken_in_turn(
    m: PeerModel,
    frames: Seq<FrameView>,
    k: int,
    now: u64,
    epoch: i64,
)
    requires
        0 <= k <= frames.len(),
    ensures
        ({
            let (some, e) = m.receive_frames(frames.subrange(0, k), 0, now, epoch);
            m.receive_frames(frames, 0, now, epoch) == if e is Some {
                (some, e)
            } else {
                some.receive_frames(frames.subrange(k, frames.len() as int), 0, now, epoch)
            }
        }),
        frames.len() == 1 ==> m.receive_frames(frames, 0, now, epoch) == m.receive_frame(
            frames[0],
            now,
            epoch,
        ),
        frames.len() == 0 ==> m.receive_frames(frames, 0, now, epoch) == (m, None::<RakNetError>),
{
    split_frames(m, frames, k, 0, now, epoch);
    if frames.len() == 1 {
        reveal_with_fuel(PeerModel::receive_frames, 2);
    }
}

proof fn later_frames(
    m: PeerModel,
    frames: Seq<FrameView>,
    k: int,
    i: int,
    now: u64,
    epoch: i64,
)
    requires
        0 <= k <= i <= frames.len(),
    ensures
        m.receive_frames(frames, i, now, epoch) == m.receive_frames(
            frames.subrange(k, frames.len() as int),
            i - k,
            now,
            epoch,
        ),
    decreases frames.len() - i,
{
    if i < frames.len() {
        later_frames(m.receive_frame(frames[i], now, epoch).0, frames, k, i + 1, now, epoch);
        assert(frames.subrange(k, frames.len() as int)[i - k] == frames[i]);
    }
}

proof fn split_frames(m: PeerModel, frames: Seq<FrameView>, k: int, i: int, now: u64, epoch: i64)
    requires
        0 <= i <= k <= frames.len(),
    ensures
        ({
            let (some, e) = m.receive_frames(frames.subrange(0, k), i, now, epoch);
            m.receive_frames(frames, i, now, epoch) == if e is Some {
                (some, e)
            } else {
                some.receive_frames(frames.subrange(k, frames.len() as int), 0, now, epoch)
            }
        }),
    decreases k - i,
{
    if i < k {
        assert(frames.subrange(0, k)[i] == frames[i]);
        split_frames(m.receive_frame(frames[i], now, epoch).0, frames, k, i + 1, now, epoch);
    } else {
        later_frames(m, frames, k, k, now, epoch);
    }
}

/// The number of a reliable frame is remembered, so that the frame is taken in once.
pub proof fn reliable_frame_is_taken_in_once(
    m: PeerModel,
    frame: FrameView,
    index: nat,
    now: u64,
    epoch: i64,
)
    requires
        frame.reliable_index == Some(index),
    ensures
        m.seen_reliable.contains(index) ==> m.receive_frame(frame, now, epoch) == (
            m,
            None::<RakNetError>,
        ),
{
}

/// A datagram that comes after a gap has the gap reported: from the number after the last to the
/// number before this one, and no number else. One that follows the last, or comes late, has
/// nothing reported. The last is the newest that came.
pub proof fn gap_is_reported(m: PeerModel, sequence: nat, previous: nat, n: int)
    requires
        m.last_datagram == Some(previous),
        sequence < 0x100_0000,
        previous < 0x100_0000,
        0 <= n < 0x100_0000,
    ensures
        ({
            let after = m.note_datagram(sequence);
            let steps = (sequence - previous) % 0x100_0000;
            &&& 1 < steps < 0x80_0000 ==> {
                &&& after.outbox.len() == m.outbox.len() + 1
                &&& after.outbox.drop_last() == m.outbox
                &&& after.outbox.last() matches ActionView::Send(report)
                &&& acknowledgement(report) matches Ok(Some((confirms, ranges)))
                &&& !confirms
                &&& ranges.len() == 1
                &&& lies_between(n, ranges[0].0 as int, ranges[0].1 as int) <==> 0 < (n - previous)
                    % 0x100_0000 < steps
                &&& after.last_datagram == Some(sequence)
            }
            &&& steps == 1 ==> after.outbox == m.outbox && after.last_datagram == Some(sequence)
            &&& (steps == 0 || steps >= 0x80_0000) ==> after.outbox == m.outbox
                && after.last_datagram == Some(previous)
        }),
{
    let steps = (sequence - previous) % 0x100_0000;
    if 1 < steps < 0x80_0000 {
        let first = (previous + 1) % 0x100_0000;
        let last = (sequence - 1) % 0x100_0000;
        acknowledgement_round_trip(false, first as nat, last as nat);
        let after = m.note_datagram(sequence);
        assert(after.outbox.drop_last() =~= m.outbox);
    }
}

/// The first datagram of a peer is the last that came, and nothing is reported.
pub proof fn first_datagram_has_no_gap(m: PeerModel, sequence: nat)
    requires
        m.last_datagram is None,
    ensures
        m.note_datagram(sequence).last_datagram == Some(sequence),
        m.note_datagram(sequence).outbox == m.outbox,
{
}

/// The numbers of datagrams are remembered as long as there is room for them; the one that came
/// first is forgotten first.
pub proof fn datagram_is_remembered(m: PeerModel, sequence: nat)
    requires
        m.budgets.max_unacked_datagrams < 0x1_0000,
        m.seen_datagrams.len() <= 2 * m.budgets.max_unacked_datagrams,
    ensures
        ({
            let seen = m.note_datagram(sequence).seen_datagrams;
            let room = if m.budgets.max_unacked_datagrams == 0 {
                1int
            } else {
                2 * m.budgets.max_unacked_datagrams
            };
            &&& seen.len() > 0
            &&& seen.last() == sequence
            &&& m.seen_datagrams.len() < room ==> seen == m.seen_datagrams.push(sequence)
            &&& m.seen_datagrams.len() == room ==> seen == m.seen_datagrams.subrange(
                1,
                m.seen_datagrams.len() as int,
            ).push(sequence)
        }),
{
    let seen = m.note_datagram(sequence).seen_datagrams;
    let all = m.seen_datagrams.push(sequence);
    let room = if m.budgets.max_unacked_datagrams == 0 {
        1int
    } else {
        2 * m.budgets.max_unacked_datagrams
    };
    if m.seen_datagrams.len() == room {
        assert(seen =~= m.seen_datagrams.subrange(1, m.seen_datagrams.len() as int).push(sequence));
    }
}

/// A peer that has just been met is where it was met, has the size and the limits that were agreed,
/// was heard of then, is not accepted, numbers everything from zero, and has neither sent nor
/// received anything.
pub proof fn fresh_peer_is_blank(
    remote_addr: PeerAddress,
    mtu: u16,
    budgets: RakNetBudgets,
    now: u64,
    channel: u8,
)
    ensures
        ({
            let m = PeerModel::fresh(remote_addr, mtu, budgets, now);
            &&& m.remote_addr == remote_addr
            &&& m.mtu == mtu
            &&& m.budgets == budgets
            &&& !m.accepted
            &&& m.last_observed == now
            &&& m.next_datagram == 0 && m.next_reliable == 0 && m.next_ordered == 0
            &&& m.next_split_id == 0
            &&& m.last_datagram is None
            &&& m.seen_datagrams.len() == 0 && m.seen_reliable.len() == 0
            &&& m.expected_on(channel) == 0
            &&& newest_on(m, channel) is None
            &&& m.ordered_holdback.len() == 0
            &&& m.reassembly.len() == 0 && m.reassembly_bytes == 0 && m.reassembly_parts == 0
            &&& m.unacked.len() == 0
            &&& m.inbox.queue.len() == 0 && !m.inbox.closed && m.inbox.capacity
                == budgets.application_queue
            &&& m.outbox.len() == 0
        }),
{
}

} // verus!
