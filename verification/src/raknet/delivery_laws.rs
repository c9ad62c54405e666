//! What a peer promises about datagrams, frames and payloads that arrive.

use crate::ordered::{inserted, lookup, removed};
use crate::raknet::checkpoint_laws::for_application;
use crate::raknet::error::RakNetError;
use crate::raknet::peer_model::{
    after, deliver_keeps, fragment, fragment_count, ActionView, PeerModel, DATAGRAM_HEADER_BUDGET,
};
use crate::raknet::sequence::newer;
use crate::raknet::snapshot::window_limit;
use crate::raknet::wire::{
    ack_range_wire, acknowledgement, connected_ping, connected_pong, connection_accept,
    connection_request, datagram, FrameView,
};
use crate::raknet::window::latest;
use vstd::prelude::*;

verus! {

/// Whether a list holds another at its start.
pub open spec fn continues<T>(longer: Seq<T>, shorter: Seq<T>) -> bool {
    &&& shorter.len() <= longer.len()
    &&& forall|i: int| 0 <= i < shorter.len() ==> #[trigger] longer[i] == shorter[i]
}

/// Whether one state comes from another by receiving: what was seen is as it was, and what waits
/// to be sent or to be read is still there, in its place.
pub open spec fn advances(a: PeerModel, b: PeerModel) -> bool {
    &&& b.budgets == a.budgets
    &&& b.seen_datagrams == a.seen_datagrams
    &&& continues(b.outbox, a.outbox)
    &&& continues(b.inbox.queue, a.inbox.queue)
}

proof fn sending_fragments_advances(
    m: PeerModel,
    payload: Seq<u8>,
    capacity: nat,
    count: nat,
    i: nat,
    order: nat,
    split_id: u16,
    now: u64,
)
    ensures
        advances(m, m.send_fragments(payload, capacity, count, i, order, split_id, now).0),
    decreases count - i,
{
    if i < count {
        let frame = fragment(payload, capacity, count, i, m.next_reliable, order, split_id);
        let numbered = PeerModel { next_reliable: after(m.next_reliable), ..m };
        let sent = numbered.send_frame(frame, now).0;
        assert(advances(m, sent));
        sending_fragments_advances(sent, payload, capacity, count, i + 1, order, split_id, now);
    }
}

proof fn sending_advances(m: PeerModel, payload: Seq<u8>, now: u64)
    ensures
        advances(m, m.send_reliable_ordered(payload, now).0),
{
    if m.mtu > DATAGRAM_HEADER_BUDGET {
        let capacity = (m.mtu - DATAGRAM_HEADER_BUDGET) as nat;
        let numbered = PeerModel {
            next_ordered: after(m.next_ordered),
            next_split_id: if m.next_split_id == u16::MAX {
                0
            } else {
                (m.next_split_id + 1) as u16
            },
            ..m
        };
        sending_fragments_advances(
            numbered,
            payload,
            capacity,
            fragment_count(payload.len(), capacity),
            0,
            m.next_ordered,
            m.next_split_id,
            now,
        );
    }
}

proof fn delivering_advances(m: PeerModel, payload: Seq<u8>, now: u64, epoch: i64)
    ensures
        advances(m, m.deliver_payload(payload, now, epoch).0),
        m.deliver_payload(payload, now, epoch).0.seen_reliable == m.seen_reliable,
{
    deliver_keeps(m, payload, now, epoch);
    if let Ok(Some(request_time)) = connection_request(payload) {
        sending_advances(m, connection_accept(m.remote_addr, request_time, epoch), now);
    }
    if let Ok(Some(ping_time)) = connected_ping(payload) {
        sending_advances(m, connected_pong(ping_time, epoch), now);
    }
}

proof fn draining_advances(m: PeerModel, channel: u8, now: u64, epoch: i64)
    ensures
        advances(m, m.drain_holdback(channel, now, epoch).0),
        m.drain_holdback(channel, now, epoch).0.seen_reliable == m.seen_reliable,
    decreases m.ordered_holdback.len(),
{
    let expected = m.expected_on(channel);
    let key = seq![channel as int, expected as int];
    if let Some(payload) = lookup(m.ordered_holdback, key) {
        let due = PeerModel {
            ordered_holdback: removed(m.ordered_holdback, key),
            ..m
        }.expecting(channel, after(expected));
        delivering_advances(due, payload, now, epoch);
        let (delivered, e) = due.deliver_payload(payload, now, epoch);
        if e is None && delivered.ordered_holdback.len() < m.ordered_holdback.len() {
            draining_advances(delivered, channel, now, epoch);
        }
    }
}

proof fn ordering_advances(
    m: PeerModel,
    channel: u8,
    sequence: nat,
    payload: Seq<u8>,
    now: u64,
    epoch: i64,
)
    ensures
        advances(m, m.accept_ordered(channel, sequence, payload, now, epoch).0),
        m.accept_ordered(channel, sequence, payload, now, epoch).0.seen_reliable
            == m.seen_reliable,
{
    let due = m.expecting(channel, after(m.expected_on(channel)));
    delivering_advances(due, payload, now, epoch);
    draining_advances(due.deliver_payload(payload, now, epoch).0, channel, now, epoch);
}

proof fn whole_advances(m: PeerModel, frame: FrameView, payload: Seq<u8>, now: u64, epoch: i64)
    ensures
        advances(m, m.receive_whole(frame, payload, now, epoch).0),
        m.receive_whole(frame, payload, now, epoch).0.seen_reliable == m.seen_reliable,
{
    delivering_advances(m, payload, now, epoch);
    if let Some(sequence) = frame.sequence_index {
        let key = seq![frame.order_channel as int];
        let latest = PeerModel {
            sequenced_latest: inserted(m.sequenced_latest, key, sequence),
            ..m
        };
        delivering_advances(latest, payload, now, epoch);
    }
    if let Some(sequence) = frame.order_index {
        ordering_advances(m, frame.order_channel, sequence, payload, now, epoch);
    }
}

proof fn new_frame_advances(m: PeerModel, frame: FrameView, now: u64, epoch: i64)
    ensures
        advances(m, m.receive_new(frame, now, epoch).0),
        m.receive_new(frame, now, epoch).0.seen_reliable == m.seen_reliable,
{
    match frame.split {
        None => whole_advances(m, frame, frame.payload, now, epoch),
        Some(split) => {
            let (kept, whole) = m.accept_fragment(split, frame.payload);
            assert(advances(m, kept) && kept.seen_reliable == m.seen_reliable);
            if let Ok(Some(payload)) = whole {
                whole_advances(kept, frame, payload, now, epoch);
            }
        },
    }
}

/// With the number of a frame among those seen.
spec fn having_seen(m: PeerModel, index: nat) -> PeerModel {
    PeerModel {
        seen_reliable: latest(m.seen_reliable.push(index), window_limit(m.budgets) as nat),
        ..m
    }
}

proof fn frames_advance(m: PeerModel, frames: Seq<FrameView>, i: int, now: u64, epoch: i64)
    requires
        0 <= i,
    ensures
        advances(m, m.receive_frames(frames, i, now, epoch).0),
    decreases frames.len() - i,
{
    if i < frames.len() {
        let frame = frames[i];
        new_frame_advances(m, frame, now, epoch);
        if let Some(index) = frame.reliable_index {
            new_frame_advances(having_seen(m, index), frame, now, epoch);
        }
        frames_advance(m.receive_frame(frame, now, epoch).0, frames, i + 1, now, epoch);
    }
}

/// What was seen last is remembered.
/// A memory of the numbers seen last holds the last of them.
pub proof fn latest_holds_last(s: Seq<nat>, n: nat, limit: nat)
    requires
        limit > 0,
    ensures
        latest(s.push(n), limit).contains(n),
{
    let kept = latest(s.push(n), limit);
    assert(kept[kept.len() - 1] == n);
}

/// A frame that must arrive is delivered once: when it comes again right after it was received,
/// nothing changes.
pub proof fn repeated_frame_changes_nothing(
    m: PeerModel,
    frame: FrameView,
    now: u64,
    epoch: i64,
    later: u64,
    later_epoch: i64,
)
    requires
        frame.reliable_index is Some,
    ensures
        ({
            let received = m.receive_frame(frame, now, epoch).0;
            received.receive_frame(frame, later, later_epoch) == (received, None::<RakNetError>)
        }),
{
    let index = frame.reliable_index->Some_0;
    if !m.seen_reliable.contains(index) {
        latest_holds_last(m.seen_reliable, index, window_limit(m.budgets) as nat);
        new_frame_advances(having_seen(m, index), frame, now, epoch);
    }
}

/// A datagram is taken in once: when it comes again right after it was received, it is confirmed
/// again, and nothing else changes but when the peer was heard of last.
pub proof fn repeated_datagram_is_only_confirmed(
    m: PeerModel,
    bytes: Seq<u8>,
    now: u64,
    epoch: i64,
    later: u64,
    later_epoch: i64,
)
    requires
        acknowledgement(bytes) matches Ok(None),
        datagram(bytes, m.budgets) is Ok,
    ensures
        ({
            let sequence = datagram(bytes, m.budgets)->Ok_0.0;
            let received = m.receive_datagram(bytes, now, epoch).0;
            received.receive_datagram(bytes, later, later_epoch) == (
                received.observed(later).sending(ack_range_wire(0xc0, sequence, sequence)),
                None::<RakNetError>,
            )
        }),
{
    let (sequence, frames) = datagram(bytes, m.budgets)->Ok_0;
    let confirmed = m.observed(now).sending(ack_range_wire(0xc0, sequence, sequence));
    if !m.seen_datagrams.contains(sequence) {
        latest_holds_last(m.seen_datagrams, sequence, window_limit(m.budgets) as nat);
        frames_advance(confirmed.note_datagram(sequence), frames, 0, now, epoch);
    }
}

/// Every datagram that can be read is confirmed, before anything that its frames lead to is
/// sent, and nothing that waits to be sent or read is lost or moved.
pub proof fn datagram_is_confirmed(m: PeerModel, bytes: Seq<u8>, now: u64, epoch: i64)
    requires
        acknowledgement(bytes) matches Ok(None),
        datagram(bytes, m.budgets) is Ok,
    ensures
        ({
            let sequence = datagram(bytes, m.budgets)->Ok_0.0;
            let confirmation = ActionView::Send(ack_range_wire(0xc0, sequence, sequence));
            let received = m.receive_datagram(bytes, now, epoch).0;
            &&& continues(received.outbox, m.outbox.push(confirmation))
            &&& continues(received.inbox.queue, m.inbox.queue)
        }),
{
    let (sequence, frames) = datagram(bytes, m.budgets)->Ok_0;
    let confirmed = m.observed(now).sending(ack_range_wire(0xc0, sequence, sequence));
    frames_advance(confirmed.note_datagram(sequence), frames, 0, now, epoch);
}

/// An ordered payload for the application whose turn it is can be read at once, after those that
/// came before it.
pub proof fn due_payload_is_delivered(
    m: PeerModel,
    channel: u8,
    payload: Seq<u8>,
    now: u64,
    epoch: i64,
)
    requires
        m.accepted,
        for_application(payload),
        m.inbox.queue.len() < m.inbox.capacity,
    ensures
        ({
            let received = m.accept_ordered(
                channel,
                m.expected_on(channel),
                payload,
                now,
                epoch,
            ).0;
            continues(received.inbox.queue, m.inbox.queue.push(payload))
        }),
{
    let due = m.expecting(channel, after(m.expected_on(channel)));
    let delivered = due.deliver_payload(payload, now, epoch).0;
    assert(delivered.inbox.queue == m.inbox.queue.push(payload));
    draining_advances(delivered, channel, now, epoch);
}

/// An ordered payload whose turn is over is not delivered again.
pub proof fn late_payload_is_dropped(
    m: PeerModel,
    channel: u8,
    sequence: nat,
    payload: Seq<u8>,
    now: u64,
    epoch: i64,
)
    requires
        sequence != m.expected_on(channel),
        !newer(sequence, m.expected_on(channel)),
    ensures
        m.accept_ordered(channel, sequence, payload, now, epoch) == (
            m.expecting(channel, m.expected_on(channel)),
            None::<RakNetError>,
        ),
{
}

} // verus!
