//! What one peer sends is what the other reads.

use crate::ordered::{insert_laws, sorted};
use crate::raknet::answer_laws::{
    application_payload_waits_to_be_read, is_for_application, short_payload_is_sent,
};
use crate::raknet::delivery_laws::latest_holds_last;
use crate::raknet::peer_model::{
    after, fragment, fragment_count, fragment_start, ActionView, PeerModel, DATAGRAM_HEADER_BUDGET,
};
use crate::raknet::snapshot::window_limit;
use crate::raknet::window::latest;
use crate::raknet::wire::{ack_range_wire, acknowledgement, datagram_wire, FrameView, Reliability};
use crate::raknet::wire_laws::{acknowledgement_round_trip, datagram_round_trip};
use vstd::prelude::*;

verus! {

/// Whether a peer takes in a payload that another sends next: both are connected, the numbers are
/// those that come next and were not seen, and there is room.
pub open spec fn is_ready_for(receiver: PeerModel, sender: PeerModel, payload: Seq<u8>) -> bool {
    &&& receiver.accepted
    &&& sorted(receiver.ordered_expected)
    &&& receiver.expected_on(0) == sender.next_ordered
    &&& !receiver.seen_datagrams.contains(sender.next_datagram)
    &&& !receiver.seen_reliable.contains(sender.next_reliable)
    &&& receiver.ordered_holdback.len() == 0
    &&& receiver.inbox.queue.len() < receiver.inbox.capacity
    &&& payload.len() <= receiver.budgets.max_payload_bytes
    &&& sender.mtu <= receiver.budgets.max_datagram_bytes
}

/// Whether a peer can send a payload in one datagram.
pub open spec fn can_send(sender: PeerModel, payload: Seq<u8>) -> bool {
    &&& sender.accepted
    &&& sender.mtu > 64
    &&& payload.len() <= sender.mtu - 64
    &&& payload.len() <= 8191
    &&& payload.len() <= sender.budgets.max_payload_bytes
    &&& sender.mtu <= sender.budgets.max_datagram_bytes
    &&& sender.unacked.len() < sender.budgets.max_unacked_datagrams
    &&& sender.next_datagram < 0x100_0000
    &&& sender.next_reliable < 0x100_0000
    &&& sender.next_ordered < 0x100_0000
}

proof fn sent_in_one_datagram(sender: PeerModel, payload: Seq<u8>, now: u64) -> (frame: FrameView)
    requires
        can_send(sender, payload),
    ensures
        frame == (FrameView {
            reliability: Reliability::ReliableOrdered,
            reliable_index: Some(sender.next_reliable),
            sequence_index: None,
            order_index: Some(sender.next_ordered),
            order_channel: 0,
            split: None,
            payload,
        }),
        sender.send_application(payload, now).1 is None,
        sender.send_application(payload, now).0.outbox == sender.outbox.push(
            ActionView::Send(datagram_wire(sender.next_datagram, frame)),
        ),
        datagram_wire(sender.next_datagram, frame).len() <= sender.mtu,
{
    broadcast use crate::bytes::be_len, crate::bytes::le_len;

    let capacity = (sender.mtu - DATAGRAM_HEADER_BUDGET) as nat;
    assert(fragment_count(payload.len(), capacity) == 1) by {
        if payload.len() > 0 {
            let x = payload.len() + capacity - 1;
            assert(x / (capacity as int) == 1) by (nonlinear_arith)
                requires
                    x == payload.len() + capacity - 1,
                    1 <= payload.len() <= capacity,
            ;
        }
    }
    short_payload_is_sent(sender, payload, now);
    reveal_with_fuel(PeerModel::send_fragments, 2);
    let frame = fragment(
        payload,
        capacity,
        1,
        0,
        sender.next_reliable,
        sender.next_ordered,
        sender.next_split_id,
    );
    assert(0nat * capacity == 0 && 1nat * capacity == capacity) by (nonlinear_arith);
    assert(fragment_start(payload.len(), capacity, 0) == 0);
    assert(fragment_start(payload.len(), capacity, 1) == payload.len());
    assert(payload.subrange(0, payload.len() as int) =~= payload);
    frame
}

proof fn due_frame_is_read(m: PeerModel, frame: FrameView, now: u64, epoch: i64)
    requires
        m.accepted,
        sorted(m.ordered_expected),
        m.ordered_holdback.len() == 0,
        m.inbox.queue.len() < m.inbox.capacity,
        frame.reliability == Reliability::ReliableOrdered,
        frame.reliable_index matches Some(index) && !m.seen_reliable.contains(index),
        frame.order_index == Some(m.expected_on(0)),
        frame.order_channel == 0,
        frame.split is None,
        is_for_application(frame.payload),
    ensures
        ({
            let (read, e) = m.receive_frame(frame, now, epoch);
            &&& e is None
            &&& read.inbox.queue == m.inbox.queue.push(frame.payload)
            &&& read.outbox == m.outbox
            &&& read.expected_on(0) == after(m.expected_on(0))
            &&& read.seen_datagrams == m.seen_datagrams
            &&& read.last_datagram == m.last_datagram
            &&& read.unacked == m.unacked
            &&& read.last_observed == m.last_observed
        }),
{
    let key = seq![0u8 as int];
    let next = after(m.expected_on(0));
    insert_laws(m.ordered_expected, key, next, key);
    let seen = PeerModel {
        seen_reliable: latest(
            m.seen_reliable.push(frame.reliable_index->Some_0),
            window_limit(m.budgets) as nat,
        ),
        ..m
    };
    let due = seen.expecting(0, next);
    application_payload_waits_to_be_read(due, frame.payload, now, epoch);
    let delivered = due.deliver_payload(frame.payload, now, epoch).0;
    assert(delivered.ordered_holdback.len() == 0);
    assert(delivered.drain_holdback(0, now, epoch) == (
        delivered,
        None::<crate::raknet::error::RakNetError>,
    ));
}

proof fn next_datagram_is_noted(m: PeerModel, number: nat)
    requires
        number < 0x100_0000,
        m.last_datagram is None || m.last_datagram == Some(((number - 1) % 0x100_0000) as nat),
    ensures
        ({
            let noted = m.note_datagram(number);
            &&& noted == (PeerModel {
                seen_datagrams: noted.seen_datagrams,
                last_datagram: Some(number),
                ..m
            })
            &&& noted.seen_datagrams.contains(number)
        }),
{
    latest_holds_last(m.seen_datagrams, number, window_limit(m.budgets) as nat);
}

/// A payload that the application of one peer asks to be sent, and that fits into a datagram, is
/// sent in one datagram. The other peer that gets it can read the payload, just as it was, behind
/// those that came before; it answers with a confirmation of that datagram and nothing else; and it
/// expects the next in order.
pub proof fn payload_sent_is_payload_read(
    sender: PeerModel,
    receiver: PeerModel,
    payload: Seq<u8>,
    sent_at: u64,
    now: u64,
    epoch: i64,
)
    requires
        can_send(sender, payload),
        is_ready_for(receiver, sender, payload),
        is_for_application(payload),
        receiver.last_datagram is None || receiver.last_datagram == Some(
            ((sender.next_datagram - 1) % 0x100_0000) as nat,
        ),
    ensures
        ({
            let (sent, e) = sender.send_application(payload, sent_at);
            &&& e is None
            &&& sent.outbox.len() == sender.outbox.len() + 1
            &&& sent.outbox.last() matches ActionView::Send(bytes)
            &&& ({
                let (received, fault) = receiver.receive_datagram(bytes, now, epoch);
                &&& fault is None
                &&& received.inbox.queue == receiver.inbox.queue.push(payload)
                &&& received.outbox.len() == receiver.outbox.len() + 1
                &&& received.outbox.last() matches ActionView::Send(answer)
                &&& acknowledgement(answer) matches Ok(Some((confirms, ranges)))
                &&& confirms
                &&& ranges == seq![(sender.next_datagram, sender.next_datagram)]
                &&& received.expected_on(0) == (sender.next_ordered + 1) % 0x100_0000
                &&& received.seen_datagrams.contains(sender.next_datagram)
                &&& received.last_datagram == Some(sender.next_datagram)
                &&& received.unacked == receiver.unacked
                &&& received.last_observed >= now
            })
        }),
{
    let frame = sent_in_one_datagram(sender, payload, sent_at);
    let number = sender.next_datagram;
    let bytes = datagram_wire(number, frame);
    datagram_round_trip(number, frame, receiver.budgets);
    acknowledgement_round_trip(true, number, number);
    assert(bytes[0] == 0x84);
    assert(acknowledgement(bytes) matches Ok(None));
    let answer = ack_range_wire(0xc0, number, number);
    let heard = receiver.observed(now).sending(answer);
    let noted = heard.note_datagram(number);
    next_datagram_is_noted(heard, number);
    due_frame_is_read(noted, frame, now, epoch);
    let frames = seq![frame];
    assert(noted.receive_frames(frames, 0, now, epoch) == noted.receive_frame(frame, now, epoch)) by {
        reveal_with_fuel(PeerModel::receive_frames, 2);
        assert(frames[0] == frame);
    }
    assert(heard.outbox.last() == ActionView::Send(answer));
}

} // verus!
