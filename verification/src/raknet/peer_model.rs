//! What a transport peer is and how each event changes it, as mathematics.

use crate::ordered::{gathered, holds, inserted, lookup, removed, Entries};
use crate::raknet::address::PeerAddress;
use crate::raknet::budget::RakNetBudgets;
use crate::raknet::error::RakNetError;
use crate::raknet::inbox::{inbox_fault, plus_one, InboxView};
use crate::raknet::sequence::{distance, newer, MODULUS};
use crate::raknet::snapshot::{
    fault, over_budget, window_limit, PeerSnapshotView, UnackedSnapshotView,
};
use crate::raknet::timing::{
    delay_after, elapsed, rebased, rewound, MAX_RETRANSMIT_ATTEMPTS, PEER_TIMEOUT,
};
use crate::raknet::window::latest;
use crate::raknet::wire::{
    ack_range_wire, acknowledgement, connected_ping, connected_pong, connection_accept,
    connection_request, datagram, datagram_wire, FrameView, Reliability, SplitHeader,
};
use vstd::prelude::*;

verus! {

/// How many bytes of a datagram are kept free for headers.
pub const DATAGRAM_HEADER_BUDGET: usize = 64;

/// A datagram that was sent and not yet confirmed.
pub struct UnackedView {
    pub bytes: Seq<u8>,
    pub sent_at: u64,
    pub attempts: u16,
}

/// Something that the program has to do for a peer.
pub enum ActionView {
    /// Send bytes to the peer.
    Send(Seq<u8>),
    /// Hand the peer, whose handshake is complete, to whoever accepts connections.
    Accept,
}

/// The state of a peer.
pub struct PeerModel {
    pub remote_addr: PeerAddress,
    pub mtu: u16,
    pub budgets: RakNetBudgets,
    pub accepted: bool,
    pub last_observed: u64,
    pub next_datagram: nat,
    pub next_reliable: nat,
    pub next_ordered: nat,
    pub next_split_id: u16,
    pub last_datagram: Option<nat>,
    pub seen_datagrams: Seq<nat>,
    pub seen_reliable: Seq<nat>,
    pub ordered_expected: Entries<nat>,
    pub sequenced_latest: Entries<nat>,
    pub ordered_holdback: Entries<Seq<u8>>,
    pub reassembly: Entries<Seq<Option<Seq<u8>>>>,
    pub reassembly_bytes: usize,
    pub reassembly_parts: usize,
    pub unacked: Entries<UnackedView>,
    pub inbox: InboxView,
    pub outbox: Seq<ActionView>,
}

/// A state and the error that stopped the peer there, if one did.
pub type Outcome = (PeerModel, Option<RakNetError>);

/// The number that follows another.
pub open spec fn after(n: nat) -> nat {
    (n + 1) % (MODULUS as nat)
}

/// The sum of two numbers, or the largest number there is.
pub open spec fn saturating_sum(a: usize, b: nat) -> usize {
    if a + b > usize::MAX {
        usize::MAX
    } else {
        (a + b) as usize
    }
}

/// The difference of two numbers, or zero.
pub open spec fn saturating_difference(a: usize, b: nat) -> usize {
    if a >= b {
        (a - b) as usize
    } else {
        0
    }
}

impl PeerModel {
    /// A peer that has just been met.
    pub open spec fn fresh(
        remote_addr: PeerAddress,
        mtu: u16,
        budgets: RakNetBudgets,
        now: u64,
    ) -> PeerModel {
        PeerModel {
            remote_addr,
            mtu,
            budgets,
            accepted: false,
            last_observed: now,
            next_datagram: 0,
            next_reliable: 0,
            next_ordered: 0,
            next_split_id: 0,
            last_datagram: None,
            seen_datagrams: Seq::empty(),
            seen_reliable: Seq::empty(),
            ordered_expected: Seq::empty(),
            sequenced_latest: Seq::empty(),
            ordered_holdback: Seq::empty(),
            reassembly: Seq::empty(),
            reassembly_bytes: 0,
            reassembly_parts: 0,
            unacked: Seq::empty(),
            inbox: InboxView {
                queue: Seq::empty(),
                closed: false,
                capacity: budgets.application_queue,
            },
            outbox: Seq::empty(),
        }
    }

    /// With bytes to be sent.
    pub open spec fn sending(self, bytes: Seq<u8>) -> PeerModel {
        PeerModel { outbox: self.outbox.push(ActionView::Send(bytes)), ..self }
    }

    /// Heard of at an instant.
    pub open spec fn observed(self, at: u64) -> PeerModel {
        PeerModel {
            last_observed: if at > self.last_observed {
                at
            } else {
                self.last_observed
            },
            ..self
        }
    }

    /// After sending one frame in a datagram of its own.
    pub open spec fn send_frame(self, frame: FrameView, now: u64) -> Outcome {
        match over_budget(
            "unacknowledged datagrams",
            plus_one(self.unacked.len() as usize) as nat,
            self.budgets.max_unacked_datagrams,
        ) {
            Some(e) => (self, Some(e)),
            None => {
                let bytes = datagram_wire(self.next_datagram, frame);
                let numbered = PeerModel { next_datagram: after(self.next_datagram), ..self };
                match over_budget(
                    "datagram bytes",
                    bytes.len(),
                    self.budgets.max_datagram_bytes,
                ) {
                    Some(e) => (numbered, Some(e)),
                    None => (
                        PeerModel {
                            unacked: inserted(
                                self.unacked,
                                seq![self.next_datagram as int],
                                UnackedView { bytes, sent_at: now, attempts: 1 },
                            ),
                            ..numbered
                        }.sending(bytes),
                        None,
                    ),
                }
            },
        }
    }

    /// After sending the fragments of a payload from the one numbered `i` on.
    pub open spec fn send_fragments(
        self,
        payload: Seq<u8>,
        capacity: nat,
        count: nat,
        i: nat,
        order: nat,
        split_id: u16,
        now: u64,
    ) -> Outcome
        decreases count - i,
    {
        if i >= count {
            (self, None)
        } else {
            let frame = fragment(
                payload,
                capacity,
                count,
                i,
                self.next_reliable,
                order,
                split_id,
            );
            let numbered = PeerModel { next_reliable: after(self.next_reliable), ..self };
            let (sent, e) = numbered.send_frame(frame, now);
            if e is Some {
                (sent, e)
            } else {
                sent.send_fragments(payload, capacity, count, i + 1, order, split_id, now)
            }
        }
    }

    /// After sending a payload that must arrive, in order.
    pub open spec fn send_reliable_ordered(self, payload: Seq<u8>, now: u64) -> Outcome {
        if self.mtu <= DATAGRAM_HEADER_BUDGET {
            (self, Some(fault("negotiated mtu is too small")))
        } else {
            let capacity = (self.mtu - DATAGRAM_HEADER_BUDGET) as nat;
            let count = fragment_count(payload.len(), capacity);
            let ordered = PeerModel { next_ordered: after(self.next_ordered), ..self };
            if count > u32::MAX {
                (ordered, Some(fault("fragment count exceeded u32")))
            } else {
                PeerModel {
                    next_split_id: if self.next_split_id == u16::MAX {
                        0
                    } else {
                        (self.next_split_id + 1) as u16
                    },
                    ..ordered
                }.send_fragments(
                    payload,
                    capacity,
                    count,
                    0,
                    self.next_ordered,
                    self.next_split_id,
                    now,
                )
            }
        }
    }

    /// After the application asked for a payload to be sent.
    pub open spec fn send_application(self, payload: Seq<u8>, now: u64) -> Outcome {
        if !self.accepted {
            (self, Some(fault("application payload sent before online handshake completed")))
        } else {
            match over_budget(
                "application payload bytes",
                payload.len(),
                self.budgets.max_payload_bytes,
            ) {
                Some(e) => (self, Some(e)),
                None => self.send_reliable_ordered(payload, now),
            }
        }
    }

    /// After a payload has come in whose turn it is.
    pub open spec fn deliver_payload(self, payload: Seq<u8>, now: u64, epoch: i64) -> Outcome {
        match connection_request(payload) {
            Err(e) => (self, Some(e)),
            Ok(Some(request_time)) => self.send_reliable_ordered(
                connection_accept(self.remote_addr, request_time, epoch),
                now,
            ),
            Ok(None) => match connected_ping(payload) {
                Err(e) => (self, Some(e)),
                Ok(Some(ping_time)) => self.send_reliable_ordered(
                    connected_pong(ping_time, epoch),
                    now,
                ),
                Ok(None) => self.deliver_other(payload),
            },
        }
    }

    /// After a payload has come in that is neither a connection request nor a ping.
    pub open spec fn deliver_other(self, payload: Seq<u8>) -> Outcome {
        if payload.len() > 0 && payload[0] == 0x13 && !self.accepted {
            (
                PeerModel { accepted: true, outbox: self.outbox.push(ActionView::Accept), ..self },
                None,
            )
        } else if payload.len() > 0 && (payload[0] == 0x13 || payload[0] == 0x03) {
            (self, None)
        } else if payload.len() > 0 && (payload[0] == 0x15 || payload[0] == 0x1c) {
            (self, Some(RakNetError::Closed))
        } else if self.accepted {
            match inbox_fault(self.inbox) {
                Some(e) => (self, Some(e)),
                None => (
                    PeerModel {
                        inbox: InboxView { queue: self.inbox.queue.push(payload), ..self.inbox },
                        ..self
                    },
                    None,
                ),
            }
        } else {
            (self, None)
        }
    }

    /// The number that comes next on a channel.
    pub open spec fn expected_on(self, channel: u8) -> nat {
        match lookup(self.ordered_expected, seq![channel as int]) {
            Some(n) => n,
            None => 0,
        }
    }

    /// With a number that comes next on a channel.
    pub open spec fn expecting(self, channel: u8, n: nat) -> PeerModel {
        PeerModel {
            ordered_expected: inserted(self.ordered_expected, seq![channel as int], n),
            ..self
        }
    }

    /// After delivering the held-back payloads of a channel whose turn has come.
    pub open spec fn drain_holdback(self, channel: u8, now: u64, epoch: i64) -> Outcome
        decreases self.ordered_holdback.len(),
    {
        let expected = self.expected_on(channel);
        let key = seq![channel as int, expected as int];
        match lookup(self.ordered_holdback, key) {
            None => (self, None),
            Some(payload) => {
                let (delivered, e) = PeerModel {
                    ordered_holdback: removed(self.ordered_holdback, key),
                    ..self
                }.expecting(channel, after(expected)).deliver_payload(payload, now, epoch);
                if e is Some || delivered.ordered_holdback.len() >= self.ordered_holdback.len() {
                    (delivered, e)
                } else {
                    delivered.drain_holdback(channel, now, epoch)
                }
            },
        }
    }

    /// After an ordered payload has come in.
    pub open spec fn accept_ordered(
        self,
        channel: u8,
        sequence: nat,
        payload: Seq<u8>,
        now: u64,
        epoch: i64,
    ) -> Outcome {
        let expected = self.expected_on(channel);
        let known = self.expecting(channel, expected);
        if sequence == expected {
            let (delivered, e) = self.expecting(channel, after(expected)).deliver_payload(
                payload,
                now,
                epoch,
            );
            if e is Some {
                (delivered, e)
            } else {
                delivered.drain_holdback(channel, now, epoch)
            }
        } else if newer(sequence, expected) {
            match over_budget(
                "ordered holdback entries",
                plus_one(self.ordered_holdback.len() as usize) as nat,
                self.budgets.max_ordered_holdback,
            ) {
                Some(e) => (known, Some(e)),
                None => {
                    let key = seq![channel as int, sequence as int];
                    (
                        PeerModel {
                            ordered_holdback: if holds(self.ordered_holdback, key) {
                                self.ordered_holdback
                            } else {
                                inserted(self.ordered_holdback, key, payload)
                            },
                            ..known
                        },
                        None,
                    )
                },
            }
        } else {
            (known, None)
        }
    }

    /// After a fragment has come in: the payload it completes, nothing yet, or an error.
    pub open spec fn accept_fragment(self, split: SplitHeader, payload: Seq<u8>) -> (
        PeerModel,
        Result<Option<Seq<u8>>, RakNetError>,
    ) {
        let key = seq![split.id as int];
        let added = if holds(self.reassembly, key) {
            0
        } else {
            split.count as nat
        };
        if split.index >= split.count {
            (self, Err(fault("invalid fragment range")))
        } else {
            match over_budget(
                "reassembly parts per peer",
                saturating_sum(self.reassembly_parts, added) as nat,
                self.budgets.max_reassembly_parts_per_peer,
            ) {
                Some(e) => (self, Err(e)),
                None => {
                    let opened = if holds(self.reassembly, key) {
                        self
                    } else {
                        PeerModel {
                            reassembly: inserted(
                                self.reassembly,
                                key,
                                Seq::new(split.count as nat, |i: int| None),
                            ),
                            reassembly_parts: saturating_sum(self.reassembly_parts, added),
                            ..self
                        }
                    };
                    let parts = lookup(opened.reassembly, key)->Some_0;
                    if parts.len() != split.count {
                        (opened, Err(fault("fragment count changed within split sequence")))
                    } else if parts[split.index as int] is None {
                        let bytes = saturating_sum(opened.reassembly_bytes, payload.len());
                        match over_budget(
                            "reassembly bytes per peer",
                            bytes as nat,
                            self.budgets.max_reassembly_bytes_per_peer,
                        ) {
                            Some(e) => (opened, Err(e)),
                            None => {
                                let filled = parts.update(split.index as int, Some(payload));
                                PeerModel {
                                    reassembly: inserted(opened.reassembly, key, filled),
                                    reassembly_bytes: bytes,
                                    ..opened
                                }.complete_fragments(key, filled)
                            },
                        }
                    } else {
                        opened.complete_fragments(key, parts)
                    }
                },
            }
        }
    }

    /// After looking whether the parts under a key make a whole payload.
    pub open spec fn complete_fragments(self, key: Seq<int>, parts: Seq<Option<Seq<u8>>>) -> (
        PeerModel,
        Result<Option<Seq<u8>>, RakNetError>,
    ) {
        if !complete(parts) {
            (self, Ok(None))
        } else {
            (
                PeerModel {
                    reassembly: removed(self.reassembly, key),
                    reassembly_parts: saturating_difference(self.reassembly_parts, parts.len()),
                    reassembly_bytes: saturating_difference(
                        self.reassembly_bytes,
                        byte_total(parts),
                    ),
                    ..self
                },
                Ok(Some(joined(parts))),
            )
        }
    }

    /// After a frame whose payload is whole has come in.
    pub open spec fn receive_whole(
        self,
        frame: FrameView,
        payload: Seq<u8>,
        now: u64,
        epoch: i64,
    ) -> Outcome {
        if frame.reliability.spec_sequenced() {
            match frame.sequence_index {
                None => (self, Some(fault("sequenced frame lacked sequence index"))),
                Some(sequence) => {
                    let key = seq![frame.order_channel as int];
                    match lookup(self.sequenced_latest, key) {
                        Some(latest) if !newer(sequence, latest) => (self, None),
                        _ => PeerModel {
                            sequenced_latest: inserted(self.sequenced_latest, key, sequence),
                            ..self
                        }.deliver_payload(payload, now, epoch),
                    }
                },
            }
        } else if frame.reliability.spec_ordered() {
            match frame.order_index {
                None => (self, Some(fault("ordered frame lacked order index"))),
                Some(sequence) => self.accept_ordered(
                    frame.order_channel,
                    sequence,
                    payload,
                    now,
                    epoch,
                ),
            }
        } else {
            self.deliver_payload(payload, now, epoch)
        }
    }

    /// After a frame that is no duplicate has come in.
    pub open spec fn receive_new(self, frame: FrameView, now: u64, epoch: i64) -> Outcome {
        match frame.split {
            None => self.receive_whole(frame, frame.payload, now, epoch),
            Some(split) => {
                let (kept, whole) = self.accept_fragment(split, frame.payload);
                match whole {
                    Err(e) => (kept, Some(e)),
                    Ok(None) => (kept, None),
                    Ok(Some(payload)) => kept.receive_whole(frame, payload, now, epoch),
                }
            },
        }
    }

    /// After a frame has come in.
    pub open spec fn receive_frame(self, frame: FrameView, now: u64, epoch: i64) -> Outcome {
        match frame.reliable_index {
            None => self.receive_new(frame, now, epoch),
            Some(index) => if self.seen_reliable.contains(index) {
                (self, None)
            } else {
                PeerModel {
                    seen_reliable: latest(
                        self.seen_reliable.push(index),
                        window_limit(self.budgets) as nat,
                    ),
                    ..self
                }.receive_new(frame, now, epoch)
            },
        }
    }

    /// After the frames of a datagram from the one numbered `i` on have come in.
    pub open spec fn receive_frames(self, frames: Seq<FrameView>, i: int, now: u64, epoch: i64) -> Outcome
        decreases frames.len() - i,
    {
        if i < 0 || i >= frames.len() {
            (self, None)
        } else {
            let (received, e) = self.receive_frame(frames[i], now, epoch);
            if e is Some {
                (received, e)
            } else {
                received.receive_frames(frames, i + 1, now, epoch)
            }
        }
    }

    /// After noting the number of a new datagram: a gap before it is reported.
    pub open spec fn note_datagram(self, sequence: nat) -> PeerModel {
        let seen = PeerModel {
            seen_datagrams: latest(
                self.seen_datagrams.push(sequence),
                window_limit(self.budgets) as nat,
            ),
            ..self
        };
        match self.last_datagram {
            None => PeerModel { last_datagram: Some(sequence), ..seen },
            Some(previous) => if newer(sequence, previous) {
                let latest = PeerModel { last_datagram: Some(sequence), ..seen };
                if distance(sequence, previous) > 1 {
                    latest.sending(
                        ack_range_wire(
                            0xa0,
                            after(previous),
                            ((sequence - 1) % (MODULUS as int)) as nat,
                        ),
                    )
                } else {
                    latest
                }
            } else {
                seen
            },
        }
    }

    /// After a packet has come in.
    pub open spec fn receive_datagram(self, bytes: Seq<u8>, now: u64, epoch: i64) -> Outcome {
        let heard = self.observed(now);
        match acknowledgement(bytes) {
            Err(e) => (heard, Some(e)),
            Ok(Some((confirms, ranges))) => if confirms {
                (heard.confirmed(ranges), None)
            } else {
                heard.retransmit_all(missing(heard.unacked, ranges, 0), 0, now)
            },
            Ok(None) => match datagram(bytes, self.budgets) {
                Err(e) => (heard, Some(e)),
                Ok((sequence, frames)) => {
                    let confirmed = heard.sending(ack_range_wire(0xc0, sequence, sequence));
                    if self.seen_datagrams.contains(sequence) {
                        (confirmed, None)
                    } else {
                        confirmed.note_datagram(sequence).receive_frames(frames, 0, now, epoch)
                    }
                },
            },
        }
    }

    /// Without the unconfirmed datagrams in the ranges.
    pub open spec fn confirmed(self, ranges: Seq<(nat, nat)>) -> PeerModel {
        PeerModel {
            unacked: kept(self.unacked, ranges, 0),
            ..self
        }
    }

    /// After sending an unconfirmed datagram again.
    pub open spec fn retransmit(self, sequence: nat, now: u64) -> Outcome {
        let key = seq![sequence as int];
        match lookup(self.unacked, key) {
            None => (self, None),
            Some(sent) => if sent.attempts >= MAX_RETRANSMIT_ATTEMPTS {
                (
                    self,
                    Some(
                        RakNetError::RetransmitExhausted {
                            sequence: sequence as u32,
                            attempts: sent.attempts,
                        },
                    ),
                )
            } else {
                (
                    PeerModel {
                        unacked: inserted(
                            self.unacked,
                            key,
                            UnackedView {
                                bytes: sent.bytes,
                                sent_at: now,
                                attempts: (sent.attempts + 1) as u16,
                            },
                        ),
                        ..self
                    }.sending(sent.bytes),
                    None,
                )
            },
        }
    }

    /// After sending the datagrams of a list again, from the place `i` on.
    pub open spec fn retransmit_all(self, sequences: Seq<nat>, i: int, now: u64) -> Outcome
        decreases sequences.len() - i,
    {
        if i < 0 || i >= sequences.len() {
            (self, None)
        } else {
            let (sent, e) = self.retransmit(sequences[i], now);
            if e is Some {
                (sent, e)
            } else {
                sent.retransmit_all(sequences, i + 1, now)
            }
        }
    }

    /// After a timer has run out.
    pub open spec fn on_timer(self, now: u64) -> Outcome {
        if elapsed(now, self.last_observed) >= PEER_TIMEOUT {
            (self, Some(RakNetError::PeerTimeout))
        } else {
            self.retransmit_all(due(self.unacked, now, 0), 0, now)
        }
    }

    /// When the next timer runs out.
    pub open spec fn next_timer_deadline(self, now: u64) -> u64 {
        let timeout = if self.last_observed + PEER_TIMEOUT > u64::MAX {
            now
        } else {
            (self.last_observed + PEER_TIMEOUT) as u64
        };
        earliest(self.unacked, 0, timeout)
    }

    /// After a pause: no timer has run meanwhile.
    pub open spec fn resumed(self, frozen_at: u64, resumed_at: u64) -> PeerModel {
        PeerModel {
            last_observed: rebased(self.last_observed, frozen_at, resumed_at),
            unacked: self.unacked.map_values(
                |entry: (Seq<int>, UnackedView)|
                    (
                        entry.0,
                        UnackedView {
                            sent_at: rebased(entry.1.sent_at, frozen_at, resumed_at),
                            ..entry.1
                        },
                    ),
            ),
            ..self
        }
    }

    /// The checkpoint of the peer at an instant.
    pub open spec fn snapshot(self, now: u64) -> PeerSnapshotView {
        PeerSnapshotView {
            remote_addr: self.remote_addr,
            mtu: self.mtu,
            accepted: self.accepted,
            next_datagram: self.next_datagram,
            next_reliable: self.next_reliable,
            next_ordered: self.next_ordered,
            next_split_id: self.next_split_id,
            last_datagram: self.last_datagram,
            seen_datagram_order: self.seen_datagrams,
            seen_reliable_order: self.seen_reliable,
            ordered_expected: channel_list(self.ordered_expected),
            sequenced_latest: channel_list(self.sequenced_latest),
            queued_payloads: self.inbox.queue,
            unacked_datagrams: unacked_snapshot(self.unacked, now),
            reassembly: reassembly_snapshot(self.reassembly),
            ordered_holdback: holdback_snapshot(self.ordered_holdback),
            timeout_remaining: elapsed(PEER_TIMEOUT, elapsed(now, self.last_observed)),
        }
    }

    /// The peer that goes on from a checkpoint at an instant.
    pub open spec fn restored(s: PeerSnapshotView, budgets: RakNetBudgets, now: u64) -> PeerModel {
        PeerModel {
            remote_addr: s.remote_addr,
            mtu: s.mtu,
            budgets,
            accepted: s.accepted,
            last_observed: rewound(now, elapsed(PEER_TIMEOUT, s.timeout_remaining)),
            next_datagram: s.next_datagram,
            next_reliable: s.next_reliable,
            next_ordered: s.next_ordered,
            next_split_id: s.next_split_id,
            last_datagram: s.last_datagram,
            seen_datagrams: s.seen_datagram_order,
            seen_reliable: s.seen_reliable_order,
            ordered_expected: gathered(channel_entries(s.ordered_expected)),
            sequenced_latest: gathered(channel_entries(s.sequenced_latest)),
            ordered_holdback: gathered(holdback_entries(s.ordered_holdback)),
            reassembly: gathered(reassembly_entries(s.reassembly)),
            reassembly_bytes: all_bytes(s.reassembly) as usize,
            reassembly_parts: all_parts(s.reassembly) as usize,
            unacked: gathered(unacked_entries(s.unacked_datagrams, now)),
            inbox: InboxView {
                queue: s.queued_payloads,
                closed: false,
                capacity: budgets.application_queue,
            },
            outbox: Seq::empty(),
        }
    }
}

/// How many fragments of a given size a payload makes; an empty payload makes one.
pub open spec fn fragment_count(len: nat, capacity: nat) -> nat {
    if len == 0 {
        1
    } else {
        (len + capacity - 1) as nat / capacity
    }
}

/// Where the fragment numbered `i` starts.
pub open spec fn fragment_start(len: nat, capacity: nat, i: nat) -> nat {
    if i * capacity > len {
        len
    } else {
        i * capacity
    }
}

/// The frame of the fragment numbered `i`.
pub open spec fn fragment(
    payload: Seq<u8>,
    capacity: nat,
    count: nat,
    i: nat,
    reliable: nat,
    order: nat,
    split_id: u16,
) -> FrameView {
    FrameView {
        reliability: Reliability::ReliableOrdered,
        reliable_index: Some(reliable),
        sequence_index: None,
        order_index: Some(order),
        order_channel: 0,
        split: if count > 1 {
            Some(SplitHeader { count: count as u32, id: split_id, index: i as u32 })
        } else {
            None
        },
        payload: payload.subrange(
            fragment_start(payload.len(), capacity, i) as int,
            fragment_start(payload.len(), capacity, i + 1) as int,
        ),
    }
}

/// Whether every part is there.
pub open spec fn complete(parts: Seq<Option<Seq<u8>>>) -> bool {
    forall|i: int| 0 <= i < parts.len() ==> #[trigger] parts[i] is Some
}

/// The parts that are there, one after the other.
pub open spec fn joined(parts: Seq<Option<Seq<u8>>>) -> Seq<u8>
    decreases parts.len(),
{
    if parts.len() == 0 {
        Seq::empty()
    } else {
        joined(parts.drop_last()) + match parts.last() {
            Some(part) => part,
            None => Seq::empty(),
        }
    }
}

/// How many bytes the parts that are there hold.
pub open spec fn byte_total(parts: Seq<Option<Seq<u8>>>) -> nat {
    joined(parts).len()
}

/// How many bytes the parts of all assemblies hold.
pub open spec fn all_bytes(s: Seq<(u16, Seq<Option<Seq<u8>>>)>) -> nat
    decreases s.len(),
{
    if s.len() == 0 {
        0
    } else {
        all_bytes(s.drop_last()) + byte_total(s.last().1)
    }
}

/// How many parts all assemblies have.
pub open spec fn all_parts(s: Seq<(u16, Seq<Option<Seq<u8>>>)>) -> nat
    decreases s.len(),
{
    if s.len() == 0 {
        0
    } else {
        all_parts(s.drop_last()) + s.last().1.len()
    }
}

/// Whether a number lies in a range that may wrap around.
pub open spec fn in_range(sequence: nat, range: (nat, nat)) -> bool {
    distance(sequence, range.0) <= distance(range.1, range.0)
}

/// Whether a number lies in one of the ranges.
pub open spec fn in_ranges(sequence: nat, ranges: Seq<(nat, nat)>) -> bool {
    exists|i: int| 0 <= i < ranges.len() && in_range(sequence, #[trigger] ranges[i])
}

/// The unconfirmed datagrams outside the ranges, from the place `i` on.
pub open spec fn kept(unacked: Entries<UnackedView>, ranges: Seq<(nat, nat)>, i: int) -> Entries<
    UnackedView,
>
    decreases unacked.len() - i,
{
    if i < 0 || i >= unacked.len() {
        Seq::empty()
    } else {
        let rest = kept(unacked, ranges, i + 1);
        if in_ranges(unacked[i].0[0] as nat, ranges) {
            rest
        } else {
            seq![unacked[i]] + rest
        }
    }
}

/// The numbers of the unconfirmed datagrams in the ranges, from the place `i` on.
pub open spec fn missing(unacked: Entries<UnackedView>, ranges: Seq<(nat, nat)>, i: int) -> Seq<nat>
    decreases unacked.len() - i,
{
    if i < 0 || i >= unacked.len() {
        Seq::empty()
    } else {
        let sequence = unacked[i].0[0] as nat;
        let rest = missing(unacked, ranges, i + 1);
        if in_ranges(sequence, ranges) {
            seq![sequence] + rest
        } else {
            rest
        }
    }
}

/// The numbers of the unconfirmed datagrams whose delay is over, from the place `i` on.
pub open spec fn due(unacked: Entries<UnackedView>, now: u64, i: int) -> Seq<nat>
    decreases unacked.len() - i,
{
    if i < 0 || i >= unacked.len() {
        Seq::empty()
    } else {
        let rest = due(unacked, now, i + 1);
        if elapsed(now, unacked[i].1.sent_at) >= delay_after(unacked[i].1.attempts) {
            seq![unacked[i].0[0] as nat] + rest
        } else {
            rest
        }
    }
}

/// The earliest of an instant and the ends of the delays from the place `i` on.
pub open spec fn earliest(unacked: Entries<UnackedView>, i: int, instant: u64) -> u64
    decreases unacked.len() - i,
{
    if i < 0 || i >= unacked.len() {
        instant
    } else {
        let end = unacked[i].1.sent_at + delay_after(unacked[i].1.attempts);
        earliest(
            unacked,
            i + 1,
            if end < instant {
                end as u64
            } else {
                instant
            },
        )
    }
}

/// Channels with their numbers, as a list.
pub open spec fn channel_list(entries: Entries<nat>) -> Seq<(u8, nat)> {
    entries.map_values(|entry: (Seq<int>, nat)| (entry.0[0] as u8, entry.1))
}

/// Channels with their numbers, as entries.
pub open spec fn channel_entries(list: Seq<(u8, nat)>) -> Entries<nat> {
    list.map_values(|entry: (u8, nat)| (seq![entry.0 as int], entry.1))
}

/// Unconfirmed datagrams as a checkpoint lists them at an instant.
pub open spec fn unacked_snapshot(entries: Entries<UnackedView>, now: u64) -> Seq<
    UnackedSnapshotView,
> {
    entries.map_values(
        |entry: (Seq<int>, UnackedView)|
            UnackedSnapshotView {
                sequence: entry.0[0] as nat,
                bytes: entry.1.bytes,
                retransmit_remaining: elapsed(
                    delay_after(entry.1.attempts),
                    elapsed(now, entry.1.sent_at),
                ),
                attempts: entry.1.attempts,
            },
    )
}

/// Unconfirmed datagrams of a checkpoint as entries, their timers set at an instant.
pub open spec fn unacked_entries(list: Seq<UnackedSnapshotView>, now: u64) -> Entries<UnackedView> {
    list.map_values(
        |sent: UnackedSnapshotView|
            (
                seq![sent.sequence as int],
                UnackedView {
                    bytes: sent.bytes,
                    sent_at: rewound(
                        now,
                        elapsed(delay_after(sent.attempts), sent.retransmit_remaining),
                    ),
                    attempts: sent.attempts,
                },
            ),
    )
}

/// Assemblies as a checkpoint lists them.
pub open spec fn reassembly_snapshot(entries: Entries<Seq<Option<Seq<u8>>>>) -> Seq<
    (u16, Seq<Option<Seq<u8>>>),
> {
    entries.map_values(
        |entry: (Seq<int>, Seq<Option<Seq<u8>>>)| (entry.0[0] as u16, entry.1),
    )
}

/// Assemblies of a checkpoint as entries.
pub open spec fn reassembly_entries(list: Seq<(u16, Seq<Option<Seq<u8>>>)>) -> Entries<
    Seq<Option<Seq<u8>>>,
> {
    list.map_values(|split: (u16, Seq<Option<Seq<u8>>>)| (seq![split.0 as int], split.1))
}

/// Held-back payloads as a checkpoint lists them.
pub open spec fn holdback_snapshot(entries: Entries<Seq<u8>>) -> Seq<(u8, nat, Seq<u8>)> {
    entries.map_values(
        |entry: (Seq<int>, Seq<u8>)| (entry.0[0] as u8, entry.0[1] as nat, entry.1),
    )
}

/// Held-back payloads of a checkpoint as entries.
pub open spec fn holdback_entries(list: Seq<(u8, nat, Seq<u8>)>) -> Entries<Seq<u8>> {
    list.map_values(|held: (u8, nat, Seq<u8>)| (seq![held.0 as int, held.1 as int], held.2))
}

/// Whether two states differ at most in what sending changes: the next numbers, the unconfirmed
/// datagrams and the outbox.
pub open spec fn differ_by_sending(a: PeerModel, b: PeerModel) -> bool {
    b == PeerModel {
        next_datagram: b.next_datagram,
        next_reliable: b.next_reliable,
        next_ordered: b.next_ordered,
        next_split_id: b.next_split_id,
        unacked: b.unacked,
        outbox: b.outbox,
        ..a
    }
}

/// Sending fragments changes nothing but what sending changes.
pub proof fn send_fragments_keeps(
    m: PeerModel,
    payload: Seq<u8>,
    capacity: nat,
    count: nat,
    i: nat,
    order: nat,
    split_id: u16,
    now: u64,
)
    ensures
        differ_by_sending(
            m,
            m.send_fragments(payload, capacity, count, i, order, split_id, now).0,
        ),
    decreases count - i,
{
    if i < count {
        let frame = fragment(payload, capacity, count, i, m.next_reliable, order, split_id);
        let numbered = PeerModel { next_reliable: after(m.next_reliable), ..m };
        let (sent, e) = numbered.send_frame(frame, now);
        send_fragments_keeps(sent, payload, capacity, count, i + 1, order, split_id, now);
    }
}

/// Sending a payload changes nothing but what sending changes.
pub proof fn send_keeps(m: PeerModel, payload: Seq<u8>, now: u64)
    ensures
        differ_by_sending(m, m.send_reliable_ordered(payload, now).0),
{
    if m.mtu > DATAGRAM_HEADER_BUDGET {
        let capacity = (m.mtu - DATAGRAM_HEADER_BUDGET) as nat;
        let count = fragment_count(payload.len(), capacity);
        let ordered = PeerModel {
            next_ordered: after(m.next_ordered),
            next_split_id: if m.next_split_id == u16::MAX {
                0
            } else {
                (m.next_split_id + 1) as u16
            },
            ..m
        };
        send_fragments_keeps(
            ordered,
            payload,
            capacity,
            count,
            0,
            m.next_ordered,
            m.next_split_id,
            now,
        );
    }
}

/// Delivering a payload changes nothing but what sending changes, whether the peer is accepted,
/// and the inbox.
pub proof fn deliver_keeps(m: PeerModel, payload: Seq<u8>, now: u64, epoch: i64)
    ensures
        ({
            let delivered = m.deliver_payload(payload, now, epoch).0;
            differ_by_sending(
                PeerModel { accepted: delivered.accepted, inbox: delivered.inbox, ..m },
                delivered,
            )
        }),
{
    if let Ok(Some(request_time)) = connection_request(payload) {
        send_keeps(m, connection_accept(m.remote_addr, request_time, epoch), now);
    }
    if let Ok(Some(ping_time)) = connected_ping(payload) {
        send_keeps(m, connected_pong(ping_time, epoch), now);
    }
}

} // verus!
