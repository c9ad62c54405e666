//! A transport peer: numbering, acknowledgement, reassembly, ordering and retransmission.
//!
//! A peer performs no input or output. What has to be sent, and the moment at which the peer is
//! accepted, gather in its outbox for the program to carry out.

use crate::bytes::copy_bytes;
use crate::lists::reversed;
use crate::ordered::{
    gathered, gathered_step, holds, insert_laws, inserted, lex_of_few, lookup, rank_bounds,
    remove_laws, Key, OrderedMap,
};
use crate::raknet::address::PeerAddress;
use crate::raknet::budget::{ensure_budget, RakNetBudgets};
use crate::raknet::error::{RakNetError, WireError};
use crate::raknet::inbox::{InboxView, PeerInbox};
use crate::raknet::peer_model::{
    all_bytes, all_parts, byte_total, channel_entries, channel_list, complete, due, earliest,
    fragment, fragment_count, fragment_start, holdback_entries, holdback_snapshot, in_range,
    in_ranges, joined, kept, missing, reassembly_entries, reassembly_snapshot, unacked_entries,
    unacked_snapshot, ActionView, Outcome, PeerModel, UnackedView, DATAGRAM_HEADER_BUDGET,
};
use crate::raknet::sequence::{DatagramSequence, OrderSequence, ReliableSequence, MODULUS};
use crate::raknet::snapshot::{
    channel_views, datagram_value, duplicate_window_limit, over_budget, part_bytes, part_view,
    part_views, reassembly_fault, OrderedPayloadSnapshot, PeerSnapshot, ReassemblySnapshot,
    UnackedDatagramSnapshot, ValidatedPeerSnapshot,
};
use crate::raknet::timing::{
    rebase, retransmit_delay, rewind, PeerActivity, MAX_RETRANSMIT_ATTEMPTS, PEER_TIMEOUT,
};
use crate::raknet::window::DuplicateWindow;
use crate::raknet::wire::{
    acknowledgement_view, datagram, decode_acknowledgement, decode_connected_ping,
    decode_connection_request, decode_datagram, encode_ack, encode_connected_pong,
    encode_connection_accept, encode_datagram, encode_nack, frame_views, range_values,
    Acknowledgement, Frame, FrameView, Reliability, SplitHeader,
};
use crate::raknet::peer_model::deliver_keeps;
use vstd::prelude::*;
use vstd::slice::slice_subrange;

verus! {

/// The mark of a peer that works.
pub struct Running;

/// The mark of a peer that stands still.
pub struct Frozen;

/// The mark of a peer that has gone to another process.
pub struct Transferred;

/// A channel and a place in its order.
#[derive(Clone, Copy, Debug, PartialEq, Eq, Structural)]
pub struct HoldbackKey {
    pub channel: u8,
    pub sequence: u32,
}

impl Key for HoldbackKey {
    open spec fn id(&self) -> Seq<int> {
        seq![self.channel as int, self.sequence as int]
    }

    fn precedes(&self, other: &Self) -> (result: bool) {
        proof {
            lex_of_few(
                self.channel as int,
                self.sequence as int,
                0,
                other.channel as int,
                other.sequence as int,
                0,
            );
        }
        self.channel < other.channel || (self.channel == other.channel && self.sequence
            < other.sequence)
    }
}

/// A datagram that was sent and not yet confirmed.
pub struct UnackedDatagram {
    pub bytes: Vec<u8>,
    pub sent_at: u64,
    pub attempts: u16,
}

impl View for UnackedDatagram {
    type V = UnackedView;

    open spec fn view(&self) -> UnackedView {
        UnackedView { bytes: self.bytes@, sent_at: self.sent_at, attempts: self.attempts }
    }
}

/// The parts of a payload that have arrived so far.
pub struct Reassembly {
    pub parts: Vec<Option<Vec<u8>>>,
}

impl View for Reassembly {
    type V = Seq<Option<Seq<u8>>>;

    open spec fn view(&self) -> Seq<Option<Seq<u8>>> {
        part_views(self.parts@)
    }
}

/// Something that the program has to do for a peer.
pub enum PeerAction {
    /// Send bytes to the peer.
    Send(Vec<u8>),
    /// Hand the peer, whose handshake is complete, to whoever accepts connections.
    Accept,
}

impl View for PeerAction {
    type V = ActionView;

    open spec fn view(&self) -> ActionView {
        match self {
            PeerAction::Send(bytes) => ActionView::Send(bytes@),
            PeerAction::Accept => ActionView::Accept,
        }
    }
}

/// What the actions of a list are.
pub open spec fn action_views(actions: Seq<PeerAction>) -> Seq<ActionView> {
    actions.map_values(|action: PeerAction| action@)
}

/// A transport peer.
pub struct PeerState {
    remote_addr: PeerAddress,
    mtu: u16,
    budgets: RakNetBudgets,
    accepted: bool,
    activity: PeerActivity,
    next_datagram: DatagramSequence,
    next_reliable: ReliableSequence,
    next_ordered: OrderSequence,
    next_split_id: u16,
    last_datagram: Option<DatagramSequence>,
    seen_datagrams: DuplicateWindow,
    seen_reliable: DuplicateWindow,
    ordered_expected: OrderedMap<u8, OrderSequence>,
    sequenced_latest: OrderedMap<u8, OrderSequence>,
    ordered_holdback: OrderedMap<HoldbackKey, Vec<u8>>,
    reassembly: OrderedMap<u16, Reassembly>,
    reassembly_bytes: usize,
    reassembly_parts: usize,
    unacked: OrderedMap<u32, UnackedDatagram>,
    inbox: PeerInbox,
    outbox: Vec<PeerAction>,
}

impl View for PeerState {
    type V = PeerModel;

    closed spec fn view(&self) -> PeerModel {
        PeerModel {
            remote_addr: self.remote_addr,
            mtu: self.mtu,
            budgets: self.budgets,
            accepted: self.accepted,
            last_observed: self.activity.last_observed,
            next_datagram: self.next_datagram@,
            next_reliable: self.next_reliable@,
            next_ordered: self.next_ordered@,
            next_split_id: self.next_split_id,
            last_datagram: datagram_value(self.last_datagram),
            seen_datagrams: self.seen_datagrams@,
            seen_reliable: self.seen_reliable@,
            ordered_expected: self.ordered_expected@,
            sequenced_latest: self.sequenced_latest@,
            ordered_holdback: self.ordered_holdback@,
            reassembly: self.reassembly@,
            reassembly_bytes: self.reassembly_bytes,
            reassembly_parts: self.reassembly_parts,
            unacked: self.unacked@,
            inbox: self.inbox@,
            outbox: action_views(self.outbox@),
        }
    }
}

/// Whether a step ended in a given outcome.
pub open spec fn ended(peer: PeerModel, result: Result<(), RakNetError>, outcome: Outcome) -> bool {
    &&& peer == outcome.0
    &&& match outcome.1 {
        Some(e) => result == Err::<(), RakNetError>(e),
        None => result is Ok,
    }
}

fn check_budget(resource: &'static str, requested: usize, limit: usize) -> (result: Result<
    (),
    RakNetError,
>)
    ensures
        match over_budget(resource, requested as nat, limit) {
            Some(e) => result == Err::<(), RakNetError>(e),
            None => result is Ok,
        },
{
    match ensure_budget(resource, requested, limit) {
        Ok(_) => Ok(()),
        Err(e) => Err(RakNetError::Budget(e)),
    }
}

/// What a completed payload holds.
pub open spec fn whole_view(result: Result<Option<Vec<u8>>, RakNetError>) -> Result<
    Option<Seq<u8>>,
    RakNetError,
> {
    match result {
        Err(e) => Err(e),
        Ok(None) => Ok(None),
        Ok(Some(bytes)) => Ok(Some(bytes@)),
    }
}

fn missing_parts(count: u32) -> (result: Vec<Option<Vec<u8>>>)
    ensures
        part_views(result@) == Seq::new(count as nat, |i: int| None::<Seq<u8>>),
{
    let mut result: Vec<Option<Vec<u8>>> = Vec::new();
    let mut i: u32 = 0;
    while i < count
        invariant
            i <= count,
            result@.len() == i,
            forall|j: int| 0 <= j < i ==> #[trigger] result@[j] is None,
        decreases count - i,
    {
        result.push(None);
        i += 1;
    }
    assert(part_views(result@) =~= Seq::new(count as nat, |i: int| None::<Seq<u8>>));
    result
}

fn all_present(parts: &Vec<Option<Vec<u8>>>) -> (result: bool)
    ensures
        result == complete(part_views(parts@)),
{
    let ghost views = part_views(parts@);
    let mut i: usize = 0;
    while i < parts.len()
        invariant
            i <= parts@.len(),
            views == part_views(parts@),
            forall|j: int| 0 <= j < i ==> #[trigger] views[j] is Some,
        decreases parts@.len() - i,
    {
        assert(views[i as int] == part_view(parts@[i as int]));
        if parts[i].is_none() {
            return false;
        }
        i += 1;
    }
    true
}

fn join_parts(parts: &Vec<Option<Vec<u8>>>) -> (result: Vec<u8>)
    ensures
        result@ == joined(part_views(parts@)),
{
    let ghost views = part_views(parts@);
    let mut result: Vec<u8> = Vec::new();
    let mut i: usize = 0;
    assert(views.subrange(0, 0) =~= Seq::empty());
    while i < parts.len()
        invariant
            i <= parts@.len(),
            views == part_views(parts@),
            result@ == joined(views.subrange(0, i as int)),
        decreases parts@.len() - i,
    {
        let ghost before = result@;
        assert(views[i as int] == part_view(parts@[i as int]));
        if let Some(part) = &parts[i] {
            result.extend_from_slice(part.as_slice());
            assert(result@ =~= before + part@);
        }
        i += 1;
        proof {
            let taken = views.subrange(0, i as int);
            assert(taken.drop_last() =~= views.subrange(0, i - 1));
            assert(result@ =~= joined(taken));
        }
    }
    assert(views.subrange(0, views.len() as int) =~= views);
    result
}

/// The numbers of a list.
pub open spec fn number_views(s: Seq<u32>) -> Seq<nat> {
    s.map_values(|n: u32| n as nat)
}

fn within_ranges(number: u32, ranges: &Vec<(DatagramSequence, DatagramSequence)>) -> (result: bool)
    ensures
        result == in_ranges(number as nat, range_values(ranges@)),
{
    let ghost values = range_values(ranges@);
    let sequence = DatagramSequence::new(number);
    let mut i: usize = 0;
    while i < ranges.len()
        invariant
            i <= ranges@.len(),
            values == range_values(ranges@),
            sequence@ == number as nat % (MODULUS as nat),
            forall|j: int| 0 <= j < i ==> !in_range(number as nat, #[trigger] values[j]),
        decreases ranges@.len() - i,
    {
        let (start, end) = ranges[i];
        assert(values[i as int] == (start@, end@));
        if sequence.wrapping_distance_from(start) <= end.wrapping_distance_from(start) {
            assert(in_range(number as nat, values[i as int]));
            return true;
        }
        assert(!in_range(number as nat, values[i as int]));
        i += 1;
    }
    false
}

fn datagram_sequences(window: &DuplicateWindow) -> (result: Vec<DatagramSequence>)
    ensures
        result@.map_values(|sequence: DatagramSequence| sequence@) == window@,
{
    let values = window.values();
    let mut result: Vec<DatagramSequence> = Vec::new();
    let mut i: usize = 0;
    while i < values.len()
        invariant
            i <= values@.len(),
            result@.len() == i,
            number_views(values@) == window@,
                forall|j: int| 0 <= j < i ==> (#[trigger] result@[j])@ == values@[j] as nat,
        decreases values@.len() - i,
    {
        assert(number_views(values@)[i as int] == values@[i as int] as nat);
        result.push(DatagramSequence::from_value(values[i]));
        i += 1;
    }
    assert(result@.map_values(|sequence: DatagramSequence| sequence@) =~= number_views(values@));
    result
}

fn reliable_sequences(window: &DuplicateWindow) -> (result: Vec<ReliableSequence>)
    ensures
        result@.map_values(|sequence: ReliableSequence| sequence@) == window@,
{
    let values = window.values();
    let mut result: Vec<ReliableSequence> = Vec::new();
    let mut i: usize = 0;
    while i < values.len()
        invariant
            i <= values@.len(),
            result@.len() == i,
            number_views(values@) == window@,
                forall|j: int| 0 <= j < i ==> (#[trigger] result@[j])@ == values@[j] as nat,
        decreases values@.len() - i,
    {
        assert(number_views(values@)[i as int] == values@[i as int] as nat);
        result.push(ReliableSequence::from_value(values[i]));
        i += 1;
    }
    assert(result@.map_values(|sequence: ReliableSequence| sequence@) =~= number_views(values@));
    result
}

fn channel_pairs(map: &OrderedMap<u8, OrderSequence>) -> (result: Vec<(u8, OrderSequence)>)
    ensures
        channel_views(result@) == channel_list(map@),
{
    let mut result: Vec<(u8, OrderSequence)> = Vec::new();
    let mut i: usize = 0;
    while i < map.len()
        invariant
            i <= map@.len(),
            result@.len() == i,
            forall|j: int|
                0 <= j < i ==> (#[trigger] result@[j]).0 == map@[j].0[0] as u8 && result@[j].1@
                    == map@[j].1,
        decreases map@.len() - i,
    {
        result.push((*map.key(i), *map.at(i)));
        i += 1;
    }
    assert(channel_views(result@) =~= channel_list(map@));
    result
}

fn unacked_list(map: &OrderedMap<u32, UnackedDatagram>, now: u64) -> (result: Vec<
    UnackedDatagramSnapshot,
>)
    ensures
        result@.map_values(|datagram: UnackedDatagramSnapshot| datagram@) == unacked_snapshot(
            map@,
            now,
        ),
{
    let mut result: Vec<UnackedDatagramSnapshot> = Vec::new();
    let mut i: usize = 0;
    while i < map.len()
        invariant
            i <= map@.len(),
            result@.len() == i,
            forall|j: int| 0 <= j < i ==> (#[trigger] result@[j])@ == unacked_snapshot(map@, now)[j],
        decreases map@.len() - i,
    {
        let number: u32 = *map.key(i);
        let datagram = map.at(i);
        let waited: u64 = now.saturating_sub(datagram.sent_at);
        result.push(
            UnackedDatagramSnapshot {
                sequence: DatagramSequence::from_value(number),
                bytes: copy_bytes(datagram.bytes.as_slice()),
                retransmit_remaining: retransmit_delay(datagram.attempts).saturating_sub(waited),
                attempts: datagram.attempts,
            },
        );
        i += 1;
    }
    assert(result@.map_values(|datagram: UnackedDatagramSnapshot| datagram@) =~= unacked_snapshot(
        map@,
        now,
    ));
    result
}

fn copy_parts(parts: &Vec<Option<Vec<u8>>>) -> (result: Vec<Option<Vec<u8>>>)
    ensures
        part_views(result@) == part_views(parts@),
{
    let mut result: Vec<Option<Vec<u8>>> = Vec::new();
    let mut i: usize = 0;
    while i < parts.len()
        invariant
            i <= parts@.len(),
            result@.len() == i,
            forall|j: int| 0 <= j < i ==> part_view(#[trigger] result@[j]) == part_view(parts@[j]),
        decreases parts@.len() - i,
    {
        match &parts[i] {
            Some(part) => result.push(Some(copy_bytes(part.as_slice()))),
            None => result.push(None),
        }
        i += 1;
    }
    assert(part_views(result@) =~= part_views(parts@));
    result
}

fn reassembly_list(map: &OrderedMap<u16, Reassembly>) -> (result: Vec<ReassemblySnapshot>)
    ensures
        result@.map_values(|split: ReassemblySnapshot| split@) == reassembly_snapshot(map@),
{
    let mut result: Vec<ReassemblySnapshot> = Vec::new();
    let mut i: usize = 0;
    while i < map.len()
        invariant
            i <= map@.len(),
            result@.len() == i,
            forall|j: int| 0 <= j < i ==> (#[trigger] result@[j])@ == reassembly_snapshot(map@)[j],
        decreases map@.len() - i,
    {
        result.push(
            ReassemblySnapshot { split_id: *map.key(i), parts: copy_parts(&map.at(i).parts) },
        );
        i += 1;
    }
    assert(result@.map_values(|split: ReassemblySnapshot| split@) =~= reassembly_snapshot(map@));
    result
}

fn holdback_list(map: &OrderedMap<HoldbackKey, Vec<u8>>) -> (result: Vec<OrderedPayloadSnapshot>)
    ensures
        result@.map_values(|held: OrderedPayloadSnapshot| held@) == holdback_snapshot(map@),
{
    let mut result: Vec<OrderedPayloadSnapshot> = Vec::new();
    let mut i: usize = 0;
    while i < map.len()
        invariant
            i <= map@.len(),
            result@.len() == i,
            forall|j: int| 0 <= j < i ==> (#[trigger] result@[j])@ == holdback_snapshot(map@)[j],
        decreases map@.len() - i,
    {
        let key = map.key(i);
        result.push(
            OrderedPayloadSnapshot {
                channel: key.channel,
                sequence: OrderSequence::from_value(key.sequence),
                payload: copy_bytes(map.at(i).as_slice()),
            },
        );
        i += 1;
    }
    assert(result@.map_values(|held: OrderedPayloadSnapshot| held@) =~= holdback_snapshot(map@));
    result
}

fn gather_channels(list: &Vec<(u8, OrderSequence)>) -> (result: OrderedMap<u8, OrderSequence>)
    ensures
        result.wf(),
        result@ == gathered(channel_entries(channel_views(list@))),
{
    let ghost entries = channel_entries(channel_views(list@));
    let mut result: OrderedMap<u8, OrderSequence> = OrderedMap::new();
    let mut i: usize = 0;
    while i < list.len()
        invariant
            i <= list@.len(),
            entries == channel_entries(channel_views(list@)),
            result.wf(),
            result@ == gathered(entries.subrange(0, i as int)),
        decreases list@.len() - i,
    {
        proof {
            gathered_step(entries, i as int);
        }
        result.insert(list[i].0, list[i].1);
        i += 1;
    }
    assert(entries.subrange(0, entries.len() as int) =~= entries);
    result
}

fn gather_holdback(list: &Vec<OrderedPayloadSnapshot>) -> (result: OrderedMap<HoldbackKey, Vec<u8>>)
    ensures
        result.wf(),
        result@ == gathered(
            holdback_entries(list@.map_values(|held: OrderedPayloadSnapshot| held@)),
        ),
{
    let ghost entries = holdback_entries(list@.map_values(|held: OrderedPayloadSnapshot| held@));
    let mut result: OrderedMap<HoldbackKey, Vec<u8>> = OrderedMap::new();
    let mut i: usize = 0;
    while i < list.len()
        invariant
            i <= list@.len(),
            entries == holdback_entries(list@.map_values(|held: OrderedPayloadSnapshot| held@)),
            result.wf(),
            result@ == gathered(entries.subrange(0, i as int)),
        decreases list@.len() - i,
    {
        proof {
            gathered_step(entries, i as int);
        }
        let held = &list[i];
        let key = HoldbackKey { channel: held.channel, sequence: held.sequence.value() };
        result.insert(key, copy_bytes(held.payload.as_slice()));
        i += 1;
    }
    assert(entries.subrange(0, entries.len() as int) =~= entries);
    result
}

fn gather_unacked(list: &Vec<UnackedDatagramSnapshot>, now: u64) -> (result: OrderedMap<
    u32,
    UnackedDatagram,
>)
    ensures
        result.wf(),
        result@ == gathered(
            unacked_entries(
                list@.map_values(|datagram: UnackedDatagramSnapshot| datagram@),
                now,
            ),
        ),
{
    let ghost entries = unacked_entries(
        list@.map_values(|datagram: UnackedDatagramSnapshot| datagram@),
        now,
    );
    let mut result: OrderedMap<u32, UnackedDatagram> = OrderedMap::new();
    let mut i: usize = 0;
    while i < list.len()
        invariant
            i <= list@.len(),
            entries == unacked_entries(
                list@.map_values(|datagram: UnackedDatagramSnapshot| datagram@),
                now,
            ),
            result.wf(),
            result@ == gathered(entries.subrange(0, i as int)),
        decreases list@.len() - i,
    {
        proof {
            gathered_step(entries, i as int);
        }
        let datagram = &list[i];
        let waited: u64 = retransmit_delay(datagram.attempts).saturating_sub(
            datagram.retransmit_remaining,
        );
        result.insert(
            datagram.sequence.value(),
            UnackedDatagram {
                bytes: copy_bytes(datagram.bytes.as_slice()),
                sent_at: rewind(now, waited),
                attempts: datagram.attempts,
            },
        );
        i += 1;
    }
    assert(entries.subrange(0, entries.len() as int) =~= entries);
    result
}

/// The bytes of the parts up to a place, once they are added up.
proof fn part_bytes_total(
    parts: Seq<Option<Seq<u8>>>,
    j: int,
    bytes: nat,
    budgets: RakNetBudgets,
)
    requires
        0 <= j <= parts.len(),
        bytes <= usize::MAX,
        part_bytes(parts, j, bytes, budgets) is Ok,
    ensures
        part_bytes(parts, j, bytes, budgets)->Ok_0 + byte_total(parts.subrange(0, j)) == bytes
            + byte_total(parts),
        part_bytes(parts, j, bytes, budgets)->Ok_0 <= usize::MAX,
    decreases parts.len() - j,
{
    if j < parts.len() {
        let taken = parts.subrange(0, j + 1);
        assert(taken.drop_last() =~= parts.subrange(0, j));
        match parts[j] {
            None => part_bytes_total(parts, j + 1, bytes, budgets),
            Some(part) => part_bytes_total(parts, j + 1, bytes + part.len(), budgets),
        }
    } else {
        assert(parts.subrange(0, j) =~= parts);
    }
}

/// The assemblies of an accepted checkpoint keep to the budgets together.
pub proof fn reassembly_totals(
    s: Seq<(u16, Seq<Option<Seq<u8>>>)>,
    i: int,
    parts: nat,
    bytes: nat,
    budgets: RakNetBudgets,
)
    requires
        0 <= i <= s.len(),
        parts == all_parts(s.subrange(0, i)),
        bytes == all_bytes(s.subrange(0, i)),
        parts <= usize::MAX,
        bytes <= usize::MAX,
        reassembly_fault(s, i, parts, bytes, budgets) is None,
    ensures
        all_parts(s) <= budgets.max_reassembly_parts_per_peer,
        all_bytes(s) <= budgets.max_reassembly_bytes_per_peer,
    decreases s.len() - i,
{
    if i < s.len() {
        let taken = s.subrange(0, i + 1);
        assert(taken.drop_last() =~= s.subrange(0, i));
        let total = part_bytes(s[i].1, 0, bytes, budgets)->Ok_0;
        part_bytes_total(s[i].1, 0, bytes, budgets);
        assert(s[i].1.subrange(0, 0) =~= Seq::empty());
        reassembly_totals(s, i + 1, parts + s[i].1.len(), total, budgets);
    } else {
        assert(s.subrange(0, i) =~= s);
    }
}

/// Fewer assemblies hold no more parts and bytes.
proof fn totals_grow(s: Seq<(u16, Seq<Option<Seq<u8>>>)>, i: int)
    requires
        0 <= i <= s.len(),
    ensures
        all_parts(s.subrange(0, i)) <= all_parts(s),
        all_bytes(s.subrange(0, i)) <= all_bytes(s),
    decreases s.len() - i,
{
    if i < s.len() {
        totals_grow(s, i + 1);
        assert(s.subrange(0, i + 1).drop_last() =~= s.subrange(0, i));
    } else {
        assert(s.subrange(0, i) =~= s);
    }
}

fn gather_reassembly(list: &Vec<ReassemblySnapshot>) -> (result: (
    OrderedMap<u16, Reassembly>,
    usize,
    usize,
))
    requires
        all_parts(list@.map_values(|split: ReassemblySnapshot| split@)) <= usize::MAX,
        all_bytes(list@.map_values(|split: ReassemblySnapshot| split@)) <= usize::MAX,
    ensures
        ({
            let views = list@.map_values(|split: ReassemblySnapshot| split@);
            &&& result.0.wf()
            &&& result.0@ == gathered(reassembly_entries(views))
            &&& result.1 == all_parts(views)
            &&& result.2 == all_bytes(views)
        }),
{
    let ghost views = list@.map_values(|split: ReassemblySnapshot| split@);
    let ghost entries = reassembly_entries(views);
    let mut result: OrderedMap<u16, Reassembly> = OrderedMap::new();
    let mut parts: usize = 0;
    let mut bytes: usize = 0;
    let mut i: usize = 0;
    while i < list.len()
        invariant
            i <= list@.len(),
            views == list@.map_values(|split: ReassemblySnapshot| split@),
            entries == reassembly_entries(views),
            all_parts(views) <= usize::MAX,
            all_bytes(views) <= usize::MAX,
            result.wf(),
            result@ == gathered(entries.subrange(0, i as int)),
            parts == all_parts(views.subrange(0, i as int)),
            bytes == all_bytes(views.subrange(0, i as int)),
        decreases list@.len() - i,
    {
        proof {
            gathered_step(entries, i as int);
            totals_grow(views, i + 1);
            assert(views.subrange(0, i + 1).drop_last() =~= views.subrange(0, i as int));
        }
        let split = &list[i];
        assert(views[i as int] == split@);
        parts = parts + split.parts.len();
        let whole = join_parts(&split.parts);
        bytes = bytes + whole.len();
        result.insert(split.split_id, Reassembly { parts: copy_parts(&split.parts) });
        i += 1;
    }
    assert(entries.subrange(0, entries.len() as int) =~= entries);
    assert(views.subrange(0, views.len() as int) =~= views);
    (result, parts, bytes)
}

impl PeerState {
    /// Whether the maps are in order and the duplicate windows are indexed.
    pub closed spec fn wf(&self) -> bool {
        &&& self.seen_datagrams.wf()
        &&& self.seen_reliable.wf()
        &&& self.ordered_expected.wf()
        &&& self.sequenced_latest.wf()
        &&& self.ordered_holdback.wf()
        &&& self.reassembly.wf()
        &&& self.unacked.wf()
    }

    /// A peer that has just been met.
    pub fn new(remote_addr: PeerAddress, mtu: u16, budgets: RakNetBudgets, now: u64) -> (result:
        Self)
        ensures
            result.wf(),
            result@ == PeerModel::fresh(remote_addr, mtu, budgets, now),
    {
        let result = PeerState {
            remote_addr,
            mtu,
            budgets,
            accepted: false,
            activity: PeerActivity::new(now),
            next_datagram: DatagramSequence::default(),
            next_reliable: ReliableSequence::default(),
            next_ordered: OrderSequence::default(),
            next_split_id: 0,
            last_datagram: None,
            seen_datagrams: DuplicateWindow::new(),
            seen_reliable: DuplicateWindow::new(),
            ordered_expected: OrderedMap::new(),
            sequenced_latest: OrderedMap::new(),
            ordered_holdback: OrderedMap::new(),
            reassembly: OrderedMap::new(),
            reassembly_bytes: 0,
            reassembly_parts: 0,
            unacked: OrderedMap::new(),
            inbox: PeerInbox::new(budgets.application_queue),
            outbox: Vec::new(),
        };
        assert(result@.outbox =~= Seq::empty());
        result
    }

    /// The address of the peer.
    pub fn remote_addr(&self) -> (result: PeerAddress)
        ensures
            result == self@.remote_addr,
    {
        self.remote_addr
    }

    /// The limits that the peer keeps to.
    pub fn budgets(&self) -> (result: RakNetBudgets)
        ensures
            result == self@.budgets,
    {
        self.budgets
    }

    /// How many bytes of incomplete payloads are held.
    pub fn reassembly_bytes(&self) -> (result: usize)
        ensures
            result == self@.reassembly_bytes,
    {
        self.reassembly_bytes
    }

    /// How many parts incomplete payloads have.
    pub fn reassembly_parts(&self) -> (result: usize)
        ensures
            result == self@.reassembly_parts,
    {
        self.reassembly_parts
    }

    /// Notes that the peer was heard of.
    pub fn observe(&mut self, at: u64)
        requires
            old(self).wf(),
        ensures
            final(self).wf(),
            final(self)@ == old(self)@.observed(at),
    {
        self.activity.observe(at);
    }

    /// Hands out what has to be done, in order, and forgets it.
    pub fn take_outbox(&mut self) -> (result: Vec<PeerAction>)
        requires
            old(self).wf(),
        ensures
            final(self).wf(),
            action_views(result@) == old(self)@.outbox,
            final(self)@ == (PeerModel { outbox: Seq::empty(), ..old(self)@ }),
    {
        let mut actions: Vec<PeerAction> = Vec::new();
        actions.append(&mut self.outbox);
        assert(action_views(actions@) =~= old(self)@.outbox);
        assert(self@.outbox =~= Seq::empty());
        actions
    }

    /// Takes the first payload that waits for the application.
    pub fn receive_payload(&mut self) -> (result: Result<Option<Vec<u8>>, RakNetError>)
        requires
            old(self).wf(),
        ensures
            final(self).wf(),
            if old(self)@.inbox.queue.len() > 0 {
                &&& result matches Ok(Some(payload)) && payload@ == old(self)@.inbox.queue[0]
                &&& final(self)@ == (PeerModel {
                    inbox: InboxView {
                        queue: old(self)@.inbox.queue.subrange(
                            1,
                            old(self)@.inbox.queue.len() as int,
                        ),
                        ..old(self)@.inbox
                    },
                    ..old(self)@
                })
            } else {
                &&& final(self)@ == old(self)@
                &&& result == if old(self)@.inbox.closed {
                    Err::<Option<Vec<u8>>, RakNetError>(RakNetError::Closed)
                } else {
                    Ok(None)
                }
            },
    {
        self.inbox.receive()
    }

    /// Lets the application wait for no further payload.
    pub fn close(&mut self)
        requires
            old(self).wf(),
        ensures
            final(self).wf(),
            final(self)@ == (PeerModel {
                inbox: InboxView { closed: true, ..old(self)@.inbox },
                ..old(self)@
            }),
    {
        self.inbox.close();
    }

    fn push_send(&mut self, bytes: Vec<u8>)
        requires
            old(self).wf(),
        ensures
            final(self).wf(),
            final(self)@ == old(self)@.sending(bytes@),
    {
        self.outbox.push(PeerAction::Send(bytes));
        assert(self@.outbox =~= old(self)@.outbox.push(ActionView::Send(bytes@)));
    }

    fn send_frame(&mut self, frame: Frame, now: u64) -> (result: Result<(), RakNetError>)
        requires
            old(self).wf(),
        ensures
            final(self).wf(),
            ended(final(self)@, result, old(self)@.send_frame(frame@, now)),
    {
        check_budget(
            "unacknowledged datagrams",
            self.unacked.len().saturating_add(1),
            self.budgets.max_unacked_datagrams,
        )?;
        let sequence = self.next_datagram;
        self.next_datagram = sequence.next();
        let bytes = encode_datagram(sequence, &frame);
        check_budget("datagram bytes", bytes.len(), self.budgets.max_datagram_bytes)?;
        let kept = copy_bytes(bytes.as_slice());
        self.unacked.insert(
            sequence.value(),
            UnackedDatagram { bytes: kept, sent_at: now, attempts: 1 },
        );
        self.push_send(bytes);
        Ok(())
    }

    fn send_fragments(
        &mut self,
        payload: &[u8],
        capacity: usize,
        count: u32,
        order: OrderSequence,
        split_id: u16,
        now: u64,
    ) -> (result: Result<(), RakNetError>)
        requires
            old(self).wf(),
            capacity > 0,
            count as nat == fragment_count(payload@.len(), capacity as nat),
        ensures
            final(self).wf(),
            ended(
                final(self)@,
                result,
                old(self)@.send_fragments(
                    payload@,
                    capacity as nat,
                    count as nat,
                    0,
                    order@,
                    split_id,
                    now,
                ),
            ),
    {
        let ghost goal = self@.send_fragments(
            payload@,
            capacity as nat,
            count as nat,
            0,
            order@,
            split_id,
            now,
        );
        let mut i: u32 = 0;
        let mut start: usize = 0;
        while i < count
            invariant
                self.wf(),
                i <= count,
                capacity > 0,
                start as nat == fragment_start(payload@.len(), capacity as nat, i as nat),
                goal == old(self)@.send_fragments(
                    payload@,
                    capacity as nat,
                    count as nat,
                    0,
                    order@,
                    split_id,
                    now,
                ),
                goal == self@.send_fragments(
                    payload@,
                    capacity as nat,
                    count as nat,
                    i as nat,
                    order@,
                    split_id,
                    now,
                ),
            decreases count - i,
        {
            let end: usize = if capacity > payload.len() - start {
                payload.len()
            } else {
                start + capacity
            };
            assert(end as nat == fragment_start(payload@.len(), capacity as nat, (i + 1) as nat))
                by {
                assert((i + 1) * capacity == i * capacity + capacity) by (nonlinear_arith);
            }
            let reliable = self.next_reliable;
            self.next_reliable = reliable.next();
            let split = if count > 1 {
                Some(SplitHeader { count, id: split_id, index: i })
            } else {
                None
            };
            let chunk = copy_bytes(slice_subrange(payload, start, end));
            let frame = Frame {
                reliability: Reliability::ReliableOrdered,
                reliable_index: Some(reliable),
                sequence_index: None,
                order_index: Some(order),
                order_channel: 0,
                split,
                payload: chunk,
            };
            assert(frame@ == fragment(
                payload@,
                capacity as nat,
                count as nat,
                i as nat,
                reliable@,
                order@,
                split_id,
            ));
            self.send_frame(frame, now)?;
            i += 1;
            start = end;
        }
        Ok(())
    }

    fn send_reliable_ordered(&mut self, payload: &[u8], now: u64) -> (result: Result<
        (),
        RakNetError,
    >)
        requires
            old(self).wf(),
        ensures
            final(self).wf(),
            ended(final(self)@, result, old(self)@.send_reliable_ordered(payload@, now)),
    {
        let mtu: usize = self.mtu as usize;
        if mtu <= DATAGRAM_HEADER_BUDGET {
            return Err(RakNetError::Wire(WireError::Fault("negotiated mtu is too small")));
        }
        let capacity: usize = mtu - DATAGRAM_HEADER_BUDGET;
        let order = self.next_ordered;
        self.next_ordered = order.next();
        let count: usize = if payload.len() == 0 {
            1
        } else {
            (payload.len() - 1) / capacity + 1
        };
        assert(count as nat == fragment_count(payload@.len(), capacity as nat)) by {
            if payload@.len() > 0 {
                let n = payload@.len() as int;
                let c = capacity as int;
                vstd::arithmetic::div_mod::lemma_div_plus_one(n - 1, c);
                assert(n + c - 1 == c + (n - 1));
            }
        }
        if count > u32::MAX as usize {
            return Err(RakNetError::Wire(WireError::Fault("fragment count exceeded u32")));
        }
        let split_id: u16 = self.next_split_id;
        self.next_split_id = split_id.wrapping_add(1);
        self.send_fragments(payload, capacity, count as u32, order, split_id, now)
    }

    /// Sends a payload of the application.
    pub fn send_application(&mut self, payload: &[u8], now: u64) -> (result: Result<
        (),
        RakNetError,
    >)
        requires
            old(self).wf(),
        ensures
            final(self).wf(),
            ended(final(self)@, result, old(self)@.send_application(payload@, now)),
    {
        if !self.accepted {
            return Err(
                RakNetError::Wire(
                    WireError::Fault("application payload sent before online handshake completed"),
                ),
            );
        }
        check_budget("application payload bytes", payload.len(), self.budgets.max_payload_bytes)?;
        self.send_reliable_ordered(payload, now)
    }

    fn deliver_payload(&mut self, payload: Vec<u8>, now: u64, epoch: i64) -> (result: Result<
        (),
        RakNetError,
    >)
        requires
            old(self).wf(),
        ensures
            final(self).wf(),
            ended(final(self)@, result, old(self)@.deliver_payload(payload@, now, epoch)),
    {
        if let Some(request_time) = decode_connection_request(payload.as_slice())? {
            let response = encode_connection_accept(self.remote_addr, request_time, epoch);
            return self.send_reliable_ordered(response.as_slice(), now);
        }
        if let Some(ping_time) = decode_connected_ping(payload.as_slice())? {
            let response = encode_connected_pong(ping_time, epoch);
            return self.send_reliable_ordered(response.as_slice(), now);
        }
        if payload.len() > 0 {
            let id: u8 = payload[0];
            if id == 0x13 && !self.accepted {
                self.accepted = true;
                self.outbox.push(PeerAction::Accept);
                assert(self@.outbox =~= old(self)@.outbox.push(ActionView::Accept));
                return Ok(());
            }
            if id == 0x13 || id == 0x03 {
                return Ok(());
            }
            if id == 0x15 || id == 0x1c {
                return Err(RakNetError::Closed);
            }
        }
        if self.accepted {
            self.inbox.push(payload)
        } else {
            Ok(())
        }
    }

    fn drain_holdback(&mut self, channel: u8, now: u64, epoch: i64) -> (result: Result<
        (),
        RakNetError,
    >)
        requires
            old(self).wf(),
        ensures
            final(self).wf(),
            ended(final(self)@, result, old(self)@.drain_holdback(channel, now, epoch)),
        decreases old(self)@.ordered_holdback.len(),
    {
        let expected = match self.ordered_expected.get(&channel) {
            Some(expected) => *expected,
            None => OrderSequence::default(),
        };
        let key = HoldbackKey { channel, sequence: expected.value() };
        match self.ordered_holdback.remove(&key) {
            None => Ok(()),
            Some(payload) => {
                self.ordered_expected.insert(channel, expected.next());
                proof {
                    remove_laws(old(self)@.ordered_holdback, key.id(), key.id());
                    deliver_keeps(self@, payload@, now, epoch);
                }
                self.deliver_payload(payload, now, epoch)?;
                self.drain_holdback(channel, now, epoch)
            },
        }
    }

    fn accept_ordered(
        &mut self,
        channel: u8,
        sequence: OrderSequence,
        payload: Vec<u8>,
        now: u64,
        epoch: i64,
    ) -> (result: Result<(), RakNetError>)
        requires
            old(self).wf(),
        ensures
            final(self).wf(),
            ended(
                final(self)@,
                result,
                old(self)@.accept_ordered(channel, sequence@, payload@, now, epoch),
            ),
    {
        let expected = match self.ordered_expected.get(&channel) {
            Some(expected) => *expected,
            None => OrderSequence::default(),
        };
        if sequence.value() == expected.value() {
            self.ordered_expected.insert(channel, expected.next());
            self.deliver_payload(payload, now, epoch)?;
            return self.drain_holdback(channel, now, epoch);
        }
        self.ordered_expected.insert(channel, expected);
        if sequence.is_newer_than(expected) {
            check_budget(
                "ordered holdback entries",
                self.ordered_holdback.len().saturating_add(1),
                self.budgets.max_ordered_holdback,
            )?;
            let key = HoldbackKey { channel, sequence: sequence.value() };
            if !self.ordered_holdback.contains(&key) {
                self.ordered_holdback.insert(key, payload);
            }
        }
        Ok(())
    }

    fn accept_fragment(&mut self, split: SplitHeader, payload: Vec<u8>) -> (result: Result<
        Option<Vec<u8>>,
        RakNetError,
    >)
        requires
            old(self).wf(),
        ensures
            final(self).wf(),
            final(self)@ == old(self)@.accept_fragment(split, payload@).0,
            whole_view(result) == old(self)@.accept_fragment(split, payload@).1,
    {
        let ghost key = seq![split.id as int];
        if split.index >= split.count {
            return Err(RakNetError::Wire(WireError::Fault("invalid fragment range")));
        }
        let known = self.reassembly.contains(&split.id);
        let added: usize = if known {
            0
        } else {
            split.count as usize
        };
        let parts_after: usize = self.reassembly_parts.saturating_add(added);
        check_budget(
            "reassembly parts per peer",
            parts_after,
            self.budgets.max_reassembly_parts_per_peer,
        )?;
        if !known {
            proof {
                insert_laws(
                    self.reassembly@,
                    key,
                    Seq::new(split.count as nat, |i: int| None::<Seq<u8>>),
                    key,
                );
            }
            self.reassembly.insert(split.id, Reassembly { parts: missing_parts(split.count) });
            self.reassembly_parts = parts_after;
        }
        let ghost opened = self@;
        assert(holds(self.reassembly@, key));
        proof {
            rank_bounds(self.reassembly@, key);
        }
        let place: usize = self.reassembly.place(&split.id);
        let entry = self.reassembly.at(place);
        if entry.parts.len() != split.count as usize {
            return Err(
                RakNetError::Wire(WireError::Fault("fragment count changed within split sequence")),
            );
        }
        assert(entry@[split.index as int] == part_view(entry.parts@[split.index as int]));
        if entry.parts[split.index as usize].is_none() {
            let bytes_after: usize = self.reassembly_bytes.saturating_add(payload.len());
            check_budget(
                "reassembly bytes per peer",
                bytes_after,
                self.budgets.max_reassembly_bytes_per_peer,
            )?;
            self.reassembly_bytes = bytes_after;
            let entry = self.reassembly.value_mut(place);
            let ghost before = entry.parts@;
            entry.parts[split.index as usize] = Some(payload);
            proof {
                assert(part_views(entry.parts@) =~= part_views(before).update(
                    split.index as int,
                    Some(payload@),
                ));
            }
        }
        let ghost filled = self@;
        proof {
            let parts = lookup(opened.reassembly, key)->Some_0;
            if parts[split.index as int] is None {
                assert(filled.reassembly == inserted(
                    opened.reassembly,
                    key,
                    parts.update(split.index as int, Some(payload@)),
                ));
                insert_laws(
                    opened.reassembly,
                    key,
                    parts.update(split.index as int, Some(payload@)),
                    key,
                );
            }
            assert(holds(filled.reassembly, key));
        }
        let place: usize = self.reassembly.place(&split.id);
        if !all_present(&self.reassembly.at(place).parts) {
            return Ok(None);
        }
        let (_, completed) = self.reassembly.remove_at(place);
        self.reassembly_parts = self.reassembly_parts.saturating_sub(completed.parts.len());
        let whole = join_parts(&completed.parts);
        self.reassembly_bytes = self.reassembly_bytes.saturating_sub(whole.len());
        Ok(Some(whole))
    }

    fn receive_whole(
        &mut self,
        reliability: Reliability,
        sequence_index: Option<OrderSequence>,
        order_index: Option<OrderSequence>,
        order_channel: u8,
        payload: Vec<u8>,
        now: u64,
        epoch: i64,
        frame: Ghost<FrameView>,
    ) -> (result: Result<(), RakNetError>)
        requires
            old(self).wf(),
            frame@.reliability == reliability,
            frame@.sequence_index == crate::raknet::wire::order_value(sequence_index),
            frame@.order_index == crate::raknet::wire::order_value(order_index),
            frame@.order_channel == order_channel,
        ensures
            final(self).wf(),
            ended(
                final(self)@,
                result,
                old(self)@.receive_whole(frame@, payload@, now, epoch),
            ),
    {
        if reliability.sequenced() {
            return match sequence_index {
                None => Err(
                    RakNetError::Wire(WireError::Fault("sequenced frame lacked sequence index")),
                ),
                Some(sequence) => {
                    if let Some(newest) = self.sequenced_latest.get(&order_channel) {
                        if !sequence.is_newer_than(*newest) {
                            return Ok(());
                        }
                    }
                    self.sequenced_latest.insert(order_channel, sequence);
                    self.deliver_payload(payload, now, epoch)
                },
            };
        }
        if reliability.ordered() {
            return match order_index {
                None => Err(RakNetError::Wire(WireError::Fault("ordered frame lacked order index"))),
                Some(sequence) => self.accept_ordered(order_channel, sequence, payload, now, epoch),
            };
        }
        self.deliver_payload(payload, now, epoch)
    }

    fn receive_frame(&mut self, frame: Frame, now: u64, epoch: i64) -> (result: Result<
        (),
        RakNetError,
    >)
        requires
            old(self).wf(),
        ensures
            final(self).wf(),
            ended(final(self)@, result, old(self)@.receive_frame(frame@, now, epoch)),
    {
        let ghost view = frame@;
        if let Some(index) = frame.reliable_index {
            if !self.seen_reliable.remember(index.value(), duplicate_window_limit(self.budgets)) {
                return Ok(());
            }
        }
        let Frame { reliability, sequence_index, order_index, order_channel, split, payload, .. } =
            frame;
        let whole = match split {
            None => payload,
            Some(split) => match self.accept_fragment(split, payload)? {
                None => {
                    return Ok(());
                },
                Some(whole) => whole,
            },
        };
        self.receive_whole(
            reliability,
            sequence_index,
            order_index,
            order_channel,
            whole,
            now,
            epoch,
            Ghost(view),
        )
    }


    fn receive_frames(&mut self, frames: Vec<Frame>, now: u64, epoch: i64) -> (result: Result<
        (),
        RakNetError,
    >)
        requires
            old(self).wf(),
        ensures
            final(self).wf(),
            ended(
                final(self)@,
                result,
                old(self)@.receive_frames(frame_views(frames@), 0, now, epoch),
            ),
    {
        let ghost views = frame_views(frames@);
        let mut waiting: Vec<Frame> = reversed(frames);
        let ghost mut i: int = 0;
        while waiting.len() > 0
            invariant
                self.wf(),
                0 <= i <= views.len(),
                waiting@.len() == views.len() - i,
                forall|j: int|
                    0 <= j < waiting@.len() ==> (#[trigger] waiting@[j])@ == views[views.len() - 1
                        - j],
                views == frame_views(frames@),
                old(self)@.receive_frames(views, 0, now, epoch) == self@.receive_frames(
                    views,
                    i,
                    now,
                    epoch,
                ),
            decreases waiting@.len(),
        {
            if let Some(frame) = waiting.pop() {
                assert(frame@ == views[i]);
                self.receive_frame(frame, now, epoch)?;
                proof {
                    i = i + 1;
                }
            }
        }
        Ok(())
    }

    /// Takes in a packet.
    pub fn receive_datagram(&mut self, bytes: &[u8], now: u64, epoch: i64) -> (result: Result<
        (),
        RakNetError,
    >)
        requires
            old(self).wf(),
        ensures
            final(self).wf(),
            ended(final(self)@, result, old(self)@.receive_datagram(bytes@, now, epoch)),
    {
        self.observe(now);
        if let Some(acknowledgement) = decode_acknowledgement(bytes)? {
            return self.apply_acknowledgement(acknowledgement, now);
        }
        let datagram = decode_datagram(bytes, self.budgets)?;
        let sequence = datagram.sequence;
        self.push_send(encode_ack(sequence));
        if !self.seen_datagrams.remember(sequence.value(), duplicate_window_limit(self.budgets)) {
            return Ok(());
        }
        match self.last_datagram {
            Some(previous) => {
                let steps: u32 = sequence.wrapping_distance_from(previous);
                if sequence.is_newer_than(previous) {
                    self.last_datagram = Some(sequence);
                    if steps > 1 {
                        self.push_send(encode_nack(previous.next(), sequence.previous()));
                    }
                }
            },
            None => {
                self.last_datagram = Some(sequence);
            },
        }
        self.receive_frames(datagram.frames, now, epoch)
    }

    fn apply_acknowledgement(&mut self, acknowledgement: Acknowledgement, now: u64) -> (result:
        Result<(), RakNetError>)
        requires
            old(self).wf(),
        ensures
            final(self).wf(),
            ({
                let (confirms, ranges) = acknowledgement_view(acknowledgement);
                ended(
                    final(self)@,
                    result,
                    if confirms {
                        (old(self)@.confirmed(ranges), None)
                    } else {
                        old(self)@.retransmit_all(missing(old(self)@.unacked, ranges, 0), 0, now)
                    },
                )
            }),
    {
        match acknowledgement {
            Acknowledgement::Ack(ranges) => {
                self.confirm(&ranges);
                Ok(())
            },
            Acknowledgement::Nack(ranges) => {
                let sequences = self.missing_in(&ranges);
                self.retransmit_all(&sequences, now)
            },
        }
    }

    fn confirm(&mut self, ranges: &Vec<(DatagramSequence, DatagramSequence)>)
        requires
            old(self).wf(),
        ensures
            final(self).wf(),
            final(self)@ == old(self)@.confirmed(range_values(ranges@)),
    {
        let ghost values = range_values(ranges@);
        let ghost all = self.unacked@;
        let ghost mut k: int = 0;
        let mut i: usize = 0;
        assert(all.subrange(0, all.len() as int) =~= all);
        assert(kept(all, values, 0) =~= self.unacked@.subrange(0, 0) + kept(all, values, 0));
        assert(self.unacked@.subrange(0, 0) + all.subrange(0, all.len() as int) =~= all);
        while i < self.unacked.len()
            invariant
                self.wf(),
                i <= self.unacked@.len(),
                0 <= k <= all.len(),
                values == range_values(ranges@),
                self.unacked@.len() - i == all.len() - k,
                self.unacked@ == self.unacked@.subrange(0, i as int) + all.subrange(
                    k,
                    all.len() as int,
                ),
                kept(all, values, 0) == self.unacked@.subrange(0, i as int) + kept(all, values, k),
                all == old(self)@.unacked,
                self@ == (PeerModel { unacked: self.unacked@, ..old(self)@ }),
            decreases self.unacked@.len() - i,
        {
            let ghost before = self.unacked@;
            assert(before[i as int] == all[k]) by {
                assert(before[i as int] == all.subrange(k, all.len() as int)[0]);
            }
            let number: u32 = *self.unacked.key(i);
            if within_ranges(number, ranges) {
                self.unacked.remove_at(i);
                proof {
                    k = k + 1;
                    assert(self.unacked@.subrange(0, i as int) =~= before.subrange(0, i as int));
                    assert(self.unacked@ =~= self.unacked@.subrange(0, i as int) + all.subrange(
                        k,
                        all.len() as int,
                    ));
                }
            } else {
                proof {
                    assert(before.subrange(0, i as int) + (seq![all[k]] + kept(all, values, k + 1))
                        =~= before.subrange(0, i + 1) + kept(all, values, k + 1));
                    assert(before =~= before.subrange(0, i + 1) + all.subrange(
                        k + 1,
                        all.len() as int,
                    ));
                    k = k + 1;
                }
                i += 1;
            }
        }
        assert(kept(all, values, 0) =~= self.unacked@);
    }


    fn missing_in(&self, ranges: &Vec<(DatagramSequence, DatagramSequence)>) -> (result: Vec<u32>)
        requires
            self.wf(),
        ensures
            number_views(result@) == missing(self@.unacked, range_values(ranges@), 0),
    {
        let ghost values = range_values(ranges@);
        let ghost all = self.unacked@;
        let mut result: Vec<u32> = Vec::new();
        let mut i: usize = 0;
        assert(number_views(result@) + missing(all, values, 0) =~= missing(all, values, 0));
        while i < self.unacked.len()
            invariant
                i <= all.len(),
                all == self.unacked@,
                values == range_values(ranges@),
                missing(all, values, 0) == number_views(result@) + missing(all, values, i as int),
            decreases all.len() - i,
        {
            let ghost before = result@;
            let number: u32 = *self.unacked.key(i);
            if within_ranges(number, ranges) {
                result.push(number);
                proof {
                    assert(number_views(result@) =~= number_views(before).push(number as nat));
                    assert(number_views(before) + (seq![number as nat] + missing(
                        all,
                        values,
                        i + 1,
                    )) =~= number_views(result@) + missing(all, values, i + 1));
                }
            }
            i += 1;
        }
        assert(number_views(result@) + Seq::<nat>::empty() =~= number_views(result@));
        result
    }

    fn retransmit(&mut self, sequence: u32, now: u64) -> (result: Result<(), RakNetError>)
        requires
            old(self).wf(),
        ensures
            final(self).wf(),
            ended(final(self)@, result, old(self)@.retransmit(sequence as nat, now)),
    {
        let place: usize = match self.unacked.find(&sequence) {
            None => {
                return Ok(());
            },
            Some(place) => place,
        };
        let datagram = self.unacked.at(place);
        let attempts: u16 = datagram.attempts;
        if attempts >= MAX_RETRANSMIT_ATTEMPTS {
            return Err(RakNetError::RetransmitExhausted { sequence, attempts });
        }
        let bytes = copy_bytes(datagram.bytes.as_slice());
        let kept = copy_bytes(datagram.bytes.as_slice());
        self.unacked.set_value(
            place,
            UnackedDatagram { bytes: kept, sent_at: now, attempts: attempts + 1 },
        );
        self.push_send(bytes);
        Ok(())
    }

    fn retransmit_all(&mut self, sequences: &Vec<u32>, now: u64) -> (result: Result<
        (),
        RakNetError,
    >)
        requires
            old(self).wf(),
        ensures
            final(self).wf(),
            ended(
                final(self)@,
                result,
                old(self)@.retransmit_all(number_views(sequences@), 0, now),
            ),
    {
        let ghost numbers = number_views(sequences@);
        let mut i: usize = 0;
        while i < sequences.len()
            invariant
                self.wf(),
                i <= sequences@.len(),
                numbers == number_views(sequences@),
                old(self)@.retransmit_all(numbers, 0, now) == self@.retransmit_all(
                    numbers,
                    i as int,
                    now,
                ),
            decreases sequences@.len() - i,
        {
            self.retransmit(sequences[i], now)?;
            i += 1;
        }
        Ok(())
    }

    /// Reacts to a timer that has run out.
    pub fn on_timer(&mut self, now: u64) -> (result: Result<(), RakNetError>)
        requires
            old(self).wf(),
        ensures
            final(self).wf(),
            ended(final(self)@, result, old(self)@.on_timer(now)),
    {
        if now.saturating_sub(self.activity.last_observed()) >= PEER_TIMEOUT {
            return Err(RakNetError::PeerTimeout);
        }
        let ghost all = self.unacked@;
        let mut sequences: Vec<u32> = Vec::new();
        let mut i: usize = 0;
        assert(number_views(sequences@) + due(all, now, 0) =~= due(all, now, 0));
        while i < self.unacked.len()
            invariant
                i <= all.len(),
                all == self.unacked@,
                due(all, now, 0) == number_views(sequences@) + due(all, now, i as int),
            decreases all.len() - i,
        {
            let ghost before = sequences@;
            let number: u32 = *self.unacked.key(i);
            let datagram = self.unacked.at(i);
            if now.saturating_sub(datagram.sent_at) >= retransmit_delay(datagram.attempts) {
                sequences.push(number);
                proof {
                    assert(number_views(sequences@) =~= number_views(before).push(number as nat));
                    assert(number_views(before) + (seq![number as nat] + due(all, now, i + 1))
                        =~= number_views(sequences@) + due(all, now, i + 1));
                }
            }
            i += 1;
        }
        assert(number_views(sequences@) + Seq::<nat>::empty() =~= number_views(sequences@));
        self.retransmit_all(&sequences, now)
    }

    /// When the next timer runs out.
    pub fn next_timer_deadline(&self, now: u64) -> (result: u64)
        requires
            self.wf(),
        ensures
            result == self@.next_timer_deadline(now),
    {
        let observed: u64 = self.activity.last_observed();
        let mut instant: u64 = if observed > u64::MAX - PEER_TIMEOUT {
            now
        } else {
            observed + PEER_TIMEOUT
        };
        let ghost all = self.unacked@;
        let ghost timeout = instant;
        let mut i: usize = 0;
        while i < self.unacked.len()
            invariant
                i <= all.len(),
                all == self.unacked@,
                earliest(all, 0, timeout) == earliest(all, i as int, instant),
            decreases all.len() - i,
        {
            let datagram = self.unacked.at(i);
            let delay: u64 = retransmit_delay(datagram.attempts);
            if datagram.sent_at <= u64::MAX - delay && datagram.sent_at + delay < instant {
                instant = datagram.sent_at + delay;
            }
            i += 1;
        }
        instant
    }

    /// Leaves the time between freezing and resuming out of every timer.
    pub fn resume_timers(&mut self, frozen_at: u64, resumed_at: u64)
        requires
            old(self).wf(),
        ensures
            final(self).wf(),
            final(self)@ == old(self)@.resumed(frozen_at, resumed_at),
    {
        self.activity.resume(frozen_at, resumed_at);
        let ghost all = self.unacked@;
        let ghost goal = old(self)@.resumed(frozen_at, resumed_at);
        let mut i: usize = 0;
        while i < self.unacked.len()
            invariant
                self.wf(),
                i <= self.unacked@.len(),
                all == old(self)@.unacked,
                goal == old(self)@.resumed(frozen_at, resumed_at),
                self.unacked@.len() == all.len(),
                forall|j: int| 0 <= j < i ==> #[trigger] self.unacked@[j] == goal.unacked[j],
                forall|j: int| i <= j < all.len() ==> #[trigger] self.unacked@[j] == all[j],
                self@ == (PeerModel { unacked: self.unacked@, ..goal }),
            decreases self.unacked@.len() - i,
        {
            let datagram = self.unacked.at(i);
            let sent_at: u64 = rebase(datagram.sent_at, frozen_at, resumed_at);
            let entry = self.unacked.value_mut(i);
            entry.sent_at = sent_at;
            i += 1;
        }
        assert(self.unacked@ =~= goal.unacked);
    }

    /// The checkpoint of the peer at an instant.
    pub fn snapshot(&self, now: u64) -> (result: PeerSnapshot)
        requires
            self.wf(),
        ensures
            result@ == self@.snapshot(now),
    {
        let seen_datagram_order = datagram_sequences(&self.seen_datagrams);
        let seen_reliable_order = reliable_sequences(&self.seen_reliable);
        let ordered_expected = channel_pairs(&self.ordered_expected);
        let sequenced_latest = channel_pairs(&self.sequenced_latest);
        let queued_payloads = self.inbox.snapshot();
        let unacked_datagrams = unacked_list(&self.unacked, now);
        let reassembly = reassembly_list(&self.reassembly);
        let ordered_holdback = holdback_list(&self.ordered_holdback);
        let silence: u64 = now.saturating_sub(self.activity.last_observed());
        PeerSnapshot {
            remote_addr: self.remote_addr,
            mtu: self.mtu,
            accepted: self.accepted,
            next_datagram: self.next_datagram,
            next_reliable: self.next_reliable,
            next_ordered: self.next_ordered,
            next_split_id: self.next_split_id,
            last_datagram: self.last_datagram,
            seen_datagram_order,
            seen_reliable_order,
            ordered_expected,
            sequenced_latest,
            queued_payloads,
            unacked_datagrams,
            reassembly,
            ordered_holdback,
            timeout_remaining: PEER_TIMEOUT.saturating_sub(silence),
        }
    }

    /// The peer that goes on from an accepted checkpoint at an instant.
    pub fn from_validated_snapshot(validated: ValidatedPeerSnapshot, restored_at: u64) -> (result:
        Self)
        requires
            validated.wf(),
        ensures
            result.wf(),
            result@ == PeerModel::restored(validated.checkpoint@, validated.budgets, restored_at),
    {
        let ValidatedPeerSnapshot { checkpoint: snapshot, duplicate_indexes, budgets } = validated;
        let ghost view = snapshot@;
        proof {
            reassembly_totals(view.reassembly, 0, 0, 0, budgets);
        }
        let idle: u64 = PEER_TIMEOUT.saturating_sub(snapshot.timeout_remaining);
        let (reassembly, reassembly_parts, reassembly_bytes) = gather_reassembly(
            &snapshot.reassembly,
        );
        let result = PeerState {
            remote_addr: snapshot.remote_addr,
            mtu: snapshot.mtu,
            budgets,
            accepted: snapshot.accepted,
            activity: PeerActivity::new(rewind(restored_at, idle)),
            next_datagram: snapshot.next_datagram,
            next_reliable: snapshot.next_reliable,
            next_ordered: snapshot.next_ordered,
            next_split_id: snapshot.next_split_id,
            last_datagram: snapshot.last_datagram,
            seen_datagrams: duplicate_indexes.datagrams,
            seen_reliable: duplicate_indexes.reliable,
            ordered_expected: gather_channels(&snapshot.ordered_expected),
            sequenced_latest: gather_channels(&snapshot.sequenced_latest),
            ordered_holdback: gather_holdback(&snapshot.ordered_holdback),
            reassembly,
            reassembly_bytes,
            reassembly_parts,
            unacked: gather_unacked(&snapshot.unacked_datagrams, restored_at),
            inbox: PeerInbox::from_validated_queue(
                &snapshot.queued_payloads,
                budgets.application_queue,
            ),
            outbox: Vec::new(),
        };
        assert(result@.outbox =~= Seq::empty());
        result
    }

}

} // verus!
