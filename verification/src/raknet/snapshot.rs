//! Checkpoints of transport peers and the conditions under which one is accepted.

use crate::lists::reversed;
use crate::raknet::address::PeerAddress;
use crate::raknet::budget::{ensure_budget, BudgetExceeded, RakNetBudgets};
use crate::raknet::error::{RakNetError, WireError};
use crate::raknet::inbox::payload_views;
use crate::raknet::sequence::{DatagramSequence, OrderSequence, ReliableSequence};
use crate::raknet::timing::{delay_after, retransmit_delay, MAX_RETRANSMIT_ATTEMPTS, PEER_TIMEOUT};
use crate::raknet::window::{distinct, DuplicateWindow};
use std::collections::HashSet;
use vstd::prelude::*;

verus! {

/// The smallest datagram size that a peer may negotiate.
pub const MINIMUM_MTU: u16 = 576;

/// A datagram that was sent and not yet confirmed.
#[derive(Debug, PartialEq, Eq)]
pub struct UnackedDatagramSnapshot {
    pub sequence: DatagramSequence,
    pub bytes: Vec<u8>,
    pub retransmit_remaining: u64,
    pub attempts: u16,
}

/// What an unconfirmed datagram says.
pub struct UnackedSnapshotView {
    pub sequence: nat,
    pub bytes: Seq<u8>,
    pub retransmit_remaining: u64,
    pub attempts: u16,
}

impl View for UnackedDatagramSnapshot {
    type V = UnackedSnapshotView;

    open spec fn view(&self) -> UnackedSnapshotView {
        UnackedSnapshotView {
            sequence: self.sequence@,
            bytes: self.bytes@,
            retransmit_remaining: self.retransmit_remaining,
            attempts: self.attempts,
        }
    }
}

/// The fragments of a payload that have arrived so far.
#[derive(Debug, PartialEq, Eq)]
pub struct ReassemblySnapshot {
    pub split_id: u16,
    pub parts: Vec<Option<Vec<u8>>>,
}

/// What a part that may be missing holds.
pub open spec fn part_view(part: Option<Vec<u8>>) -> Option<Seq<u8>> {
    match part {
        Some(bytes) => Some(bytes@),
        None => None,
    }
}

/// What the parts of a payload hold.
pub open spec fn part_views(parts: Seq<Option<Vec<u8>>>) -> Seq<Option<Seq<u8>>> {
    parts.map_values(|part: Option<Vec<u8>>| part_view(part))
}

impl View for ReassemblySnapshot {
    type V = (u16, Seq<Option<Seq<u8>>>);

    open spec fn view(&self) -> (u16, Seq<Option<Seq<u8>>>) {
        (self.split_id, part_views(self.parts@))
    }
}

/// A payload that waits for its predecessors on a channel.
#[derive(Debug, PartialEq, Eq)]
pub struct OrderedPayloadSnapshot {
    pub channel: u8,
    pub sequence: OrderSequence,
    pub payload: Vec<u8>,
}

impl View for OrderedPayloadSnapshot {
    type V = (u8, nat, Seq<u8>);

    open spec fn view(&self) -> (u8, nat, Seq<u8>) {
        (self.channel, self.sequence@, self.payload@)
    }
}

/// Everything a peer needs to go on in another process.
#[derive(Debug, PartialEq, Eq)]
pub struct PeerSnapshot {
    pub remote_addr: PeerAddress,
    pub mtu: u16,
    pub accepted: bool,
    pub next_datagram: DatagramSequence,
    pub next_reliable: ReliableSequence,
    pub next_ordered: OrderSequence,
    pub next_split_id: u16,
    pub last_datagram: Option<DatagramSequence>,
    pub seen_datagram_order: Vec<DatagramSequence>,
    pub seen_reliable_order: Vec<ReliableSequence>,
    pub ordered_expected: Vec<(u8, OrderSequence)>,
    pub sequenced_latest: Vec<(u8, OrderSequence)>,
    pub queued_payloads: Vec<Vec<u8>>,
    pub unacked_datagrams: Vec<UnackedDatagramSnapshot>,
    pub reassembly: Vec<ReassemblySnapshot>,
    pub ordered_holdback: Vec<OrderedPayloadSnapshot>,
    pub timeout_remaining: u64,
}

/// What a checkpoint says.
pub struct PeerSnapshotView {
    pub remote_addr: PeerAddress,
    pub mtu: u16,
    pub accepted: bool,
    pub next_datagram: nat,
    pub next_reliable: nat,
    pub next_ordered: nat,
    pub next_split_id: u16,
    pub last_datagram: Option<nat>,
    pub seen_datagram_order: Seq<nat>,
    pub seen_reliable_order: Seq<nat>,
    pub ordered_expected: Seq<(u8, nat)>,
    pub sequenced_latest: Seq<(u8, nat)>,
    pub queued_payloads: Seq<Seq<u8>>,
    pub unacked_datagrams: Seq<UnackedSnapshotView>,
    pub reassembly: Seq<(u16, Seq<Option<Seq<u8>>>)>,
    pub ordered_holdback: Seq<(u8, nat, Seq<u8>)>,
    pub timeout_remaining: u64,
}

/// The number of a datagram that may be absent.
pub open spec fn datagram_value(sequence: Option<DatagramSequence>) -> Option<nat> {
    match sequence {
        Some(sequence) => Some(sequence@),
        None => None,
    }
}

/// The channels of a list with their numbers.
pub open spec fn channel_views(s: Seq<(u8, OrderSequence)>) -> Seq<(u8, nat)> {
    s.map_values(|entry: (u8, OrderSequence)| (entry.0, entry.1@))
}

impl View for PeerSnapshot {
    type V = PeerSnapshotView;

    open spec fn view(&self) -> PeerSnapshotView {
        PeerSnapshotView {
            remote_addr: self.remote_addr,
            mtu: self.mtu,
            accepted: self.accepted,
            next_datagram: self.next_datagram@,
            next_reliable: self.next_reliable@,
            next_ordered: self.next_ordered@,
            next_split_id: self.next_split_id,
            last_datagram: datagram_value(self.last_datagram),
            seen_datagram_order: self.seen_datagram_order@.map_values(
                |sequence: DatagramSequence| sequence@,
            ),
            seen_reliable_order: self.seen_reliable_order@.map_values(
                |sequence: ReliableSequence| sequence@,
            ),
            ordered_expected: channel_views(self.ordered_expected@),
            sequenced_latest: channel_views(self.sequenced_latest@),
            queued_payloads: payload_views(self.queued_payloads@),
            unacked_datagrams: self.unacked_datagrams@.map_values(
                |datagram: UnackedDatagramSnapshot| datagram@,
            ),
            reassembly: self.reassembly@.map_values(|split: ReassemblySnapshot| split@),
            ordered_holdback: self.ordered_holdback@.map_values(
                |held: OrderedPayloadSnapshot| held@,
            ),
            timeout_remaining: self.timeout_remaining,
        }
    }
}

/// The fault that a fixed sentence describes.
pub open spec fn fault(text: &'static str) -> RakNetError {
    RakNetError::Wire(WireError::Fault(text))
}

/// The breach of a budget, if there is one.
pub open spec fn over_budget(resource: &'static str, requested: nat, limit: usize) -> Option<
    RakNetError,
> {
    if requested > limit {
        Some(
            RakNetError::Budget(BudgetExceeded { resource, requested: requested as usize, limit }),
        )
    } else {
        None
    }
}

/// The first of two faults.
pub open spec fn first_of(a: Option<RakNetError>, b: Option<RakNetError>) -> Option<RakNetError> {
    if a is Some {
        a
    } else {
        b
    }
}

/// Whether a check reports exactly the fault that it looks for.
pub open spec fn reports(result: Result<(), RakNetError>, expected: Option<RakNetError>) -> bool {
    match expected {
        Some(e) => result == Err::<(), RakNetError>(e),
        None => result is Ok,
    }
}

fn within_budget(resource: &'static str, requested: usize, limit: usize) -> (result: Result<
    (),
    RakNetError,
>)
    ensures
        reports(result, over_budget(resource, requested as nat, limit)),
{
    match ensure_budget(resource, requested, limit) {
        Ok(_) => Ok(()),
        Err(e) => Err(RakNetError::Budget(e)),
    }
}

/// The largest datagram size that a peer may have under the budgets.
pub open spec fn maximum_mtu(budgets: RakNetBudgets) -> u16 {
    if budgets.max_datagram_bytes > 0xffff {
        0xffff
    } else if budgets.max_datagram_bytes < 576 {
        576
    } else {
        budgets.max_datagram_bytes as u16
    }
}

/// The largest datagram size that a peer may have under the budgets.
pub fn largest_mtu(budgets: RakNetBudgets) -> (result: u16)
    ensures
        result == maximum_mtu(budgets),
{
    if budgets.max_datagram_bytes > 0xffff {
        0xffff
    } else if budgets.max_datagram_bytes < 576 {
        576
    } else {
        budgets.max_datagram_bytes as u16
    }
}

/// How many numbers a duplicate window holds.
pub open spec fn window_limit(budgets: RakNetBudgets) -> usize {
    if budgets.max_unacked_datagrams == 0 {
        1
    } else if 2 * budgets.max_unacked_datagrams > usize::MAX {
        usize::MAX
    } else {
        (2 * budgets.max_unacked_datagrams) as usize
    }
}

/// How many numbers a duplicate window holds.
pub fn duplicate_window_limit(budgets: RakNetBudgets) -> (result: usize)
    ensures
        result == window_limit(budgets),
        result >= 1,
{
    if budgets.max_unacked_datagrams == 0 {
        1
    } else if budgets.max_unacked_datagrams > usize::MAX / 2 {
        usize::MAX
    } else {
        2 * budgets.max_unacked_datagrams
    }
}

/// The datagram size is out of range.
pub open spec fn mtu_fault(mtu: u16, budgets: RakNetBudgets) -> Option<RakNetError> {
    let maximum = maximum_mtu(budgets);
    if 576 <= mtu <= maximum {
        None
    } else {
        Some(RakNetError::Wire(WireError::SnapshotMtu { mtu, maximum }))
    }
}

/// The first payload from `i` on that is too long.
pub open spec fn payload_fault(payloads: Seq<Seq<u8>>, i: int, limit: usize) -> Option<RakNetError>
    decreases payloads.len() - i,
{
    if i < 0 || i >= payloads.len() {
        None
    } else {
        first_of(
            over_budget("application payload bytes", payloads[i].len(), limit),
            payload_fault(payloads, i + 1, limit),
        )
    }
}

/// What is wrong with the unconfirmed datagram at `i`.
pub open spec fn unacked_entry_fault(
    s: Seq<UnackedSnapshotView>,
    i: int,
    budgets: RakNetBudgets,
) -> Option<RakNetError> {
    if exists|j: int| 0 <= j < i && (#[trigger] s[j]).sequence == s[i].sequence {
        Some(fault("transferred peer repeats an unacknowledged datagram sequence"))
    } else {
        first_of(
            over_budget("datagram bytes", s[i].bytes.len(), budgets.max_datagram_bytes),
            if s[i].retransmit_remaining > delay_after(s[i].attempts) || s[i].attempts == 0
                || s[i].attempts > MAX_RETRANSMIT_ATTEMPTS {
                Some(fault("transferred peer has an invalid retransmit timer or attempt count"))
            } else {
                None
            },
        )
    }
}

/// What is wrong with the first faulty unconfirmed datagram from `i` on.
pub open spec fn unacked_fault(
    s: Seq<UnackedSnapshotView>,
    i: int,
    budgets: RakNetBudgets,
) -> Option<RakNetError>
    decreases s.len() - i,
{
    if i < 0 || i >= s.len() {
        None
    } else {
        first_of(unacked_entry_fault(s, i, budgets), unacked_fault(s, i + 1, budgets))
    }
}

/// The bytes of the parts from `j` on, added to `bytes`, or the first fault among them.
pub open spec fn part_bytes(
    parts: Seq<Option<Seq<u8>>>,
    j: int,
    bytes: nat,
    budgets: RakNetBudgets,
) -> Result<nat, RakNetError>
    decreases parts.len() - j,
{
    if j < 0 || j >= parts.len() {
        Ok(bytes)
    } else {
        match parts[j] {
            None => part_bytes(parts, j + 1, bytes, budgets),
            Some(part) => match over_budget(
                "application payload bytes",
                part.len(),
                budgets.max_payload_bytes,
            ) {
                Some(e) => Err(e),
                None => if bytes + part.len() > usize::MAX {
                    Err(fault("fragment byte count overflow"))
                } else {
                    part_bytes(parts, j + 1, bytes + part.len(), budgets)
                },
            },
        }
    }
}

/// What is wrong with the assemblies from `i` on, when those before them hold `parts` parts and
/// `bytes` bytes.
pub open spec fn reassembly_fault(
    s: Seq<(u16, Seq<Option<Seq<u8>>>)>,
    i: int,
    parts: nat,
    bytes: nat,
    budgets: RakNetBudgets,
) -> Option<RakNetError>
    decreases s.len() - i,
{
    if i < 0 || i >= s.len() {
        first_of(
            over_budget("reassembly parts per peer", parts, budgets.max_reassembly_parts_per_peer),
            over_budget("reassembly bytes per peer", bytes, budgets.max_reassembly_bytes_per_peer),
        )
    } else if (exists|j: int| 0 <= j < i && (#[trigger] s[j]).0 == s[i].0) || s[i].1.len() == 0 {
        Some(fault("transferred peer has an invalid or duplicate fragment assembly"))
    } else if parts + s[i].1.len() > usize::MAX {
        Some(fault("fragment part count overflow"))
    } else {
        match part_bytes(s[i].1, 0, bytes, budgets) {
            Err(e) => Some(e),
            Ok(total) => reassembly_fault(s, i + 1, parts + s[i].1.len(), total, budgets),
        }
    }
}

/// What is wrong with the first faulty held-back payload from `i` on.
pub open spec fn holdback_fault(s: Seq<(u8, nat, Seq<u8>)>, i: int, limit: usize) -> Option<
    RakNetError,
>
    decreases s.len() - i,
{
    if i < 0 || i >= s.len() {
        None
    } else if exists|j: int| 0 <= j < i && (#[trigger] s[j]).0 == s[i].0 && s[j].1 == s[i].1 {
        Some(fault("transferred peer repeats an ordered holdback sequence"))
    } else {
        first_of(
            over_budget("application payload bytes", s[i].2.len(), limit),
            holdback_fault(s, i + 1, limit),
        )
    }
}

/// A duplicate window is too long or repeats a number.
pub open spec fn window_fault(
    s: Seq<nat>,
    resource: &'static str,
    repeat: &'static str,
    budgets: RakNetBudgets,
) -> Option<RakNetError> {
    first_of(
        over_budget(resource, s.len(), window_limit(budgets)),
        if distinct(s) {
            None
        } else {
            Some(fault(repeat))
        },
    )
}

/// Whether no channel occurs twice.
pub open spec fn channels_distinct(s: Seq<(u8, nat)>) -> bool {
    forall|i: int, j: int| 0 <= i < j < s.len() ==> (#[trigger] s[i]).0 != (#[trigger] s[j]).0
}

/// A channel occurs twice.
pub open spec fn channel_fault(s: Seq<(u8, nat)>, repeat: &'static str) -> Option<RakNetError> {
    if channels_distinct(s) {
        None
    } else {
        Some(fault(repeat))
    }
}

/// The first thing that keeps a checkpoint from being accepted under the budgets.
pub open spec fn snapshot_fault(s: PeerSnapshotView, budgets: RakNetBudgets) -> Option<
    RakNetError,
> {
    first_of(
        first_of(
            mtu_fault(s.mtu, budgets),
            first_of(
                over_budget(
                    "application queue entries",
                    s.queued_payloads.len(),
                    budgets.application_queue,
                ),
                payload_fault(s.queued_payloads, 0, budgets.max_payload_bytes),
            ),
        ),
        first_of(
            first_of(
                over_budget(
                    "unacknowledged datagrams",
                    s.unacked_datagrams.len(),
                    budgets.max_unacked_datagrams,
                ),
                unacked_fault(s.unacked_datagrams, 0, budgets),
            ),
            first_of(
                reassembly_fault(s.reassembly, 0, 0, 0, budgets),
                first_of(
                    first_of(
                        over_budget(
                            "ordered holdback entries",
                            s.ordered_holdback.len(),
                            budgets.max_ordered_holdback,
                        ),
                        holdback_fault(s.ordered_holdback, 0, budgets.max_payload_bytes),
                    ),
                    first_of(
                        window_fault(
                            s.seen_datagram_order,
                            "datagram duplicate window",
                            "transferred peer repeats a datagram duplicate-window sequence",
                            budgets,
                        ),
                        first_of(
                            window_fault(
                                s.seen_reliable_order,
                                "reliable duplicate window",
                                "transferred peer repeats a reliable duplicate-window sequence",
                                budgets,
                            ),
                            first_of(
                                channel_fault(
                                    s.ordered_expected,
                                    "transferred peer repeats a ordered expected channel",
                                ),
                                first_of(
                                    channel_fault(
                                        s.sequenced_latest,
                                        "transferred peer repeats a sequenced latest channel",
                                    ),
                                    if s.timeout_remaining > PEER_TIMEOUT {
                                        Some(
                                            fault(
                                                "transferred peer timeout exceeds the protocol timeout",
                                            ),
                                        )
                                    } else {
                                        None
                                    },
                                ),
                            ),
                        ),
                    ),
                ),
            ),
        ),
    )
}

fn check_payloads(payloads: &Vec<Vec<u8>>, limit: usize) -> (result: Result<(), RakNetError>)
    ensures
        reports(result, payload_fault(payload_views(payloads@), 0, limit)),
{
    let ghost views = payload_views(payloads@);
    let mut i: usize = 0;
    while i < payloads.len()
        invariant
            i <= payloads@.len(),
            views == payload_views(payloads@),
            payload_fault(views, 0, limit) == payload_fault(views, i as int, limit),
        decreases payloads@.len() - i,
    {
        within_budget("application payload bytes", payloads[i].len(), limit)?;
        i += 1;
    }
    Ok(())
}

fn check_unacked(datagrams: &Vec<UnackedDatagramSnapshot>, budgets: RakNetBudgets) -> (result:
    Result<(), RakNetError>)
    ensures
        reports(
            result,
            unacked_fault(
                datagrams@.map_values(|datagram: UnackedDatagramSnapshot| datagram@),
                0,
                budgets,
            ),
        ),
{
    broadcast use vstd::std_specs::hash::group_hash_axioms;

    let ghost views = datagrams@.map_values(|datagram: UnackedDatagramSnapshot| datagram@);
    let mut seen: HashSet<u32> = HashSet::new();
    let mut i: usize = 0;
    while i < datagrams.len()
        invariant
            i <= datagrams@.len(),
            views == datagrams@.map_values(|datagram: UnackedDatagramSnapshot| datagram@),
            forall|value: u32| #[trigger]
                seen@.contains(value) <==> exists|j: int|
                    0 <= j < i && (#[trigger] views[j]).sequence == value as nat,
            unacked_fault(views, 0, budgets) == unacked_fault(views, i as int, budgets),
        decreases datagrams@.len() - i,
    {
        let ghost before = seen@;
        let datagram = &datagrams[i];
        let value: u32 = datagram.sequence.value();
        assert(views[i as int] == datagram@);
        if !seen.insert(value) {
            assert(before.contains(value));
            return Err(
                RakNetError::Wire(
                    WireError::Fault(
                        "transferred peer repeats an unacknowledged datagram sequence",
                    ),
                ),
            );
        }
        assert(!before.contains(value));
        within_budget("datagram bytes", datagram.bytes.len(), budgets.max_datagram_bytes)?;
        if datagram.retransmit_remaining > retransmit_delay(datagram.attempts) || datagram.attempts
            == 0 || datagram.attempts > MAX_RETRANSMIT_ATTEMPTS {
            return Err(
                RakNetError::Wire(
                    WireError::Fault(
                        "transferred peer has an invalid retransmit timer or attempt count",
                    ),
                ),
            );
        }
        i += 1;
        proof {
            assert forall|other: u32| #[trigger] seen@.contains(other) <==> exists|j: int|
                0 <= j < i && (#[trigger] views[j]).sequence == other as nat by {
                if seen@.contains(other) && other == value {
                    assert(views[i - 1].sequence == other as nat);
                }
            }
        }
    }
    Ok(())
}

fn add_part_bytes(parts: &Vec<Option<Vec<u8>>>, start: usize, budgets: RakNetBudgets) -> (result:
    Result<usize, RakNetError>)
    ensures
        match result {
            Ok(total) => part_bytes(part_views(parts@), 0, start as nat, budgets) == Ok::<
                nat,
                RakNetError,
            >(total as nat),
            Err(e) => part_bytes(part_views(parts@), 0, start as nat, budgets) == Err::<
                nat,
                RakNetError,
            >(e),
        },
{
    let ghost views = part_views(parts@);
    let mut total: usize = start;
    let mut j: usize = 0;
    while j < parts.len()
        invariant
            j <= parts@.len(),
            views == part_views(parts@),
            part_bytes(views, 0, start as nat, budgets) == part_bytes(
                views,
                j as int,
                total as nat,
                budgets,
            ),
        decreases parts@.len() - j,
    {
        assert(views[j as int] == part_view(parts@[j as int]));
        match &parts[j] {
            None => {},
            Some(part) => {
                within_budget("application payload bytes", part.len(), budgets.max_payload_bytes)?;
                if part.len() > usize::MAX - total {
                    return Err(
                        RakNetError::Wire(WireError::Fault("fragment byte count overflow")),
                    );
                }
                total = total + part.len();
            },
        }
        j += 1;
    }
    Ok(total)
}

fn check_reassembly(splits: &Vec<ReassemblySnapshot>, budgets: RakNetBudgets) -> (result: Result<
    (),
    RakNetError,
>)
    ensures
        reports(
            result,
            reassembly_fault(
                splits@.map_values(|split: ReassemblySnapshot| split@),
                0,
                0,
                0,
                budgets,
            ),
        ),
{
    broadcast use vstd::std_specs::hash::group_hash_axioms;

    let ghost views = splits@.map_values(|split: ReassemblySnapshot| split@);
    let mut seen: HashSet<u16> = HashSet::new();
    let mut parts: usize = 0;
    let mut bytes: usize = 0;
    let mut i: usize = 0;
    while i < splits.len()
        invariant
            i <= splits@.len(),
            views == splits@.map_values(|split: ReassemblySnapshot| split@),
            forall|value: u16| #[trigger]
                seen@.contains(value) <==> exists|j: int|
                    0 <= j < i && (#[trigger] views[j]).0 == value,
            reassembly_fault(views, 0, 0, 0, budgets) == reassembly_fault(
                views,
                i as int,
                parts as nat,
                bytes as nat,
                budgets,
            ),
        decreases splits@.len() - i,
    {
        let ghost before = seen@;
        let split = &splits[i];
        assert(views[i as int] == split@);
        let repeated = !seen.insert(split.split_id);
        assert(repeated == before.contains(split.split_id));
        if repeated || split.parts.len() == 0 {
            return Err(
                RakNetError::Wire(
                    WireError::Fault(
                        "transferred peer has an invalid or duplicate fragment assembly",
                    ),
                ),
            );
        }
        if split.parts.len() > usize::MAX - parts {
            return Err(RakNetError::Wire(WireError::Fault("fragment part count overflow")));
        }
        let total: usize = add_part_bytes(&split.parts, bytes, budgets)?;
        parts = parts + split.parts.len();
        bytes = total;
        i += 1;
        proof {
            assert forall|other: u16| #[trigger] seen@.contains(other) <==> exists|j: int|
                0 <= j < i && (#[trigger] views[j]).0 == other by {
                if seen@.contains(other) && other == split.split_id {
                    assert(views[i - 1].0 == other);
                }
            }
        }
    }
    within_budget("reassembly parts per peer", parts, budgets.max_reassembly_parts_per_peer)?;
    within_budget("reassembly bytes per peer", bytes, budgets.max_reassembly_bytes_per_peer)
}

/// One number for a channel and a sequence number.
spec fn holdback_key(channel: u8, sequence: nat) -> nat {
    channel as nat * 0x1_0000_0000 + sequence
}

fn check_holdback(held: &Vec<OrderedPayloadSnapshot>, limit: usize) -> (result: Result<
    (),
    RakNetError,
>)
    ensures
        reports(
            result,
            holdback_fault(held@.map_values(|held: OrderedPayloadSnapshot| held@), 0, limit),
        ),
{
    broadcast use vstd::std_specs::hash::group_hash_axioms;

    let ghost views = held@.map_values(|held: OrderedPayloadSnapshot| held@);
    let mut seen: HashSet<u64> = HashSet::new();
    let mut i: usize = 0;
    while i < held.len()
        invariant
            i <= held@.len(),
            views == held@.map_values(|held: OrderedPayloadSnapshot| held@),
            forall|value: u64| #[trigger]
                seen@.contains(value) <==> exists|j: int|
                    0 <= j < i && holdback_key((#[trigger] views[j]).0, views[j].1)
                        == value as nat,
            forall|j: int| 0 <= j < i ==> (#[trigger] views[j]).1 < 0x1_0000_0000,
            holdback_fault(views, 0, limit) == holdback_fault(views, i as int, limit),
        decreases held@.len() - i,
    {
        let ghost before = seen@;
        let entry = &held[i];
        let number: u32 = entry.sequence.value();
        let key: u64 = entry.channel as u64 * 0x1_0000_0000 + number as u64;
        assert(views[i as int] == entry@);
        assert(key as nat == holdback_key(entry.channel, entry.sequence@));
        if !seen.insert(key) {
            proof {
                assert(before.contains(key));
                let j = choose|j: int|
                    0 <= j < i && holdback_key((#[trigger] views[j]).0, views[j].1) == key as nat;
                assert(views[j].0 == views[i as int].0 && views[j].1 == views[i as int].1);
            }
            return Err(
                RakNetError::Wire(
                    WireError::Fault("transferred peer repeats an ordered holdback sequence"),
                ),
            );
        }
        assert(!before.contains(key));
        assert forall|j: int| 0 <= j < i implies !((#[trigger] views[j]).0 == views[i as int].0
            && views[j].1 == views[i as int].1) by {
            assert(holdback_key(views[j].0, views[j].1) != key as nat);
        }
        within_budget("application payload bytes", entry.payload.len(), limit)?;
        i += 1;
        proof {
            assert forall|other: u64| #[trigger] seen@.contains(other) <==> exists|j: int|
                0 <= j < i && holdback_key((#[trigger] views[j]).0, views[j].1)
                    == other as nat by {
                if seen@.contains(other) && other == key {
                    assert(holdback_key(views[i - 1].0, views[i - 1].1) == other as nat);
                }
            }
        }
    }
    Ok(())
}

fn validate_channel_sequences(sequences: &Vec<(u8, OrderSequence)>, repeat: &'static str) -> (result:
    Result<(), RakNetError>)
    ensures
        reports(result, channel_fault(channel_views(sequences@), repeat)),
{
    broadcast use vstd::std_specs::hash::group_hash_axioms;

    let ghost views = channel_views(sequences@);
    let mut seen: HashSet<u8> = HashSet::new();
    let mut i: usize = 0;
    while i < sequences.len()
        invariant
            i <= sequences@.len(),
            views == channel_views(sequences@),
            forall|value: u8| #[trigger]
                seen@.contains(value) <==> exists|j: int|
                    0 <= j < i && (#[trigger] views[j]).0 == value,
            forall|a: int, b: int|
                0 <= a < b < i ==> (#[trigger] views[a]).0 != (#[trigger] views[b]).0,
        decreases sequences@.len() - i,
    {
        let ghost before = seen@;
        let channel: u8 = sequences[i].0;
        assert(views[i as int].0 == channel);
        if !seen.insert(channel) {
            assert(before.contains(channel));
            return Err(RakNetError::Wire(WireError::Fault(repeat)));
        }
        assert(!before.contains(channel));
        i += 1;
        proof {
            assert forall|other: u8| #[trigger] seen@.contains(other) <==> exists|j: int|
                0 <= j < i && (#[trigger] views[j]).0 == other by {
                if seen@.contains(other) && other == channel {
                    assert(views[i - 1].0 == other);
                }
            }
        }
    }
    Ok(())
}

fn index_window(
    values: &Vec<u32>,
    resource: &'static str,
    repeat: &'static str,
    budgets: RakNetBudgets,
) -> (result: Result<DuplicateWindow, RakNetError>)
    ensures
        match window_fault(
            values@.map_values(|value: u32| value as nat),
            resource,
            repeat,
            budgets,
        ) {
            Some(e) => result == Err::<DuplicateWindow, RakNetError>(e),
            None => result matches Ok(window) && window.wf() && window@ == values@.map_values(
                |value: u32| value as nat,
            ),
        },
{
    within_budget(resource, values.len(), duplicate_window_limit(budgets))?;
    match DuplicateWindow::from_values(values.as_slice()) {
        Some(window) => {
            proof {
                window.wf_is_distinct();
            }
            Ok(window)
        },
        None => Err(RakNetError::Wire(WireError::Fault(repeat))),
    }
}

fn datagram_values(order: &Vec<DatagramSequence>) -> (result: Vec<u32>)
    ensures
        result@.map_values(|value: u32| value as nat) == order@.map_values(
            |sequence: DatagramSequence| sequence@,
        ),
{
    let mut result: Vec<u32> = Vec::new();
    let mut i: usize = 0;
    while i < order.len()
        invariant
            i <= order@.len(),
            result@.len() == i,
            forall|j: int| 0 <= j < i ==> #[trigger] result@[j] as nat == order@[j]@,
        decreases order@.len() - i,
    {
        result.push(order[i].value());
        i += 1;
    }
    assert(result@.map_values(|value: u32| value as nat) =~= order@.map_values(
        |sequence: DatagramSequence| sequence@,
    ));
    result
}

fn reliable_values(order: &Vec<ReliableSequence>) -> (result: Vec<u32>)
    ensures
        result@.map_values(|value: u32| value as nat) == order@.map_values(
            |sequence: ReliableSequence| sequence@,
        ),
{
    let mut result: Vec<u32> = Vec::new();
    let mut i: usize = 0;
    while i < order.len()
        invariant
            i <= order@.len(),
            result@.len() == i,
            forall|j: int| 0 <= j < i ==> #[trigger] result@[j] as nat == order@[j]@,
        decreases order@.len() - i,
    {
        result.push(order[i].value());
        i += 1;
    }
    assert(result@.map_values(|value: u32| value as nat) =~= order@.map_values(
        |sequence: ReliableSequence| sequence@,
    ));
    result
}

/// The duplicate windows of a checkpoint, indexed.
pub struct PeerDuplicateIndexes {
    pub datagrams: DuplicateWindow,
    pub reliable: DuplicateWindow,
}

impl PeerDuplicateIndexes {
    /// Whether the windows are those of a checkpoint.
    pub open spec fn index(&self, s: PeerSnapshotView) -> bool {
        &&& self.datagrams.wf()
        &&& self.reliable.wf()
        &&& self.datagrams@ == s.seen_datagram_order
        &&& self.reliable@ == s.seen_reliable_order
    }
}

impl PeerSnapshot {
    /// Checks a checkpoint against the budgets and indexes its duplicate windows.
    pub fn validate_structure(&self, budgets: RakNetBudgets) -> (result: Result<
        PeerDuplicateIndexes,
        RakNetError,
    >)
        ensures
            match snapshot_fault(self@, budgets) {
                Some(e) => result == Err::<PeerDuplicateIndexes, RakNetError>(e),
                None => result matches Ok(indexes) && indexes.index(self@),
            },
    {
        let maximum: u16 = largest_mtu(budgets);
        if !(MINIMUM_MTU <= self.mtu && self.mtu <= maximum) {
            return Err(RakNetError::Wire(WireError::SnapshotMtu { mtu: self.mtu, maximum }));
        }
        within_budget(
            "application queue entries",
            self.queued_payloads.len(),
            budgets.application_queue,
        )?;
        check_payloads(&self.queued_payloads, budgets.max_payload_bytes)?;
        within_budget(
            "unacknowledged datagrams",
            self.unacked_datagrams.len(),
            budgets.max_unacked_datagrams,
        )?;
        check_unacked(&self.unacked_datagrams, budgets)?;
        check_reassembly(&self.reassembly, budgets)?;
        within_budget(
            "ordered holdback entries",
            self.ordered_holdback.len(),
            budgets.max_ordered_holdback,
        )?;
        check_holdback(&self.ordered_holdback, budgets.max_payload_bytes)?;
        let datagrams = index_window(
            &datagram_values(&self.seen_datagram_order),
            "datagram duplicate window",
            "transferred peer repeats a datagram duplicate-window sequence",
            budgets,
        )?;
        let reliable = index_window(
            &reliable_values(&self.seen_reliable_order),
            "reliable duplicate window",
            "transferred peer repeats a reliable duplicate-window sequence",
            budgets,
        )?;
        validate_channel_sequences(
            &self.ordered_expected,
            "transferred peer repeats a ordered expected channel",
        )?;
        validate_channel_sequences(
            &self.sequenced_latest,
            "transferred peer repeats a sequenced latest channel",
        )?;
        if self.timeout_remaining > PEER_TIMEOUT {
            return Err(
                RakNetError::Wire(
                    WireError::Fault("transferred peer timeout exceeds the protocol timeout"),
                ),
            );
        }
        Ok(PeerDuplicateIndexes { datagrams, reliable })
    }

    /// Accepts a checkpoint for the budgets, or says what keeps it from being accepted.
    pub fn into_validated(self, budgets: RakNetBudgets) -> (result: Result<
        ValidatedPeerSnapshot,
        RakNetError,
    >)
        ensures
            match snapshot_fault(self@, budgets) {
                Some(e) => result == Err::<ValidatedPeerSnapshot, RakNetError>(e),
                None => result matches Ok(validated) && validated.wf() && validated.checkpoint
                    == self && validated.budgets == budgets,
            },
    {
        let duplicate_indexes = self.validate_structure(budgets)?;
        Ok(ValidatedPeerSnapshot { checkpoint: self, duplicate_indexes, budgets })
    }
}

/// A checkpoint that was accepted under some budgets, with its duplicate windows indexed.
pub struct ValidatedPeerSnapshot {
    pub checkpoint: PeerSnapshot,
    pub duplicate_indexes: PeerDuplicateIndexes,
    pub budgets: RakNetBudgets,
}

impl ValidatedPeerSnapshot {
    /// Whether the checkpoint is acceptable under the budgets and its windows are indexed.
    pub open spec fn wf(&self) -> bool {
        &&& snapshot_fault(self.checkpoint@, self.budgets) is None
        &&& self.duplicate_indexes.index(self.checkpoint@)
    }

    /// The address of the peer.
    pub fn remote_addr(&self) -> (result: PeerAddress)
        ensures
            result == self.checkpoint@.remote_addr,
    {
        self.checkpoint.remote_addr
    }

    /// The budgets under which the checkpoint was accepted.
    pub fn budgets(&self) -> (result: RakNetBudgets)
        ensures
            result == self.budgets,
    {
        self.budgets
    }
}

/// The first fault among checkpoints from `i` on.
pub open spec fn batch_fault(s: Seq<PeerSnapshot>, i: int, budgets: RakNetBudgets) -> Option<
    RakNetError,
>
    decreases s.len() - i,
{
    if i < 0 || i >= s.len() {
        None
    } else {
        first_of(snapshot_fault(s[i]@, budgets), batch_fault(s, i + 1, budgets))
    }
}

/// Accepts a batch of checkpoints in their order, or reports the first fault among them.
pub fn validate_peer_snapshots(snapshots: Vec<PeerSnapshot>, budgets: RakNetBudgets) -> (result:
    Result<Vec<ValidatedPeerSnapshot>, RakNetError>)
    ensures
        match batch_fault(snapshots@, 0, budgets) {
            Some(e) => result == Err::<Vec<ValidatedPeerSnapshot>, RakNetError>(e),
            None => result matches Ok(validated) && validated@.len() == snapshots@.len() && forall|
                i: int,
            |
                0 <= i < validated@.len() ==> (#[trigger] validated@[i]).wf()
                    && validated@[i].checkpoint == snapshots@[i] && validated@[i].budgets
                    == budgets,
        },
{
    let ghost all = snapshots@;
    let mut waiting = reversed(snapshots);
    let mut validated: Vec<ValidatedPeerSnapshot> = Vec::new();
    while waiting.len() > 0
        invariant
            waiting@.len() + validated@.len() == all.len(),
            forall|j: int|
                0 <= j < waiting@.len() ==> #[trigger] waiting@[j] == all[all.len() - 1 - j],
            forall|i: int|
                0 <= i < validated@.len() ==> (#[trigger] validated@[i]).wf()
                    && validated@[i].checkpoint == all[i] && validated@[i].budgets == budgets,
            all == snapshots@,
            batch_fault(all, 0, budgets) == batch_fault(all, validated@.len() as int, budgets),
        decreases waiting@.len(),
    {
        let ghost at = validated@.len() as int;
        if let Some(snapshot) = waiting.pop() {
            assert(snapshot == all[at]);
            validated.push(snapshot.into_validated(budgets)?);
        }
    }
    Ok(validated)
}

} // verus!
