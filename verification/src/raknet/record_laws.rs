//! What can be said of checkpoints: what they tell of a peer, and what a pause changes in it.

use crate::raknet::budget::RakNetBudgets;
use crate::raknet::peer_model::PeerModel;
use crate::raknet::snapshot::window_limit;
use crate::raknet::timing::delay_after;
use vstd::prelude::*;

verus! {

/// How much of a span is left after a while.
pub open spec fn left_of(span: int, gone: int) -> int {
    if gone >= span {
        0
    } else {
        span - gone
    }
}

/// How long something has lasted at an instant.
pub open spec fn lasted(since: u64, now: u64) -> int {
    if now <= since {
        0
    } else {
        now - since
    }
}

/// Twice as many numbers are remembered as datagrams may be unconfirmed, and at least one.
pub proof fn twice_as_many_are_remembered(budgets: RakNetBudgets)
    ensures
        window_limit(budgets) >= 1,
        budgets.max_unacked_datagrams == 0 ==> window_limit(budgets) == 1,
        0 < 2 * budgets.max_unacked_datagrams <= usize::MAX ==> window_limit(budgets) == 2
            * budgets.max_unacked_datagrams,
        2 * budgets.max_unacked_datagrams > usize::MAX ==> window_limit(budgets) == usize::MAX,
{
}

/// A checkpoint tells what a peer is, and how much of the twelve seconds of silence that it may
/// keep is left.
pub proof fn checkpoint_tells_what_the_peer_is(m: PeerModel, now: u64)
    ensures
        ({
            let s = m.snapshot(now);
            &&& s.remote_addr == m.remote_addr && s.mtu == m.mtu && s.accepted == m.accepted
            &&& s.next_datagram == m.next_datagram && s.next_reliable == m.next_reliable
            &&& s.next_ordered == m.next_ordered && s.next_split_id == m.next_split_id
            &&& s.last_datagram == m.last_datagram
            &&& s.seen_datagram_order == m.seen_datagrams
            &&& s.seen_reliable_order == m.seen_reliable
            &&& s.queued_payloads == m.inbox.queue
            &&& s.timeout_remaining == left_of(12_000_000_000, lasted(m.last_observed, now))
        }),
{
}

/// A checkpoint tells of every datagram that is not confirmed, with its bytes, how often it was
/// sent and how much is left until it is sent again.
pub proof fn checkpoint_tells_of_datagrams(m: PeerModel, now: u64, i: int)
    requires
        0 <= i < m.unacked.len(),
        0 <= m.unacked[i].0[0],
    ensures
        m.snapshot(now).unacked_datagrams.len() == m.unacked.len(),
        m.snapshot(now).unacked_datagrams[i].sequence == m.unacked[i].0[0],
        m.snapshot(now).unacked_datagrams[i].bytes == m.unacked[i].1.bytes,
        m.snapshot(now).unacked_datagrams[i].attempts == m.unacked[i].1.attempts,
        m.snapshot(now).unacked_datagrams[i].retransmit_remaining == left_of(
            delay_after(m.unacked[i].1.attempts) as int,
            lasted(m.unacked[i].1.sent_at, now),
        ),
{
}

/// A checkpoint tells of every payload that is put together or held back, and of what is awaited
/// and what came last on every channel.
pub proof fn checkpoint_tells_of_what_waits(m: PeerModel, now: u64, i: int)
    ensures
        ({
            let s = m.snapshot(now);
            &&& s.reassembly.len() == m.reassembly.len()
            &&& s.ordered_holdback.len() == m.ordered_holdback.len()
            &&& s.ordered_expected.len() == m.ordered_expected.len()
            &&& s.sequenced_latest.len() == m.sequenced_latest.len()
            &&& 0 <= i < m.reassembly.len() && 0 <= m.reassembly[i].0[0] < 0x1_0000
                ==> s.reassembly[i].0 == m.reassembly[i].0[0] && s.reassembly[i].1
                == m.reassembly[i].1
            &&& 0 <= i < m.ordered_holdback.len() && 0 <= m.ordered_holdback[i].0[0] < 256 && 0
                <= m.ordered_holdback[i].0[1] ==> s.ordered_holdback[i].0
                == m.ordered_holdback[i].0[0] && s.ordered_holdback[i].1
                == m.ordered_holdback[i].0[1] && s.ordered_holdback[i].2 == m.ordered_holdback[i].1
            &&& 0 <= i < m.ordered_expected.len() && 0 <= m.ordered_expected[i].0[0] < 256
                ==> s.ordered_expected[i].0 == m.ordered_expected[i].0[0] && s.ordered_expected[i].1
                == m.ordered_expected[i].1
            &&& 0 <= i < m.sequenced_latest.len() && 0 <= m.sequenced_latest[i].0[0] < 256
                ==> s.sequenced_latest[i].0 == m.sequenced_latest[i].0[0] && s.sequenced_latest[i].1
                == m.sequenced_latest[i].1
        }),
{
}

/// A pause moves timers and nothing else: the silence of the peer and the age of every datagram are
/// at its end what they were at its start, where the clock reaches back that far.
pub proof fn pause_moves_timers_alone(m: PeerModel, frozen_at: u64, resumed_at: u64, i: int)
    requires
        0 <= i < m.unacked.len(),
    ensures
        ({
            let r = m.resumed(frozen_at, resumed_at);
            &&& r == PeerModel { last_observed: r.last_observed, unacked: r.unacked, ..m }
            &&& r.unacked.len() == m.unacked.len()
            &&& r.unacked[i].0 == m.unacked[i].0
            &&& r.unacked[i].1.bytes == m.unacked[i].1.bytes
            &&& r.unacked[i].1.attempts == m.unacked[i].1.attempts
            &&& lasted(m.last_observed, frozen_at) <= resumed_at ==> lasted(
                r.last_observed,
                resumed_at,
            ) == lasted(m.last_observed, frozen_at)
            &&& lasted(m.unacked[i].1.sent_at, frozen_at) <= resumed_at ==> lasted(
                r.unacked[i].1.sent_at,
                resumed_at,
            ) == lasted(m.unacked[i].1.sent_at, frozen_at)
        }),
{
}

} // verus!
