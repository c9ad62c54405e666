//! What can be said of what a peer and a router refuse, and of what they tell of it.

use crate::ordered::{holds, lookup, remove_laws, sorted, Key};
use crate::raknet::address::PeerAddress;
use crate::raknet::error::RakNetError;
use crate::raknet::offline_laws::{
    advertisement_tells_of_the_server, marked, told_of_server, with_semicolons,
};
use crate::raknet::peer_model::PeerModel;
use crate::raknet::reader::magic;
use crate::raknet::sequence::newer;
use crate::raknet::server::{RouteView, RouterModel, ServerConfig};
use crate::raknet::snapshot::over_budget;
use crate::raknet::wire::{acknowledgement, datagram, SplitHeader};
use vstd::prelude::*;
use vstd::utf8::encode_utf8;

verus! {

/// Whether an error tells that more was asked for than a limit.
pub open spec fn tells_of_limit(error: Option<RakNetError>, requested: nat, limit: usize) -> bool {
    &&& requested > limit
    &&& error matches Some(RakNetError::Budget(exceeded))
    &&& exceeded.requested == requested
    &&& exceeded.limit == limit
}

/// A breach of a limit is told with what was asked for, and nothing is told where there is none.
pub proof fn breach_is_told(resource: &'static str, requested: nat, limit: usize)
    requires
        requested <= usize::MAX,
    ensures
        requested <= limit ==> over_budget(resource, requested, limit) is None,
        requested > limit ==> tells_of_limit(
            over_budget(resource, requested, limit),
            requested,
            limit,
        ),
{
}

/// A pong within a connection changes nothing: nobody asked for it.
pub proof fn pong_changes_nothing(m: PeerModel, payload: Seq<u8>, now: u64, epoch: i64)
    requires
        payload.len() > 0,
        payload[0] == 0x03,
    ensures
        m.deliver_payload(payload, now, epoch) == (m, None::<RakNetError>),
{
}

/// The end of a handshake changes nothing but that the peer is accepted and that whoever accepts is
/// told.
pub proof fn end_of_handshake_accepts_alone(m: PeerModel, payload: Seq<u8>, now: u64, epoch: i64)
    requires
        payload.len() > 0,
        payload[0] == 0x13,
    ensures
        ({
            let after = m.deliver_payload(payload, now, epoch).0;
            &&& after == PeerModel { accepted: true, outbox: after.outbox, ..m }
            &&& after.outbox.len() == m.outbox.len() + if m.accepted {
                0int
            } else {
                1
            }
        }),
{
}

/// A payload that finds no room to wait is refused with the number that would wait then.
pub proof fn full_inbox_is_told(m: PeerModel, payload: Seq<u8>, now: u64, epoch: i64)
    requires
        m.accepted,
        payload.len() == 0 || payload[0] >= 0x20,
        m.inbox.queue.len() < usize::MAX,
        m.inbox.queue.len() >= m.inbox.capacity,
    ensures
        tells_of_limit(
            m.deliver_payload(payload, now, epoch).1,
            m.inbox.queue.len() + 1,
            m.inbox.capacity,
        ),
{
}

/// A payload that the application sends too early is refused as a fault of the wire, and one that
/// is too long with its length.
pub proof fn payloads_are_refused_for_a_reason(m: PeerModel, payload: Seq<u8>, now: u64)
    requires
        payload.len() <= usize::MAX,
    ensures
        !m.accepted ==> m.send_application(payload, now).1 matches Some(RakNetError::Wire(_)),
        m.accepted && payload.len() > m.budgets.max_payload_bytes ==> tells_of_limit(
            m.send_application(payload, now).1,
            payload.len(),
            m.budgets.max_payload_bytes,
        ),
        m.accepted && payload.len() <= m.budgets.max_payload_bytes && m.mtu <= 64 ==> (
        m.send_application(payload, now).1 matches Some(RakNetError::Wire(_))),
{
}

/// Where as many datagrams are unconfirmed as may be, no payload is sent: nothing goes out, nothing
/// is remembered, and the number that would be unconfirmed is told.
pub proof fn unconfirmed_datagrams_are_limited(m: PeerModel, payload: Seq<u8>, now: u64)
    requires
        m.mtu > 64,
        payload.len() <= m.mtu - 64,
        m.unacked.len() < usize::MAX,
        m.unacked.len() >= m.budgets.max_unacked_datagrams,
    ensures
        ({
            let (after, error) = m.send_reliable_ordered(payload, now);
            &&& tells_of_limit(error, m.unacked.len() + 1, m.budgets.max_unacked_datagrams)
            &&& after.outbox == m.outbox && after.unacked == m.unacked
            &&& after.next_datagram == m.next_datagram
            &&& after.inbox == m.inbox && after.accepted == m.accepted
        }),
{
    let capacity = (m.mtu - 64) as int;
    if payload.len() > 0 {
        let n = payload.len() as int;
        vstd::arithmetic::div_mod::lemma_fundamental_div_mod(n + capacity - 1, capacity);
        let q = (n + capacity - 1) / capacity;
        assert(1 <= q <= 1) by (nonlinear_arith)
            requires
                n + capacity - 1 == capacity * q + (n + capacity - 1) % capacity,
                0 <= (n + capacity - 1) % capacity < capacity,
                1 <= n <= capacity,
        ;
    }
}

/// A payload that comes too early and finds no room to be held back is refused with the number that
/// would be held back then, and nothing is held back.
pub proof fn held_back_payloads_are_limited(
    m: PeerModel,
    channel: u8,
    sequence: nat,
    payload: Seq<u8>,
    now: u64,
    epoch: i64,
)
    requires
        sequence != m.expected_on(channel),
        newer(sequence, m.expected_on(channel)),
        m.ordered_holdback.len() < usize::MAX,
        m.ordered_holdback.len() >= m.budgets.max_ordered_holdback,
    ensures
        ({
            let (after, error) = m.accept_ordered(channel, sequence, payload, now, epoch);
            &&& tells_of_limit(
                error,
                m.ordered_holdback.len() + 1,
                m.budgets.max_ordered_holdback,
            )
            &&& after.ordered_holdback == m.ordered_holdback
            &&& after.inbox == m.inbox && after.outbox == m.outbox
        }),
{
}

/// The first fragment of a payload of too many parts is refused with how many there would be, and
/// nothing changes.
pub proof fn parts_are_limited(m: PeerModel, split: SplitHeader, payload: Seq<u8>)
    requires
        split.index < split.count,
        !holds(m.reassembly, seq![split.id as int]),
        m.reassembly_parts + split.count <= usize::MAX,
        m.reassembly_parts + split.count > m.budgets.max_reassembly_parts_per_peer,
    ensures
        m.accept_fragment(split, payload).0 == m,
        m.accept_fragment(split, payload).1 matches Err(e) && tells_of_limit(
            Some(e),
            (m.reassembly_parts + split.count) as nat,
            m.budgets.max_reassembly_parts_per_peer,
        ),
{
}

/// Bytes that are neither an acknowledgement nor a datagram end a peer, which has been heard of all
/// the same; nothing else changes and nothing is answered.
pub proof fn nonsense_ends_a_peer(m: PeerModel, bytes: Seq<u8>, now: u64, epoch: i64)
    requires
        acknowledgement(bytes) is Err || (acknowledgement(bytes) matches Ok(None) && datagram(
            bytes,
            m.budgets,
        ) is Err),
    ensures
        ({
            let (after, error) = m.receive_datagram(bytes, now, epoch);
            &&& error is Some
            &&& after == PeerModel { last_observed: after.last_observed, ..m }
            &&& after.last_observed >= now && after.last_observed >= m.last_observed
            &&& after.last_observed == now || after.last_observed == m.last_observed
        }),
{
}

/// A server whose advertisement is too long to be sent answers no ping: whoever sends one is
/// forgotten.
pub proof fn long_advertisement_is_not_sent(
    router: RouterModel,
    config: &ServerConfig,
    from: PeerAddress,
    ping: Seq<u8>,
)
    requires
        sorted(router.peers),
        ping.len() >= 33,
        ping[0] == 0x01 || ping[0] == 0x02,
        marked(ping, 9),
        encode_utf8(with_semicolons(told_of_server(config))).len() > 0xffff,
    ensures
        ({
            let (after, route) = router.on_packet(config, from, ping);
            &&& route matches RouteView::Forget(RakNetError::Wire(_))
            &&& lookup(after.peers, from.id()) is None
        }),
{
    advertisement_tells_of_the_server(config);
    assert(ping.subrange(9, 25) == magic());
    remove_laws(router.peers, from.id(), from.id());
}

/// A client that finds no room on a server is refused with the number of clients that there would
/// be.
pub proof fn full_server_is_told(
    router: RouterModel,
    config: &ServerConfig,
    from: PeerAddress,
    packet: Seq<u8>,
)
    requires
        packet.len() >= 56,
        packet[0] == 0x07,
        marked(packet, 1),
        packet[17] == 4 || packet[17] == 6,
        !holds(router.peers, from.id()),
        router.peers.len() < usize::MAX,
        router.peers.len() >= config.budgets.max_peers,
    ensures
        router.on_packet(config, from, packet).1 matches RouteView::Forget(e) && tells_of_limit(
            Some(e),
            router.peers.len() + 1,
            config.budgets.max_peers,
        ),
{
    assert(packet.subrange(1, 17) == magic());
}

} // verus!
