//! What holds of importing the peers of another server.

use crate::ordered::{
    gathered, gathered_is_sorted, holds, insert_laws, lookup, rank, rank_bounds, sorted, Entries,
    Key,
};
use crate::raknet::actor::PeerExecution;
use crate::raknet::address::{address_identity, PeerAddress};
use crate::raknet::server::{
    clashes, import_entries, import_fault, import_step, imported_view, joined_by, values, Router,
    RouterModel, ServerConfig,
};
use crate::raknet::snapshot::ValidatedPeerSnapshot;
use vstd::prelude::*;

verus! {

/// The address of a checkpoint.
pub open spec fn address_at(list: Seq<ValidatedPeerSnapshot>, i: int) -> PeerAddress {
    list[i].checkpoint.remote_addr
}

/// Whether no two checkpoints have the same address.
pub open spec fn addresses_differ(list: Seq<ValidatedPeerSnapshot>) -> bool {
    forall|i: int, j: int|
        0 <= i < j < list.len() ==> #[trigger] address_at(list, i) != #[trigger] address_at(list, j)
}

/// Whether no checkpoint has the address of a peer.
pub open spec fn addresses_are_new(
    peers: Entries<bool>,
    list: Seq<ValidatedPeerSnapshot>,
) -> bool {
    forall|i: int| 0 <= i < list.len() ==> !holds(peers, (#[trigger] address_at(list, i)).id())
}

/// Whether all checkpoints were validated for the budgets of a server.
pub open spec fn budgets_agree(list: Seq<ValidatedPeerSnapshot>, config: &ServerConfig) -> bool {
    forall|i: int| 0 <= i < list.len() ==> (#[trigger] list[i]).budgets == config.budgets
}

/// Whether a server may have so many peers more. Numbers that cannot be counted are taken for the
/// largest that can.
pub open spec fn peers_fit(have: nat, more: nat, config: &ServerConfig) -> bool {
    have + more <= config.budgets.max_peers || config.budgets.max_peers == usize::MAX
}

/// Checkpoints are refused exactly where two have the same address, one has that of a peer, one was
/// validated for other budgets, or there would be too many peers.
pub proof fn import_is_refused_for_a_reason(
    peers: Entries<bool>,
    list: Seq<ValidatedPeerSnapshot>,
    config: &ServerConfig,
)
    requires
        peers.len() <= usize::MAX,
    ensures
        import_fault(peers, list, config) is None <==> {
            &&& addresses_differ(list)
            &&& addresses_are_new(peers, list)
            &&& budgets_agree(list, config)
            &&& peers_fit(peers.len(), list.len(), config)
        },
{
    if addresses_differ(list) && addresses_are_new(peers, list) {
        assert forall|address: PeerAddress| !clashes(peers, list, address) by {
            if clashes(peers, list, address) {
                let i = choose|i: int|
                    0 <= i < list.len() && (#[trigger] list[i]).checkpoint.remote_addr == address
                        && (holds(peers, address.id()) || exists|j: int|
                        0 <= j < i && (#[trigger] list[j]).checkpoint.remote_addr == address);
                assert(address_at(list, i) == address);
                if !holds(peers, address.id()) {
                    let j = choose|j: int|
                        0 <= j < i && (#[trigger] list[j]).checkpoint.remote_addr == address;
                    assert(address_at(list, j) == address_at(list, i));
                }
            }
        }
    }
    if !addresses_are_new(peers, list) {
        let i = choose|i: int|
            0 <= i < list.len() && holds(peers, (#[trigger] address_at(list, i)).id());
        assert(list[i].checkpoint.remote_addr == address_at(list, i));
        assert(clashes(peers, list, address_at(list, i)));
    }
    if !addresses_differ(list) {
        let (i, j) = choose|i: int, j: int|
            0 <= i < j < list.len() && #[trigger] address_at(list, i) == #[trigger] address_at(
                list,
                j,
            );
        assert(list[j].checkpoint.remote_addr == address_at(list, j));
        assert(list[i].checkpoint.remote_addr == address_at(list, j));
        assert(clashes(peers, list, address_at(list, j)));
    }
}

/// A refused import changes nothing, so that a router that waits for checkpoints takes one that is
/// in order thereafter.
pub proof fn refused_import_leaves_the_router_ready(
    router: RouterModel,
    list: Seq<ValidatedPeerSnapshot>,
    config: &ServerConfig,
    now: u64,
    one: ValidatedPeerSnapshot,
    later: u64,
)
    requires
        router.withheld(),
        import_step(router, list, config, now).1 is Err,
        one.budgets == config.budgets,
        !holds(router.peers, one.checkpoint.remote_addr.id()),
        router.peers.len() < config.budgets.max_peers,
    ensures
        import_step(router, list, config, now).0 == router,
        import_step(import_step(router, list, config, now).0, seq![one], config, later).1 is Ok,
{
    import_is_refused_for_a_reason(router.peers, seq![one], config);
}

proof fn distinct_entries_are_all_gathered(
    list: Seq<ValidatedPeerSnapshot>,
    now: u64,
    peers: Entries<bool>,
    other: PeerAddress,
)
    requires
        addresses_differ(list),
        addresses_are_new(peers, list),
        sorted(peers),
    ensures
        ({
            let entries = gathered(import_entries(list, now));
            let joined = joined_by(peers, list);
            &&& sorted(joined)
            &&& entries.len() == list.len()
            &&& joined.len() == peers.len() + list.len()
            &&& (exists|i: int| 0 <= i < list.len() && #[trigger] address_at(list, i) == other) || (
            !holds(entries, other.id()) && lookup(joined, other.id()) == lookup(peers, other.id()))
            &&& forall|i: int|
                #![trigger address_at(list, i)]
                0 <= i < list.len() && address_at(list, i) == other ==> {
                    &&& lookup(entries, other.id()) == Some(imported_view(list[i], now))
                    &&& lookup(joined, other.id()) == Some(!list[i].checkpoint.accepted)
                }
        }),
    decreases list.len(),
{
    let all = import_entries(list, now);
    if list.len() > 0 {
        let front = list.drop_last();
        let last = list.last();
        let address = last.checkpoint.remote_addr;
        assert forall|i: int, j: int| 0 <= i < j < front.len() implies #[trigger] address_at(
            front,
            i,
        ) != #[trigger] address_at(front, j) by {
            assert(address_at(front, i) == address_at(list, i));
            assert(address_at(front, j) == address_at(list, j));
        }
        assert forall|i: int| 0 <= i < front.len() implies !holds(
            peers,
            (#[trigger] address_at(front, i)).id(),
        ) by {
            assert(address_at(front, i) == address_at(list, i));
        }
        assert(all.drop_last() =~= import_entries(front, now));
        assert(all.last() == (address.id(), imported_view(last, now)));
        assert(address_at(list, list.len() - 1) == address);
        assert(forall|i: int|
            0 <= i < front.len() ==> #[trigger] address_at(front, i) == address_at(list, i));
        distinct_entries_are_all_gathered(front, now, peers, other);
        distinct_entries_are_all_gathered(front, now, peers, address);
        let before = gathered(import_entries(front, now));
        let joined = joined_by(peers, front);
        gathered_is_sorted(import_entries(front, now));
        assert(!exists|i: int| 0 <= i < front.len() && #[trigger] address_at(front, i) == address);
        assert(!holds(before, address.id()));
        assert(!holds(joined, address.id()));
        insert_laws(before, address.id(), imported_view(last, now), other.id());
        insert_laws(joined, address.id(), !last.checkpoint.accepted, other.id());
        if other.id() == address.id() {
            address_identity(other, address);
        }
        assert forall|i: int|
            #![trigger address_at(list, i)]
            0 <= i < list.len() && address_at(list, i) == other implies lookup(
            gathered(all),
            other.id(),
        ) == Some(imported_view(list[i], now)) && lookup(joined_by(peers, list), other.id())
            == Some(!list[i].checkpoint.accepted) by {
            if i < front.len() {
                assert(address_at(front, i) == other);
                assert(front[i] == list[i]);
                assert(other != address);
            }
        }
        if exists|i: int| 0 <= i < front.len() && #[trigger] address_at(front, i) == other {
            let i = choose|i: int| 0 <= i < front.len() && #[trigger] address_at(front, i) == other;
            assert(address_at(list, i) == other);
        }
    }
}

/// An import that is not refused gives one peer, standing still, for each checkpoint, and the
/// router knows each of them, beside the peers that it knew; a session answers for those whose
/// handshake is complete, the router for the others.
pub proof fn import_gives_one_frozen_peer_per_checkpoint(
    router: RouterModel,
    list: Seq<ValidatedPeerSnapshot>,
    config: &ServerConfig,
    now: u64,
    other: PeerAddress,
)
    requires
        sorted(router.peers),
        router.peers.len() <= usize::MAX,
        import_step(router, list, config, now).1 is Ok,
    ensures
        ({
            let (after, imported) = import_step(router, list, config, now);
            let peers = imported->Ok_0;
            &&& peers.len() == list.len()
            &&& after.peers.len() == router.peers.len() + list.len()
            &&& forall|i: int|
                0 <= i < list.len() ==> peers.contains(imported_view(#[trigger] list[i], now))
                    && lookup(after.peers, list[i].checkpoint.remote_addr.id()) == Some(
                    !list[i].checkpoint.accepted,
                )
            &&& forall|i: int|
                0 <= i < list.len() ==> imported_view(#[trigger] list[i], now).actor.execution
                    == (PeerExecution::Frozen { since: now }) && imported_view(
                    list[i],
                    now,
                ).accepted == list[i].checkpoint.accepted
            &&& (forall|i: int| 0 <= i < list.len() ==> #[trigger] address_at(list, i) != other)
                ==> lookup(after.peers, other.id()) == lookup(router.peers, other.id())
        }),
{
    import_is_refused_for_a_reason(router.peers, list, config);
    distinct_entries_are_all_gathered(list, now, router.peers, other);
    let entries = gathered(import_entries(list, now));
    let peers = values(entries);
    assert forall|i: int| 0 <= i < list.len() implies peers.contains(
        imported_view(#[trigger] list[i], now),
    ) && lookup(joined_by(router.peers, list), list[i].checkpoint.remote_addr.id()) == Some(
        !list[i].checkpoint.accepted,
    ) by {
        let address = address_at(list, i);
        distinct_entries_are_all_gathered(list, now, router.peers, address);
        rank_bounds(entries, address.id());
        assert(peers[rank(entries, address.id())] == imported_view(list[i], now));
    }
}

/// What a router that waits for checkpoints makes of some: it refuses them exactly where two have
/// the same address, one has that of a peer, one was validated for other budgets, or there would be
/// too many peers, and is then as it was; otherwise it knows every one of them, and there is one
/// peer for each, standing still.
pub proof fn router_imports_all_or_nothing(
    router: Router,
    list: Seq<ValidatedPeerSnapshot>,
    now: u64,
)
    requires
        router.wf(),
        router@.withheld(),
    ensures
        ({
            let config = router.spec_config();
            let (after, result) = import_step(router@, list, &config, now);
            &&& result is Ok <==> {
                &&& addresses_differ(list)
                &&& addresses_are_new(router@.peers, list)
                &&& budgets_agree(list, &config)
                &&& peers_fit(router@.peers.len(), list.len(), &config)
            }
            &&& result is Err ==> after == router@
            &&& result matches Ok(peers) ==> {
                &&& peers.len() == list.len()
                &&& after.peers.len() == router@.peers.len() + list.len()
                &&& forall|i: int|
                    0 <= i < list.len() ==> {
                        &&& peers.contains(imported_view(#[trigger] list[i], now))
                        &&& imported_view(list[i], now).accepted == list[i].checkpoint.accepted
                        &&& imported_view(list[i], now).actor.execution == (PeerExecution::Frozen {
                            since: now,
                        })
                        &&& holds(after.peers, list[i].checkpoint.remote_addr.id())
                    }
            }
        }),
{
    let config = router.spec_config();
    router.peers_are_in_order();
    import_is_refused_for_a_reason(router@.peers, list, &config);
    if import_step(router@, list, &config, now).1 is Ok {
        let any = PeerAddress::V4 { ip: 0, port: 0 };
        import_gives_one_frozen_peer_per_checkpoint(router@, list, &config, now, any);
    }
}

} // verus!
