//! What can be said of the table of peers, of packets that are cut short, and of requests that
//! fail.

use crate::ordered::{insert_laws, lookup, remove_laws, sorted, Key};
use crate::raknet::address::PeerAddress;
use crate::raknet::error::{ControlFault, RakNetError, WireError};
use crate::raknet::server::{
    imported_view, serves, FreezeReport, RouterActionView, RouterCommand, RouterModel,
    ServerConfig,
};
use crate::raknet::snapshot::ValidatedPeerSnapshot;
use vstd::prelude::*;

verus! {

/// How many bytes an offline message has at least: a ping thirty-three, the first request to
/// connect eighteen, and the second as many as the version of the address in it takes.
pub open spec fn least_length(packet: Seq<u8>) -> int {
    if packet[0] == 0x01 || packet[0] == 0x02 {
        33
    } else if packet[0] == 0x05 {
        18
    } else if packet.len() > 17 && packet[17] == 6 {
        56
    } else {
        34
    }
}

/// An offline message that is cut short, or that names an address of no known version, makes the
/// server forget whom it comes from. Nothing else changes.
pub proof fn requests_cut_short_are_at_fault(
    router: RouterModel,
    config: &ServerConfig,
    from: PeerAddress,
    packet: Seq<u8>,
)
    requires
        sorted(router.peers),
        packet.len() > 0,
        packet[0] == 0x01 || packet[0] == 0x02 || packet[0] == 0x05 || packet[0] == 0x07,
        packet.len() < least_length(packet) || (packet[0] == 0x07 && packet[17] != 4 && packet[17]
            != 6),
    ensures
        ({
            let (after, route) = router.on_packet(config, from, packet);
            &&& route is Forget
            &&& lookup(after.peers, from.id()) is None
            &&& after.frozen == router.frozen && after.receive_paused == router.receive_paused
            &&& after.pending == router.pending
        }),
{
    remove_laws(router.peers, from.id(), from.id());
}

/// A peer that is gone is unknown from then on, and every other one stays as it was.
pub proof fn closed_peer_is_forgotten(
    router: RouterModel,
    address: PeerAddress,
    other: PeerAddress,
)
    requires
        sorted(router.peers),
    ensures
        lookup(router.without(address).peers, address.id()) is None,
        other.id() != address.id() ==> lookup(router.without(address).peers, other.id()) == lookup(
            router.peers,
            other.id(),
        ),
        router.without(address).frozen == router.frozen,
        router.without(address).receive_paused == router.receive_paused,
        router.without(address).pending == router.pending,
{
    remove_laws(router.peers, address.id(), address.id());
    remove_laws(router.peers, address.id(), other.id());
}

/// A peer that is noted is known with whether the router answers for it, and every other one stays
/// as it was.
pub proof fn noted_peer_is_known(
    router: RouterModel,
    address: PeerAddress,
    router_owned: bool,
    other: PeerAddress,
)
    requires
        sorted(router.peers),
    ensures
        lookup(router.with(address, router_owned).peers, address.id()) == Some(router_owned),
        other.id() != address.id() ==> lookup(router.with(address, router_owned).peers, other.id())
            == lookup(router.peers, other.id()),
        router.with(address, router_owned).frozen == router.frozen,
        router.with(address, router_owned).receive_paused == router.receive_paused,
        router.with(address, router_owned).pending == router.pending,
{
    insert_laws(router.peers, address.id(), router_owned, address.id());
    insert_laws(router.peers, address.id(), router_owned, other.id());
}

/// A pause takes effect at once and changes nothing else. Resuming a router that receives changes
/// nothing. Requests that wait for the peers leave the router as it is until they are completed.
pub proof fn requests_take_effect_in_time(router: RouterModel)
    ensures
        router.on_command(RouterCommand::PauseReceive) == (
            RouterModel { receive_paused: true, ..router },
            RouterActionView::Answer(Ok(())),
        ),
        !router.frozen && !router.receive_paused ==> router.on_command(RouterCommand::Resume) == (
            router,
            RouterActionView::Answer(Ok(())),
        ) && router.on_command(RouterCommand::ResumeReceive) == (
            router,
            RouterActionView::Answer(Ok(())),
        ),
        forall|command: RouterCommand|
            command !is PauseReceive ==> {
                let after = (#[trigger] router.on_command(command)).0;
                &&& after.peers == router.peers
                &&& after.frozen == router.frozen
                &&& after.receive_paused == router.receive_paused
            },
{
}

/// Where peers can be neither frozen nor resumed again, or neither resumed nor frozen again, the
/// router stays as it was and tells of both faults.
pub proof fn both_faults_are_told(
    router: RouterModel,
    error: ControlFault,
    compensation: ControlFault,
    failures: usize,
)
    requires
        router.pending is None,
    ensures
        !router.frozen ==> ({
            let (asked, _) = router.on_command(RouterCommand::Freeze);
            let (failed, _) = asked.on_frozen(FreezeReport { first: Some(error), failures });
            failed.on_resumed(Some(compensation)) == (
                router,
                RouterActionView::Answer(
                    Err(RakNetError::Wire(WireError::FreezeCompensation { error, compensation })),
                ),
            )
        }),
        router.frozen || router.receive_paused ==> ({
            let (asked, _) = router.on_command(RouterCommand::Resume);
            let (failed, _) = asked.on_resumed(Some(error));
            failed.on_frozen(FreezeReport { first: Some(compensation), failures }) == (
                router,
                RouterActionView::Answer(
                    Err(RakNetError::Wire(WireError::ResumeCompensation { error, failures })),
                ),
            )
        }),
        error is Closed ==> error.spec_error() is Closed,
        error is QueueFull ==> error.spec_error() is QueueFull,
{
}

/// The port of an address, the version of its host, and the host as a number.
pub open spec fn parts_of(address: PeerAddress) -> (int, int, int) {
    match address {
        PeerAddress::V4 { ip, port } => (port as int, 4, ip as int),
        PeerAddress::V6 { high, low, port, .. } => (
            port as int,
            6,
            high * 0x1_0000_0000_0000_0000 + low,
        ),
    }
}

/// A socket serves a listener if and only if it has its port, or the listener leaves the port open,
/// and it has its host, or the listener leaves the host open. What else an address says does not
/// count.
pub proof fn port_and_host_decide(configured: PeerAddress, local: PeerAddress)
    ensures
        serves(configured, local) <==> {
            let (port, version, host) = parts_of(configured);
            let (local_port, local_version, local_host) = parts_of(local);
            &&& port == 0 || port == local_port
            &&& host == 0 || (version == local_version && host == local_host)
        },
{
}

/// A peer that goes on from a checkpoint has the address and the state that the checkpoint tells
/// of, stands still since it came, and has put nothing off.
pub proof fn imported_peer_stands_still(s: ValidatedPeerSnapshot, now: u64)
    ensures
        ({
            let peer = imported_view(s, now);
            &&& peer.address == s.checkpoint.remote_addr
            &&& peer.accepted == s.checkpoint.accepted
            &&& peer.actor.execution is Frozen && peer.actor.execution->since == now
            &&& peer.actor.deferred.len() == 0
            &&& peer.actor.peer.remote_addr == s.checkpoint.remote_addr
            &&& peer.actor.peer.budgets == s.budgets
            &&& peer.actor.peer.mtu == s.checkpoint.mtu
            &&& peer.actor.peer.outbox.len() == 0
            &&& !peer.actor.peer.inbox.closed
            &&& peer.actor.peer.inbox.queue == s.checkpoint@.queued_payloads
        }),
{
}

} // verus!
