//! What holds of every router.

use crate::ordered::{holds, insert_laws, lookup, remove_laws, sorted, Key};
use crate::raknet::address::PeerAddress;
use crate::raknet::error::ControlFault;
use crate::raknet::server::{
    FreezeReport, RouterActionView, RouterCommand, RouterModel, ServerConfig,
};
use vstd::prelude::*;

verus! {

/// A freeze that fails at a peer and is undone leaves the router as it was, and answers with the
/// fault.
pub proof fn failed_freeze_is_undone(
    router: RouterModel,
    error: ControlFault,
    failures: usize,
)
    requires
        router.pending is None,
        !router.frozen,
    ensures
        ({
            let (asked, _) = router.on_command(RouterCommand::Freeze);
            let (failed, _) = asked.on_frozen(FreezeReport { first: Some(error), failures });
            failed.on_resumed(None) == (
                router,
                RouterActionView::Answer(Err(error.spec_error())),
            )
        }),
{
}

/// A resumption that fails at a peer and is undone leaves the router as it was, still withheld,
/// and answers with the fault.
pub proof fn failed_resumption_is_undone(router: RouterModel, error: ControlFault)
    requires
        router.pending is None,
        router.withheld(),
    ensures
        ({
            let (asked, _) = router.on_command(RouterCommand::Resume);
            let (failed, _) = asked.on_resumed(Some(error));
            failed.on_frozen(FreezeReport { first: None, failures: 0 }) == (
                router,
                RouterActionView::Answer(Err(error.spec_error())),
            )
        }),
{
}

/// A router that is frozen and then resumed is as it was.
pub proof fn resuming_undoes_freezing(router: RouterModel)
    requires
        router.pending is None,
        !router.withheld(),
    ensures
        ({
            let (asked, _) = router.on_command(RouterCommand::Freeze);
            let (frozen, _) = asked.on_frozen(FreezeReport { first: None, failures: 0 });
            let (resuming, _) = frozen.on_command(RouterCommand::Resume);
            &&& frozen.withheld()
            &&& resuming.on_resumed(None) == (router, RouterActionView::Answer(Ok(())))
        }),
{
}

/// A router that stops receiving and then receives again is as it was.
pub proof fn receiving_again_undoes_pausing(router: RouterModel)
    requires
        router.pending is None,
        !router.withheld(),
    ensures
        ({
            let (paused, _) = router.on_command(RouterCommand::PauseReceive);
            let (resuming, _) = paused.on_command(RouterCommand::ResumeReceive);
            &&& paused.withheld()
            &&& resuming.on_resumed(None) == (router, RouterActionView::Answer(Ok(())))
        }),
{
}

/// A packet adds no peer beyond the budget.
pub proof fn packets_keep_the_number_of_peers_in_bounds(
    router: RouterModel,
    config: &ServerConfig,
    from: PeerAddress,
    bytes: Seq<u8>,
)
    requires
        sorted(router.peers),
        router.peers.len() <= config.budgets.max_peers,
    ensures
        router.on_packet(config, from, bytes).0.peers.len() <= config.budgets.max_peers,
{
    insert_laws(router.peers, from.id(), true, from.id());
    remove_laws(router.peers, from.id(), from.id());
}

/// A packet of one address changes nothing for another.
pub proof fn packets_leave_other_peers_alone(
    router: RouterModel,
    config: &ServerConfig,
    from: PeerAddress,
    bytes: Seq<u8>,
    other: PeerAddress,
)
    requires
        sorted(router.peers),
        other.id() != from.id(),
    ensures
        lookup(router.on_packet(config, from, bytes).0.peers, other.id()) == lookup(
            router.peers,
            other.id(),
        ),
        router.on_packet(config, from, bytes).0.withheld() == router.withheld(),
{
    insert_laws(router.peers, from.id(), true, other.id());
    remove_laws(router.peers, from.id(), other.id());
}

} // verus!
