//! What can be said of the life of a peer: what it does while it works and while it stands still.

use crate::raknet::actor::{ActorModel, CommandView, PeerExecution, PeerFate, PeerWait, ReplyView};
use crate::raknet::error::RakNetError;
use vstd::prelude::*;

verus! {

/// Whether two states differ at most in whether the inbox is closed, and the second one is closed.
pub open spec fn is_closed_off(before: ActorModel, after: ActorModel) -> bool {
    &&& after.peer.inbox.closed
    &&& after.peer.inbox.queue == before.peer.inbox.queue
    &&& after.peer.inbox.capacity == before.peer.inbox.capacity
    &&& after.execution == before.execution
    &&& after.deferred == before.deferred
    &&& after.peer.remote_addr == before.peer.remote_addr
    &&& after.peer.unacked == before.peer.unacked
    &&& after.peer.outbox == before.peer.outbox
    &&& after.peer.last_observed == before.peer.last_observed
}

/// A peer that works waits for anything, up to its next timer, unless requests were put off, which
/// come first. One that stands still waits for requests alone.
pub proof fn standing_peer_waits_for_requests(m: ActorModel, now: u64)
    ensures
        m.execution is Frozen <==> m.wait(now) == PeerWait::Command,
        m.execution is Running && m.deferred.len() > 0 <==> m.wait(now) == PeerWait::Deferred,
        m.wait(now) matches PeerWait::Any { deadline } ==> deadline == m.peer.next_timer_deadline(
            now,
        ),
{
}

/// Whoever takes a peer over gets an answer, and the peer ends without an error: it reads no more,
/// and nothing else of it changes.
pub proof fn transferred_peer_ends(m: ActorModel, ticket: u64, now: u64)
    ensures
        ({
            let (after, reply, fate) = m.on_command(CommandView::Transfer { ticket }, now);
            &&& reply == Some(ReplyView::Transferred { ticket })
            &&& fate == (PeerFate::Stop { error: None })
            &&& is_closed_off(m, after)
        }),
{
}

/// A payload that a working peer is to send is sent at once, and whoever asked is told how it went.
/// The peer goes on if and only if it went well, and otherwise ends with the error that was told.
pub proof fn payload_is_sent_at_once(m: ActorModel, payload: Seq<u8>, ticket: u64, now: u64)
    requires
        m.execution is Running,
    ensures
        ({
            let (after, reply, fate) = m.on_command(CommandView::Send { payload, ticket }, now);
            let (peer, error) = m.peer.send_application(payload, now);
            &&& after.execution == m.execution && after.deferred == m.deferred
            &&& error is None ==> after.peer == peer && fate == PeerFate::Continue && reply == Some(
                ReplyView::Sent { ticket, result: Ok(()) },
            )
            &&& error matches Some(e) ==> fate == (PeerFate::Stop { error: Some(e) }) && reply
                == Some(ReplyView::Sent { ticket, result: Err(e) }) && is_closed_off(
                ActorModel { peer, ..m },
                after,
            )
        }),
{
}

/// A payload that a standing peer is to send is put off, behind all that were put off before, and
/// nobody is told yet. Where there is no room, it is refused, and nothing changes.
pub proof fn payload_is_put_off(m: ActorModel, payload: Seq<u8>, ticket: u64, now: u64)
    requires
        m.execution is Frozen,
    ensures
        ({
            let (after, reply, fate) = m.on_command(CommandView::Send { payload, ticket }, now);
            &&& fate == PeerFate::Continue
            &&& after.peer == m.peer && after.execution == m.execution
            &&& m.deferred.len() < m.peer.budgets.peer_command_queue ==> reply is None
                && after.deferred.len() == m.deferred.len() + 1 && after.deferred.last() == (
                payload,
                ticket,
            ) && after.deferred.drop_last() == m.deferred
            &&& m.deferred.len() >= m.peer.budgets.peer_command_queue ==> after == m && reply == Some(
                ReplyView::Sent { ticket, result: Err(RakNetError::QueueFull) },
            )
        }),
{
    let after = m.on_command(CommandView::Send { payload, ticket }, now).0;
    if m.deferred.len() < m.peer.budgets.peer_command_queue {
        assert(after.deferred.drop_last() =~= m.deferred);
    }
}

/// A peer that is to stand still does so from that instant on, and one that stands still already
/// since the instant at which it stopped. Nothing else changes, and whoever asked is told.
pub proof fn peer_stands_still(m: ActorModel, ticket: u64, now: u64)
    ensures
        ({
            let (after, reply, fate) = m.on_command(CommandView::Freeze { ticket }, now);
            &&& reply == Some(ReplyView::Frozen { ticket })
            &&& fate == PeerFate::Continue
            &&& m.execution is Running ==> after.execution == (PeerExecution::Frozen { since: now })
            &&& m.execution is Frozen ==> after.execution == m.execution
            &&& after.peer == m.peer && after.deferred == m.deferred
        }),
{
}

/// The checkpoint of a peer is that of the instant at which it stopped, or of now where it works.
/// Giving it changes nothing.
pub proof fn checkpoint_is_given(m: ActorModel, ticket: u64, now: u64, at: u64)
    requires
        match m.execution {
            PeerExecution::Running => at == now,
            PeerExecution::Frozen { since } => at == since,
        },
    ensures
        m.on_command(CommandView::SealTransfer { ticket }, now) == (
            m,
            Some(ReplyView::Sealed { ticket, snapshot: m.peer.snapshot(at) }),
            PeerFate::Continue,
        ),
{
}

/// A peer that stood still works again, and its checkpoint now is the one that it had when it
/// stopped. What was put off is still there. One that works goes on as if nothing had been asked.
pub proof fn peer_works_again(m: ActorModel, now: u64)
    ensures
        ({
            let (after, reply, fate) = m.on_command(CommandView::Resume, now);
            &&& reply is None
            &&& fate == PeerFate::Continue
            &&& after.execution is Running
            &&& after.deferred == m.deferred
            &&& m.execution is Running ==> after == m
            &&& m.execution matches PeerExecution::Frozen { since } ==> after.peer
                == m.peer.resumed(since, now)
        }),
{
}

/// What is put off is done in turn: of two payloads that come while a peer stands still, the first
/// is sent first once the peer works again, and the second follows.
pub proof fn what_is_put_off_is_done_in_turn(
    m: ActorModel,
    first: Seq<u8>,
    second: Seq<u8>,
    one: u64,
    two: u64,
    now: u64,
)
    requires
        m.execution is Frozen,
        m.deferred.len() == 0,
        m.peer.budgets.peer_command_queue >= 2,
    ensures
        ({
            let waiting = m.on_command(CommandView::Send { payload: first, ticket: one }, now).0;
            let both = waiting.on_command(
                CommandView::Send { payload: second, ticket: two },
                now,
            ).0;
            let working = both.on_command(CommandView::Resume, now).0;
            let (after, reply, fate) = working.on_deferred(now);
            let peer = working.peer.send_application(first, now);
            &&& working.wait(now) == PeerWait::Deferred
            &&& reply matches Some(ReplyView::Sent { ticket, result }) && ticket == one && (result
                is Ok <==> peer.1 is None)
            &&& peer.1 is None ==> after.peer == peer.0 && after.wait(now) == PeerWait::Deferred
                && after.deferred == seq![(second, two)] && fate == PeerFate::Continue
        }),
{
    let waiting = m.on_command(CommandView::Send { payload: first, ticket: one }, now).0;
    let both = waiting.on_command(CommandView::Send { payload: second, ticket: two }, now).0;
    assert(both.deferred =~= seq![(first, one), (second, two)]);
    assert(both.deferred.subrange(1, 2) =~= seq![(second, two)]);
}

/// A packet and a timer are answered to nobody. The peer goes on if and only if it could deal with
/// them, and otherwise ends with the error that it met. What was put off stays.
pub proof fn events_end_a_peer_that_fails(m: ActorModel, bytes: Seq<u8>, now: u64, epoch: i64)
    ensures
        ({
            let (after, reply, fate) = m.on_ingress(bytes, now, epoch);
            let (peer, error) = m.peer.receive_datagram(bytes, now, epoch);
            &&& reply is None && after.execution == m.execution && after.deferred == m.deferred
            &&& error is None ==> after.peer == peer && fate == PeerFate::Continue
            &&& error is Some ==> fate == (PeerFate::Stop { error }) && is_closed_off(
                ActorModel { peer, ..m },
                after,
            )
        }),
        ({
            let (after, reply, fate) = m.on_timer(now);
            let (peer, error) = m.peer.on_timer(now);
            &&& reply is None && after.execution == m.execution && after.deferred == m.deferred
            &&& error is None ==> after.peer == peer && fate == PeerFate::Continue
            &&& error is Some ==> fate == (PeerFate::Stop { error }) && is_closed_off(
                ActorModel { peer, ..m },
                after,
            )
        }),
{
}

} // verus!
