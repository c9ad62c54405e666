//! The life of a peer: running, frozen, and the commands it answers.
//!
//! The program waits for what [`PeerActor::wait`] names, hands the event in, carries out the
//! peer's outbox and passes replies on to the tickets they bear.

use crate::raknet::error::RakNetError;
use crate::raknet::inbox::InboxView;
use crate::raknet::peer::PeerState;
use crate::raknet::peer_model::PeerModel;
use crate::raknet::snapshot::{PeerSnapshot, PeerSnapshotView};
use std::collections::VecDeque;
use vstd::prelude::*;

verus! {

/// Whether a peer works or stands still since an instant.
#[derive(Clone, Copy, Debug, PartialEq, Eq, Structural)]
pub enum PeerExecution {
    Running,
    Frozen { since: u64 },
}

/// A request to a peer. The ticket names whoever waits for the reply.
pub enum PeerCommand {
    Send { payload: Vec<u8>, ticket: u64 },
    Freeze { ticket: u64 },
    SealTransfer { ticket: u64 },
    Resume,
    Transfer { ticket: u64 },
}

/// What a request says.
pub enum CommandView {
    Send { payload: Seq<u8>, ticket: u64 },
    Freeze { ticket: u64 },
    SealTransfer { ticket: u64 },
    Resume,
    Transfer { ticket: u64 },
}

impl View for PeerCommand {
    type V = CommandView;

    open spec fn view(&self) -> CommandView {
        match self {
            PeerCommand::Send { payload, ticket } => CommandView::Send {
                payload: payload@,
                ticket: *ticket,
            },
            PeerCommand::Freeze { ticket } => CommandView::Freeze { ticket: *ticket },
            PeerCommand::SealTransfer { ticket } => CommandView::SealTransfer { ticket: *ticket },
            PeerCommand::Resume => CommandView::Resume,
            PeerCommand::Transfer { ticket } => CommandView::Transfer { ticket: *ticket },
        }
    }
}

/// The reply to a request.
pub enum PeerReply {
    Sent { ticket: u64, result: Result<(), RakNetError> },
    Frozen { ticket: u64 },
    Sealed { ticket: u64, snapshot: PeerSnapshot },
    Transferred { ticket: u64 },
}

/// What a reply says.
pub enum ReplyView {
    Sent { ticket: u64, result: Result<(), RakNetError> },
    Frozen { ticket: u64 },
    Sealed { ticket: u64, snapshot: PeerSnapshotView },
    Transferred { ticket: u64 },
}

impl View for PeerReply {
    type V = ReplyView;

    open spec fn view(&self) -> ReplyView {
        match self {
            PeerReply::Sent { ticket, result } => ReplyView::Sent {
                ticket: *ticket,
                result: *result,
            },
            PeerReply::Frozen { ticket } => ReplyView::Frozen { ticket: *ticket },
            PeerReply::Sealed { ticket, snapshot } => ReplyView::Sealed {
                ticket: *ticket,
                snapshot: snapshot@,
            },
            PeerReply::Transferred { ticket } => ReplyView::Transferred { ticket: *ticket },
        }
    }
}

/// What a reply that may be absent says.
pub open spec fn reply_view(reply: Option<PeerReply>) -> Option<ReplyView> {
    match reply {
        Some(reply) => Some(reply@),
        None => None,
    }
}

/// What the program has to wait for.
#[derive(Clone, Copy, Debug, PartialEq, Eq, Structural)]
pub enum PeerWait {
    /// Nothing: a request that was put off is to be handled now.
    Deferred,
    /// A request, and nothing else.
    Command,
    /// A packet, else a request, else the instant.
    Any { deadline: u64 },
}

/// Whether the peer goes on after an event, and why it does not.
#[derive(Clone, Copy, Debug)]
pub enum PeerFate {
    Continue,
    Stop { error: Option<RakNetError> },
}

/// A peer with its requests that were put off.
pub struct PeerActor {
    peer: PeerState,
    execution: PeerExecution,
    deferred: VecDeque<(Vec<u8>, u64)>,
}

/// The state of a peer with its requests that were put off.
pub struct ActorModel {
    pub peer: PeerModel,
    pub execution: PeerExecution,
    pub deferred: Seq<(Seq<u8>, u64)>,
}

/// What the requests of a list say.
pub open spec fn deferred_views(deferred: Seq<(Vec<u8>, u64)>) -> Seq<(Seq<u8>, u64)> {
    deferred.map_values(|entry: (Vec<u8>, u64)| (entry.0@, entry.1))
}

impl View for PeerActor {
    type V = ActorModel;

    closed spec fn view(&self) -> ActorModel {
        ActorModel {
            peer: self.peer@,
            execution: self.execution,
            deferred: deferred_views(self.deferred@),
        }
    }
}

/// The state after an event, the reply to give, and the fate of the peer.
pub type ActorStep = (ActorModel, Option<ReplyView>, PeerFate);

/// The result that an error, if there is one, stands for.
pub open spec fn as_result(error: Option<RakNetError>) -> Result<(), RakNetError> {
    match error {
        Some(e) => Err(e),
        None => Ok(()),
    }
}

impl ActorModel {
    /// With the inbox closed.
    pub open spec fn closed(self) -> ActorModel {
        ActorModel {
            peer: PeerModel {
                inbox: InboxView { closed: true, ..self.peer.inbox },
                ..self.peer
            },
            ..self
        }
    }

    /// The end of a step that failed where there is an error.
    pub open spec fn concluded(self, error: Option<RakNetError>, reply: Option<ReplyView>) -> ActorStep {
        if error is Some {
            (self.closed(), reply, PeerFate::Stop { error })
        } else {
            (self, reply, PeerFate::Continue)
        }
    }

    /// What has to be waited for.
    pub open spec fn wait(self, now: u64) -> PeerWait {
        if self.execution != PeerExecution::Running {
            PeerWait::Command
        } else if self.deferred.len() > 0 {
            PeerWait::Deferred
        } else {
            PeerWait::Any { deadline: self.peer.next_timer_deadline(now) }
        }
    }

    /// After sending a payload of the application.
    pub open spec fn sent(self, payload: Seq<u8>, ticket: u64, now: u64) -> ActorStep {
        let (peer, error) = self.peer.send_application(payload, now);
        ActorModel { peer, ..self }.concluded(
            error,
            Some(ReplyView::Sent { ticket, result: as_result(error) }),
        )
    }

    /// After a request.
    pub open spec fn on_command(self, command: CommandView, now: u64) -> ActorStep {
        match (self.execution, command) {
            (_, CommandView::Transfer { ticket }) => (
                self.closed(),
                Some(ReplyView::Transferred { ticket }),
                PeerFate::Stop { error: None },
            ),
            (PeerExecution::Running, CommandView::Send { payload, ticket }) => self.sent(
                payload,
                ticket,
                now,
            ),
            (PeerExecution::Running, CommandView::Freeze { ticket }) => (
                ActorModel { execution: PeerExecution::Frozen { since: now }, ..self },
                Some(ReplyView::Frozen { ticket }),
                PeerFate::Continue,
            ),
            (PeerExecution::Running, CommandView::SealTransfer { ticket }) => (
                self,
                Some(ReplyView::Sealed { ticket, snapshot: self.peer.snapshot(now) }),
                PeerFate::Continue,
            ),
            (PeerExecution::Running, CommandView::Resume) => (self, None, PeerFate::Continue),
            (PeerExecution::Frozen { since }, CommandView::Send { payload, ticket }) => {
                if self.deferred.len() < self.peer.budgets.peer_command_queue {
                    (
                        ActorModel { deferred: self.deferred.push((payload, ticket)), ..self },
                        None,
                        PeerFate::Continue,
                    )
                } else {
                    (
                        self,
                        Some(ReplyView::Sent { ticket, result: Err(RakNetError::QueueFull) }),
                        PeerFate::Continue,
                    )
                }
            },
            (PeerExecution::Frozen { since }, CommandView::Freeze { ticket }) => (
                self,
                Some(ReplyView::Frozen { ticket }),
                PeerFate::Continue,
            ),
            (PeerExecution::Frozen { since }, CommandView::SealTransfer { ticket }) => (
                self,
                Some(ReplyView::Sealed { ticket, snapshot: self.peer.snapshot(since) }),
                PeerFate::Continue,
            ),
            (PeerExecution::Frozen { since }, CommandView::Resume) => (
                ActorModel {
                    peer: self.peer.resumed(since, now),
                    execution: PeerExecution::Running,
                    ..self
                },
                None,
                PeerFate::Continue,
            ),
        }
    }

    /// After handling the first request that was put off.
    pub open spec fn on_deferred(self, now: u64) -> ActorStep {
        ActorModel { deferred: self.deferred.subrange(1, self.deferred.len() as int), ..self }.sent(
            self.deferred[0].0,
            self.deferred[0].1,
            now,
        )
    }

    /// After a packet.
    pub open spec fn on_ingress(self, bytes: Seq<u8>, now: u64, epoch: i64) -> ActorStep {
        let (peer, error) = self.peer.receive_datagram(bytes, now, epoch);
        ActorModel { peer, ..self }.concluded(error, None)
    }

    /// After a timer.
    pub open spec fn on_timer(self, now: u64) -> ActorStep {
        let (peer, error) = self.peer.on_timer(now);
        ActorModel { peer, ..self }.concluded(error, None)
    }
}

impl PeerActor {
    /// Whether the peer is well-formed.
    pub closed spec fn wf(&self) -> bool {
        self.peer.wf()
    }

    /// A running peer.
    pub fn running(peer: PeerState) -> (result: Self)
        requires
            peer.wf(),
        ensures
            result.wf(),
            result@ == (ActorModel {
                peer: peer@,
                execution: PeerExecution::Running,
                deferred: Seq::empty(),
            }),
    {
        let result = PeerActor {
            peer,
            execution: PeerExecution::Running,
            deferred: VecDeque::new(),
        };
        assert(result@.deferred =~= Seq::empty());
        result
    }

    /// A peer that has stood still since an instant.
    pub fn frozen(peer: PeerState, since: u64) -> (result: Self)
        requires
            peer.wf(),
        ensures
            result.wf(),
            result@ == (ActorModel {
                peer: peer@,
                execution: PeerExecution::Frozen { since },
                deferred: Seq::empty(),
            }),
    {
        let result = PeerActor {
            peer,
            execution: PeerExecution::Frozen { since },
            deferred: VecDeque::new(),
        };
        assert(result@.deferred =~= Seq::empty());
        result
    }

    /// The peer itself.
    pub fn peer(&self) -> (result: &PeerState)
        requires
            self.wf(),
        ensures
            result.wf(),
            result@ == self@.peer,
    {
        &self.peer
    }

    /// The peer itself, to be changed.
    pub fn peer_mut(&mut self) -> (result: &mut PeerState)
        requires
            old(self).wf(),
        ensures
            result.wf(),
            result@ == old(self)@.peer,
            final(self)@ == (ActorModel { peer: final(result)@, ..old(self)@ }),
            final(self).wf() == final(result).wf(),
    {
        &mut self.peer
    }

    /// What has to be waited for.
    pub fn wait(&self, now: u64) -> (result: PeerWait)
        requires
            self.wf(),
        ensures
            result == self@.wait(now),
    {
        match self.execution {
            PeerExecution::Frozen { .. } => PeerWait::Command,
            PeerExecution::Running => if self.deferred.len() > 0 {
                PeerWait::Deferred
            } else {
                PeerWait::Any { deadline: self.peer.next_timer_deadline(now) }
            },
        }
    }

    fn conclude(&mut self, result: Result<(), RakNetError>) -> (fate: PeerFate)
        requires
            old(self).wf(),
        ensures
            final(self).wf(),
            match result {
                Ok(_) => final(self)@ == old(self)@ && fate == PeerFate::Continue,
                Err(e) => final(self)@ == old(self)@.closed() && fate == (PeerFate::Stop {
                    error: Some(e),
                }),
            },
    {
        match result {
            Ok(_) => PeerFate::Continue,
            Err(e) => {
                self.peer.close();
                PeerFate::Stop { error: Some(e) }
            },
        }
    }

    fn send(&mut self, payload: &[u8], ticket: u64, now: u64) -> (result: (
        Option<PeerReply>,
        PeerFate,
    ))
        requires
            old(self).wf(),
        ensures
            final(self).wf(),
            (final(self)@, reply_view(result.0), result.1) == old(self)@.sent(payload@, ticket, now),
    {
        let outcome = self.peer.send_application(payload, now);
        let fate = self.conclude(outcome);
        let answer = match outcome {
            Ok(_) => Ok(()),
            Err(e) => Err(e),
        };
        (Some(PeerReply::Sent { ticket, result: answer }), fate)
    }

    /// Handles a request.
    pub fn on_command(&mut self, command: PeerCommand, now: u64) -> (result: (
        Option<PeerReply>,
        PeerFate,
    ))
        requires
            old(self).wf(),
        ensures
            final(self).wf(),
            (final(self)@, reply_view(result.0), result.1) == old(self)@.on_command(command@, now),
    {
        match command {
            PeerCommand::Transfer { ticket } => {
                self.peer.close();
                (Some(PeerReply::Transferred { ticket }), PeerFate::Stop { error: None })
            },
            PeerCommand::Freeze { ticket } => {
                if let PeerExecution::Running = self.execution {
                    self.execution = PeerExecution::Frozen { since: now };
                }
                (Some(PeerReply::Frozen { ticket }), PeerFate::Continue)
            },
            PeerCommand::SealTransfer { ticket } => {
                let at: u64 = match self.execution {
                    PeerExecution::Running => now,
                    PeerExecution::Frozen { since } => since,
                };
                let snapshot = self.peer.snapshot(at);
                (Some(PeerReply::Sealed { ticket, snapshot }), PeerFate::Continue)
            },
            PeerCommand::Resume => {
                if let PeerExecution::Frozen { since } = self.execution {
                    self.peer.resume_timers(since, now);
                    self.execution = PeerExecution::Running;
                }
                (None, PeerFate::Continue)
            },
            PeerCommand::Send { payload, ticket } => {
                if let PeerExecution::Running = self.execution {
                    return self.send(payload.as_slice(), ticket, now);
                }
                if self.deferred.len() < self.peer.budgets().peer_command_queue {
                    let ghost before = self.deferred@;
                    self.deferred.push_back((payload, ticket));
                    assert(deferred_views(self.deferred@) =~= deferred_views(before).push(
                        (payload@, ticket),
                    ));
                    (None, PeerFate::Continue)
                } else {
                    (
                        Some(PeerReply::Sent { ticket, result: Err(RakNetError::QueueFull) }),
                        PeerFate::Continue,
                    )
                }
            },
        }
    }

    /// Handles the first request that was put off.
    pub fn on_deferred(&mut self, now: u64) -> (result: (Option<PeerReply>, PeerFate))
        requires
            old(self).wf(),
            old(self)@.wait(now) == PeerWait::Deferred,
        ensures
            final(self).wf(),
            (final(self)@, reply_view(result.0), result.1) == old(self)@.on_deferred(now),
    {
        match self.deferred.pop_front() {
            Some((payload, ticket)) => {
                assert(self@.deferred =~= old(self)@.deferred.subrange(
                    1,
                    old(self)@.deferred.len() as int,
                ));
                self.send(payload.as_slice(), ticket, now)
            },
            None => (None, PeerFate::Continue),
        }
    }

    /// Handles a packet.
    pub fn on_ingress(&mut self, bytes: &[u8], now: u64, epoch: i64) -> (fate: PeerFate)
        requires
            old(self).wf(),
            old(self)@.wait(now) is Any,
        ensures
            final(self).wf(),
            (final(self)@, None::<ReplyView>, fate) == old(self)@.on_ingress(bytes@, now, epoch),
    {
        let outcome = self.peer.receive_datagram(bytes, now, epoch);
        self.conclude(outcome)
    }

    /// Handles a timer.
    pub fn on_timer(&mut self, now: u64) -> (fate: PeerFate)
        requires
            old(self).wf(),
            old(self)@.wait(now) is Any,
        ensures
            final(self).wf(),
            (final(self)@, None::<ReplyView>, fate) == old(self)@.on_timer(now),
    {
        let outcome = self.peer.on_timer(now);
        self.conclude(outcome)
    }
}

} // verus!
