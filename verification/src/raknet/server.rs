//! The router of a RakNet server: offline handshakes, the table of peers, and the commands that
//! pause, freeze, resume and transfer it.
//!
//! The router performs no input or output. The program hands events in and carries out the
//! actions that come back, one after the other.

use crate::lists::reversed;
use crate::ordered::{gathered, holds, inserted, lookup, removed, sorted, Entries, Key, OrderedMap};
use crate::raknet::actor::{ActorModel, PeerActor, PeerExecution};
use crate::raknet::address::{
    address_identity, address_of, address_of_id, address_order_is_total, PeerAddress,
};
use crate::raknet::budget::{BudgetExceeded, RakNetBudgets};
use crate::raknet::error::{ControlFault, RakNetError, WireError};
use crate::raknet::peer::PeerState;
use crate::raknet::peer_model::{saturating_sum, PeerModel};
use crate::raknet::snapshot::{fault, largest_mtu, maximum_mtu, PeerSnapshot, ValidatedPeerSnapshot};
use crate::raknet::wire::{
    decode_offline_request, encode_incompatible_protocol, encode_open_connection_reply_1,
    encode_open_connection_reply_2, encode_unconnected_pong, incompatible_protocol,
    offline_request, open_connection_reply_1, open_connection_reply_2, unconnected_pong,
    OfflineRequest,
};
use crate::text::{append_decimal, append_signed_decimal, decimal, signed_decimal};
use vstd::prelude::*;
use vstd::string::*;
use vstd::utf8::encode_utf8;

verus! {

/// The mark of a server that is bound to a socket.
pub struct Bound;

/// The mark of a server that receives.
pub struct Serving;

/// The mark of a server that runs without receiving.
pub struct ReceivePaused;

/// The mark of a server that stands still.
pub struct Frozen;

/// How a server presents itself and what it keeps to.
pub struct ServerConfig {
    pub bind_addr: PeerAddress,
    pub motd: String,
    pub server_name: String,
    pub game_version: String,
    pub protocol_number: u32,
    pub raknet_version: u8,
    pub max_players: u32,
    pub online_players: u32,
    pub server_guid: i64,
    pub budgets: RakNetBudgets,
}

/// The checkpoints of the peers of a server.
pub struct ServerSnapshot {
    pub local_addr: PeerAddress,
    pub peers: Vec<PeerSnapshot>,
}

/// The port of an address.
pub open spec fn port_of(address: PeerAddress) -> u16 {
    match address {
        PeerAddress::V4 { port, .. } => port,
        PeerAddress::V6 { port, .. } => port,
    }
}

/// Whether an address leaves the host open.
pub open spec fn host_unspecified(address: PeerAddress) -> bool {
    match address {
        PeerAddress::V4 { ip, .. } => ip == 0,
        PeerAddress::V6 { high, low, .. } => high == 0 && low == 0,
    }
}

/// Whether two addresses name the same host.
pub open spec fn same_host(a: PeerAddress, b: PeerAddress) -> bool {
    match (a, b) {
        (PeerAddress::V4 { ip: x, .. }, PeerAddress::V4 { ip: y, .. }) => x == y,
        (PeerAddress::V6 { high: h, low: l, .. }, PeerAddress::V6 { high: i, low: m, .. }) => h == i
            && l == m,
        _ => false,
    }
}

/// Whether a socket at `local` serves a listener that was configured for `configured`.
pub open spec fn serves(configured: PeerAddress, local: PeerAddress) -> bool {
    &&& port_of(configured) == 0 || port_of(configured) == port_of(local)
    &&& host_unspecified(configured) || same_host(configured, local)
}

/// The advertisement of a server.
pub open spec fn advertisement(config: &ServerConfig) -> Seq<char> {
    "MCPE;"@ + config.motd@ + ";"@ + decimal(config.protocol_number as nat) + ";"@
        + config.game_version@ + ";"@ + decimal(config.online_players as nat) + ";"@ + decimal(
        config.max_players as nat,
    ) + ";"@ + signed_decimal(config.server_guid as int) + ";"@ + config.server_name@
        + ";Survival;1;"@ + decimal(port_of(config.bind_addr) as nat) + ";"@ + decimal(
        port_of(config.bind_addr) as nat,
    ) + ";"@
}

/// A datagram size, brought into the range that the budgets allow.
pub open spec fn clamped_mtu(budgets: RakNetBudgets, mtu: u16) -> u16 {
    if mtu < 576 {
        576
    } else if mtu > maximum_mtu(budgets) {
        maximum_mtu(budgets)
    } else {
        mtu
    }
}

impl ServerConfig {
    /// Checks that a socket is the one that was configured.
    pub fn check_socket(&self, local: PeerAddress) -> (result: Result<(), RakNetError>)
        ensures
            result is Ok == serves(self.bind_addr, local),
            result matches Err(e) ==> e == RakNetError::Wire(
                WireError::ListenerMismatch { local, configured: self.bind_addr },
            ),
    {
        let configured = self.bind_addr;
        let (port, unspecified): (u16, bool) = match configured {
            PeerAddress::V4 { ip, port } => (port, ip == 0),
            PeerAddress::V6 { high, low, port, .. } => (port, high == 0 && low == 0),
        };
        let local_port: u16 = match local {
            PeerAddress::V4 { port, .. } => port,
            PeerAddress::V6 { port, .. } => port,
        };
        let same = match (configured, local) {
            (PeerAddress::V4 { ip: x, .. }, PeerAddress::V4 { ip: y, .. }) => x == y,
            (PeerAddress::V6 { high: h, low: l, .. }, PeerAddress::V6 { high: i, low: m, .. }) => h
                == i && l == m,
            _ => false,
        };
        if (port != 0 && port != local_port) || (!unspecified && !same) {
            return Err(RakNetError::Wire(WireError::ListenerMismatch { local, configured }));
        }
        Ok(())
    }

    /// The advertisement of the server.
    pub fn motd(&self) -> (result: String)
        ensures
            result@ == advertisement(self),
    {
        let port: u16 = match self.bind_addr {
            PeerAddress::V4 { port, .. } => port,
            PeerAddress::V6 { port, .. } => port,
        };
        let mut text = "MCPE;".to_string();
        text.append(self.motd.as_str());
        text.append(";");
        append_decimal(&mut text, self.protocol_number as u64);
        text.append(";");
        text.append(self.game_version.as_str());
        text.append(";");
        append_decimal(&mut text, self.online_players as u64);
        text.append(";");
        append_decimal(&mut text, self.max_players as u64);
        text.append(";");
        append_signed_decimal(&mut text, self.server_guid);
        text.append(";");
        text.append(self.server_name.as_str());
        text.append(";Survival;1;");
        append_decimal(&mut text, port as u64);
        text.append(";");
        append_decimal(&mut text, port as u64);
        text.append(";");
        text
    }

    /// A datagram size, brought into the range that the budgets allow.
    pub fn clamp_mtu(&self, mtu: u16) -> (result: u16)
        ensures
            result == clamped_mtu(self.budgets, mtu),
    {
        let maximum: u16 = largest_mtu(self.budgets);
        if mtu < 576 {
            576
        } else if mtu > maximum {
            maximum
        } else {
            mtu
        }
    }
}

/// Why receiving on the socket failed.
#[derive(Clone, Copy, Debug, PartialEq, Eq, Structural)]
pub enum ReceiveFault {
    Interrupted,
    ConnectionReset,
    ConnectionRefused,
    Other,
}

/// Whether the router goes on receiving after a fault: those of one destination do not end it.
pub fn recoverable_udp_receive_error(kind: ReceiveFault) -> (result: bool)
    ensures
        result == (kind != ReceiveFault::Other),
{
    match kind {
        ReceiveFault::Interrupted
        | ReceiveFault::ConnectionReset
        | ReceiveFault::ConnectionRefused => true,
        ReceiveFault::Other => false,
    }
}

/// What became of a packet that was put into the mailbox of a peer.
#[derive(Clone, Copy, Debug, PartialEq, Eq, Structural)]
pub enum MailboxOutcome {
    Accepted,
    Full,
    Closed,
}

/// Whether a peer took a packet.
pub fn delivery_result(outcome: MailboxOutcome) -> (result: Result<(), ControlFault>)
    ensures
        result is Ok <==> outcome == MailboxOutcome::Accepted,
        outcome == MailboxOutcome::Full ==> result == Err::<(), ControlFault>(
            ControlFault::QueueFull,
        ),
        outcome == MailboxOutcome::Closed ==> result == Err::<(), ControlFault>(
            ControlFault::Closed,
        ),
{
    match outcome {
        MailboxOutcome::Accepted => Ok(()),
        MailboxOutcome::Full => Err(ControlFault::QueueFull),
        MailboxOutcome::Closed => Err(ControlFault::Closed),
    }
}

/// What the program has to do with a packet.
pub enum RouteAction {
    /// Nothing.
    Ignore,
    /// Send bytes back.
    Reply(Vec<u8>),
    /// Start a peer with a datagram size, then send bytes back.
    Open { mtu: u16, reply: Vec<u8> },
    /// Put the packet into the mailbox of the peer.
    Deliver,
    /// Nothing: the packet was at fault, and the peer is forgotten.
    Forget(RakNetError),
}

/// What a route says.
pub enum RouteView {
    Ignore,
    Reply(Seq<u8>),
    Open { mtu: u16, reply: Seq<u8> },
    Deliver,
    Forget(RakNetError),
}

impl View for RouteAction {
    type V = RouteView;

    open spec fn view(&self) -> RouteView {
        match self {
            RouteAction::Ignore => RouteView::Ignore,
            RouteAction::Reply(bytes) => RouteView::Reply(bytes@),
            RouteAction::Open { mtu, reply } => RouteView::Open { mtu: *mtu, reply: reply@ },
            RouteAction::Deliver => RouteView::Deliver,
            RouteAction::Forget(e) => RouteView::Forget(*e),
        }
    }
}

/// Whether the router or a session answers for a peer.
#[derive(Clone, Copy, Debug, PartialEq, Eq, Structural)]
pub struct PeerSlot {
    pub router_owned: bool,
}

impl View for PeerSlot {
    type V = bool;

    open spec fn view(&self) -> bool {
        self.router_owned
    }
}

/// The request to a router that is under way.
#[derive(Clone, Copy, Debug, PartialEq, Eq, Structural)]
pub enum PendingRequest {
    /// The peers are being resumed to receive again.
    ResumeReceive,
    /// The peers are being resumed to leave the freeze.
    Resume,
    /// The peers are being frozen.
    Freeze,
    /// The peers are being given up.
    Transfer,
    /// The peers are being resumed because freezing them failed.
    UndoFreeze { error: ControlFault },
    /// The peers are being frozen because resuming them failed.
    UndoResume { error: ControlFault },
}

/// A request to a router that carries nothing.
#[derive(Clone, Copy, Debug, PartialEq, Eq, Structural)]
pub enum RouterCommand {
    PauseReceive,
    ResumeReceive,
    Freeze,
    Resume,
    Transfer,
}

/// What the program has to do for a router.
pub enum RouterAction {
    /// Answer the request.
    Answer(Result<(), RakNetError>),
    /// Resume peers one after the other until one does not take it, and report.
    ResumePeers(Vec<PeerAddress>),
    /// Freeze and checkpoint peers, and report.
    FreezePeers(Vec<PeerAddress>),
    /// Give peers up, and report.
    TransferPeers(Vec<PeerAddress>),
    /// Answer the request and stop.
    AnswerAndStop,
}

/// What an action of a router says.
pub enum RouterActionView {
    Answer(Result<(), RakNetError>),
    ResumePeers(Seq<PeerAddress>),
    FreezePeers(Seq<PeerAddress>),
    TransferPeers(Seq<PeerAddress>),
    AnswerAndStop,
}

impl View for RouterAction {
    type V = RouterActionView;

    open spec fn view(&self) -> RouterActionView {
        match self {
            RouterAction::Answer(result) => RouterActionView::Answer(*result),
            RouterAction::ResumePeers(peers) => RouterActionView::ResumePeers(peers@),
            RouterAction::FreezePeers(peers) => RouterActionView::FreezePeers(peers@),
            RouterAction::TransferPeers(peers) => RouterActionView::TransferPeers(peers@),
            RouterAction::AnswerAndStop => RouterActionView::AnswerAndStop,
        }
    }
}

/// The state of a router: the identities of its peers with whether the router answers for them,
/// whether it stands still, whether it receives, and what is under way.
pub struct RouterModel {
    pub peers: Entries<bool>,
    pub frozen: bool,
    pub receive_paused: bool,
    pub pending: Option<PendingRequest>,
}

/// The peers from the place `i` on that the router answers for.
pub open spec fn owned_from(peers: Entries<bool>, i: int) -> Seq<PeerAddress>
    decreases peers.len() - i,
{
    if i < 0 || i >= peers.len() {
        Seq::empty()
    } else if peers[i].1 {
        seq![address_of(peers[i].0)] + owned_from(peers, i + 1)
    } else {
        owned_from(peers, i + 1)
    }
}

/// What freezing several peers came to: the first fault, if any, and the number of faults.
#[derive(Clone, Copy, Debug, PartialEq, Eq, Structural)]
pub struct FreezeReport {
    pub first: Option<ControlFault>,
    pub failures: usize,
}

/// A state of a router and what the program has to do next.
pub type RouterStep = (RouterModel, RouterActionView);

impl RouterModel {
    /// Whether the router waits for nothing but requests.
    pub open spec fn withheld(self) -> bool {
        self.frozen || self.receive_paused
    }

    /// The peers that the router answers for.
    pub open spec fn owned(self) -> Seq<PeerAddress> {
        owned_from(self.peers, 0)
    }

    /// With a request under way.
    pub open spec fn awaiting(self, request: PendingRequest) -> RouterModel {
        RouterModel { pending: Some(request), ..self }
    }

    /// With no request under way.
    pub open spec fn settled(self) -> RouterModel {
        RouterModel { pending: None, ..self }
    }

    /// Without a peer.
    pub open spec fn without(self, address: PeerAddress) -> RouterModel {
        RouterModel { peers: removed(self.peers, address.id()), ..self }
    }

    /// With a peer.
    pub open spec fn with(self, address: PeerAddress, router_owned: bool) -> RouterModel {
        RouterModel { peers: inserted(self.peers, address.id(), router_owned), ..self }
    }

    /// After a request.
    pub open spec fn on_command(self, command: RouterCommand) -> RouterStep {
        match command {
            RouterCommand::PauseReceive => (
                RouterModel { receive_paused: true, ..self },
                RouterActionView::Answer(Ok(())),
            ),
            RouterCommand::ResumeReceive => if self.withheld() {
                (
                    self.awaiting(PendingRequest::ResumeReceive),
                    RouterActionView::ResumePeers(self.owned()),
                )
            } else {
                (self, RouterActionView::Answer(Ok(())))
            },
            RouterCommand::Freeze => if self.frozen {
                (
                    self,
                    RouterActionView::Answer(
                        Err(
                            fault(
                                "a repeated server freeze must reuse the snapshot held by RakNetServer<Frozen>",
                            ),
                        ),
                    ),
                )
            } else {
                (
                    self.awaiting(PendingRequest::Freeze),
                    RouterActionView::FreezePeers(self.owned()),
                )
            },
            RouterCommand::Resume => if self.withheld() {
                (
                    self.awaiting(PendingRequest::Resume),
                    RouterActionView::ResumePeers(self.owned()),
                )
            } else {
                (self, RouterActionView::Answer(Ok(())))
            },
            RouterCommand::Transfer => (
                self.awaiting(PendingRequest::Transfer),
                RouterActionView::TransferPeers(self.owned()),
            ),
        }
    }

    /// After peers have been resumed, up to the first that did not take it.
    pub open spec fn on_resumed(self, failure: Option<ControlFault>) -> RouterStep {
        match (self.pending, failure) {
            (Some(PendingRequest::ResumeReceive), None) => (
                RouterModel { receive_paused: false, ..self.settled() },
                RouterActionView::Answer(Ok(())),
            ),
            (Some(PendingRequest::Resume), None) => (
                RouterModel { frozen: false, receive_paused: false, ..self.settled() },
                RouterActionView::Answer(Ok(())),
            ),
            (Some(PendingRequest::UndoFreeze { error }), None) => (
                self.settled(),
                RouterActionView::Answer(Err(error.spec_error())),
            ),
            (Some(PendingRequest::UndoFreeze { error }), Some(compensation)) => (
                self.settled(),
                RouterActionView::Answer(
                    Err(RakNetError::Wire(WireError::FreezeCompensation { error, compensation })),
                ),
            ),
            (_, Some(error)) => (
                self.awaiting(PendingRequest::UndoResume { error }),
                RouterActionView::FreezePeers(self.owned()),
            ),
            (_, None) => (self.settled(), RouterActionView::Answer(Ok(()))),
        }
    }

    /// After peers have been frozen.
    pub open spec fn on_frozen(self, report: FreezeReport) -> RouterStep {
        match (self.pending, report.first) {
            (Some(PendingRequest::UndoResume { error }), None) => (
                self.settled(),
                RouterActionView::Answer(Err(error.spec_error())),
            ),
            (Some(PendingRequest::UndoResume { error }), Some(_)) => (
                self.settled(),
                RouterActionView::Answer(
                    Err(
                        RakNetError::Wire(
                            WireError::ResumeCompensation { error, failures: report.failures },
                        ),
                    ),
                ),
            ),
            (_, None) => (
                RouterModel { frozen: true, ..self.settled() },
                RouterActionView::Answer(Ok(())),
            ),
            (_, Some(error)) => (
                self.awaiting(PendingRequest::UndoFreeze { error }),
                RouterActionView::ResumePeers(self.owned()),
            ),
        }
    }

    /// After peers have been given up.
    pub open spec fn on_transferred(self, failure: Option<ControlFault>) -> RouterStep {
        match failure {
            None => (self.settled(), RouterActionView::AnswerAndStop),
            Some(error) => (self.settled(), RouterActionView::Answer(Err(error.spec_error()))),
        }
    }

    /// After an offline message.
    pub open spec fn on_offline(
        self,
        config: &ServerConfig,
        from: PeerAddress,
        request: OfflineRequest,
    ) -> (RouterModel, RouteView) {
        match request {
            OfflineRequest::Ping { time } => {
                let motd = encode_utf8(advertisement(config));
                if motd.len() > 0xffff {
                    (
                        self.without(from),
                        RouteView::Forget(fault("raknet pong motd exceeded u16 length")),
                    )
                } else {
                    (self, RouteView::Reply(unconnected_pong(time, config.server_guid, motd)))
                }
            },
            OfflineRequest::OpenConnection1 { protocol, mtu } => (
                self,
                RouteView::Reply(
                    if protocol == config.raknet_version {
                        open_connection_reply_1(
                            config.server_guid,
                            clamped_mtu(config.budgets, mtu),
                        )
                    } else {
                        incompatible_protocol(config.raknet_version, config.server_guid)
                    },
                ),
            ),
            OfflineRequest::OpenConnection2 { mtu, .. } => {
                let size = clamped_mtu(config.budgets, mtu);
                let reply = open_connection_reply_2(config.server_guid, from, size);
                if holds(self.peers, from.id()) {
                    (self, RouteView::Reply(reply))
                } else if self.peers.len() >= config.budgets.max_peers {
                    (self.without(from), RouteView::Forget(too_many(self.peers.len(), 1, config)))
                } else {
                    (self.with(from, true), RouteView::Open { mtu: size, reply })
                }
            },
        }
    }

    /// After a packet.
    pub open spec fn on_packet(
        self,
        config: &ServerConfig,
        from: PeerAddress,
        bytes: Seq<u8>,
    ) -> (RouterModel, RouteView) {
        match offline_request(bytes) {
            Err(e) => (self.without(from), RouteView::Forget(e)),
            Ok(Some(request)) => self.on_offline(config, from, request),
            Ok(None) => if holds(self.peers, from.id()) {
                (self, RouteView::Deliver)
            } else {
                (self, RouteView::Ignore)
            },
        }
    }
}

/// The error of a server that would have more peers than it may.
pub open spec fn too_many(have: nat, more: nat, config: &ServerConfig) -> RakNetError {
    RakNetError::Budget(
        BudgetExceeded {
            resource: "raknet peers",
            requested: saturating_sum(have as usize, more),
            limit: config.budgets.max_peers,
        },
    )
}

/// A peer that goes on from a checkpoint.
pub struct ImportedPeer {
    pub address: PeerAddress,
    /// Whether the handshake of the peer is complete, so that a session answers for it.
    pub accepted: bool,
    pub actor: PeerActor,
}

/// What an imported peer is.
pub struct ImportedView {
    pub address: PeerAddress,
    pub accepted: bool,
    pub actor: ActorModel,
}

impl View for ImportedPeer {
    type V = ImportedView;

    open spec fn view(&self) -> ImportedView {
        ImportedView { address: self.address, accepted: self.accepted, actor: self.actor@ }
    }
}

/// The peer that goes on, standing still, from a checkpoint.
pub open spec fn imported_view(s: ValidatedPeerSnapshot, now: u64) -> ImportedView {
    ImportedView {
        address: s.checkpoint.remote_addr,
        accepted: s.checkpoint.accepted,
        actor: ActorModel {
            peer: PeerModel::restored(s.checkpoint@, s.budgets, now),
            execution: PeerExecution::Frozen { since: now },
            deferred: Seq::empty(),
        },
    }
}

/// The peers that go on from checkpoints, under their identities.
pub open spec fn import_entries(list: Seq<ValidatedPeerSnapshot>, now: u64) -> Entries<
    ImportedView,
> {
    list.map_values(
        |s: ValidatedPeerSnapshot| (s.checkpoint.remote_addr.id(), imported_view(s, now)),
    )
}

/// The table of peers with those of checkpoints added: the router answers for the ones whose
/// handshake is not complete.
pub open spec fn joined_by(peers: Entries<bool>, list: Seq<ValidatedPeerSnapshot>) -> Entries<bool>
    decreases list.len(),
{
    if list.len() == 0 {
        peers
    } else {
        inserted(
            joined_by(peers, list.drop_last()),
            list.last().checkpoint.remote_addr.id(),
            !list.last().checkpoint.accepted,
        )
    }
}

/// Whether the address of some checkpoint is known already or occurs before among them.
pub open spec fn clashes(
    peers: Entries<bool>,
    list: Seq<ValidatedPeerSnapshot>,
    address: PeerAddress,
) -> bool {
    exists|i: int|
        0 <= i < list.len() && (#[trigger] list[i]).checkpoint.remote_addr == address && (holds(
            peers,
            address.id(),
        ) || exists|j: int| 0 <= j < i && (#[trigger] list[j]).checkpoint.remote_addr == address)
}

/// Whether an address is the first that clashes.
pub open spec fn first_clash(
    peers: Entries<bool>,
    list: Seq<ValidatedPeerSnapshot>,
    address: PeerAddress,
) -> bool {
    &&& clashes(peers, list, address)
    &&& forall|other: PeerAddress| #[trigger]
        clashes(peers, list, other) ==> !other.before(address)
}

/// What imported peers are.
pub open spec fn imported_views(imported: Seq<ImportedPeer>) -> Seq<ImportedView> {
    imported.map_values(|peer: ImportedPeer| peer@)
}

/// What the keys of entries lead to.
pub open spec fn values<W>(entries: Entries<W>) -> Seq<W> {
    entries.map_values(|entry: (Seq<int>, W)| entry.1)
}

/// What keeps checkpoints from being imported.
pub open spec fn import_fault(
    peers: Entries<bool>,
    list: Seq<ValidatedPeerSnapshot>,
    config: &ServerConfig,
) -> Option<RakNetError> {
    if exists|i: int| 0 <= i < list.len() && (#[trigger] list[i]).budgets != config.budgets {
        Some(fault("RakNet peer checkpoint was validated for different resource budgets"))
    } else if saturating_sum(peers.len() as usize, list.len()) > config.budgets.max_peers {
        Some(too_many(peers.len(), list.len(), config))
    } else if exists|address: PeerAddress| clashes(peers, list, address) {
        Some(
            RakNetError::Wire(
                WireError::DuplicatePeer(
                    choose|address: PeerAddress| first_clash(peers, list, address),
                ),
            ),
        )
    } else {
        None
    }
}

/// A router after importing checkpoints, and the peers that go on from them, or why there are
/// none.
pub open spec fn import_step(
    router: RouterModel,
    list: Seq<ValidatedPeerSnapshot>,
    config: &ServerConfig,
    now: u64,
) -> (RouterModel, Result<Seq<ImportedView>, RakNetError>) {
    if !router.withheld() {
        (router, Err(fault("peer checkpoints require a receive-paused router")))
    } else {
        match import_fault(router.peers, list, config) {
            Some(e) => (router, Err(e)),
            None => (
                RouterModel { peers: joined_by(router.peers, list), ..router },
                Ok(values(gathered(import_entries(list, now)))),
            ),
        }
    }
}

proof fn clash_step(peers: Entries<bool>, list: Seq<ValidatedPeerSnapshot>, i: int)
    requires
        0 <= i < list.len(),
    ensures
        forall|address: PeerAddress|
            #![trigger clashes(peers, list.subrange(0, i + 1), address)]
            #![trigger clashes(peers, list.subrange(0, i), address)]
            clashes(peers, list.subrange(0, i + 1), address) <==> (clashes(
                peers,
                list.subrange(0, i),
                address,
            ) || (list[i].checkpoint.remote_addr == address && (holds(
                peers,
                address.id(),
            ) || exists|j: int|
                0 <= j < i && (#[trigger] list[j]).checkpoint.remote_addr == address))),
{
    let before = list.subrange(0, i);
    let after = list.subrange(0, i + 1);
    assert forall|address: PeerAddress|
        #![trigger clashes(peers, after, address)]
        #![trigger clashes(peers, before, address)]
        clashes(peers, after, address) <==> (clashes(peers, before, address) || (
        list[i].checkpoint.remote_addr == address && (holds(peers, address.id()) || exists|
            j: int,
        |
            0 <= j < i && (#[trigger] list[j]).checkpoint.remote_addr == address))) by {
        if clashes(peers, before, address) {
            let k = choose|k: int|
                0 <= k < before.len() && (#[trigger] before[k]).checkpoint.remote_addr
                    == address && (holds(peers, address.id()) || exists|j: int|
                    0 <= j < k && (#[trigger] before[j]).checkpoint.remote_addr == address);
            assert(after[k] == before[k]);
            if !holds(peers, address.id()) {
                let j = choose|j: int|
                    0 <= j < k && (#[trigger] before[j]).checkpoint.remote_addr == address;
                assert(after[j] == before[j]);
            }
        }
        if clashes(peers, after, address) {
            let k = choose|k: int|
                0 <= k < after.len() && (#[trigger] after[k]).checkpoint.remote_addr == address
                    && (holds(peers, address.id()) || exists|j: int|
                    0 <= j < k && (#[trigger] after[j]).checkpoint.remote_addr == address);
            if k < i {
                assert(before[k] == after[k]);
            }
            if !holds(peers, address.id()) {
                let j = choose|j: int|
                    0 <= j < k && (#[trigger] after[j]).checkpoint.remote_addr == address;
                assert(list[j] == after[j]);
                assert(before[j] == after[j]);
            }
        }
        if list[i].checkpoint.remote_addr == address {
            assert(after[i] == list[i]);
            if exists|j: int|
                0 <= j < i && (#[trigger] list[j]).checkpoint.remote_addr == address {
                let j = choose|j: int|
                    0 <= j < i && (#[trigger] list[j]).checkpoint.remote_addr == address;
                assert(after[j] == list[j]);
            }
        }
    }
}

/// A router.
pub struct Router {
    config: ServerConfig,
    peers: OrderedMap<PeerAddress, PeerSlot>,
    frozen: bool,
    receive_paused: bool,
    pending: Option<PendingRequest>,
}

impl View for Router {
    type V = RouterModel;

    closed spec fn view(&self) -> RouterModel {
        RouterModel {
            peers: self.peers@,
            frozen: self.frozen,
            receive_paused: self.receive_paused,
            pending: self.pending,
        }
    }
}

impl Router {
    /// Whether the table of peers is in order.
    pub closed spec fn wf(&self) -> bool {
        self.peers.wf()
    }

    /// The table of peers stands in order and can be counted.
    pub proof fn peers_are_in_order(&self)
        requires
            self.wf(),
        ensures
            sorted(self@.peers),
            self@.peers.len() <= usize::MAX,
    {
        self.peers.len_fits();
    }

    /// How the server presents itself and what it keeps to.
    pub closed spec fn spec_config(&self) -> ServerConfig {
        self.config
    }

    /// A router without peers.
    pub fn new(config: ServerConfig, receive_paused: bool) -> (result: Self)
        ensures
            result.wf(),
            result.spec_config() == config,
            result@ == (RouterModel {
                peers: Seq::empty(),
                frozen: false,
                receive_paused,
                pending: None,
            }),
    {
        Router { config, peers: OrderedMap::new(), frozen: false, receive_paused, pending: None }
    }

    /// How the server presents itself and what it keeps to.
    pub fn config(&self) -> (result: &ServerConfig)
        ensures
            *result == self.spec_config(),
    {
        &self.config
    }

    /// Whether nothing but requests is to be waited for.
    pub fn withheld(&self) -> (result: bool)
        ensures
            result == self@.withheld(),
    {
        self.frozen || self.receive_paused
    }

    fn owned(&self) -> (result: Vec<PeerAddress>)
        ensures
            result@ == self@.owned(),
    {
        broadcast use address_of_id;

        let ghost all = self.peers@;
        let mut result: Vec<PeerAddress> = Vec::new();
        let mut i: usize = 0;
        assert(result@ + owned_from(all, 0) =~= owned_from(all, 0));
        while i < self.peers.len()
            invariant
                i <= all.len(),
                all == self.peers@,
                owned_from(all, 0) == result@ + owned_from(all, i as int),
            decreases all.len() - i,
        {
            let ghost before = result@;
            if self.peers.at(i).router_owned {
                let address = *self.peers.key(i);
                result.push(address);
                assert(before + (seq![address] + owned_from(all, i + 1)) =~= result@ + owned_from(
                    all,
                    i + 1,
                ));
            }
            i += 1;
        }
        assert(result@ + Seq::<PeerAddress>::empty() =~= result@);
        result
    }

    /// Handles a request that carries nothing.
    pub fn on_command(&mut self, command: RouterCommand) -> (action: RouterAction)
        requires
            old(self).wf(),
            old(self)@.pending is None,
        ensures
            final(self).wf(),
            final(self).spec_config() == old(self).spec_config(),
            (final(self)@, action@) == old(self)@.on_command(command),
    {
        match command {
            RouterCommand::PauseReceive => {
                self.receive_paused = true;
                RouterAction::Answer(Ok(()))
            },
            RouterCommand::ResumeReceive => {
                if !self.withheld() {
                    return RouterAction::Answer(Ok(()));
                }
                self.pending = Some(PendingRequest::ResumeReceive);
                RouterAction::ResumePeers(self.owned())
            },
            RouterCommand::Freeze => {
                if self.frozen {
                    return RouterAction::Answer(
                        Err(
                            RakNetError::Wire(
                                WireError::Fault(
                                    "a repeated server freeze must reuse the snapshot held by RakNetServer<Frozen>",
                                ),
                            ),
                        ),
                    );
                }
                self.pending = Some(PendingRequest::Freeze);
                RouterAction::FreezePeers(self.owned())
            },
            RouterCommand::Resume => {
                if !self.withheld() {
                    return RouterAction::Answer(Ok(()));
                }
                self.pending = Some(PendingRequest::Resume);
                RouterAction::ResumePeers(self.owned())
            },
            RouterCommand::Transfer => {
                self.pending = Some(PendingRequest::Transfer);
                RouterAction::TransferPeers(self.owned())
            },
        }
    }

    /// Handles the report that peers have been resumed, up to the first that did not take it.
    pub fn on_resumed(&mut self, failure: Option<ControlFault>) -> (action: RouterAction)
        requires
            old(self).wf(),
            old(self)@.pending matches Some(request) && (request is ResumeReceive || request
                is Resume || request is UndoFreeze),
        ensures
            final(self).wf(),
            final(self).spec_config() == old(self).spec_config(),
            (final(self)@, action@) == old(self)@.on_resumed(failure),
    {
        match (self.pending, failure) {
            (Some(PendingRequest::UndoFreeze { error }), None) => {
                self.pending = None;
                RouterAction::Answer(Err(error.error()))
            },
            (Some(PendingRequest::UndoFreeze { error }), Some(compensation)) => {
                self.pending = None;
                RouterAction::Answer(
                    Err(RakNetError::Wire(WireError::FreezeCompensation { error, compensation })),
                )
            },
            (_, Some(error)) => {
                self.pending = Some(PendingRequest::UndoResume { error });
                RouterAction::FreezePeers(self.owned())
            },
            (Some(PendingRequest::Resume), None) => {
                self.pending = None;
                self.frozen = false;
                self.receive_paused = false;
                RouterAction::Answer(Ok(()))
            },
            (_, None) => {
                self.pending = None;
                self.receive_paused = false;
                RouterAction::Answer(Ok(()))
            },
        }
    }

    /// Handles the report that peers have been frozen.
    pub fn on_frozen(&mut self, report: FreezeReport) -> (action: RouterAction)
        requires
            old(self).wf(),
            old(self)@.pending matches Some(request) && (request is Freeze || request
                is UndoResume),
        ensures
            final(self).wf(),
            final(self).spec_config() == old(self).spec_config(),
            (final(self)@, action@) == old(self)@.on_frozen(report),
    {
        match (self.pending, report.first) {
            (Some(PendingRequest::UndoResume { error }), None) => {
                self.pending = None;
                RouterAction::Answer(Err(error.error()))
            },
            (Some(PendingRequest::UndoResume { error }), Some(_)) => {
                self.pending = None;
                RouterAction::Answer(
                    Err(
                        RakNetError::Wire(
                            WireError::ResumeCompensation { error, failures: report.failures },
                        ),
                    ),
                )
            },
            (_, None) => {
                self.pending = None;
                self.frozen = true;
                RouterAction::Answer(Ok(()))
            },
            (_, Some(error)) => {
                self.pending = Some(PendingRequest::UndoFreeze { error });
                RouterAction::ResumePeers(self.owned())
            },
        }
    }

    /// Gives up a freeze whose peers stand still, because the server does not know its address:
    /// the router is not frozen, and the peers stay as they are.
    pub fn on_address_lost(&mut self)
        requires
            old(self).wf(),
            old(self)@.pending == Some(PendingRequest::Freeze),
        ensures
            final(self).wf(),
            final(self).spec_config() == old(self).spec_config(),
            final(self)@ == old(self)@.settled(),
    {
        self.pending = None;
    }

    /// Handles the report that peers have been given up.
    pub fn on_transferred(&mut self, failure: Option<ControlFault>) -> (action: RouterAction)
        requires
            old(self).wf(),
            old(self)@.pending == Some(PendingRequest::Transfer),
        ensures
            final(self).wf(),
            final(self).spec_config() == old(self).spec_config(),
            (final(self)@, action@) == old(self)@.on_transferred(failure),
    {
        self.pending = None;
        match failure {
            None => RouterAction::AnswerAndStop,
            Some(error) => RouterAction::Answer(Err(error.error())),
        }
    }

    /// Forgets a peer that is gone.
    pub fn on_closed(&mut self, address: PeerAddress)
        requires
            old(self).wf(),
        ensures
            final(self).wf(),
            final(self).spec_config() == old(self).spec_config(),
            final(self)@ == old(self)@.without(address),
    {
        self.peers.remove(&address);
    }

    /// Notes that a session answers for a peer from now on.
    pub fn on_claimed(&mut self, address: PeerAddress)
        requires
            old(self).wf(),
        ensures
            final(self).wf(),
            final(self).spec_config() == old(self).spec_config(),
            final(self)@ == if holds(old(self)@.peers, address.id()) {
                old(self)@.with(address, false)
            } else {
                old(self)@
            },
    {
        if self.peers.contains(&address) {
            self.peers.insert(address, PeerSlot { router_owned: false });
        }
    }

    /// Handles what became of a packet for a peer: a peer that is gone is forgotten.
    pub fn on_delivery(&mut self, address: PeerAddress, outcome: MailboxOutcome)
        requires
            old(self).wf(),
        ensures
            final(self).wf(),
            final(self).spec_config() == old(self).spec_config(),
            final(self)@ == if outcome == MailboxOutcome::Closed {
                old(self)@.without(address)
            } else {
                old(self)@
            },
    {
        match delivery_result(outcome) {
            Ok(_) | Err(ControlFault::QueueFull) => {},
            Err(ControlFault::Closed) => {
                self.peers.remove(&address);
            },
        }
    }

    fn handle_offline(&mut self, from: PeerAddress, request: OfflineRequest) -> (action:
        RouteAction)
        requires
            old(self).wf(),
        ensures
            final(self).wf(),
            final(self).spec_config() == old(self).spec_config(),
            (final(self)@, action@) == old(self)@.on_offline(
                &old(self).spec_config(),
                from,
                request,
            ),
    {
        match request {
            OfflineRequest::Ping { time } => {
                let motd = self.config.motd();
                match encode_unconnected_pong(time, self.config.server_guid, motd.as_str()) {
                    Ok(reply) => RouteAction::Reply(reply),
                    Err(e) => {
                        self.peers.remove(&from);
                        RouteAction::Forget(e)
                    },
                }
            },
            OfflineRequest::OpenConnection1 { protocol, mtu } => {
                if protocol == self.config.raknet_version {
                    RouteAction::Reply(
                        encode_open_connection_reply_1(
                            self.config.server_guid,
                            self.config.clamp_mtu(mtu),
                        ),
                    )
                } else {
                    RouteAction::Reply(
                        encode_incompatible_protocol(
                            self.config.raknet_version,
                            self.config.server_guid,
                        ),
                    )
                }
            },
            OfflineRequest::OpenConnection2 { mtu, .. } => {
                let size: u16 = self.config.clamp_mtu(mtu);
                let reply = encode_open_connection_reply_2(self.config.server_guid, from, size);
                if self.peers.contains(&from) {
                    return RouteAction::Reply(reply);
                }
                let limit: usize = self.config.budgets.max_peers;
                if self.peers.len() >= limit {
                    let requested: usize = self.peers.len().saturating_add(1);
                    self.peers.remove(&from);
                    return RouteAction::Forget(
                        RakNetError::Budget(
                            BudgetExceeded { resource: "raknet peers", requested, limit },
                        ),
                    );
                }
                self.peers.insert(from, PeerSlot { router_owned: true });
                RouteAction::Open { mtu: size, reply }
            },
        }
    }

    /// Handles a packet.
    pub fn on_packet(&mut self, from: PeerAddress, bytes: &[u8]) -> (action: RouteAction)
        requires
            old(self).wf(),
        ensures
            final(self).wf(),
            final(self).spec_config() == old(self).spec_config(),
            (final(self)@, action@) == old(self)@.on_packet(
                &old(self).spec_config(),
                from,
                bytes@,
            ),
    {
        match decode_offline_request(bytes) {
            Err(e) => {
                self.peers.remove(&from);
                RouteAction::Forget(e)
            },
            Ok(Some(request)) => self.handle_offline(from, request),
            Ok(None) => if self.peers.contains(&from) {
                RouteAction::Deliver
            } else {
                RouteAction::Ignore
            },
        }
    }

    fn find_clash(&self, list: &Vec<ValidatedPeerSnapshot>) -> (result: Option<PeerAddress>)
        requires
            self.wf(),
        ensures
            match result {
                Some(address) => first_clash(self@.peers, list@, address),
                None => forall|address: PeerAddress| !clashes(self@.peers, list@, address),
            },
    {
        let ghost peers = self.peers@;
        let mut seen: OrderedMap<PeerAddress, PeerSlot> = OrderedMap::new();
        let mut least: Option<PeerAddress> = None;
        let mut i: usize = 0;
        assert(list@.subrange(0, 0).len() == 0);
        while i < list.len()
            invariant
                self.wf(),
                peers == self.peers@,
                i <= list@.len(),
                seen.wf(),
                forall|address: PeerAddress| #[trigger]
                    holds(seen@, address.id()) <==> exists|j: int|
                        0 <= j < i && (#[trigger] list@[j]).checkpoint.remote_addr == address,
                match least {
                    Some(address) => first_clash(peers, list@.subrange(0, i as int), address),
                    None => forall|address: PeerAddress|
                        !clashes(peers, list@.subrange(0, i as int), address),
                },
            decreases list@.len() - i,
        {
            let address = list[i].remote_addr();
            let ghost old_seen = seen@;
            let clash = self.peers.contains(&address) || seen.contains(&address);
            let ghost before = list@.subrange(0, i as int);
            let ghost after = list@.subrange(0, i + 1);
            proof {
                clash_step(peers, list@, i as int);
            }
            let ghost old_least = least;
            assert(clash ==> clashes(peers, after, address)) by {
                if clash && !holds(peers, address.id()) {
                    assert(holds(seen@, address.id()));
                }
            }
            assert(clashes(peers, after, address) ==> clash || clashes(peers, before, address));
            if clash {
                least = match least {
                    None => Some(address),
                    Some(other) => if address.is_before(&other) {
                        Some(address)
                    } else {
                        Some(other)
                    },
                };
                proof {
                    assert forall|other: PeerAddress| #[trigger]
                        clashes(peers, after, other) implies !other.before(least->Some_0) by {
                        address_order_is_total(other, other, other);
                        if old_least is Some {
                            assert(clashes(peers, before, other) ==> !other.before(
                                old_least->Some_0,
                            ));
                            address_order_is_total(other, address, old_least->Some_0);
                        }
                    }
                    assert(clashes(peers, after, least->Some_0));
                    assert(first_clash(peers, after, least->Some_0));
                }
            }
            seen.insert(address, PeerSlot { router_owned: false });
            proof {
                assert forall|other: PeerAddress| #[trigger]
                    holds(seen@, other.id()) <==> exists|j: int|
                        0 <= j < i + 1 && (#[trigger] list@[j]).checkpoint.remote_addr == other by {
                    crate::ordered::insert_laws(old_seen, address.id(), false, other.id());
                    if other.id() == address.id() {
                        address_identity(other, address);
                        assert(list@[i as int].checkpoint.remote_addr == other);
                    } else {
                        assert(holds(seen@, other.id()) == (lookup(seen@, other.id()) is Some));
                        assert(holds(old_seen, other.id()) == (lookup(old_seen, other.id())
                            is Some));
                    }
                }
            }
            i += 1;
        }
        assert(list@.subrange(0, list@.len() as int) =~= list@);
        least
    }

    /// Takes up peers from checkpoints, in the order of their addresses, or none of them. Only a
    /// router that does not receive does so.
    pub fn import_peers(&mut self, snapshots: Vec<ValidatedPeerSnapshot>, now: u64) -> (result:
        Result<Vec<ImportedPeer>, RakNetError>)
        requires
            old(self).wf(),
            forall|i: int| 0 <= i < snapshots@.len() ==> (#[trigger] snapshots@[i]).wf(),
        ensures
            final(self).wf(),
            final(self).spec_config() == old(self).spec_config(),
            ({
                let (after, imported) = import_step(
                    old(self)@,
                    snapshots@,
                    &old(self).spec_config(),
                    now,
                );
                &&& final(self)@ == after
                &&& match imported {
                    Ok(peers) => result matches Ok(imported) && imported_views(imported@) == peers,
                    Err(e) => result == Err::<Vec<ImportedPeer>, RakNetError>(e),
                }
            }),
    {
        if !self.withheld() {
            return Err(
                RakNetError::Wire(
                    WireError::Fault("peer checkpoints require a receive-paused router"),
                ),
            );
        }
        let mut i: usize = 0;
        while i < snapshots.len()
            invariant
                i <= snapshots@.len(),
                self@ == old(self)@,
                self.wf(),
                self.spec_config() == old(self).spec_config(),
                old(self)@.withheld(),
                forall|j: int|
                    0 <= j < i ==> (#[trigger] snapshots@[j]).budgets
                        == self.spec_config().budgets,
            decreases snapshots@.len() - i,
        {
            if snapshots[i].budgets() != self.config.budgets {
                return Err(
                    RakNetError::Wire(
                        WireError::Fault(
                            "RakNet peer checkpoint was validated for different resource budgets",
                        ),
                    ),
                );
            }
            i += 1;
        }
        let requested: usize = self.peers.len().saturating_add(snapshots.len());
        let limit: usize = self.config.budgets.max_peers;
        if requested > limit {
            return Err(
                RakNetError::Budget(BudgetExceeded { resource: "raknet peers", requested, limit }),
            );
        }
        if let Some(address) = self.find_clash(&snapshots) {
            proof {
                let chosen = choose|a: PeerAddress| first_clash(self@.peers, snapshots@, a);
                assert(first_clash(self@.peers, snapshots@, chosen));
                address_order_is_total(address, chosen, chosen);
            }
            return Err(RakNetError::Wire(WireError::DuplicatePeer(address)));
        }
        let ghost entries = import_entries(snapshots@, now);
        let mut waiting = reversed(snapshots);
        let mut imported: OrderedMap<PeerAddress, ImportedPeer> = OrderedMap::new();
        let ghost mut k: int = 0;
        assert(entries.subrange(0, 0) =~= Seq::empty());
        assert(snapshots@.subrange(0, 0) =~= Seq::empty());
        while waiting.len() > 0
            invariant
                self.wf(),
                self.spec_config() == old(self).spec_config(),
                imported.wf(),
                0 <= k <= snapshots@.len(),
                waiting@.len() == snapshots@.len() - k,
                entries == import_entries(snapshots@, now),
                forall|j: int|
                    0 <= j < waiting@.len() ==> #[trigger] waiting@[j]
                        == snapshots@[snapshots@.len() - 1 - j],
                forall|j: int| 0 <= j < snapshots@.len() ==> (#[trigger] snapshots@[j]).wf(),
                imported@ == gathered(entries.subrange(0, k)),
                self@ == (RouterModel {
                    peers: joined_by(old(self)@.peers, snapshots@.subrange(0, k)),
                    ..old(self)@
                }),
            decreases waiting@.len(),
        {
            if let Some(snapshot) = waiting.pop() {
                assert(snapshot == snapshots@[k]);
                let address = snapshot.remote_addr();
                let accepted = snapshot.checkpoint.accepted;
                let ghost given = snapshot;
                let state = PeerState::from_validated_snapshot(snapshot, now);
                let actor = PeerActor::frozen(state, now);
                proof {
                    assert(entries[k] == (address.id(), imported_view(given, now)));
                    assert(entries.subrange(0, k + 1).drop_last() =~= entries.subrange(0, k));
                    assert(snapshots@.subrange(0, k + 1).drop_last() =~= snapshots@.subrange(0, k));
                    k = k + 1;
                }
                imported.insert(address, ImportedPeer { address, accepted, actor });
                self.peers.insert(address, PeerSlot { router_owned: !accepted });
            }
        }
        assert(entries.subrange(0, entries.len() as int) =~= entries);
        assert(snapshots@.subrange(0, snapshots@.len() as int) =~= snapshots@);
        let result = imported.into_values();
        assert(imported_views(result@) =~= values(imported@));
        Ok(result)
    }

}

} // verus!
