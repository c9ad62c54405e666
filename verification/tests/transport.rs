//! The transport: sequence numbers, packets, peers and the router.

use revycraft::raknet::actor::{PeerActor, PeerCommand, PeerFate, PeerReply, PeerWait};
use revycraft::raknet::address::PeerAddress;
use revycraft::raknet::budget::{BudgetExceeded, RakNetBudgets};
use revycraft::raknet::error::{ControlFault, RakNetError, WireError};
use revycraft::raknet::inbox::PeerInbox;
use revycraft::raknet::peer::{PeerAction, PeerState};
use revycraft::raknet::sequence::{
    DatagramSequence, OrderSequence, ReliableSequence, MODULUS,
};
use revycraft::raknet::server::{
    delivery_result, recoverable_udp_receive_error, FreezeReport, MailboxOutcome, ReceiveFault,
    RouteAction, Router, RouterAction, RouterCommand, ServerConfig,
};
use revycraft::raknet::snapshot::{
    validate_peer_snapshots, PeerSnapshot, UnackedDatagramSnapshot,
};
use revycraft::raknet::timing::{
    retransmit_delay, PeerActivity, MAX_RETRANSMIT_ATTEMPTS, MILLISECOND, PEER_TIMEOUT,
};
use revycraft::raknet::window::DuplicateWindow;
use revycraft::raknet::wire::{
    decode_acknowledgement, decode_datagram, decode_offline_request, encode_ack, encode_datagram,
    encode_nack, Acknowledgement, Frame, OfflineRequest, Reliability, SplitHeader,
};

const SECOND: u64 = 1_000 * MILLISECOND;

fn millis(count: u64) -> u64 {
    count * MILLISECOND
}

fn remote(port: u16) -> PeerAddress {
    PeerAddress::V4 { ip: 0x7f00_0001, port }
}

fn peer_snapshot(remote_addr: PeerAddress) -> PeerSnapshot {
    PeerSnapshot {
        remote_addr,
        mtu: 1_200,
        accepted: true,
        next_datagram: DatagramSequence::default(),
        next_reliable: ReliableSequence::default(),
        next_ordered: OrderSequence::default(),
        next_split_id: 0,
        last_datagram: None,
        seen_datagram_order: Vec::new(),
        seen_reliable_order: Vec::new(),
        ordered_expected: Vec::new(),
        sequenced_latest: Vec::new(),
        queued_payloads: Vec::new(),
        unacked_datagrams: Vec::new(),
        reassembly: Vec::new(),
        ordered_holdback: Vec::new(),
        timeout_remaining: 10 * SECOND,
    }
}

fn accepted_peer(budgets: RakNetBudgets, now: u64) -> PeerState {
    let validated = peer_snapshot(remote(1)).into_validated(budgets).ok().unwrap();
    PeerState::from_validated_snapshot(validated, now)
}

fn reliable_frame(index: u32, payload: &[u8]) -> Frame {
    Frame {
        reliability: Reliability::Reliable,
        reliable_index: Some(ReliableSequence::new(index)),
        sequence_index: None,
        order_index: None,
        order_channel: 0,
        split: None,
        payload: payload.to_vec(),
    }
}

fn reliable_ordered_frame(index: u32, order: u32, payload: &[u8]) -> Frame {
    Frame {
        reliability: Reliability::ReliableOrdered,
        reliable_index: Some(ReliableSequence::new(index)),
        sequence_index: None,
        order_index: Some(OrderSequence::new(order)),
        order_channel: 0,
        split: None,
        payload: payload.to_vec(),
    }
}

fn receive(
    peer: &mut PeerState,
    sequence: u32,
    frame: &Frame,
    now: u64,
) -> Result<(), RakNetError> {
    let bytes = encode_datagram(DatagramSequence::new(sequence), frame);
    peer.receive_datagram(&bytes, now, 0)
}

fn delivered(peer: &mut PeerState) -> Vec<Vec<u8>> {
    let mut payloads = Vec::new();
    while let Ok(Some(payload)) = peer.receive_payload() {
        payloads.push(payload);
    }
    payloads
}

fn config() -> ServerConfig {
    ServerConfig {
        bind_addr: remote(0),
        motd: "paused router".to_string(),
        server_name: "RevyCraft".to_string(),
        game_version: "test".to_string(),
        protocol_number: 1,
        raknet_version: 11,
        max_players: 8,
        online_players: 0,
        server_guid: 7,
        budgets: RakNetBudgets::default(),
    }
}

const MAGIC: [u8; 16] = [
    0x00, 0xff, 0xff, 0x00, 0xfe, 0xfe, 0xfe, 0xfe, 0xfd, 0xfd, 0xfd, 0xfd, 0x12, 0x34, 0x56, 0x78,
];

fn offline_ping() -> Vec<u8> {
    let mut bytes = Vec::with_capacity(33);
    bytes.push(0x01);
    bytes.extend_from_slice(&13_i64.to_be_bytes());
    bytes.extend_from_slice(&MAGIC);
    bytes.extend_from_slice(&17_i64.to_be_bytes());
    bytes
}

#[test]
fn retransmit_delay_backs_off_and_caps() {
    assert_eq!(retransmit_delay(1), millis(200));
    assert_eq!(retransmit_delay(2), millis(400));
    assert_eq!(retransmit_delay(3), millis(800));
    assert_eq!(retransmit_delay(4), millis(1_600));
    assert_eq!(retransmit_delay(MAX_RETRANSMIT_ATTEMPTS), millis(1_600));
}

#[test]
fn sequence_wraparound_preserves_newer_relation() {
    let last = DatagramSequence::new(0x00ff_ffff);
    let wrapped = last.next();
    assert_eq!(wrapped.value(), 0);
    assert!(wrapped.is_newer_than(last));
    assert!(!last.is_newer_than(wrapped));
}

#[test]
fn sequence_masks_values_to_twenty_four_bits() {
    assert_eq!(ReliableSequence::new(0xab12_3456).value(), 0x12_3456);
    assert_eq!(OrderSequence::new(MODULUS).value(), 0);
}

#[test]
fn deserialization_rejects_values_outside_the_wire_domain() {
    assert!(DatagramSequence::from_wire_domain(1 << 24).is_none());
    assert!(DatagramSequence::from_wire_domain((1 << 24) - 1).is_some());
}

#[test]
fn sequence_distance_leads_back() {
    let older = DatagramSequence::new(0x00ff_fffe);
    let newer = DatagramSequence::new(3);
    assert_eq!(newer.wrapping_distance_from(older), 5);
    assert_eq!(newer.next().previous().value(), 3);
}

#[test]
fn destination_scoped_udp_errors_do_not_terminate_the_router() {
    for kind in [
        ReceiveFault::Interrupted,
        ReceiveFault::ConnectionReset,
        ReceiveFault::ConnectionRefused,
    ] {
        assert!(recoverable_udp_receive_error(kind), "destination-scoped udp error");
    }
    assert!(
        !recoverable_udp_receive_error(ReceiveFault::Other),
        "listener authority is invalid"
    );
}

#[test]
fn acknowledgement_round_trips_single_sequence() {
    let sequence = DatagramSequence::new(0x12_3456);
    let encoded = encode_ack(sequence);
    let Some(Acknowledgement::Ack(ranges)) = decode_acknowledgement(&encoded).unwrap() else {
        panic!("ack should decode");
    };
    assert_eq!(ranges, vec![(sequence, sequence)]);
}

#[test]
fn negative_acknowledgement_round_trips_a_range() {
    let start = DatagramSequence::new(5);
    let end = DatagramSequence::new(9);
    let Some(Acknowledgement::Nack(ranges)) =
        decode_acknowledgement(&encode_nack(start, end)).unwrap()
    else {
        panic!("nack should decode");
    };
    assert_eq!(ranges, vec![(start, end)]);
}

#[test]
fn reliable_ordered_frame_round_trips() {
    let frame = Frame {
        reliability: Reliability::ReliableOrdered,
        reliable_index: Some(ReliableSequence::new(9)),
        sequence_index: None,
        order_index: Some(OrderSequence::new(4)),
        order_channel: 0,
        split: None,
        payload: vec![0xfe, 1, 2, 3],
    };
    let encoded = encode_datagram(DatagramSequence::new(7), &frame);
    let decoded = decode_datagram(&encoded, RakNetBudgets::default()).unwrap();
    assert_eq!(decoded.sequence, DatagramSequence::new(7));
    assert_eq!(decoded.frames[0].payload, frame.payload);
    assert_eq!(decoded.frames[0].order_index, frame.order_index);
}

#[test]
fn datagram_layout_is_stable() {
    let encoded = encode_datagram(DatagramSequence::new(7), &reliable_frame(9, &[0xfe]));
    assert_eq!(encoded, vec![0x84, 7, 0, 0, 0x40, 0, 8, 9, 0, 0, 0xfe]);
}

#[test]
fn offline_ping_is_understood() {
    assert_eq!(
        decode_offline_request(&offline_ping()).unwrap(),
        Some(OfflineRequest::Ping { time: 13 })
    );
    let mut bad = offline_ping();
    bad[9] = 1;
    assert!(decode_offline_request(&bad).is_err());
}

#[test]
fn cancelled_receive_does_not_consume_a_future_delivery() {
    let mut inbox = PeerInbox::new(1);
    assert_eq!(inbox.receive().unwrap(), None);

    inbox.push(vec![0xfe, 1]).unwrap();
    assert_eq!(inbox.receive().unwrap(), Some(vec![0xfe, 1]));
}

#[test]
fn full_inbox_takes_nothing_more() {
    let mut inbox = PeerInbox::new(1);
    inbox.push(vec![1]).unwrap();
    assert!(inbox.push(vec![2]).is_err());
    assert_eq!(inbox.receive().unwrap(), Some(vec![1]));
}

#[test]
fn router_delivery_reports_full_mailbox_without_waiting() {
    let stale = 0;
    let mut activity = PeerActivity::new(stale);
    let mut mailbox = 0;
    let mut deliver = |activity: &mut PeerActivity, at: u64| {
        let outcome = if mailbox < 1 {
            mailbox += 1;
            MailboxOutcome::Accepted
        } else {
            MailboxOutcome::Full
        };
        let result = delivery_result(outcome);
        if result.is_ok() {
            activity.observe(at);
        }
        result
    };

    deliver(&mut activity, 5).unwrap();
    let admitted_at = activity.last_observed();
    assert!(admitted_at > stale);
    assert!(matches!(deliver(&mut activity, 9), Err(ControlFault::QueueFull)));
    assert_eq!(activity.last_observed(), admitted_at);
    assert!(matches!(
        delivery_result(MailboxOutcome::Closed),
        Err(ControlFault::Closed)
    ));
}

#[test]
fn duplicate_reliable_payload_is_delivered_once() {
    let mut peer = accepted_peer(RakNetBudgets::default(), 20 * SECOND);
    receive(&mut peer, 0, &reliable_frame(4, &[0xfe, 1]), 20 * SECOND).unwrap();
    receive(&mut peer, 1, &reliable_frame(4, &[0xfe, 1]), 20 * SECOND).unwrap();
    assert_eq!(delivered(&mut peer), vec![vec![0xfe, 1]]);
}

#[test]
fn repeated_datagram_is_only_confirmed_again() {
    let mut peer = accepted_peer(RakNetBudgets::default(), 20 * SECOND);
    let frame = reliable_frame(4, &[0xfe, 1]);
    receive(&mut peer, 3, &frame, 20 * SECOND).unwrap();
    assert_eq!(delivered(&mut peer), vec![vec![0xfe, 1]]);
    let _ = peer.take_outbox();
    receive(&mut peer, 3, &frame, 21 * SECOND).unwrap();
    assert!(delivered(&mut peer).is_empty());
    let actions = peer.take_outbox();
    assert_eq!(actions.len(), 1);
    assert!(matches!(
        &actions[0],
        PeerAction::Send(bytes) if bytes == &vec![0xc0, 0, 1, 1, 3, 0, 0]
    ));
}

#[test]
fn imported_state_preserves_delivery_order_fragments_and_paused_timers() {
    let budgets = RakNetBudgets::default();
    let frozen_at = 100 * SECOND;
    let mut start = peer_snapshot(remote(1));
    start.unacked_datagrams.push(UnackedDatagramSnapshot {
        sequence: DatagramSequence::new(9),
        bytes: vec![0x84, 9, 0, 0],
        retransmit_remaining: millis(150),
        attempts: 1,
    });
    let mut source = PeerState::from_validated_snapshot(
        start.into_validated(budgets).ok().unwrap(),
        frozen_at,
    );
    let received_at = frozen_at - 2 * SECOND;
    receive(&mut source, 0, &reliable_ordered_frame(0, 0, &[0xfe, 0]), received_at).unwrap();
    receive(&mut source, 1, &reliable_ordered_frame(2, 2, &[0xfe, 2]), received_at).unwrap();
    let mut fragment = reliable_frame(3, &[0xfe, 3]);
    fragment.split = Some(SplitHeader { count: 2, id: 7, index: 0 });
    receive(&mut source, 2, &fragment, received_at).unwrap();
    let expected = source.snapshot(frozen_at);
    assert_eq!(expected.timeout_remaining, 10 * SECOND);

    let checkpoint = source.snapshot(frozen_at);
    let mut restored = PeerState::from_validated_snapshot(
        checkpoint.into_validated(budgets).ok().unwrap(),
        frozen_at,
    );
    assert_eq!(restored.snapshot(frozen_at), expected);

    let resumed_at = frozen_at + 30 * SECOND;
    restored.resume_timers(frozen_at, resumed_at);
    assert_eq!(restored.snapshot(resumed_at), expected);
    let elapsed = restored.snapshot(resumed_at + millis(40));
    assert_eq!(elapsed.timeout_remaining, millis(9_960));
    assert_eq!(elapsed.unacked_datagrams[0].retransmit_remaining, millis(110));

    receive(&mut restored, 3, &reliable_ordered_frame(0, 0, &[0xfe, 0]), resumed_at).unwrap();
    receive(&mut restored, 4, &reliable_ordered_frame(1, 1, &[0xfe, 1]), resumed_at).unwrap();
    let mut fragment = reliable_frame(4, &[4]);
    fragment.split = Some(SplitHeader { count: 2, id: 7, index: 1 });
    receive(&mut restored, 5, &fragment, resumed_at).unwrap();
    assert_eq!(
        delivered(&mut restored),
        vec![vec![0xfe, 0], vec![0xfe, 1], vec![0xfe, 2], vec![0xfe, 3, 4]]
    );
    assert_eq!(restored.reassembly_bytes(), 0);
    assert_eq!(restored.reassembly_parts(), 0);
}

#[test]
fn activity_admitted_while_frozen_starts_idle_timer_at_resume() {
    let frozen_at = 100 * SECOND;
    let mut activity = PeerActivity::new(frozen_at - 2 * SECOND);
    activity.observe(frozen_at + SECOND);
    let resumed_at = frozen_at + 30 * SECOND;
    activity.resume(frozen_at, resumed_at);
    assert_eq!(activity.last_observed(), resumed_at);
}

#[test]
fn pause_keeps_the_idle_time_before_it() {
    let frozen_at = 100 * SECOND;
    let mut activity = PeerActivity::new(frozen_at - 2 * SECOND);
    activity.resume(frozen_at, frozen_at + 30 * SECOND);
    assert_eq!(activity.last_observed(), frozen_at + 28 * SECOND);
}

#[test]
fn queued_datagram_refreshes_activity_before_overdue_timer() {
    let now = 100 * SECOND;
    let seen_at = now - PEER_TIMEOUT - SECOND;
    let peer = PeerState::new(remote(1), 1_492, RakNetBudgets::default(), seen_at);
    let mut actor = PeerActor::running(peer);
    assert!(matches!(actor.wait(now), PeerWait::Any { deadline } if deadline <= now));
    let ack = encode_ack(DatagramSequence::new(0));
    assert!(matches!(actor.on_ingress(&ack, now, 0), PeerFate::Continue));
    let (reply, fate) = actor.on_command(PeerCommand::Freeze { ticket: 1 }, now);
    assert!(matches!(reply, Some(PeerReply::Frozen { ticket: 1 })));
    assert!(matches!(fate, PeerFate::Continue));
    let (reply, _) = actor.on_command(PeerCommand::SealTransfer { ticket: 2 }, now);
    let Some(PeerReply::Sealed { ticket: 2, snapshot }) = reply else {
        panic!("a frozen peer is sealed");
    };
    assert!(snapshot.timeout_remaining > PEER_TIMEOUT - SECOND);
    let (reply, fate) = actor.on_command(PeerCommand::Transfer { ticket: 3 }, now);
    assert!(matches!(reply, Some(PeerReply::Transferred { ticket: 3 })));
    assert!(matches!(fate, PeerFate::Stop { .. }));
}

#[test]
fn nacked_older_datagram_completes_reliable_ordered_holdback() {
    let now = 20 * SECOND;
    let mut peer = accepted_peer(RakNetBudgets::default(), now);
    receive(&mut peer, 0, &reliable_ordered_frame(0, 0, &[0xfe, 0]), now).unwrap();
    receive(&mut peer, 2, &reliable_ordered_frame(2, 2, &[0xfe, 2]), now).unwrap();
    receive(&mut peer, 1, &reliable_ordered_frame(1, 1, &[0xfe, 1]), now).unwrap();
    assert_eq!(
        delivered(&mut peer),
        vec![vec![0xfe, 0], vec![0xfe, 1], vec![0xfe, 2]]
    );
}

#[test]
fn ordered_holdback_flushes_after_missing_payload_arrives() {
    let now = 20 * SECOND;
    let mut peer = accepted_peer(RakNetBudgets::default(), now);
    receive(&mut peer, 0, &reliable_ordered_frame(1, 1, &[2]), now).unwrap();
    assert!(delivered(&mut peer).is_empty());
    receive(&mut peer, 1, &reliable_ordered_frame(0, 0, &[1]), now).unwrap();
    assert_eq!(delivered(&mut peer), vec![vec![1], vec![2]]);
}

#[test]
fn fragments_reassemble_by_index_before_delivery() {
    let now = 20 * SECOND;
    let mut peer = accepted_peer(RakNetBudgets::default(), now);
    let mut second = reliable_frame(1, b"rock");
    second.split = Some(SplitHeader { count: 2, id: 7, index: 1 });
    let mut first = reliable_frame(2, b"bed");
    first.split = Some(SplitHeader { count: 2, id: 7, index: 0 });
    receive(&mut peer, 0, &second, now).unwrap();
    receive(&mut peer, 1, &first, now).unwrap();
    assert_eq!(delivered(&mut peer), vec![b"bedrock".to_vec()]);
    assert!(peer.snapshot(now).reassembly.is_empty());
    assert_eq!(peer.reassembly_bytes(), 0);
}

#[test]
fn reassembly_budget_exhaustion_is_a_policy_outcome() {
    let now = 20 * SECOND;
    let budgets = RakNetBudgets {
        max_reassembly_bytes_per_peer: 3,
        ..RakNetBudgets::default()
    };
    let mut peer = PeerState::new(remote(1), 1_492, budgets, now);
    let mut frame = reliable_frame(0, b"four");
    frame.split = Some(SplitHeader { count: 2, id: 1, index: 0 });
    let error = receive(&mut peer, 0, &frame, now).unwrap_err();
    assert!(matches!(
        error,
        RakNetError::Budget(BudgetExceeded { resource: "reassembly bytes per peer", .. })
    ));
}

#[test]
fn nack_retransmits_the_requested_datagram() {
    let now = 20 * SECOND;
    let mut start = peer_snapshot(remote(1));
    let sequence = DatagramSequence::new(9);
    start.unacked_datagrams.push(UnackedDatagramSnapshot {
        sequence,
        bytes: vec![0x84, 9, 0, 0],
        retransmit_remaining: millis(200),
        attempts: 1,
    });
    let mut peer = PeerState::from_validated_snapshot(
        start.into_validated(RakNetBudgets::default()).ok().unwrap(),
        now,
    );
    peer.receive_datagram(&encode_nack(sequence, sequence), now, 0).unwrap();
    let actions = peer.take_outbox();
    assert_eq!(actions.len(), 1);
    assert!(matches!(&actions[0], PeerAction::Send(bytes) if *bytes == vec![0x84, 9, 0, 0]));
    assert_eq!(peer.snapshot(now).unacked_datagrams[0].attempts, 2);
}

#[test]
fn frozen_peer_resumes_without_losing_send_authority() {
    let now = 20 * SECOND;
    let mut actor = PeerActor::running(accepted_peer(RakNetBudgets::default(), now));
    let _ = actor.on_command(PeerCommand::Freeze { ticket: 1 }, now);
    assert!(matches!(actor.wait(now), PeerWait::Command));
    let (reply, _) = actor.on_command(PeerCommand::SealTransfer { ticket: 2 }, now);
    let Some(PeerReply::Sealed { snapshot, .. }) = reply else {
        panic!("a frozen peer is sealed");
    };
    assert_eq!(snapshot.remote_addr, remote(1));
    let _ = actor.on_command(PeerCommand::Resume, now);
    let (reply, _) = actor.on_command(
        PeerCommand::Send { payload: vec![0xfe, 4], ticket: 3 },
        now,
    );
    assert!(matches!(reply, Some(PeerReply::Sent { ticket: 3, result: Ok(()) })));
    let actions = actor.peer_mut().take_outbox();
    assert!(matches!(&actions[0], PeerAction::Send(bytes) if bytes.len() > 4));

    let (reply, _) = actor.on_command(PeerCommand::Freeze { ticket: 4 }, now);
    assert!(matches!(reply, Some(PeerReply::Frozen { ticket: 4 })));
    let (reply, _) = actor.on_command(PeerCommand::SealTransfer { ticket: 5 }, now);
    let Some(PeerReply::Sealed { ticket: 5, snapshot }) = reply else {
        panic!("a frozen peer is sealed");
    };
    assert_eq!(snapshot.remote_addr, remote(1));
    let (reply, fate) = actor.on_command(PeerCommand::Transfer { ticket: 6 }, now);
    assert!(matches!(reply, Some(PeerReply::Transferred { ticket: 6 })));
    assert!(matches!(fate, PeerFate::Stop { .. }));
}

#[test]
fn sends_of_a_frozen_peer_wait_until_it_resumes() {
    let now = 20 * SECOND;
    let mut actor = PeerActor::running(accepted_peer(RakNetBudgets::default(), now));
    let _ = actor.on_command(PeerCommand::Freeze { ticket: 1 }, now);
    let (reply, _) = actor.on_command(
        PeerCommand::Send { payload: vec![0xfe, 4], ticket: 3 },
        now,
    );
    assert!(reply.is_none());
    let _ = actor.on_command(PeerCommand::Resume, now);
    assert!(matches!(actor.wait(now), PeerWait::Deferred));
    let (reply, _) = actor.on_deferred(now);
    assert!(matches!(reply, Some(PeerReply::Sent { ticket: 3, result: Ok(()) })));
}

#[test]
fn silent_peer_times_out_and_unanswered_datagram_is_sent_again() {
    let now = 100 * SECOND;
    let mut peer = accepted_peer(RakNetBudgets::default(), now);
    peer.observe(now);
    peer.send_application(&[0xfe, 1], now).unwrap();
    assert_eq!(peer.take_outbox().len(), 1);
    assert_eq!(peer.next_timer_deadline(now), now + millis(200));
    peer.on_timer(now + millis(200)).unwrap();
    assert_eq!(peer.take_outbox().len(), 1);
    assert!(matches!(
        peer.on_timer(now + PEER_TIMEOUT),
        Err(RakNetError::PeerTimeout)
    ));
}

#[test]
fn duplicate_window_forgets_the_oldest() {
    let mut window = DuplicateWindow::new();
    assert!(window.remember(1, 2));
    assert!(!window.remember(1, 2));
    assert!(window.remember(2, 2));
    assert!(window.remember(3, 2));
    assert_eq!(window.values(), vec![2, 3]);
    assert!(window.remember(1, 2));
}

#[test]
fn checkpoint_with_a_bad_datagram_size_is_refused() {
    let mut snapshot = peer_snapshot(remote(1));
    snapshot.mtu = 100;
    let error = snapshot.into_validated(RakNetBudgets::default()).err().unwrap();
    assert_eq!(
        error.message(),
        "raknet wire error: transferred peer MTU 100 is outside 576..=2048"
    );
}

#[test]
fn batch_of_checkpoints_is_accepted_in_order_or_refused_at_the_first_fault() {
    let good = vec![peer_snapshot(remote(2)), peer_snapshot(remote(1))];
    let validated = validate_peer_snapshots(good, RakNetBudgets::default()).ok().unwrap();
    assert_eq!(validated.len(), 2);
    assert_eq!(validated[0].remote_addr(), remote(2));
    let mut bad = peer_snapshot(remote(3));
    bad.mtu = 100;
    assert!(matches!(
        validate_peer_snapshots(vec![peer_snapshot(remote(1)), bad], RakNetBudgets::default()),
        Err(RakNetError::Wire(WireError::SnapshotMtu { mtu: 100, maximum: 2_048 }))
    ));
}

#[test]
fn prebound_router_does_not_receive_until_authority_is_granted() {
    let mut router = Router::new(config(), true);
    assert!(router.withheld());
    assert!(matches!(
        router.on_command(RouterCommand::ResumeReceive),
        RouterAction::ResumePeers(peers) if peers.is_empty()
    ));
    assert!(matches!(router.on_resumed(None), RouterAction::Answer(Ok(()))));
    assert!(!router.withheld());
    let RouteAction::Reply(response) = router.on_packet(remote(9), &offline_ping()) else {
        panic!("a ping is answered");
    };
    assert!(response.len() > 1);
    assert_eq!(response[0], 0x1c);
}

#[test]
fn paused_router_imports_peer_checkpoint_before_receive_authority() {
    let mut router = Router::new(config(), true);
    let now = 50 * SECOND;
    let snapshot = peer_snapshot(remote(9)).into_validated(RakNetBudgets::default()).ok().unwrap();
    let imported = router.import_peers(vec![snapshot], now).ok().unwrap();
    assert_eq!(imported.len(), 1);
    let mut actor = imported.into_iter().next().unwrap().actor;
    let (reply, _) = actor.on_command(PeerCommand::SealTransfer { ticket: 1 }, now + millis(30));
    let Some(PeerReply::Sealed { snapshot, .. }) = reply else {
        panic!("an imported peer stands still");
    };
    assert_eq!(snapshot, peer_snapshot(remote(9)));
    let _ = actor.on_command(PeerCommand::Resume, now + millis(30));
    let (reply, _) = actor.on_command(
        PeerCommand::Send { payload: vec![0xfe, 1, 2, 3], ticket: 2 },
        now + millis(30),
    );
    assert!(matches!(reply, Some(PeerReply::Sent { result: Ok(()), .. })));
    let actions = actor.peer_mut().take_outbox();
    assert_eq!(actions.len(), 1);
    assert!(matches!(&actions[0], PeerAction::Send(bytes) if bytes.len() > 4));
    assert!(matches!(
        router.on_command(RouterCommand::ResumeReceive),
        RouterAction::ResumePeers(_)
    ));
    assert!(matches!(router.on_resumed(None), RouterAction::Answer(Ok(()))));
}

#[test]
fn receive_paused_router_seals_imported_peer_state() {
    let mut router = Router::new(config(), true);
    let mut expected = peer_snapshot(remote(9));
    expected.accepted = false;
    let validated = expected.into_validated(RakNetBudgets::default()).ok().unwrap();
    let frozen_at = 50 * SECOND;
    let imported = router.import_peers(vec![validated], frozen_at).ok().unwrap();
    // A session answers for none of them.
    assert_eq!(imported.iter().filter(|peer| peer.accepted).count(), 0);
    let RouterAction::FreezePeers(peers) = router.on_command(RouterCommand::Freeze) else {
        panic!("the router answers for its peers");
    };
    let mut sealed = Vec::new();
    for mut peer in imported {
        assert!(peers.contains(&peer.address));
        let (reply, _) = peer.actor.on_command(PeerCommand::Freeze { ticket: 1 }, frozen_at);
        assert!(matches!(reply, Some(PeerReply::Frozen { ticket: 1 })));
        let (reply, _) = peer.actor.on_command(PeerCommand::SealTransfer { ticket: 2 }, frozen_at);
        if let Some(PeerReply::Sealed { snapshot, .. }) = reply {
            sealed.push(snapshot);
        }
    }
    assert_eq!(peers, vec![remote(9)]);
    assert_eq!(sealed.len(), 1);
    let mut expected = peer_snapshot(remote(9));
    expected.accepted = false;
    assert_eq!(sealed[0].remote_addr, expected.remote_addr);
    assert_eq!(sealed[0].mtu, expected.mtu);
    assert_eq!(sealed[0].accepted, expected.accepted);
    assert!(sealed[0].timeout_remaining <= expected.timeout_remaining);
    assert!(matches!(
        router.on_frozen(FreezeReport { first: None, failures: 0 }),
        RouterAction::Answer(Ok(()))
    ));
    assert!(matches!(
        router.on_command(RouterCommand::Resume),
        RouterAction::ResumePeers(_)
    ));
    assert!(matches!(router.on_resumed(None), RouterAction::Answer(Ok(()))));
}

#[test]
fn duplicate_peer_import_is_atomic_and_retryable() {
    let mut router = Router::new(config(), true);
    let validated = || {
        peer_snapshot(remote(9)).into_validated(RakNetBudgets::default()).ok().unwrap()
    };
    assert!(router.import_peers(vec![validated(), validated()], 50 * SECOND).is_err());
    assert_eq!(
        router.import_peers(vec![validated()], 50 * SECOND).ok().unwrap().len(),
        1
    );
}

#[test]
fn import_admission_requires_the_listener_resource_policy() {
    let mut router = Router::new(config(), true);
    let budgets = RakNetBudgets::default();
    let other_policy = RakNetBudgets {
        max_payload_bytes: budgets.max_payload_bytes + 1,
        ..budgets
    };
    let other = peer_snapshot(remote(9)).into_validated(other_policy).ok().unwrap();
    assert!(matches!(
        router.import_peers(vec![other], 50 * SECOND),
        Err(RakNetError::Wire(_))
    ));
    let same = peer_snapshot(remote(9)).into_validated(budgets).ok().unwrap();
    assert_eq!(router.import_peers(vec![same], 50 * SECOND).ok().unwrap().len(), 1);
}

#[test]
fn serving_router_takes_no_checkpoints() {
    let mut router = Router::new(config(), false);
    let same = peer_snapshot(remote(9)).into_validated(RakNetBudgets::default()).ok().unwrap();
    assert!(router.import_peers(vec![same], 50 * SECOND).is_err());
}

#[test]
fn addresses_are_told_in_errors() {
    let v6 = |high: u64, low: u64, scope_id: u32| PeerAddress::V6 {
        high,
        low,
        port: 19132,
        flowinfo: 7,
        scope_id,
    };
    for (address, text) in [
        (PeerAddress::V4 { ip: 0x7f00_0001, port: 9 }, "127.0.0.1:9"),
        (PeerAddress::V4 { ip: 0xc0a8_0a14, port: 0 }, "192.168.10.20:0"),
        (v6(0, 0, 0), "[::]:19132"),
        (v6(0, 1, 0), "[::1]:19132"),
        (v6(0xfe80_0000_0000_0000, 0x0202_b3ff_fe1e_8329, 3), "[fe80::202:b3ff:fe1e:8329%3]:19132"),
        (v6(0x2001_0db8_0000_0000, 0x0001_0000_0000_0001, 0), "[2001:db8::1:0:0:1]:19132"),
        (v6(0x2001_0db8_0000_0001, 0x0001_0001_0001_0001, 0), "[2001:db8:0:1:1:1:1:1]:19132"),
        (v6(0x0001_0000_0000_0002, 0x0000_0000_0000_0003, 0), "[1:0:0:2::3]:19132"),
        (v6(0x0001_0002_0003_0004, 0x0005_0006_0000_0000, 0), "[1:2:3:4:5:6::]:19132"),
        (v6(0, 0x0000_ffff_0102_0304, 0), "[::ffff:1.2.3.4]:19132"),
    ] {
        assert_eq!(
            RakNetError::Wire(WireError::DuplicatePeer(address)).message(),
            format!("raknet wire error: duplicate transferred RakNet peer {text}")
        );
    }
    let error = ServerConfig { bind_addr: remote(5), ..config() }.check_socket(remote(6));
    assert_eq!(
        error.unwrap_err().message(),
        "raknet wire error: imported UDP socket 127.0.0.1:6 does not match configured listener \
         127.0.0.1:5"
    );
}

#[test]
fn import_is_refused_for_a_reason_and_gives_one_peer_per_checkpoint() {
    let mut router = Router::new(config(), true);
    let validated = |port| {
        peer_snapshot(remote(port)).into_validated(RakNetBudgets::default()).ok().unwrap()
    };
    let now = 50 * SECOND;
    let imported = router.import_peers(vec![validated(9), validated(4)], now).ok().unwrap();
    let addresses: Vec<PeerAddress> = imported.iter().map(|peer| peer.address).collect();
    assert_eq!(addresses, vec![remote(4), remote(9)]);
    assert!(imported.iter().all(|peer| peer.accepted));
    let error = router.import_peers(vec![validated(5), validated(9)], now).err().unwrap();
    assert_eq!(
        error.message(),
        "raknet wire error: duplicate transferred RakNet peer 127.0.0.1:9"
    );
    assert_eq!(router.import_peers(vec![validated(5)], now).ok().unwrap().len(), 1);
}

#[test]
fn freeze_without_an_address_leaves_the_router_running() {
    let mut router = Router::new(config(), false);
    assert!(matches!(
        router.on_command(RouterCommand::Freeze),
        RouterAction::FreezePeers(peers) if peers.is_empty()
    ));
    router.on_address_lost();
    assert!(!router.withheld());
    assert!(matches!(
        router.on_command(RouterCommand::Freeze),
        RouterAction::FreezePeers(_)
    ));
}
