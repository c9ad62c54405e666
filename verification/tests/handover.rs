//! Revisions of a game, and how they are handed over.

use revycraft::game::state::ServerCore;
use revycraft::game::store::{ActiveMiningState, CoreConfig, EntityKind, MiningToolSpec};
use revycraft::model::block::BlockPos;
use revycraft::model::effect::{GameplayEffect, GameplayEffectBatch};
use revycraft::model::event::{CoreCommand, GameplayCommand};
use revycraft::model::ids::{ConnectionId, EntityId, PlayerId};
use revycraft::model::inventory::PlayerInventory;
use revycraft::model::item::{ItemDataMap, ItemDataValue, ItemStack};
use revycraft::ordered::Stored;
use revycraft::transfer::delta::{
    CoreDeltaReplay, CoreRevision, CoreTransferDelta, EncodedCoreTransferCommit, MAX_COMMITS,
};
use revycraft::transfer::fault::{CoreTransferError, StateFault};
use revycraft::transfer::handover::CoreTransferSnapshotV1;
use revycraft::transfer::payload::{
    check_payload_len, finish_payload, BoundedTransferWriter, TransferWriteFailure,
};
use revycraft::transfer::version::{
    CoreHandoff, CoreMutation, CoreTransferCommit, CoreTransferMutation, CoreVersion,
    GameplayEffectApplyResult,
};

fn commit(base: u64, bytes: &[u8]) -> EncodedCoreTransferCommit {
    EncodedCoreTransferCommit {
        base_revision: CoreRevision::from_value(base),
        next_revision: CoreRevision::from_value(base + 1),
        requires_persistence: true,
        bytes: bytes.to_vec(),
    }
}

fn fresh() -> CoreVersion {
    CoreVersion::initial(ServerCore::new(CoreConfig::default()))
}

#[test]
fn sealed_delta_is_read_back_commit_by_commit() {
    let base = CoreRevision::from_value(4);
    let delta =
        CoreTransferDelta::seal_preencoded(base, vec![commit(4, &[1, 2]), commit(5, &[])]).unwrap();
    assert_eq!(delta.base_revision(), base);
    assert_eq!(delta.final_revision(), CoreRevision::from_value(6));
    assert_eq!(
        delta.bytes(),
        &[
            b'R', b'V', b'C', b'D', b'C', b'O', b'R', b'E', 1, 0, 4, 0, 0, 0, 0, 0, 0, 0, 6, 0, 0,
            0, 0, 0, 0, 0, 2, 0, 0, 0, 2, 0, 0, 0, 1, 2, 0, 0, 0, 0
        ]
    );
    let bytes = delta.into_bytes();
    let mut replay = CoreDeltaReplay::begin(&bytes, base).ok().unwrap();
    assert_eq!(replay.next_frame().unwrap(), Some(&[1_u8, 2][..]));
    replay.accept(CoreRevision::from_value(4), CoreRevision::from_value(5)).unwrap();
    assert_eq!(replay.next_frame().unwrap(), Some(&[][..]));
    assert_eq!(
        replay.accept(CoreRevision::from_value(4), CoreRevision::from_value(5)),
        Err(CoreTransferError::InvalidState(StateFault::DeltaCommitNotAdjacent {
            base: 4,
            next: 5,
            revision: 5
        }))
    );
    replay.accept(CoreRevision::from_value(5), CoreRevision::from_value(6)).unwrap();
    assert_eq!(replay.next_frame().unwrap(), None);
    assert_eq!(replay.finish(), Ok(CoreRevision::from_value(6)));
}

#[test]
fn delta_behind_other_bytes_is_described() {
    let mut out = vec![9];
    let descriptor = CoreTransferDelta::seal_preencoded_into(
        CoreRevision::initial(),
        &vec![commit(0, &[7])],
        &mut out,
    )
    .unwrap();
    assert_eq!(descriptor.encoded_len(), 35);
    assert_eq!(descriptor.final_revision().value(), 1);
    assert_eq!(out.len(), 36);
}

#[test]
fn commits_that_do_not_follow_are_refused() {
    let error =
        CoreTransferDelta::seal_preencoded(CoreRevision::initial(), vec![commit(1, &[])])
            .unwrap_err();
    assert_eq!(
        error.message(),
        "core transfer state is invalid: core transfer commit 1 -> 2 is not adjacent to revision 0"
    );
    let many: Vec<EncodedCoreTransferCommit> =
        (0..=MAX_COMMITS as u64).map(|base| commit(base, &[])).collect();
    assert_eq!(
        CoreTransferDelta::seal_preencoded(CoreRevision::initial(), many).unwrap_err(),
        CoreTransferError::BudgetExceeded { actual: 16_385, limit: 16_384 }
    );
}

#[test]
fn last_revision_is_followed_by_itself() {
    assert_eq!(CoreRevision::from_value(u64::MAX).next().value(), u64::MAX);
    assert_eq!(CoreRevision::default(), CoreRevision::initial());
}

#[test]
fn malformed_deltas_are_refused() {
    let base = CoreRevision::initial();
    let good = CoreTransferDelta::seal_preencoded(base, vec![commit(0, &[7])])
        .unwrap()
        .into_bytes();
    let refused = |bytes: &[u8]| CoreDeltaReplay::begin(bytes, base).err().unwrap();
    assert_eq!(
        refused(&good[..29]),
        CoreTransferError::InvalidState(StateFault::DeltaHeaderTruncated)
    );
    let mut magic = good.clone();
    magic[0] = 0;
    assert_eq!(refused(&magic), CoreTransferError::InvalidState(StateFault::DeltaMagic));
    let mut format = good.clone();
    format[8] = 2;
    assert_eq!(refused(&format), CoreTransferError::UnsupportedFormat { major: 2 });
    let mut count = good.clone();
    count[28] = 1;
    assert_eq!(
        refused(&count),
        CoreTransferError::BudgetExceeded { actual: 65_537, limit: 16_384 }
    );
    let other = CoreDeltaReplay::begin(&good, CoreRevision::from_value(3)).err().unwrap();
    assert_eq!(
        other.message(),
        "core transfer state is invalid: core delta base revision 0 does not match imported \
         revision 3"
    );
    let mut replay = CoreDeltaReplay::begin(&good[..34], base).ok().unwrap();
    assert_eq!(
        replay.next_frame(),
        Err(CoreTransferError::InvalidState(StateFault::DeltaFrameTruncated))
    );
    let mut longer = good.clone();
    longer.push(0);
    let mut replay = CoreDeltaReplay::begin(&longer, base).ok().unwrap();
    let _ = replay.next_frame().unwrap();
    assert_eq!(replay.finish(), Err(CoreTransferError::TrailingBytes { remaining: 1 }));
    let mut replay = CoreDeltaReplay::begin(&good, base).ok().unwrap();
    let _ = replay.next_frame().unwrap();
    assert_eq!(
        replay.finish(),
        Err(CoreTransferError::InvalidState(StateFault::DeltaEnd { reached: 0, declared: 1 }))
    );
}

#[test]
fn writer_takes_bytes_up_to_its_limit() {
    let mut writer = BoundedTransferWriter::new(3);
    assert_eq!(writer.write(&[1, 2], true), Ok(2));
    assert_eq!(
        writer.write(&[3, 4], true),
        Err(TransferWriteFailure::BudgetExceeded { actual: 4 })
    );
    assert_eq!(
        writer.finish(Err("codec".to_string())),
        Err(CoreTransferError::BudgetExceeded { actual: 4, limit: 3 })
    );
    let mut writer = BoundedTransferWriter::new(3);
    assert_eq!(
        writer.write(&[1], false),
        Err(TransferWriteFailure::Allocation { requested: 1 })
    );
    assert_eq!(
        writer.finish(Err("codec".to_string())).unwrap_err().message(),
        "core transfer allocation of 1 bytes failed"
    );
    let writer = BoundedTransferWriter::new(3);
    assert_eq!(
        writer.finish(Err("codec".to_string())),
        Err(CoreTransferError::Codec("codec".to_string()))
    );
}

#[test]
fn payload_is_read_to_its_end() {
    assert_eq!(finish_payload(Ok((5, 0))), Ok(5));
    assert_eq!(
        finish_payload(Ok((5, 2))),
        Err(CoreTransferError::TrailingBytes { remaining: 2 })
    );
    assert!(check_payload_len(536_870_912).is_ok());
    assert!(check_payload_len(536_870_913).is_err());
}

#[test]
fn handed_over_game_is_the_same() {
    let version = fresh();
    let imported = CoreTransferSnapshotV1::from_version(&version).into_version().unwrap();
    assert_eq!(imported, version);
    let handoff = CoreHandoff::from_committed(imported);
    assert_eq!(handoff.version().revision(), CoreRevision::initial());
}

#[test]
fn game_whose_parts_do_not_belong_together_is_refused() {
    let mut snapshot = CoreTransferSnapshotV1::from_version(&fresh());
    snapshot.format_major = 2;
    assert_eq!(
        snapshot.into_version().unwrap_err(),
        CoreTransferError::UnsupportedFormat { major: 2 }
    );
    let mut snapshot = CoreTransferSnapshotV1::from_version(&fresh());
    snapshot.entities.players_by_player_id.insert(PlayerId(0xab), EntityId(-5));
    assert_eq!(
        snapshot.validate().unwrap_err().message(),
        "core transfer state is invalid: player \
         PlayerId(00000000-0000-0000-0000-0000000000ab) references non-player entity EntityId(-5)"
    );
    snapshot.entities.entity_kinds.insert(EntityId(-5), EntityKind::Player);
    assert_eq!(
        snapshot.validate(),
        Err(CoreTransferError::InvalidState(StateFault::NoIdentity {
            player_id: PlayerId(0xab),
            entity_id: EntityId(-5)
        }))
    );
    let mut snapshot = CoreTransferSnapshotV1::from_version(&fresh());
    snapshot.entities.entity_kinds.insert(EntityId(1), EntityKind::DroppedItem);
    assert_eq!(
        snapshot.validate(),
        Err(CoreTransferError::InvalidState(StateFault::NextEntityOccupied))
    );
}

#[test]
fn changes_lead_to_the_next_revision_and_no_change_to_none() {
    let version = fresh();
    let idle = CoreMutation::from_version(&version).prepare(Vec::new(), false);
    assert_eq!(idle.base_revision(), CoreRevision::initial());
    assert_eq!(idle.next_version().revision(), CoreRevision::initial());

    let mut mutation = CoreMutation::from_version(&version);
    mutation.set_max_players(3);
    let next = ServerCore::new(CoreConfig::default());
    let _ = mutation.apply_command(
        CoreCommand::Disconnect { player_id: PlayerId(1) },
        5,
        next,
        Vec::new(),
    );
    let prepared = mutation.prepare(Vec::new(), true);
    assert!(prepared.requires_persistence());
    let (next, events, persist, commit) = prepared.into_parts();
    assert_eq!(next.revision().value(), 1);
    assert!(events.is_empty());
    assert!(persist);
    assert_eq!(commit.next_revision(), next.revision());
    assert_eq!(commit.mutations.len(), 2);
}

#[test]
fn only_applied_effects_are_recorded() {
    let version = fresh();
    let state = || ServerCore::new(CoreConfig::default());
    let mut mutation = CoreMutation::from_version(&version);
    let _ = mutation.validate_and_apply_gameplay_effects(
        GameplayEffectBatch::empty(1),
        state(),
        GameplayEffectApplyResult::Applied,
    );
    assert!(mutation.transfer_mutations.is_empty());
    let mut batch = GameplayEffectBatch::empty(1);
    batch.effects.push(GameplayEffect::ClearMining { player_id: PlayerId(1) });
    let _ = mutation.validate_and_apply_gameplay_effects(
        batch,
        state(),
        GameplayEffectApplyResult::Conflict,
    );
    assert!(mutation.transfer_mutations.is_empty());
    let _ = mutation.validate_and_apply_login_effects(
        ConnectionId(1),
        "alice".to_string(),
        PlayerId(1),
        GameplayEffectBatch::empty(1),
        state(),
        GameplayEffectApplyResult::Applied,
    );
    let _ = mutation.apply_builtin_gameplay_command(
        GameplayCommand::SetHeldSlot { player_id: PlayerId(1), slot: 2 },
        1,
        state(),
        Vec::new(),
    );
    let _ = mutation.tick(2, state(), Vec::new());
    assert_eq!(mutation.transfer_mutations.len(), 3);
}

#[test]
fn settings_are_changed_again_and_conflicts_refused() {
    let mut core = ServerCore::new(CoreConfig::default());
    CoreTransferMutation::SetMaxPlayers { max_players: 2 }
        .apply(&mut core, GameplayEffectApplyResult::Applied)
        .unwrap();
    assert_eq!(core.player_summary().max_players, 2);
    let error = CoreTransferMutation::GameplayEffects { batch: GameplayEffectBatch::empty(0) }
        .apply(&mut core, GameplayEffectApplyResult::Conflict)
        .unwrap_err();
    assert_eq!(error, CoreTransferError::InvalidState(StateFault::GameplayConflict));
}

#[test]
fn replayed_changes_lead_to_the_same_revision() {
    let version = fresh();
    let mut mutation = CoreMutation::from_version(&version);
    mutation.set_max_players(3);
    mutation.set_max_players(5);
    let (next, _, persist, transfer) = mutation.prepare(Vec::new(), true).into_parts();
    let encoded = EncodedCoreTransferCommit {
        base_revision: transfer.base_revision,
        next_revision: transfer.next_revision,
        requires_persistence: persist,
        bytes: vec![7],
    };
    let bytes = CoreTransferDelta::seal_preencoded(CoreRevision::initial(), vec![encoded])
        .unwrap()
        .into_bytes();
    let mut replay = version.apply_process_transfer_delta(&bytes).ok().unwrap();
    assert_eq!(replay.next_frame().unwrap(), Some(&[7_u8][..]));
    replay.accept(&transfer).unwrap();
    for change in transfer.mutations {
        replay.apply(change, None, GameplayEffectApplyResult::Applied).unwrap();
    }
    assert_eq!(replay.next_frame().unwrap(), None);
    assert_eq!(replay.finish().unwrap(), next);
}

#[test]
fn replay_refuses_what_does_not_follow() {
    let version = fresh();
    let base = CoreRevision::from_value(4);
    let bytes =
        CoreTransferDelta::seal_preencoded(base, vec![commit(4, &[1])]).unwrap().into_bytes();
    assert!(version.apply_process_transfer_delta(&bytes).is_err());
    let bytes = CoreTransferDelta::seal_preencoded(CoreRevision::initial(), vec![commit(0, &[1])])
        .unwrap()
        .into_bytes();
    let mut replay = version.apply_process_transfer_delta(&bytes).ok().unwrap();
    assert_eq!(replay.next_frame().unwrap(), Some(&[1_u8][..]));
    let stray = CoreTransferCommit {
        base_revision: CoreRevision::from_value(1),
        next_revision: CoreRevision::from_value(2),
        requires_persistence: false,
        mutations: Vec::new(),
    };
    assert_eq!(
        replay.accept(&stray),
        Err(CoreTransferError::InvalidState(StateFault::DeltaCommitNotAdjacent {
            base: 1,
            next: 2,
            revision: 0
        }))
    );
    assert!(replay.finish().is_err());
}

#[test]
fn commit_in_bytes_keeps_its_revisions_and_its_limit() {
    let commit = || CoreTransferCommit {
        base_revision: CoreRevision::from_value(2),
        next_revision: CoreRevision::from_value(3),
        requires_persistence: true,
        mutations: Vec::new(),
    };
    assert_eq!(CoreTransferCommit::writer(usize::MAX).limit, 536_870_912);
    let mut writer = CoreTransferCommit::writer(3);
    assert_eq!(writer.write(&[1, 2], true), Ok(2));
    let encoded = commit().encode(writer, Ok(())).unwrap();
    assert_eq!(encoded.encoded_len(), 2);
    assert_eq!(encoded.base_revision(), CoreRevision::from_value(2));
    assert_eq!(encoded.next_revision(), CoreRevision::from_value(3));
    assert!(encoded.requires_persistence());
    let mut writer = CoreTransferCommit::writer(3);
    let _ = writer.write(&[1, 2, 3, 4], true);
    assert_eq!(
        commit().encode(writer, Err("codec".to_string())).unwrap_err(),
        CoreTransferError::BudgetExceeded { actual: 4, limit: 3 }
    );
}

#[test]
fn order_of_a_game_is_checked() {
    let version = fresh();
    assert!(version.state.is_sound());
    let mut snapshot = CoreTransferSnapshotV1::from_version(&version);
    assert!(snapshot.is_wf());
    let mut stack = ItemStack::new("minecraft:stone", 1, 0);
    stack.extra = ItemDataMap {
        entries: vec![
            ("b".to_string(), ItemDataValue::Int(1)),
            ("a".to_string(), ItemDataValue::Int(2)),
        ],
    };
    let mut inventory = PlayerInventory::new_empty();
    inventory.offhand = Some(stack);
    snapshot.entities.player_inventory.insert(EntityId(1), inventory);
    assert!(!snapshot.is_wf());
    let nested = ItemDataValue::List(vec![ItemDataValue::Compound(ItemDataMap {
        entries: vec![
            ("a".to_string(), ItemDataValue::Int(1)),
            ("a".to_string(), ItemDataValue::Int(2)),
        ],
    })]);
    assert!(!nested.is_ok());
}

#[test]
fn tool_of_a_miner_is_handed_over() {
    let mut version = fresh();
    let mining = || ActiveMiningState {
        position: BlockPos::new(1, 2, 3),
        started_at_ms: 4,
        duration_ms: 5,
        last_stage: Some(6),
        tool_context: Some(MiningToolSpec { bytes: vec![7, 8] }),
    };
    version.state.entities.player_active_mining.insert(EntityId(9), mining());
    let snapshot = CoreTransferSnapshotV1::from_version(&version);
    let imported = snapshot.into_version().unwrap();
    assert_eq!(imported, version);
    let kept = imported.state.entities.player_active_mining.look(&EntityId(9));
    assert_eq!(kept, Some(&mining()));
}
