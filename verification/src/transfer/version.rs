//! Revisions of a game, and changes that lead from one to the next.

use crate::game::content::ContentBehavior;
use crate::game::session::PlayerSessionState;
use crate::game::state::{
    reconfigured, saved_with_online, with_max_players, CoreView, PlayerSummary, ServerCore,
};
use crate::game::resync::resync;
use crate::game::store::CoreConfig;
use crate::model::block::{block_view, block_wf, fine, BlockPos, BlockState, WorldMeta};
use crate::model::effect::GameplayEffectBatch;
use crate::model::event::{CoreCommand, GameplayCommand, TargetedEvent};
use crate::model::event_view::event_views;
use crate::model::ids::{ConnectionId, PlayerId};
use crate::model::player::{BlockEntityState, PlayerSnapshot, WorldSnapshot};
use crate::ordered::{lookup, Key, OrderedMap, Stored};
use crate::transfer::delta::{
    next_frame_of, replay_end, replay_start, revision_after, CoreDeltaReplay, CoreRevision,
    EncodedCoreTransferCommit, ReplayView, MAX_CORE_TRANSFER_BYTES,
};
use crate::transfer::fault::{CoreTransferError, StateFault};
use crate::transfer::payload::{taken, BoundedTransferWriter};
use vstd::prelude::*;

verus! {

/// A revision of a game and the state it is in.
#[derive(Debug, PartialEq, Eq)]
pub struct CoreVersion {
    pub revision: CoreRevision,
    pub state: ServerCore,
}

impl CoreVersion {
    /// The first revision of a game.
    pub fn initial(state: ServerCore) -> (result: Self)
        ensures
            result.revision.0 == 0,
            result.state == state,
    {
        CoreVersion { revision: CoreRevision::initial(), state }
    }

    /// The revision.
    pub fn revision(&self) -> (result: CoreRevision)
        ensures
            result == self.revision,
    {
        self.revision
    }

    /// The world as it is to be saved.
    pub fn snapshot(&self, persisted: &OrderedMap<PlayerId, PlayerSnapshot>) -> (result:
        WorldSnapshot)
        requires
            self.state.sound(),
            persisted.sound(),
        ensures
            result.meta@ == self.state@.world.world_meta,
            result.chunks@ == self.state@.world.chunks,
            result.block_entities@ == self.state@.world.block_entities,
            result.chunks.sound() && result.block_entities.sound() && result.players.sound(),
            forall|id: Seq<int>| #[trigger]
                lookup(result.players@, id) == saved_with_online(
                    self.state@.world.saved_players,
                    self.state@.sessions.player_sessions,
                    persisted@,
                    id,
                ),
    {
        self.state.snapshot(persisted)
    }

    /// How many players are in the game and how many can be.
    pub fn player_summary(&self) -> (result: PlayerSummary)
        ensures
            result.online_players == self.state@.sessions.player_sessions.len(),
            result.max_players == self.state@.world.config.max_players,
    {
        self.state.player_summary()
    }

    /// Tells a client what it takes to see the whole game anew.
    pub fn session_resync_events<B: ContentBehavior>(
        &self,
        content_behavior: &B,
        player_id: PlayerId,
    ) -> (result: Vec<TargetedEvent>)
        requires
            self.state.sound(),
        ensures
            event_views(result@) == resync(
                self.state@,
                content_behavior.player_kind(),
                player_id,
            ),
    {
        self.state.session_resync_events(content_behavior, player_id)
    }

    /// The world as a whole.
    pub fn world_meta(&self) -> (result: &WorldMeta)
        ensures
            result@ == self.state@.world.world_meta,
    {
        self.state.world_meta()
    }

    /// A player, if the player is in the game.
    pub fn player_snapshot(&self, player_id: PlayerId) -> (result: Option<PlayerSnapshot>)
        requires
            self.state.sound(),
        ensures
            match result {
                Some(player) => self.state@.player(player_id) == Some(player@) && player.sound(),
                None => self.state@.player(player_id) is None,
            },
    {
        self.state.player_snapshot(player_id)
    }

    /// A copy of the session of a player.
    pub fn player_session_state(&self, player_id: PlayerId) -> (result: Option<PlayerSessionState>)
        requires
            self.state.sound(),
        ensures
            match result {
                Some(session) => self.state@.session(player_id) == Some(session@)
                    && session.sound(),
                None => self.state@.session(player_id) is None,
            },
    {
        self.state.player_session_state(player_id)
    }

    /// The block at a place.
    pub fn block_state<B: ContentBehavior>(&self, content_behavior: &B, position: BlockPos) -> (result:
        Option<BlockState>)
        requires
            self.state.sound(),
        ensures
            block_wf(result),
            block_view(result) == self.state@.chunk(
                *content_behavior,
                position.spec_chunk_pos(),
            ).block(fine(position.x as int), position.y as int, fine(position.z as int)),
    {
        self.state.block_state(content_behavior, position)
    }

    /// What the block at a place holds.
    pub fn block_entity(&self, position: BlockPos) -> (result: Option<BlockEntityState>)
        requires
            self.state.sound(),
        ensures
            match result {
                Some(state) => lookup(self.state@.world.block_entities, position.id()) == Some(
                    state@,
                ) && state.sound(),
                None => lookup(self.state@.world.block_entities, position.id()) is None,
            },
    {
        self.state.block_entity(position)
    }
}

/// Whether effects could be applied.
#[derive(Clone, Copy, Debug, PartialEq, Eq, Structural)]
pub enum GameplayEffectApplyResult {
    Applied,
    Conflict,
}

/// A change that was made to a game.
#[allow(inconsistent_fields)]
#[derive(Debug, PartialEq, Eq)]
pub enum CoreTransferMutation {
    Command { command: CoreCommand, now_ms: u64 },
    BuiltinGameplayCommand { command: GameplayCommand, now_ms: u64 },
    BuiltinTick { now_ms: u64 },
    GameplayEffects { batch: GameplayEffectBatch },
    LoginEffects {
        connection_id: ConnectionId,
        username: String,
        player_id: PlayerId,
        batch: GameplayEffectBatch,
    },
    SetMaxPlayers { max_players: u8 },
    Reconfigure { config: CoreConfig },
}

impl CoreTransferMutation {
    /// What is wrong with a change that is made again with a result.
    pub open spec fn spec_conflict(&self, result: GameplayEffectApplyResult) -> Option<StateFault> {
        match self {
            CoreTransferMutation::GameplayEffects { .. } => if result is Conflict {
                Some(StateFault::GameplayConflict)
            } else {
                None
            },
            CoreTransferMutation::LoginEffects { .. } => if result is Conflict {
                Some(StateFault::LoginConflict)
            } else {
                None
            },
            _ => None,
        }
    }

    /// Makes a change again. What commands, ticks and effects do is done already, and leads to
    /// `result`; settings are changed here.
    pub fn apply(self, state: &mut ServerCore, result: GameplayEffectApplyResult) -> (outcome: Result<
        (),
        CoreTransferError,
    >)
        ensures
            old(state).sound() ==> final(state).sound(),
            match self.spec_conflict(result) {
                Some(fault) => outcome == Err::<(), CoreTransferError>(
                    CoreTransferError::InvalidState(fault),
                ),
                None => outcome is Ok,
            },
            final(state)@ == made_again(old(state)@, self, None),
    {
        match self {
            CoreTransferMutation::GameplayEffects { .. } => {
                if result == GameplayEffectApplyResult::Conflict {
                    return Err(CoreTransferError::InvalidState(StateFault::GameplayConflict));
                }
            },
            CoreTransferMutation::LoginEffects { .. } => {
                if result == GameplayEffectApplyResult::Conflict {
                    return Err(CoreTransferError::InvalidState(StateFault::LoginConflict));
                }
            },
            CoreTransferMutation::SetMaxPlayers { max_players } => {
                state.set_max_players(max_players);
            },
            CoreTransferMutation::Reconfigure { config } => {
                state.reconfigure(config);
            },
            _ => {},
        }
        Ok(())
    }
}

/// The state after a change that is made again. `next` is the state that a command, a tick or
/// effects led to; settings are changed on top of it.
pub open spec fn made_again(
    before: CoreView,
    mutation: CoreTransferMutation,
    next: Option<CoreView>,
) -> CoreView {
    let reached = match next {
        Some(next) => next,
        None => before,
    };
    match mutation {
        CoreTransferMutation::SetMaxPlayers { max_players } => with_max_players(
            reached,
            max_players,
        ),
        CoreTransferMutation::Reconfigure { config } => reconfigured(reached, config@),
        _ => reached,
    }
}

/// The state after changes that are made again one after the other, each with the state that it
/// led to.
pub open spec fn all_made_again(
    before: CoreView,
    mutations: Seq<CoreTransferMutation>,
    nexts: Seq<Option<CoreView>>,
) -> CoreView
    decreases mutations.len(),
{
    if mutations.len() == 0 {
        before
    } else {
        made_again(
            all_made_again(before, mutations.drop_last(), nexts.drop_last()),
            mutations.last(),
            nexts.last(),
        )
    }
}

/// The changes that led from one revision to the next.
#[derive(Debug, PartialEq, Eq)]
pub struct CoreTransferCommit {
    pub base_revision: CoreRevision,
    pub next_revision: CoreRevision,
    pub requires_persistence: bool,
    pub mutations: Vec<CoreTransferMutation>,
}

impl CoreTransferCommit {
    /// The revision that the changes were made to.
    pub fn base_revision(&self) -> (result: CoreRevision)
        ensures
            result == self.base_revision,
    {
        self.base_revision
    }

    /// The revision that the changes led to.
    pub fn next_revision(&self) -> (result: CoreRevision)
        ensures
            result == self.next_revision,
    {
        self.next_revision
    }

    /// Whether the changes have to be saved.
    pub fn requires_persistence(&self) -> (result: bool)
        ensures
            result == self.requires_persistence,
    {
        self.requires_persistence
    }

    /// A writer for the changes in bytes, no more of them than a limit and than can be handed
    /// over.
    pub fn writer(byte_limit: usize) -> (result: BoundedTransferWriter)
        ensures
            result.bytes@ == Seq::<u8>::empty(),
            result.limit == commit_limit(byte_limit),
            result.failure is None,
            result.within(),
    {
        if byte_limit > MAX_CORE_TRANSFER_BYTES {
            BoundedTransferWriter::new(MAX_CORE_TRANSFER_BYTES)
        } else {
            BoundedTransferWriter::new(byte_limit)
        }
    }

    /// The changes in bytes, once they were written to a writer or were not.
    pub fn encode(self, writer: BoundedTransferWriter, written: Result<(), String>) -> (result:
        Result<EncodedCoreTransferCommit, CoreTransferError>)
        ensures
            result == encoded(self, writer, written),
    {
        let bytes = writer.finish(written)?;
        Ok(
            EncodedCoreTransferCommit {
                base_revision: self.base_revision,
                next_revision: self.next_revision,
                requires_persistence: self.requires_persistence,
                bytes,
            },
        )
    }
}

/// How many bytes changes may take: no more than a limit and than can be handed over.
pub open spec fn commit_limit(byte_limit: usize) -> usize {
    if byte_limit > 536_870_912 {
        536_870_912
    } else {
        byte_limit
    }
}

/// Changes in bytes, once they were written to a writer or were not.
pub open spec fn encoded(
    commit: CoreTransferCommit,
    writer: BoundedTransferWriter,
    written: Result<(), String>,
) -> Result<EncodedCoreTransferCommit, CoreTransferError> {
    match taken(writer, written) {
        Ok(bytes) => Ok(
            EncodedCoreTransferCommit {
                base_revision: commit.base_revision,
                next_revision: commit.next_revision,
                requires_persistence: commit.requires_persistence,
                bytes,
            },
        ),
        Err(e) => Err(e),
    }
}

/// Changes in bytes lead from and to the revisions of the changes, and take no more bytes than the
/// limit and than can be handed over.
pub proof fn encoded_commit_is_bounded(
    commit: CoreTransferCommit,
    byte_limit: usize,
    writer: BoundedTransferWriter,
    written: Result<(), String>,
)
    requires
        writer.within(),
        writer.limit == commit_limit(byte_limit),
    ensures
        encoded(commit, writer, written) matches Ok(result) ==> {
            &&& result.bytes@.len() <= byte_limit
            &&& result.bytes@.len() <= 536_870_912
            &&& result.base_revision == commit.base_revision
            &&& result.next_revision == commit.next_revision
            &&& result.requires_persistence == commit.requires_persistence
        },
{
}

/// Changes that are being made to a copy of a revision.
#[derive(Debug, PartialEq, Eq)]
pub struct CoreMutation {
    pub base_revision: CoreRevision,
    pub state: ServerCore,
    pub transfer_mutations: Vec<CoreTransferMutation>,
}

impl CoreMutation {
    /// No changes to a copy of a revision.
    pub fn from_version(base: &CoreVersion) -> (result: Self)
        requires
            base.state.sound(),
        ensures
            result.base_revision == base.revision,
            result.state@ == base.state@,
            result.state.sound(),
            result.transfer_mutations@.len() == 0,
    {
        CoreMutation {
            base_revision: base.revision,
            state: base.state.replica(),
            transfer_mutations: Vec::new(),
        }
    }

    /// Records a command of a client that led to another state and to events.
    pub fn apply_command(
        &mut self,
        command: CoreCommand,
        now_ms: u64,
        next: ServerCore,
        events: Vec<TargetedEvent>,
    ) -> (result: Vec<TargetedEvent>)
        ensures
            result == events,
            final(self).base_revision == old(self).base_revision,
            final(self).state == next,
            final(self).transfer_mutations@ == old(self).transfer_mutations@.push(
                CoreTransferMutation::Command { command, now_ms },
            ),
    {
        self.state = next;
        self.transfer_mutations.push(CoreTransferMutation::Command { command, now_ms });
        events
    }

    /// Records a command within the rules of the game that led to another state and to events.
    pub fn apply_builtin_gameplay_command(
        &mut self,
        command: GameplayCommand,
        now_ms: u64,
        next: ServerCore,
        events: Vec<TargetedEvent>,
    ) -> (result: Vec<TargetedEvent>)
        ensures
            result == events,
            final(self).base_revision == old(self).base_revision,
            final(self).state == next,
            final(self).transfer_mutations@ == old(self).transfer_mutations@.push(
                CoreTransferMutation::BuiltinGameplayCommand { command, now_ms },
            ),
    {
        self.state = next;
        self.transfer_mutations.push(
            CoreTransferMutation::BuiltinGameplayCommand { command, now_ms },
        );
        events
    }

    /// Records a tick that led to another state and to events.
    pub fn tick(&mut self, now_ms: u64, next: ServerCore, events: Vec<TargetedEvent>) -> (result:
        Vec<TargetedEvent>)
        ensures
            result == events,
            final(self).base_revision == old(self).base_revision,
            final(self).state == next,
            final(self).transfer_mutations@ == old(self).transfer_mutations@.push(
                CoreTransferMutation::BuiltinTick { now_ms },
            ),
    {
        self.state = next;
        self.transfer_mutations.push(CoreTransferMutation::BuiltinTick { now_ms });
        events
    }

    /// Records effects that led to another state and to a result, if there were any and they
    /// were applied.
    pub fn validate_and_apply_gameplay_effects(
        &mut self,
        batch: GameplayEffectBatch,
        next: ServerCore,
        applied: GameplayEffectApplyResult,
    ) -> (result: GameplayEffectApplyResult)
        ensures
            result == applied,
            final(self).base_revision == old(self).base_revision,
            final(self).state == next,
            final(self).transfer_mutations@ == if batch.effects@.len() > 0 && !(
            applied is Conflict) {
                old(self).transfer_mutations@.push(
                    CoreTransferMutation::GameplayEffects { batch },
                )
            } else {
                old(self).transfer_mutations@
            },
    {
        self.state = next;
        if batch.effects.len() > 0 && applied != GameplayEffectApplyResult::Conflict {
            self.transfer_mutations.push(CoreTransferMutation::GameplayEffects { batch });
        }
        applied
    }

    /// Records effects for a player who joined, which led to another state and to a result, if
    /// they were applied.
    pub fn validate_and_apply_login_effects(
        &mut self,
        connection_id: ConnectionId,
        username: String,
        player_id: PlayerId,
        batch: GameplayEffectBatch,
        next: ServerCore,
        applied: GameplayEffectApplyResult,
    ) -> (result: GameplayEffectApplyResult)
        ensures
            result == applied,
            final(self).base_revision == old(self).base_revision,
            final(self).state == next,
            final(self).transfer_mutations@ == if !(applied is Conflict) {
                old(self).transfer_mutations@.push(
                    CoreTransferMutation::LoginEffects {
                        connection_id,
                        username,
                        player_id,
                        batch,
                    },
                )
            } else {
                old(self).transfer_mutations@
            },
    {
        self.state = next;
        if applied != GameplayEffectApplyResult::Conflict {
            self.transfer_mutations.push(
                CoreTransferMutation::LoginEffects { connection_id, username, player_id, batch },
            );
        }
        applied
    }

    /// Changes how many players can be in the game.
    pub fn set_max_players(&mut self, max_players: u8)
        ensures
            final(self).base_revision == old(self).base_revision,
            final(self).state@ == with_max_players(old(self).state@, max_players),
            old(self).state.sound() ==> final(self).state.sound(),
            final(self).transfer_mutations@ == old(self).transfer_mutations@.push(
                CoreTransferMutation::SetMaxPlayers { max_players },
            ),
    {
        self.state.set_max_players(max_players);
        self.transfer_mutations.push(CoreTransferMutation::SetMaxPlayers { max_players });
    }

    /// Changes how the game is set up.
    pub fn reconfigure(&mut self, config: CoreConfig)
        ensures
            final(self).base_revision == old(self).base_revision,
            final(self).state@ == reconfigured(old(self).state@, config@),
            old(self).state.sound() ==> final(self).state.sound(),
            final(self).transfer_mutations@ == old(self).transfer_mutations@.push(
                CoreTransferMutation::Reconfigure { config },
            ),
    {
        self.state.reconfigure(config.duplicate());
        self.transfer_mutations.push(CoreTransferMutation::Reconfigure { config });
    }

    /// Seals the changes: the game comes to its next revision if there are any, whatever they
    /// did, and stays at its revision if there are none.
    pub fn prepare(self, events: Vec<TargetedEvent>, requires_persistence: bool) -> (result:
        PreparedCoreCommit)
        ensures
            result.base_revision == self.base_revision,
            result.next_version.revision == if self.transfer_mutations@.len() == 0 {
                self.base_revision
            } else {
                revision_after(self.base_revision)
            },
            result.next_version.state == self.state,
            result.events == events,
            result.requires_persistence == requires_persistence,
            result.transfer_mutations == self.transfer_mutations,
    {
        let next_revision = if self.transfer_mutations.len() == 0 {
            self.base_revision
        } else {
            self.base_revision.next()
        };
        PreparedCoreCommit {
            base_revision: self.base_revision,
            next_version: CoreVersion { revision: next_revision, state: self.state },
            events,
            requires_persistence,
            transfer_mutations: self.transfer_mutations,
        }
    }
}

/// Whether recorded changes, made again from a state, each with the state that it led to, lead to
/// the state that was reached.
pub open spec fn faithful(
    base: CoreView,
    changes: CoreMutation,
    nexts: Seq<Option<CoreView>>,
) -> bool {
    &&& nexts.len() == changes.transfer_mutations@.len()
    &&& all_made_again(base, changes.transfer_mutations@, nexts) == changes.state@
}

/// What is recorded of a game leads a copy of the game to the same state: no changes lead to the
/// state that they started from, and where the changes so far lead to the state that was reached,
/// so do the changes with one more.
pub proof fn recording_stays_faithful(
    base: CoreView,
    before: CoreMutation,
    after: CoreMutation,
    change: CoreTransferMutation,
    next: Option<CoreView>,
    nexts: Seq<Option<CoreView>>,
)
    requires
        after.transfer_mutations@ == before.transfer_mutations@.push(change),
        after.state@ == made_again(before.state@, change, next),
    ensures
        before.transfer_mutations@.len() == 0 ==> faithful(before.state@, before, Seq::empty()),
        faithful(base, before, nexts) ==> faithful(base, after, nexts.push(next)),
{
    assert(after.transfer_mutations@.drop_last() =~= before.transfer_mutations@);
    assert(nexts.push(next).drop_last() =~= nexts);
}

/// Changes that lead to the next revision, and the events that they led to.
#[derive(Debug, PartialEq, Eq)]
pub struct PreparedCoreCommit {
    pub base_revision: CoreRevision,
    pub next_version: CoreVersion,
    pub events: Vec<TargetedEvent>,
    pub requires_persistence: bool,
    pub transfer_mutations: Vec<CoreTransferMutation>,
}

impl PreparedCoreCommit {
    /// The revision that the changes were made to.
    pub fn base_revision(&self) -> (result: CoreRevision)
        ensures
            result == self.base_revision,
    {
        self.base_revision
    }

    /// The revision that the changes lead to.
    pub fn next_version(&self) -> (result: &CoreVersion)
        ensures
            *result == self.next_version,
    {
        &self.next_version
    }

    /// The events that the changes led to.
    pub fn events(&self) -> (result: &[TargetedEvent])
        ensures
            result@ == self.events@,
    {
        self.events.as_slice()
    }

    /// Whether the changes have to be saved.
    pub fn requires_persistence(&self) -> (result: bool)
        ensures
            result == self.requires_persistence,
    {
        self.requires_persistence
    }

    /// The next revision, the events, whether it has to be saved, and what is to be handed over.
    pub fn into_parts(self) -> (result: (
        CoreVersion,
        Vec<TargetedEvent>,
        bool,
        CoreTransferCommit,
    ))
        ensures
            result.0 == self.next_version,
            result.1 == self.events,
            result.2 == self.requires_persistence,
            result.3 == (CoreTransferCommit {
                base_revision: self.base_revision,
                next_revision: self.next_version.revision,
                requires_persistence: self.requires_persistence,
                mutations: self.transfer_mutations,
            }),
    {
        let transfer = CoreTransferCommit {
            base_revision: self.base_revision,
            next_revision: self.next_version.revision,
            requires_persistence: self.requires_persistence,
            mutations: self.transfer_mutations,
        };
        (self.next_version, self.events, self.requires_persistence, transfer)
    }
}

/// A revision that is handed over.
#[derive(Debug, PartialEq, Eq)]
pub struct CoreHandoff {
    pub version: CoreVersion,
}

impl CoreHandoff {
    /// Hands over a revision that was committed.
    pub fn from_committed(version: CoreVersion) -> (result: Self)
        ensures
            result.version == version,
    {
        CoreHandoff { version }
    }

    /// The revision.
    pub fn version(&self) -> (result: &CoreVersion)
        ensures
            *result == self.version,
    {
        &self.version
    }
}

/// A delta that is being applied to a copy of a revision.
pub struct CoreReplay<'a> {
    pub commits: CoreDeltaReplay<'a>,
    pub state: ServerCore,
}

impl<'a> CoreReplay<'a> {
    /// Whether all data stands in order.
    pub open spec fn wf(&self) -> bool {
        self.commits.wf() && self.state.sound()
    }

    /// The next commit in bytes, if one follows.
    pub fn next_frame(&mut self) -> (result: Result<Option<&'a [u8]>, CoreTransferError>)
        requires
            old(self).wf(),
        ensures
            final(self).wf(),
            final(self).state == old(self).state,
            if old(self).commits@.left == 0 {
                result == Ok::<Option<&'a [u8]>, CoreTransferError>(None) && final(self).commits@
                    == old(self).commits@
            } else {
                match next_frame_of(old(self).commits@.rest) {
                    Ok((frame, rest)) => result matches Ok(Some(bytes)) && bytes@ == frame
                        && final(self).commits@ == (ReplayView {
                        rest,
                        left: (old(self).commits@.left - 1) as nat,
                        ..old(self).commits@
                    }),
                    Err(e) => result matches Err(error) && error == e && final(self).commits@
                        == old(self).commits@,
                }
            },
    {
        self.commits.next_frame()
    }

    /// Goes on to the revision that a commit leads to, if the commit follows the one before it.
    pub fn accept(&mut self, commit: &CoreTransferCommit) -> (result: Result<
        (),
        CoreTransferError,
    >)
        requires
            old(self).wf(),
        ensures
            final(self).wf(),
            final(self).state == old(self).state,
            if commit.base_revision == old(self).commits@.revision && commit.next_revision
                == revision_after(old(self).commits@.revision) {
                result is Ok && final(self).commits@ == (ReplayView {
                    revision: commit.next_revision,
                    ..old(self).commits@
                })
            } else {
                result == Err::<(), CoreTransferError>(
                    CoreTransferError::InvalidState(
                        StateFault::DeltaCommitNotAdjacent {
                            base: commit.base_revision.0,
                            next: commit.next_revision.0,
                            revision: old(self).commits@.revision.0,
                        },
                    ),
                ) && final(self).commits@ == old(self).commits@
            },
    {
        self.commits.accept(commit.base_revision, commit.next_revision)
    }

    /// Makes a change again. `next` is the state that a command, a tick or effects led to, and
    /// `result` what came of effects; settings are changed here.
    pub fn apply(
        &mut self,
        mutation: CoreTransferMutation,
        next: Option<ServerCore>,
        result: GameplayEffectApplyResult,
    ) -> (outcome: Result<(), CoreTransferError>)
        requires
            old(self).wf(),
            next matches Some(next) ==> next.sound(),
        ensures
            final(self).wf(),
            final(self).commits@ == old(self).commits@,
            match mutation.spec_conflict(result) {
                Some(fault) => outcome == Err::<(), CoreTransferError>(
                    CoreTransferError::InvalidState(fault),
                ),
                None => outcome is Ok,
            },
            final(self).state@ == made_again(
                old(self).state@,
                mutation,
                match next {
                    Some(next) => Some(next@),
                    None => None,
                },
            ),
    {
        if let Some(next) = next {
            self.state = next;
        }
        mutation.apply(&mut self.state, result)
    }

    /// The revision that was reached, if it is the one that was to be reached and nothing
    /// follows.
    pub fn finish(self) -> (result: Result<CoreVersion, CoreTransferError>)
        requires
            self.wf(),
        ensures
            match replay_end(self.commits@) {
                Ok(revision) => result == Ok::<CoreVersion, CoreTransferError>(
                    CoreVersion { revision, state: self.state },
                ),
                Err(e) => result == Err::<CoreVersion, CoreTransferError>(e),
            },
    {
        let revision = self.commits.finish()?;
        Ok(CoreVersion { revision, state: self.state })
    }
}

impl CoreVersion {
    /// Starts to apply a delta to a copy of the revision.
    pub fn apply_process_transfer_delta<'a>(&self, bytes: &'a [u8]) -> (result: Result<
        CoreReplay<'a>,
        CoreTransferError,
    >)
        requires
            self.state.sound(),
        ensures
            match replay_start(bytes@, self.revision) {
                Ok(view) => result matches Ok(replay) && replay.wf() && replay.commits@ == view
                    && replay.state@ == self.state@,
                Err(e) => result matches Err(error) && error == e,
            },
    {
        let commits = CoreDeltaReplay::begin(bytes, self.revision)?;
        Ok(CoreReplay { commits, state: self.state.replica() })
    }
}

} // verus!
