//! Commits that follow each other, sealed into one delta, and read back out of it.

use crate::bytes::{from_le, from_le_of_le, le, le_len, pow256_values, push_le, take_le};
use crate::transfer::fault::{CoreTransferError, StateFault};
use vstd::prelude::*;

verus! {

/// The format of what is handed over.
pub const CORE_TRANSFER_FORMAT_MAJOR: u16 = 1;

/// How many bytes can be handed over at once.
pub const MAX_CORE_TRANSFER_BYTES: usize = 536_870_912;

/// How many bytes of a delta come before its commits.
pub const CORE_DELTA_HEADER_BYTES: usize = 30;

/// How many commits a delta holds.
pub const MAX_COMMITS: usize = 16_384;

/// What a delta starts with.
pub open spec fn magic() -> Seq<u8> {
    seq![0x52u8, 0x56, 0x43, 0x44, 0x43, 0x4f, 0x52, 0x45]
}

/// A revision of a game.
#[derive(Clone, Copy, Debug, PartialEq, Eq, Structural, PartialOrd, Ord)]
pub struct CoreRevision(pub u64);

/// The revision after another; the last is followed by itself.
pub open spec fn revision_after(revision: CoreRevision) -> CoreRevision {
    if revision.0 == u64::MAX {
        revision
    } else {
        CoreRevision((revision.0 + 1) as u64)
    }
}

impl Default for CoreRevision {
    fn default() -> (result: Self)
        ensures
            result.0 == 0,
    {
        CoreRevision(0)
    }
}

impl CoreRevision {
    /// The first revision.
    pub fn initial() -> (result: Self)
        ensures
            result.0 == 0,
    {
        CoreRevision(0)
    }

    /// The number of the revision.
    pub fn value(self) -> (result: u64)
        ensures
            result == self.0,
    {
        self.0
    }

    /// The revision with a number.
    pub fn from_value(value: u64) -> (result: Self)
        ensures
            result.0 == value,
    {
        CoreRevision(value)
    }

    /// The revision after this one; the last is followed by itself.
    pub fn next(self) -> (result: Self)
        ensures
            result == revision_after(self),
    {
        CoreRevision(self.0.saturating_add(1))
    }
}

/// A commit that was written down.
#[derive(Debug, PartialEq, Eq)]
pub struct EncodedCoreTransferCommit {
    pub base_revision: CoreRevision,
    pub next_revision: CoreRevision,
    pub requires_persistence: bool,
    pub bytes: Vec<u8>,
}

impl EncodedCoreTransferCommit {
    /// The revision that the commit follows.
    pub fn base_revision(&self) -> (result: CoreRevision)
        ensures
            result == self.base_revision,
    {
        self.base_revision
    }

    /// The revision that the commit leads to.
    pub fn next_revision(&self) -> (result: CoreRevision)
        ensures
            result == self.next_revision,
    {
        self.next_revision
    }

    /// Whether the commit has to be saved.
    pub fn requires_persistence(&self) -> (result: bool)
        ensures
            result == self.requires_persistence,
    {
        self.requires_persistence
    }

    /// How many bytes the commit takes.
    pub fn encoded_len(&self) -> (result: usize)
        ensures
            result == self.bytes@.len(),
    {
        self.bytes.len()
    }
}

/// What a delta leads from and to, and how long it is.
#[derive(Clone, Copy, Debug, PartialEq, Eq, Structural)]
pub struct CoreTransferDeltaDescriptor {
    pub base_revision: CoreRevision,
    pub final_revision: CoreRevision,
    pub encoded_len: usize,
}

impl CoreTransferDeltaDescriptor {
    /// The revision that the delta leads from.
    pub fn base_revision(self) -> (result: CoreRevision)
        ensures
            result == self.base_revision,
    {
        self.base_revision
    }

    /// The revision that the delta leads to.
    pub fn final_revision(self) -> (result: CoreRevision)
        ensures
            result == self.final_revision,
    {
        self.final_revision
    }

    /// How long the delta is.
    pub fn encoded_len(self) -> (result: usize)
        ensures
            result == self.encoded_len,
    {
        self.encoded_len
    }
}

/// The revision that the first `n` commits lead to and the length of a delta with them, or why
/// there is no such delta.
pub open spec fn after_commits(
    base: CoreRevision,
    commits: Seq<EncodedCoreTransferCommit>,
    n: nat,
) -> Result<(CoreRevision, nat), CoreTransferError>
    decreases n,
{
    if n == 0 {
        Ok((base, 30))
    } else {
        match after_commits(base, commits, (n - 1) as nat) {
            Err(e) => Err(e),
            Ok((expected, length)) => {
                let commit = commits[n - 1];
                let longer = length + 4 + commit.bytes@.len();
                if n > 16_384 {
                    Err(
                        CoreTransferError::BudgetExceeded { actual: n as usize, limit: 16_384 },
                    )
                } else if commit.base_revision != expected || commit.next_revision
                    != revision_after(expected) {
                    Err(
                        CoreTransferError::InvalidState(
                            StateFault::CommitNotAdjacent {
                                base: commit.base_revision.0,
                                next: commit.next_revision.0,
                                expected: expected.0,
                            },
                        ),
                    )
                } else if longer > usize::MAX {
                    Err(
                        CoreTransferError::BudgetExceeded {
                            actual: usize::MAX,
                            limit: 536_870_912,
                        },
                    )
                } else {
                    Ok((commit.next_revision, longer))
                }
            },
        }
    }
}

/// What a delta of commits leads from and to, and how long it is, or why there is none.
pub open spec fn described(
    base: CoreRevision,
    commits: Seq<EncodedCoreTransferCommit>,
) -> Result<CoreTransferDeltaDescriptor, CoreTransferError> {
    match after_commits(base, commits, commits.len()) {
        Err(e) => Err(e),
        Ok((last, length)) => if length > 536_870_912 {
            Err(
                CoreTransferError::BudgetExceeded {
                    actual: length as usize,
                    limit: 536_870_912,
                },
            )
        } else {
            Ok(
                CoreTransferDeltaDescriptor {
                    base_revision: base,
                    final_revision: last,
                    encoded_len: length as usize,
                },
            )
        },
    }
}

proof fn fault_stays(
    base: CoreRevision,
    commits: Seq<EncodedCoreTransferCommit>,
    n: nat,
    m: nat,
)
    requires
        n <= m,
        after_commits(base, commits, n) is Err,
    ensures
        after_commits(base, commits, m) == after_commits(base, commits, n),
    decreases m - n,
{
    if n < m {
        fault_stays(base, commits, n, (m - 1) as nat);
    }
}

/// Checks that commits follow each other and are not too many.
pub fn validate_preencoded(
    base_revision: CoreRevision,
    commits: &Vec<EncodedCoreTransferCommit>,
) -> (result: Result<CoreTransferDeltaDescriptor, CoreTransferError>)
    ensures
        result == described(base_revision, commits@),
{
    let mut expected = base_revision;
    let mut encoded_len: usize = CORE_DELTA_HEADER_BYTES;
    let mut commit_count: usize = 0;
    while commit_count < commits.len()
        invariant
            commit_count <= commits@.len(),
            after_commits(base_revision, commits@, commit_count as nat) == Ok::<
                (CoreRevision, nat),
                CoreTransferError,
            >((expected, encoded_len as nat)),
        decreases commits@.len() - commit_count,
    {
        let commit = &commits[commit_count];
        commit_count += 1;
        proof {
            if after_commits(base_revision, commits@, commit_count as nat) is Err {
                fault_stays(base_revision, commits@, commit_count as nat, commits@.len());
            }
        }
        if commit_count > MAX_COMMITS {
            return Err(
                CoreTransferError::BudgetExceeded { actual: commit_count, limit: MAX_COMMITS },
            );
        }
        if commit.base_revision != expected || commit.next_revision != expected.next() {
            return Err(
                CoreTransferError::InvalidState(
                    StateFault::CommitNotAdjacent {
                        base: commit.base_revision.0,
                        next: commit.next_revision.0,
                        expected: expected.0,
                    },
                ),
            );
        }
        expected = commit.next_revision;
        encoded_len = match encoded_len.checked_add(4) {
            Some(length) => match length.checked_add(commit.bytes.len()) {
                Some(length) => length,
                None => {
                    return Err(
                        CoreTransferError::BudgetExceeded {
                            actual: usize::MAX,
                            limit: MAX_CORE_TRANSFER_BYTES,
                        },
                    );
                },
            },
            None => {
                return Err(
                    CoreTransferError::BudgetExceeded {
                        actual: usize::MAX,
                        limit: MAX_CORE_TRANSFER_BYTES,
                    },
                );
            },
        };
    }
    if encoded_len > MAX_CORE_TRANSFER_BYTES {
        return Err(
            CoreTransferError::BudgetExceeded {
                actual: encoded_len,
                limit: MAX_CORE_TRANSFER_BYTES,
            },
        );
    }
    Ok(CoreTransferDeltaDescriptor { base_revision, final_revision: expected, encoded_len })
}

/// The bytes of the commits from the place `i` on, each after its length.
pub open spec fn frames_from(commits: Seq<EncodedCoreTransferCommit>, i: nat) -> Seq<u8>
    decreases commits.len() - i,
{
    if i >= commits.len() {
        Seq::empty()
    } else {
        le(commits[i as int].bytes@.len(), 4) + commits[i as int].bytes@ + frames_from(
            commits,
            i + 1,
        )
    }
}

/// The bytes that come before the commits of a delta.
pub open spec fn delta_header(base: CoreRevision, last: CoreRevision, count: nat) -> Seq<u8> {
    magic() + le(1, 2) + le(base.0 as nat, 8) + le(last.0 as nat, 8) + le(count, 4)
}

/// The bytes of a delta.
pub open spec fn delta_bytes(
    base: CoreRevision,
    last: CoreRevision,
    commits: Seq<EncodedCoreTransferCommit>,
) -> Seq<u8> {
    delta_header(base, last, commits.len()) + frames_from(commits, 0)
}

proof fn first_commits_fit(base: CoreRevision, commits: Seq<EncodedCoreTransferCommit>, n: nat)
    requires
        n <= commits.len(),
        after_commits(base, commits, commits.len()) is Ok,
    ensures
        after_commits(base, commits, n) is Ok,
{
    if after_commits(base, commits, n) is Err {
        fault_stays(base, commits, n, commits.len());
    }
}

/// The length of a delta is the one it is said to have.
proof fn frames_len(base: CoreRevision, commits: Seq<EncodedCoreTransferCommit>, i: nat)
    requires
        i <= commits.len(),
        after_commits(base, commits, commits.len()) is Ok,
    ensures
        after_commits(base, commits, i) is Ok,
        frames_from(commits, i).len() + after_commits(base, commits, i)->Ok_0.1 == after_commits(
            base,
            commits,
            commits.len(),
        )->Ok_0.1,
    decreases commits.len() - i,
{
    broadcast use le_len;

    first_commits_fit(base, commits, i);
    if i < commits.len() {
        first_commits_fit(base, commits, i + 1);
        frames_len(base, commits, i + 1);
    }
}

/// Appends the bytes of a delta.
fn write_preencoded(
    descriptor: CoreTransferDeltaDescriptor,
    commits: &Vec<EncodedCoreTransferCommit>,
    writer: &mut Vec<u8>,
)
    requires
        described(descriptor.base_revision, commits@) == Ok::<
            CoreTransferDeltaDescriptor,
            CoreTransferError,
        >(descriptor),
    ensures
        final(writer)@ == old(writer)@ + delta_bytes(
            descriptor.base_revision,
            descriptor.final_revision,
            commits@,
        ),
{
    let ghost base = descriptor.base_revision;
    proof {
        count_is_limited(base, commits@);
        assert(magic() =~= seq![0x52u8, 0x56, 0x43, 0x44] + seq![0x43u8, 0x4f, 0x52, 0x45]);
    }
    writer.push(0x52);
    writer.push(0x56);
    writer.push(0x43);
    writer.push(0x44);
    writer.push(0x43);
    writer.push(0x4f);
    writer.push(0x52);
    writer.push(0x45);
    assert(writer@ =~= old(writer)@ + magic());
    push_le(writer, CORE_TRANSFER_FORMAT_MAJOR as u64, 2);
    push_le(writer, descriptor.base_revision.0, 8);
    push_le(writer, descriptor.final_revision.0, 8);
    push_le(writer, commits.len() as u64, 4);
    let ghost header = delta_header(base, descriptor.final_revision, commits@.len());
    assert(writer@ =~= old(writer)@ + header);
    let ghost all = old(writer)@ + (header + frames_from(commits@, 0));
    let mut i: usize = 0;
    assert(all =~= writer@ + frames_from(commits@, 0));
    while i < commits.len()
        invariant
            i <= commits@.len(),
            all == writer@ + frames_from(commits@, i as nat),
        decreases commits@.len() - i,
    {
        let bytes = &commits[i].bytes;
        let ghost before = writer@;
        push_le(writer, bytes.len() as u64, 4);
        writer.extend_from_slice(bytes.as_slice());
        proof {
            let head = le(bytes@.len(), 4);
            let rest = frames_from(commits@, i as nat + 1);
            assert(writer@ =~= before + head + bytes@);
            assert(before + (head + bytes@ + rest) =~= before + head + bytes@ + rest);
        }
        i += 1;
    }
    assert(writer@ + Seq::<u8>::empty() =~= writer@);
}

proof fn count_is_limited(base: CoreRevision, commits: Seq<EncodedCoreTransferCommit>)
    requires
        after_commits(base, commits, commits.len()) is Ok,
    ensures
        commits.len() <= 16_384,
{
}

/// A delta: commits that follow each other, in bytes.
#[derive(Debug, PartialEq, Eq)]
pub struct CoreTransferDelta {
    pub base_revision: CoreRevision,
    pub final_revision: CoreRevision,
    pub bytes: Vec<u8>,
}

impl CoreTransferDelta {
    /// Seals commits into a delta.
    pub fn seal_preencoded(
        base_revision: CoreRevision,
        commits: Vec<EncodedCoreTransferCommit>,
    ) -> (result: Result<CoreTransferDelta, CoreTransferError>)
        ensures
            match described(base_revision, commits@) {
                Err(e) => result == Err::<CoreTransferDelta, CoreTransferError>(e),
                Ok(descriptor) => result matches Ok(delta) && delta.base_revision == base_revision
                    && delta.final_revision == descriptor.final_revision && delta.bytes@
                    == delta_bytes(base_revision, descriptor.final_revision, commits@)
                    && delta.bytes@.len() == descriptor.encoded_len,
            },
    {
        let descriptor = validate_preencoded(base_revision, &commits)?;
        let mut bytes: Vec<u8> = Vec::new();
        write_preencoded(descriptor, &commits, &mut bytes);
        proof {
            broadcast use le_len;

            frames_len(base_revision, commits@, 0);
            assert(bytes@ =~= delta_bytes(base_revision, descriptor.final_revision, commits@));
        }
        Ok(
            CoreTransferDelta { base_revision, final_revision: descriptor.final_revision, bytes },
        )
    }

    /// Seals commits into a delta behind some bytes.
    pub fn seal_preencoded_into(
        base_revision: CoreRevision,
        commits: &Vec<EncodedCoreTransferCommit>,
        writer: &mut Vec<u8>,
    ) -> (result: Result<CoreTransferDeltaDescriptor, CoreTransferError>)
        ensures
            result == described(base_revision, commits@),
            final(writer)@ == match described(base_revision, commits@) {
                Err(_) => old(writer)@,
                Ok(descriptor) => old(writer)@ + delta_bytes(
                    base_revision,
                    descriptor.final_revision,
                    commits@,
                ),
            },
    {
        let descriptor = validate_preencoded(base_revision, commits)?;
        write_preencoded(descriptor, commits, writer);
        Ok(descriptor)
    }

    /// The revision that the delta leads from.
    pub fn base_revision(&self) -> (result: CoreRevision)
        ensures
            result == self.base_revision,
    {
        self.base_revision
    }

    /// The revision that the delta leads to.
    pub fn final_revision(&self) -> (result: CoreRevision)
        ensures
            result == self.final_revision,
    {
        self.final_revision
    }

    /// The bytes of the delta.
    pub fn bytes(&self) -> (result: &[u8])
        ensures
            result@ == self.bytes@,
    {
        self.bytes.as_slice()
    }

    /// The bytes of the delta.
    pub fn into_bytes(self) -> (result: Vec<u8>)
        ensures
            result == self.bytes,
    {
        self.bytes
    }
}

/// How far the commits of a delta have been gone through.
pub struct CoreDeltaReplay<'a> {
    bytes: &'a [u8],
    at: usize,
    left: u32,
    revision: CoreRevision,
    final_revision: CoreRevision,
}

/// How far the commits of a delta have been gone through.
pub struct ReplayView {
    /// The bytes that follow.
    pub rest: Seq<u8>,
    /// How many commits follow.
    pub left: nat,
    /// The revision that was reached.
    pub revision: CoreRevision,
    /// The revision that is to be reached.
    pub last: CoreRevision,
}

/// Where going through a delta starts, or why it does not.
pub open spec fn replay_start(s: Seq<u8>, revision: CoreRevision) -> Result<
    ReplayView,
    CoreTransferError,
> {
    if s.len() > 536_870_912 {
        Err(
            CoreTransferError::BudgetExceeded { actual: s.len() as usize, limit: 536_870_912 },
        )
    } else if s.len() < 30 {
        Err(CoreTransferError::InvalidState(StateFault::DeltaHeaderTruncated))
    } else {
        let major = from_le(s.subrange(8, 10));
        let base = from_le(s.subrange(10, 18)) as u64;
        let last = from_le(s.subrange(18, 26)) as u64;
        let count = from_le(s.subrange(26, 30));
        if s.subrange(0, 8) != magic() {
            Err(CoreTransferError::InvalidState(StateFault::DeltaMagic))
        } else if major != 1 {
            Err(CoreTransferError::UnsupportedFormat { major: major as u16 })
        } else if count > 16_384 {
            Err(
                CoreTransferError::BudgetExceeded { actual: count as usize, limit: 16_384 },
            )
        } else if base != revision.0 {
            Err(
                CoreTransferError::InvalidState(
                    StateFault::DeltaBase { base, imported: revision.0 },
                ),
            )
        } else {
            Ok(
                ReplayView {
                    rest: s.subrange(30, s.len() as int),
                    left: count,
                    revision,
                    last: CoreRevision(last),
                },
            )
        }
    }
}

/// The next commit in bytes and what follows it, or why there is none.
pub open spec fn next_frame_of(s: Seq<u8>) -> Result<(Seq<u8>, Seq<u8>), CoreTransferError> {
    if s.len() < 4 {
        Err(CoreTransferError::InvalidState(StateFault::DeltaFrameTruncated))
    } else {
        let length = from_le(s.subrange(0, 4)) as int;
        if s.len() < 4 + length {
            Err(CoreTransferError::InvalidState(StateFault::DeltaFrameTruncated))
        } else {
            Ok((s.subrange(4, 4 + length), s.subrange(4 + length, s.len() as int)))
        }
    }
}

impl<'a> View for CoreDeltaReplay<'a> {
    type V = ReplayView;

    closed spec fn view(&self) -> ReplayView {
        ReplayView {
            rest: self.bytes@.subrange(self.at as int, self.bytes@.len() as int),
            left: self.left as nat,
            revision: self.revision,
            last: self.final_revision,
        }
    }
}

impl<'a> CoreDeltaReplay<'a> {
    /// Whether no more was read than there is.
    pub closed spec fn wf(&self) -> bool {
        self.at <= self.bytes@.len()
    }

    /// Starts going through a delta, from a revision.
    pub fn begin(bytes: &'a [u8], revision: CoreRevision) -> (result: Result<
        Self,
        CoreTransferError,
    >)
        ensures
            match replay_start(bytes@, revision) {
                Ok(view) => result matches Ok(replay) && replay@ == view && replay.wf(),
                Err(e) => result matches Err(error) && error == e,
            },
    {
        broadcast use pow256_values;

        if bytes.len() > MAX_CORE_TRANSFER_BYTES {
            return Err(
                CoreTransferError::BudgetExceeded {
                    actual: bytes.len(),
                    limit: MAX_CORE_TRANSFER_BYTES,
                },
            );
        }
        if bytes.len() < CORE_DELTA_HEADER_BYTES {
            return Err(CoreTransferError::InvalidState(StateFault::DeltaHeaderTruncated));
        }
        let starts = bytes[0] == 0x52 && bytes[1] == 0x56 && bytes[2] == 0x43 && bytes[3] == 0x44
            && bytes[4] == 0x43 && bytes[5] == 0x4f && bytes[6] == 0x52 && bytes[7] == 0x45;
        proof {
            let head = bytes@.subrange(0, 8);
            assert(starts ==> head =~= magic());
            assert(!starts ==> head != magic()) by {
                if head == magic() {
                    assert(head[0] == magic()[0] && head[1] == magic()[1] && head[2] == magic()[2]
                        && head[3] == magic()[3] && head[4] == magic()[4] && head[5]
                        == magic()[5] && head[6] == magic()[6] && head[7] == magic()[7]);
                }
            }
        }
        if !starts {
            return Err(CoreTransferError::InvalidState(StateFault::DeltaMagic));
        }
        let format_major: u16 = take_le(bytes, 8, 2) as u16;
        if format_major != CORE_TRANSFER_FORMAT_MAJOR {
            return Err(CoreTransferError::UnsupportedFormat { major: format_major });
        }
        let base: u64 = take_le(bytes, 10, 8);
        let last: u64 = take_le(bytes, 18, 8);
        let commit_count: u32 = take_le(bytes, 26, 4) as u32;
        if commit_count as usize > MAX_COMMITS {
            return Err(
                CoreTransferError::BudgetExceeded {
                    actual: commit_count as usize,
                    limit: MAX_COMMITS,
                },
            );
        }
        if base != revision.0 {
            return Err(
                CoreTransferError::InvalidState(
                    StateFault::DeltaBase { base, imported: revision.0 },
                ),
            );
        }
        Ok(
            CoreDeltaReplay {
                bytes,
                at: CORE_DELTA_HEADER_BYTES,
                left: commit_count,
                revision,
                final_revision: CoreRevision(last),
            },
        )
    }

    /// The next commit in bytes, if one follows.
    pub fn next_frame(&mut self) -> (result: Result<Option<&'a [u8]>, CoreTransferError>)
        requires
            old(self).wf(),
        ensures
            final(self).wf(),
            if old(self)@.left == 0 {
                result == Ok::<Option<&'a [u8]>, CoreTransferError>(None) && final(self)@
                    == old(self)@
            } else {
                match next_frame_of(old(self)@.rest) {
                    Ok((frame, rest)) => result matches Ok(Some(bytes)) && bytes@ == frame
                        && final(self)@ == (ReplayView {
                        rest,
                        left: (old(self)@.left - 1) as nat,
                        ..old(self)@
                    }),
                    Err(e) => result matches Err(error) && error == e && final(self)@
                        == old(self)@,
                }
            },
    {
        broadcast use pow256_values;

        if self.left == 0 {
            return Ok(None);
        }
        let ghost rest = self@.rest;
        let available: usize = self.bytes.len() - self.at;
        if available < 4 {
            return Err(CoreTransferError::InvalidState(StateFault::DeltaFrameTruncated));
        }
        proof {
            assert(rest.subrange(0, 4) =~= self.bytes@.subrange(self.at as int, self.at + 4));
        }
        let length: usize = take_le(self.bytes, self.at, 4) as usize;
        if available - 4 < length {
            return Err(CoreTransferError::InvalidState(StateFault::DeltaFrameTruncated));
        }
        let from: usize = self.at + 4;
        let to: usize = from + length;
        let frame = vstd::slice::slice_subrange(self.bytes, from, to);
        self.at = to;
        self.left = self.left - 1;
        proof {
            assert(frame@ =~= rest.subrange(4, 4 + length as int));
            assert(self@.rest =~= rest.subrange(4 + length as int, rest.len() as int));
        }
        Ok(Some(frame))
    }

    /// Goes on to the revision that a commit leads to, if the commit follows the one before it.
    pub fn accept(&mut self, base: CoreRevision, next: CoreRevision) -> (result: Result<
        (),
        CoreTransferError,
    >)
        requires
            old(self).wf(),
        ensures
            final(self).wf(),
            if base == old(self)@.revision && next == revision_after(old(self)@.revision) {
                result is Ok && final(self)@ == (ReplayView { revision: next, ..old(self)@ })
            } else {
                result == Err::<(), CoreTransferError>(
                    CoreTransferError::InvalidState(
                        StateFault::DeltaCommitNotAdjacent {
                            base: base.0,
                            next: next.0,
                            revision: old(self)@.revision.0,
                        },
                    ),
                ) && final(self)@ == old(self)@
            },
    {
        if base != self.revision || next != self.revision.next() {
            return Err(
                CoreTransferError::InvalidState(
                    StateFault::DeltaCommitNotAdjacent {
                        base: base.0,
                        next: next.0,
                        revision: self.revision.0,
                    },
                ),
            );
        }
        self.revision = next;
        Ok(())
    }

    /// The revision that was reached, if it is the one that was to be reached and nothing
    /// follows.
    pub fn finish(self) -> (result: Result<CoreRevision, CoreTransferError>)
        requires
            self.wf(),
        ensures
            result == replay_end(self@),
    {
        let remaining: usize = self.bytes.len() - self.at;
        if remaining > 0 {
            return Err(CoreTransferError::TrailingBytes { remaining });
        }
        if self.revision != self.final_revision {
            return Err(
                CoreTransferError::InvalidState(
                    StateFault::DeltaEnd {
                        reached: self.revision.0,
                        declared: self.final_revision.0,
                    },
                ),
            );
        }
        Ok(self.revision)
    }
}

/// The revision that going through a delta reaches, or why it fails at the end.
pub open spec fn replay_end(view: ReplayView) -> Result<CoreRevision, CoreTransferError> {
    if view.rest.len() > 0 {
        Err(CoreTransferError::TrailingBytes { remaining: view.rest.len() as usize })
    } else if view.revision != view.last {
        Err(
            CoreTransferError::InvalidState(
                StateFault::DeltaEnd { reached: view.revision.0, declared: view.last.0 },
            ),
        )
    } else {
        Ok(view.revision)
    }
}

/// Where going through a sealed delta stands before its commit `i`.
pub open spec fn replay_before(
    base: CoreRevision,
    commits: Seq<EncodedCoreTransferCommit>,
    i: nat,
) -> ReplayView {
    ReplayView {
        rest: frames_from(commits, i),
        left: (commits.len() - i) as nat,
        revision: after_commits(base, commits, i)->Ok_0.0,
        last: after_commits(base, commits, commits.len())->Ok_0.0,
    }
}

/// Going through a delta that was sealed gives every commit back, in order: it starts at the
/// revision that the delta was sealed for, at each commit it gives the commit's bytes and accepts
/// the revisions that the commit leads from and to, and it ends at the revision that the delta
/// was sealed with.
pub proof fn sealed_delta_replays(
    base: CoreRevision,
    commits: Seq<EncodedCoreTransferCommit>,
    i: nat,
)
    requires
        described(base, commits) is Ok,
        i < commits.len(),
    ensures
        ({
            let last = described(base, commits)->Ok_0.final_revision;
            let here = replay_before(base, commits, i);
            let there = replay_before(base, commits, i + 1);
            &&& replay_start(delta_bytes(base, last, commits), base) == Ok::<
                ReplayView,
                CoreTransferError,
            >(replay_before(base, commits, 0))
            &&& here.left > 0
            &&& next_frame_of(here.rest) == Ok::<(Seq<u8>, Seq<u8>), CoreTransferError>(
                (commits[i as int].bytes@, there.rest),
            )
            &&& there.left == here.left - 1
            &&& commits[i as int].base_revision == here.revision
            &&& commits[i as int].next_revision == revision_after(here.revision)
            &&& there.revision == commits[i as int].next_revision
            &&& there.last == here.last
            &&& replay_end(replay_before(base, commits, commits.len())) == Ok::<
                CoreRevision,
                CoreTransferError,
            >(last)
        }),
{
    broadcast use le_len, pow256_values;

    sealed_delta_starts(base, commits);
    frames_len(base, commits, i);
    frames_len(base, commits, i + 1);
    let bytes = commits[i as int].bytes@;
    let rest = frames_from(commits, i + 1);
    let s = frames_from(commits, i);
    assert(bytes.len() <= 536_870_912);
    from_le_of_le(bytes.len(), 4);
    assert(s.subrange(0, 4) =~= le(bytes.len(), 4));
    assert(s.subrange(4, 4 + bytes.len() as int) =~= bytes);
    assert(s.subrange(4 + bytes.len() as int, s.len() as int) =~= rest);
    first_commits_fit(base, commits, i + 1);
}

/// Going through a delta that was sealed starts at the revision that it was sealed for.
pub proof fn sealed_delta_starts(base: CoreRevision, commits: Seq<EncodedCoreTransferCommit>)
    requires
        described(base, commits) is Ok,
    ensures
        ({
            let last = described(base, commits)->Ok_0.final_revision;
            replay_start(delta_bytes(base, last, commits), base) == Ok::<
                ReplayView,
                CoreTransferError,
            >(replay_before(base, commits, 0))
        }),
{
    broadcast use le_len, pow256_values;

    let last = described(base, commits)->Ok_0.final_revision;
    let s = delta_bytes(base, last, commits);
    count_is_limited(base, commits);
    frames_len(base, commits, 0);
    from_le_of_le(1, 2);
    from_le_of_le(base.0 as nat, 8);
    from_le_of_le(last.0 as nat, 8);
    from_le_of_le(commits.len(), 4);
    assert(s.subrange(0, 8) =~= magic());
    assert(s.subrange(8, 10) =~= le(1, 2));
    assert(s.subrange(10, 18) =~= le(base.0 as nat, 8));
    assert(s.subrange(18, 26) =~= le(last.0 as nat, 8));
    assert(s.subrange(26, 30) =~= le(commits.len(), 4));
    assert(s.subrange(30, s.len() as int) =~= frames_from(commits, 0));
}

} // verus!
