//! Protocol timers. Instants and durations are counted in nanoseconds.

use vstd::prelude::*;

verus! {

/// One millisecond.
pub const MILLISECOND: u64 = 1_000_000;

/// How long to wait before the first retransmission.
pub const RETRANSMIT_BASE_DELAY: u64 = 200_000_000;

/// How often the delay doubles at most.
pub const RETRANSMIT_MAX_BACKOFF_SHIFT: u32 = 3;

/// How long a peer may stay silent.
pub const PEER_TIMEOUT: u64 = 12_000_000_000;

/// How often a datagram is sent at most.
pub const MAX_RETRANSMIT_ATTEMPTS: u16 = 60;

/// The delay after a number of attempts: it doubles three times and then stays.
pub open spec fn delay_after(attempts: u16) -> u64 {
    if attempts <= 1 {
        200_000_000
    } else if attempts == 2 {
        400_000_000
    } else if attempts == 3 {
        800_000_000
    } else {
        1_600_000_000
    }
}

/// The delay before the next transmission after a number of attempts.
pub fn retransmit_delay(attempts: u16) -> (delay: u64)
    ensures
        delay == delay_after(attempts),
{
    let steps: u16 = attempts.saturating_sub(1);
    let shift: u32 = if (steps as u32) < RETRANSMIT_MAX_BACKOFF_SHIFT {
        steps as u32
    } else {
        RETRANSMIT_MAX_BACKOFF_SHIFT
    };
    proof {
        assert(1u64 << 0u32 == 1) by (bit_vector);
        assert(1u64 << 1u32 == 2) by (bit_vector);
        assert(1u64 << 2u32 == 4) by (bit_vector);
        assert(1u64 << 3u32 == 8) by (bit_vector);
    }
    let factor: u64 = 1u64 << shift;
    RETRANSMIT_BASE_DELAY * factor
}

/// More attempts never shorten the delay, and it stays within its bounds.
pub proof fn delay_backs_off_and_caps(fewer: u16, more: u16)
    requires
        fewer <= more,
    ensures
        delay_after(fewer) <= delay_after(more),
        200_000_000 <= delay_after(fewer) <= 1_600_000_000,
{
}

/// How much of `later` lies after `earlier`.
pub open spec fn elapsed(later: u64, earlier: u64) -> u64 {
    if later >= earlier {
        (later - earlier) as u64
    } else {
        0
    }
}

/// The instant `span` before `instant`, or `instant` itself if the clock does not reach back.
pub open spec fn rewound(instant: u64, span: u64) -> u64 {
    if instant >= span {
        (instant - span) as u64
    } else {
        instant
    }
}

/// The origin of a timer after a pause from `frozen_at` to `resumed_at`.
pub open spec fn rebased(origin: u64, frozen_at: u64, resumed_at: u64) -> u64 {
    rewound(resumed_at, elapsed(frozen_at, origin))
}

/// The origin of a timer after a pause.
pub fn rebase(origin: u64, frozen_at: u64, resumed_at: u64) -> (result: u64)
    ensures
        result == rebased(origin, frozen_at, resumed_at),
{
    rewind(resumed_at, frozen_at.saturating_sub(origin))
}

/// The instant `span` before `instant`, or `instant` itself if the clock does not reach back.
pub fn rewind(instant: u64, span: u64) -> (result: u64)
    ensures
        result == rewound(instant, span),
{
    if instant >= span {
        instant - span
    } else {
        instant
    }
}

/// Frozen time does not consume a timer: what had elapsed at the freeze has elapsed at the
/// resumption, on every clock that reaches back that far.
pub proof fn pause_keeps_elapsed_time(origin: u64, frozen_at: u64, resumed_at: u64)
    requires
        elapsed(frozen_at, origin) <= resumed_at,
    ensures
        elapsed(resumed_at, rebased(origin, frozen_at, resumed_at)) == elapsed(frozen_at, origin),
{
}

/// A timer that was started anew during the pause starts when the pause ends.
pub proof fn restart_during_pause_starts_at_resumption(
    origin: u64,
    frozen_at: u64,
    resumed_at: u64,
)
    requires
        origin >= frozen_at,
    ensures
        rebased(origin, frozen_at, resumed_at) == resumed_at,
{
}

/// When a peer was last heard of.
#[derive(Clone, Copy, Debug, PartialEq, Eq, Structural)]
pub struct PeerActivity {
    pub last_observed: u64,
}

impl PeerActivity {
    /// A peer heard of at an instant.
    pub fn new(last_observed: u64) -> (result: Self)
        ensures
            result.last_observed == last_observed,
    {
        PeerActivity { last_observed }
    }

    /// Notes that the peer was heard of; an earlier instant changes nothing.
    pub fn observe(&mut self, observed_at: u64)
        ensures
            final(self).last_observed == if observed_at > old(self).last_observed {
                observed_at
            } else {
                old(self).last_observed
            },
    {
        if observed_at > self.last_observed {
            self.last_observed = observed_at;
        }
    }

    /// When the peer was last heard of.
    pub fn last_observed(&self) -> (result: u64)
        ensures
            result == self.last_observed,
    {
        self.last_observed
    }

    /// Leaves the time between freezing and resuming out of the silence of the peer.
    pub fn resume(&mut self, frozen_at: u64, resumed_at: u64)
        ensures
            final(self).last_observed == rebased(old(self).last_observed, frozen_at, resumed_at),
    {
        self.last_observed = rebase(self.last_observed, frozen_at, resumed_at);
    }
}

} // verus!
