//! Domain data carried between the chain and callers.
//!
//! These records mirror what the runtime stores for the Elections pallet:
//! validator identities, committee sizes, era validator sets, the ban policy
//! and per-validator ban records. The chain owns their lifecycles; this crate
//! only reads snapshots of them and composes one update request.

use vstd::prelude::*;

verus! {

/// Number of an era, the outer period of the validator-rotation schedule.
pub type EraIndex = u32;

/// Number of a session; an era contains several sessions.
pub type SessionIndex = u32;

/// Count of sessions, e.g. how many sessions a validator underperformed in.
pub type SessionCount = u32;

/// Count of blocks produced by a validator within a session.
pub type BlockCount = u32;

/// A validator identity, as the runtime keys its per-validator storage maps.
#[derive(Clone, Copy, Debug, PartialEq, Eq, Structural)]
pub struct AccountId(pub u64);

/// Identifies one block of the chain, for historical storage reads.
#[derive(Clone, Copy, Debug, PartialEq, Eq, Structural)]
pub struct BlockHash(pub u64);

/// The configured number of active committee slots for a period, split
/// between the reserved and the non-reserved validator pools.
#[derive(Clone, Copy, Debug, PartialEq, Eq, Structural)]
pub struct CommitteeSeats {
    pub reserved_seats: u32,
    pub non_reserved_seats: u32,
}

/// The validators of one era, partitioned into the reserved and the
/// non-reserved pools.
///
/// The runtime keeps the two sequences disjoint within an era; that is the
/// chain's invariant, not one this crate can establish locally — in
/// particular, the next-era record is assembled from two independent storage
/// reads that the chain does not pin to one block.
#[derive(Debug)]
pub struct EraValidators {
    pub reserved: Vec<AccountId>,
    pub non_reserved: Vec<AccountId>,
}

/// The ban policy: thresholds governing when a validator is banned for
/// underperformance.
#[derive(Clone, Copy, Debug, PartialEq, Eq, Structural)]
pub struct BanConfig {
    /// Least block-production performance (as a percentage) a validator must
    /// show in a session for the session not to count as underperformed.
    pub minimal_expected_performance: u8,
    /// How many underperformed sessions in a row lead to a ban.
    pub underperformed_session_count_threshold: SessionCount,
    /// After how many sessions the underperformance counters are reset.
    pub clean_session_counter_delay: SessionIndex,
    /// For how many eras a ban lasts.
    pub ban_period: EraIndex,
}

/// Why a validator was banned.
#[derive(Debug)]
pub enum BanReason {
    /// The validator underperformed in the given number of sessions.
    InsufficientUptime(SessionCount),
    /// Any other reason, carried as raw bytes.
    OtherReason(Vec<u8>),
}

/// The ban record the runtime stores for one banned validator.
#[derive(Debug)]
pub struct BanInfo {
    pub reason: BanReason,
    pub start: EraIndex,
}

/// How long to block when submitting an extrinsic: until which inclusion
/// status the connection is to wait.
#[derive(Clone, Copy, Debug, PartialEq, Eq, Structural)]
pub enum XtStatus {
    Ready,
    Broadcast,
    InBlock,
    Finalized,
}

/// Two ban reasons carry the same information: same variant, and equal
/// payloads (byte payloads compared by contents).
pub open spec fn ban_reason_eq(a: BanReason, b: BanReason) -> bool {
    match (a, b) {
        (BanReason::InsufficientUptime(x), BanReason::InsufficientUptime(y)) => x == y,
        (BanReason::OtherReason(x), BanReason::OtherReason(y)) => x@ == y@,
        _ => false,
    }
}

/// Two ban records carry the same information.
pub open spec fn ban_info_eq(a: BanInfo, b: BanInfo) -> bool {
    &&& ban_reason_eq(a.reason, b.reason)
    &&& a.start == b.start
}

/// Two optional ban records carry the same information: both absent, or both
/// present and equal.
pub open spec fn opt_ban_info_eq(a: Option<BanInfo>, b: Option<BanInfo>) -> bool {
    match (a, b) {
        (Option::Some(x), Option::Some(y)) => ban_info_eq(x, y),
        (Option::None, Option::None) => true,
        _ => false,
    }
}

/// One requested change of the ban policy. An unset field leaves the
/// corresponding on-chain value unchanged; a set field overwrites it.
#[derive(Clone, Copy, Debug)]
pub struct BanConfigChange {
    pub minimal_expected_performance: Option<u8>,
    pub underperformed_session_count_threshold: Option<SessionCount>,
    pub clean_session_counter_delay: Option<SessionIndex>,
    pub ban_period: Option<EraIndex>,
}

impl BanConfigChange {
    /// The ban policy that results from applying this change to `cfg`:
    /// each set field overwrites, each unset field keeps the prior value.
    /// This is the runtime's documented semantics of `set_ban_config`.
    pub open spec fn applied_to(self, cfg: BanConfig) -> BanConfig {
        BanConfig {
            minimal_expected_performance: match self.minimal_expected_performance {
                Option::Some(p) => p,
                Option::None => cfg.minimal_expected_performance,
            },
            underperformed_session_count_threshold: match self
                .underperformed_session_count_threshold {
                Option::Some(t) => t,
                Option::None => cfg.underperformed_session_count_threshold,
            },
            clean_session_counter_delay: match self.clean_session_counter_delay {
                Option::Some(d) => d,
                Option::None => cfg.clean_session_counter_delay,
            },
            ban_period: match self.ban_period {
                Option::Some(p) => p,
                Option::None => cfg.ban_period,
            },
        }
    }

    /// Applies this change to a ban policy, field by field.
    pub fn apply(&self, cfg: BanConfig) -> (r: BanConfig)
        ensures
            r == self.applied_to(cfg),
    {
        BanConfig {
            minimal_expected_performance: match self.minimal_expected_performance {
                Option::Some(p) => p,
                Option::None => cfg.minimal_expected_performance,
            },
            underperformed_session_count_threshold: match self
                .underperformed_session_count_threshold {
                Option::Some(t) => t,
                Option::None => cfg.underperformed_session_count_threshold,
            },
            clean_session_counter_delay: match self.clean_session_counter_delay {
                Option::Some(d) => d,
                Option::None => cfg.clean_session_counter_delay,
            },
            ban_period: match self.ban_period {
                Option::Some(p) => p,
                Option::None => cfg.ban_period,
            },
        }
    }
}

} // verus!
