//! Typed accessors for the Elections pallet of a Substrate-style chain.
//!
//! The chain itself — storage encoding, block resolution, signing, transport —
//! lives behind a connection, described here by the traits in
//! [`connections`]. Every accessor's contract relates its result to the
//! connection's abstract view of the pallet storage, so what this crate
//! proves is exactly the mapping from domain concepts (current era
//! validators, ban policy, underperformance counters) to storage reads, and
//! the composition of the one privileged call that updates the ban policy.
//!
//! [`mock`] supplies an in-memory connection, a verified test double that
//! stands in for a live node.

pub mod connections;
pub mod elections;
pub mod mock;
pub mod types;

pub use elections::{
    change_ban_config, get_ban_config, get_ban_reason_for_validator, get_committee_seats,
    get_current_era_non_reserved_validators, get_current_era_reserved_validators,
    get_current_era_validators, get_era_validators, get_next_era_committee_seats,
    get_next_era_non_reserved_validators, get_next_era_reserved_validators,
    get_next_era_validators, get_underperformed_validator_session_count,
    get_validator_block_count,
};
