//! The connection capability: what a chain client must offer so that the
//! accessors in [`crate::elections`] can be specified and verified.
//!
//! A value implementing [`ReadStorage`] stands for one observation of the
//! chain: its spec functions give the decoded contents of each Elections
//! pallet storage item, per block, and each read method returns exactly what
//! the corresponding spec function says. Contracts that relate several reads
//! therefore speak of reads made against the same connection value; a live
//! connection whose chain advances between calls is modelled by distinct
//! observations.
//!
//! [`SudoConnection`] adds the one privileged operation: submitting a
//! `set_ban_config` call wrapped for root execution. Its effect on the ban
//! policy is the field-by-field update described by
//! [`BanConfigChange::applied_to`]; the runtime applies it, the connection
//! reports inclusion.

use vstd::prelude::*;

use crate::types::{
    AccountId, BanConfig, BanConfigChange, BanInfo, BlockCount, BlockHash, CommitteeSeats,
    EraValidators, SessionCount, SessionIndex, XtStatus,
};
use crate::types::opt_ban_info_eq;

verus! {

/// Read access to the Elections pallet storage, at the latest block or, for
/// the items the runtime archives, at a given historical block.
///
/// The spec functions are this trait's model of the chain: one observation,
/// fixed per connection value. A block argument of `None` means the latest
/// block of that observation.
pub trait ReadStorage: Sized {
    /// Contents of the `CommitteeSize` storage item at the given block.
    spec fn committee_size(&self, block: Option<BlockHash>) -> CommitteeSeats;

    /// Contents of the `NextEraCommitteeSize` storage item at the latest block.
    spec fn next_era_committee_size(&self) -> CommitteeSeats;

    /// Entry of the `SessionValidatorBlockCount` storage map for `account`
    /// at the given block; `None` when the account has no entry.
    spec fn validator_block_count(&self, account: AccountId, block: Option<BlockHash>) -> Option<
        BlockCount,
    >;

    /// The `reserved` sequence of the `CurrentEraValidators` storage item at
    /// the given block.
    spec fn current_era_reserved(&self, block: Option<BlockHash>) -> Seq<AccountId>;

    /// The `non_reserved` sequence of the `CurrentEraValidators` storage item
    /// at the given block.
    spec fn current_era_non_reserved(&self, block: Option<BlockHash>) -> Seq<AccountId>;

    /// Contents of the `NextEraReservedValidators` storage item at the latest
    /// block.
    spec fn next_era_reserved(&self) -> Seq<AccountId>;

    /// Contents of the `NextEraNonReservedValidators` storage item at the
    /// latest block.
    spec fn next_era_non_reserved(&self) -> Seq<AccountId>;

    /// Contents of the `BanConfig` storage item at the latest block.
    spec fn ban_config(&self) -> BanConfig;

    /// Entry of the `UnderperformedValidatorSessionCount` storage map for
    /// `account` at the latest block; `None` when the account has no entry.
    spec fn underperformed_count(&self, account: AccountId) -> Option<SessionCount>;

    /// Entry of the `Banned` storage map for `account` at the latest block;
    /// `None` when the account is not banned.
    spec fn banned(&self, account: AccountId) -> Option<BanInfo>;

    /// The first block of the given session, as the chain's session schedule
    /// determines it.
    spec fn first_block_of_session(&self, session: SessionIndex) -> BlockHash;

    /// Reads the `CommitteeSize` storage item.
    fn read_committee_size(&self, block: Option<BlockHash>) -> (r: CommitteeSeats)
        ensures
            r == self.committee_size(block),
    ;

    /// Reads the `NextEraCommitteeSize` storage item.
    fn read_next_era_committee_size(&self) -> (r: CommitteeSeats)
        ensures
            r == self.next_era_committee_size(),
    ;

    /// Reads `account`'s entry of the `SessionValidatorBlockCount` storage
    /// map.
    fn read_validator_block_count(&self, account: &AccountId, block: Option<BlockHash>) -> (r:
        Option<BlockCount>)
        ensures
            r == self.validator_block_count(*account, block),
    ;

    /// Reads the `CurrentEraValidators` storage item.
    fn read_current_era_validators(&self, block: Option<BlockHash>) -> (r: EraValidators)
        ensures
            r.reserved@ == self.current_era_reserved(block),
            r.non_reserved@ == self.current_era_non_reserved(block),
    ;

    /// Reads the `NextEraReservedValidators` storage item.
    fn read_next_era_reserved_validators(&self) -> (r: Vec<AccountId>)
        ensures
            r@ == self.next_era_reserved(),
    ;

    /// Reads the `NextEraNonReservedValidators` storage item.
    fn read_next_era_non_reserved_validators(&self) -> (r: Vec<AccountId>)
        ensures
            r@ == self.next_era_non_reserved(),
    ;

    /// Reads the `BanConfig` storage item.
    fn read_ban_config(&self) -> (r: BanConfig)
        ensures
            r == self.ban_config(),
    ;

    /// Reads `account`'s entry of the `UnderperformedValidatorSessionCount`
    /// storage map.
    fn read_underperformed_count(&self, account: &AccountId) -> (r: Option<SessionCount>)
        ensures
            r == self.underperformed_count(*account),
    ;

    /// Reads `account`'s entry of the `Banned` storage map.
    fn read_banned(&self, account: &AccountId) -> (r: Option<BanInfo>)
        ensures
            opt_ban_info_eq(r, self.banned(*account)),
    ;

    /// Resolves the first block of the given session.
    fn read_session_first_block(&self, session: SessionIndex) -> (r: BlockHash)
        ensures
            r == self.first_block_of_session(session),
    ;
}

/// A connection that can sign as root: adds the one privileged call this
/// crate composes, `set_ban_config` wrapped for sudo execution.
pub trait SudoConnection: ReadStorage {
    /// Composes the `set_ban_config` call from `change`, wraps it for
    /// privileged execution, submits it, and blocks until the chain reports
    /// the requested inclusion `status`.
    ///
    /// The runtime applies the change field by field: set fields overwrite
    /// the stored ban policy, unset fields keep it. The connection value
    /// afterwards observes the updated policy; nothing is promised of the
    /// other storage items, which the advancing chain may have changed.
    fn submit_set_ban_config(&mut self, change: &BanConfigChange, status: XtStatus)
        ensures
            final(self).ban_config() == change.applied_to(old(self).ban_config()),
    ;
}

} // verus!
