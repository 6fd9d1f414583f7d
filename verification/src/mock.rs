//! An in-memory connection: a verified test double for a live chain client.
//!
//! [`MockConnection`] holds one observation of the Elections pallet storage
//! as plain data — the latest state, the archived states of recorded blocks,
//! and the session schedule — and implements the connection traits so that
//! every read returns exactly what its state holds and the privileged call
//! updates the ban policy as the runtime would. Callers and tests substitute
//! it for a live connection without a network.

use vstd::prelude::*;

use crate::connections::{ReadStorage, SudoConnection};
use crate::types::{
    ban_info_eq, AccountId, BanConfig, BanConfigChange, BanInfo,
    BanReason, BlockCount, BlockHash, CommitteeSeats, EraValidators, SessionCount, SessionIndex,
    XtStatus,
};

verus! {

/// The decoded contents of every Elections pallet storage item at one block.
/// The maps keyed by validator are held as association lists; the first
/// entry with a given key is the stored one.
#[derive(Debug)]
pub struct ElectionsState {
    pub committee_size: CommitteeSeats,
    pub next_era_committee_size: CommitteeSeats,
    pub session_validator_block_count: Vec<(AccountId, BlockCount)>,
    pub current_era_validators: EraValidators,
    pub next_era_reserved_validators: Vec<AccountId>,
    pub next_era_non_reserved_validators: Vec<AccountId>,
    pub ban_config: BanConfig,
    pub underperformed_validator_session_count: Vec<(AccountId, SessionCount)>,
    pub banned: Vec<(AccountId, BanInfo)>,
}

/// First entry of an association list with the given key, if any.
pub open spec fn assoc<K, V>(entries: Seq<(K, V)>, key: K) -> Option<V>
    decreases entries.len(),
{
    if entries.len() == 0 {
        None
    } else if entries[0].0 == key {
        Some(entries[0].1)
    } else {
        assoc(entries.drop_first(), key)
    }
}

/// A chain observation held in memory.
///
/// Reads at the latest block answer from `latest`; reads at a recorded block
/// answer from the matching `historical` entry. As a test double it is
/// total: a block it does not record reads as the latest state, and a
/// session its schedule does not record resolves to [`BlockHash`] zero.
#[derive(Debug)]
pub struct MockConnection {
    pub latest: ElectionsState,
    pub historical: Vec<(BlockHash, ElectionsState)>,
    pub session_first_blocks: Vec<(SessionIndex, BlockHash)>,
}

impl MockConnection {
    /// The state this observation holds at the given block.
    pub open spec fn state_at(&self, block: Option<BlockHash>) -> ElectionsState {
        match block {
            Some(h) => match assoc(self.historical@, h) {
                Some(s) => s,
                None => self.latest,
            },
            None => self.latest,
        }
    }

    /// Resolves a block to the stored state it reads as.
    fn resolve_state(&self, block: Option<BlockHash>) -> (r: &ElectionsState)
        ensures
            *r == self.state_at(block),
    {
        match block {
            Some(h) => {
                proof {
                    assert(self.historical@.skip(0) =~= self.historical@);
                }
                let mut i: usize = 0;
                while i < self.historical.len()
                    invariant
                        block == Some(h),
                        i <= self.historical@.len(),
                        assoc(self.historical@, h) == assoc(
                            self.historical@.skip(i as int),
                            h,
                        ),
                    decreases self.historical@.len() - i,
                {
                    if self.historical[i].0 == h {
                        proof {
                            assert(self.historical@.skip(i as int)[0] == self.historical@[
                                i as int
                            ]);
                        }
                        return &self.historical[i].1;
                    }
                    proof {
                        assert(self.historical@.skip(i as int).drop_first() =~= self.historical@
                            .skip(i as int + 1));
                    }
                    i = i + 1;
                }
                &self.latest
            },
            None => &self.latest,
        }
    }
}

/// First entry of a validator-keyed association list with the given key, if
/// any.
fn find_by_account<'a, V>(entries: &'a Vec<(AccountId, V)>, key: &AccountId) -> (r: Option<&'a V>)
    ensures
        (match r {
            Some(v) => assoc(entries@, *key) == Some(*v),
            None => assoc(entries@, *key) is None,
        }),
{
    proof {
        assert(entries@.skip(0) =~= entries@);
    }
    let mut i: usize = 0;
    while i < entries.len()
        invariant
            i <= entries@.len(),
            assoc(entries@, *key) == assoc(entries@.skip(i as int), *key),
        decreases entries@.len() - i,
    {
        if entries[i].0 == *key {
            proof {
                assert(entries@.skip(i as int)[0] == entries@[i as int]);
            }
            return Some(&entries[i].1);
        }
        proof {
            assert(entries@.skip(i as int).drop_first() =~= entries@.skip(i as int + 1));
        }
        i = i + 1;
    }
    None
}

/// First entry of the session schedule with the given session, if any.
fn find_session_block(entries: &Vec<(SessionIndex, BlockHash)>, session: SessionIndex) -> (r:
    Option<BlockHash>)
    ensures
        r == assoc(entries@, session),
{
    proof {
        assert(entries@.skip(0) =~= entries@);
    }
    let mut i: usize = 0;
    while i < entries.len()
        invariant
            i <= entries@.len(),
            assoc(entries@, session) == assoc(entries@.skip(i as int), session),
        decreases entries@.len() - i,
    {
        if entries[i].0 == session {
            proof {
                assert(entries@.skip(i as int)[0] == entries@[i as int]);
            }
            return Some(entries[i].1);
        }
        proof {
            assert(entries@.skip(i as int).drop_first() =~= entries@.skip(i as int + 1));
        }
        i = i + 1;
    }
    None
}

/// A fresh copy of a validator sequence, element for element.
fn copy_accounts(v: &Vec<AccountId>) -> (r: Vec<AccountId>)
    ensures
        r@ == v@,
{
    let mut r: Vec<AccountId> = Vec::new();
    let mut i: usize = 0;
    while i < v.len()
        invariant
            i <= v@.len(),
            r@ == v@.take(i as int),
        decreases v@.len() - i,
    {
        r.push(v[i]);
        proof {
            assert(r@ =~= v@.take(i as int + 1));
        }
        i = i + 1;
    }
    proof {
        assert(v@.take(v@.len() as int) =~= v@);
    }
    r
}

/// A fresh copy of a byte sequence, element for element.
fn copy_bytes(v: &Vec<u8>) -> (r: Vec<u8>)
    ensures
        r@ == v@,
{
    let mut r: Vec<u8> = Vec::new();
    let mut i: usize = 0;
    while i < v.len()
        invariant
            i <= v@.len(),
            r@ == v@.take(i as int),
        decreases v@.len() - i,
    {
        r.push(v[i]);
        proof {
            assert(r@ =~= v@.take(i as int + 1));
        }
        i = i + 1;
    }
    proof {
        assert(v@.take(v@.len() as int) =~= v@);
    }
    r
}

/// A fresh copy of a ban record, carrying the same information.
fn copy_ban_info(b: &BanInfo) -> (r: BanInfo)
    ensures
        ban_info_eq(r, *b),
{
    let reason = match &b.reason {
        BanReason::InsufficientUptime(c) => BanReason::InsufficientUptime(*c),
        BanReason::OtherReason(bytes) => BanReason::OtherReason(copy_bytes(bytes)),
    };
    BanInfo { reason, start: b.start }
}

impl ReadStorage for MockConnection {
    open spec fn committee_size(&self, block: Option<BlockHash>) -> CommitteeSeats {
        self.state_at(block).committee_size
    }

    open spec fn next_era_committee_size(&self) -> CommitteeSeats {
        self.latest.next_era_committee_size
    }

    open spec fn validator_block_count(&self, account: AccountId, block: Option<BlockHash>) -> Option<
        BlockCount,
    > {
        assoc(self.state_at(block).session_validator_block_count@, account)
    }

    open spec fn current_era_reserved(&self, block: Option<BlockHash>) -> Seq<AccountId> {
        self.state_at(block).current_era_validators.reserved@
    }

    open spec fn current_era_non_reserved(&self, block: Option<BlockHash>) -> Seq<AccountId> {
        self.state_at(block).current_era_validators.non_reserved@
    }

    open spec fn next_era_reserved(&self) -> Seq<AccountId> {
        self.latest.next_era_reserved_validators@
    }

    open spec fn next_era_non_reserved(&self) -> Seq<AccountId> {
        self.latest.next_era_non_reserved_validators@
    }

    open spec fn ban_config(&self) -> BanConfig {
        self.latest.ban_config
    }

    open spec fn underperformed_count(&self, account: AccountId) -> Option<SessionCount> {
        assoc(self.latest.underperformed_validator_session_count@, account)
    }

    open spec fn banned(&self, account: AccountId) -> Option<BanInfo> {
        assoc(self.latest.banned@, account)
    }

    open spec fn first_block_of_session(&self, session: SessionIndex) -> BlockHash {
        match assoc(self.session_first_blocks@, session) {
            Some(h) => h,
            None => BlockHash(0),
        }
    }

    fn read_committee_size(&self, block: Option<BlockHash>) -> (r: CommitteeSeats) {
        self.resolve_state(block).committee_size
    }

    fn read_next_era_committee_size(&self) -> (r: CommitteeSeats) {
        self.latest.next_era_committee_size
    }

    fn read_validator_block_count(&self, account: &AccountId, block: Option<BlockHash>) -> (r:
        Option<BlockCount>) {
        let state = self.resolve_state(block);
        match find_by_account(&state.session_validator_block_count, account) {
            Some(c) => Some(*c),
            None => None,
        }
    }

    fn read_current_era_validators(&self, block: Option<BlockHash>) -> (r: EraValidators) {
        let state = self.resolve_state(block);
        EraValidators {
            reserved: copy_accounts(&state.current_era_validators.reserved),
            non_reserved: copy_accounts(&state.current_era_validators.non_reserved),
        }
    }

    fn read_next_era_reserved_validators(&self) -> (r: Vec<AccountId>) {
        copy_accounts(&self.latest.next_era_reserved_validators)
    }

    fn read_next_era_non_reserved_validators(&self) -> (r: Vec<AccountId>) {
        copy_accounts(&self.latest.next_era_non_reserved_validators)
    }

    fn read_ban_config(&self) -> (r: BanConfig) {
        self.latest.ban_config
    }

    fn read_underperformed_count(&self, account: &AccountId) -> (r: Option<SessionCount>) {
        match find_by_account(&self.latest.underperformed_validator_session_count, account) {
            Some(c) => Some(*c),
            None => None,
        }
    }

    fn read_banned(&self, account: &AccountId) -> (r: Option<BanInfo>) {
        match find_by_account(&self.latest.banned, account) {
            Some(info) => Some(copy_ban_info(info)),
            None => None,
        }
    }

    fn read_session_first_block(&self, session: SessionIndex) -> (r: BlockHash) {
        match find_session_block(&self.session_first_blocks, session) {
            Some(h) => h,
            None => BlockHash(0),
        }
    }
}

impl SudoConnection for MockConnection {
    fn submit_set_ban_config(&mut self, change: &BanConfigChange, _status: XtStatus) {
        let updated = change.apply(self.latest.ban_config);
        self.latest.ban_config = updated;
    }
}

} // verus!
