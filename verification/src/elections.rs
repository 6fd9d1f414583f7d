//! Accessors for the Elections pallet: each maps a domain concept onto
//! the storage reads of [`crate::connections::ReadStorage`], and
//! [`change_ban_config`] composes the one state-mutating call.

use vstd::prelude::*;

use crate::connections::{ReadStorage, SudoConnection};
use crate::types::{
    AccountId, BanConfig, BanConfigChange, BanInfo, BlockCount, BlockHash, CommitteeSeats,
    EraIndex, EraValidators, SessionCount, SessionIndex, XtStatus,
};
use crate::types::opt_ban_info_eq;

verus! {

/// The committee size of the current era, at the given block or, with
/// `None`, at the latest block.
pub fn get_committee_seats<C: ReadStorage>(connection: &C, block_hash: Option<BlockHash>) -> (r:
    CommitteeSeats)
    ensures
        r == connection.committee_size(block_hash),
{
    connection.read_committee_size(block_hash)
}

/// The pending committee size for the next era, at the latest block.
pub fn get_next_era_committee_seats<C: ReadStorage>(connection: &C) -> (r: CommitteeSeats)
    ensures
        r == connection.next_era_committee_size(),
{
    connection.read_next_era_committee_size()
}

/// How many blocks `account_id` produced in the current session; no value
/// when the chain stores no entry for it.
pub fn get_validator_block_count<C: ReadStorage>(
    connection: &C,
    account_id: &AccountId,
    block_hash: Option<BlockHash>,
) -> (r: Option<BlockCount>)
    ensures
        r == connection.validator_block_count(*account_id, block_hash),
{
    connection.read_validator_block_count(account_id, block_hash)
}

/// The validators of the current era, at the latest block.
pub fn get_current_era_validators<C: ReadStorage>(connection: &C) -> (r: EraValidators)
    ensures
        r.reserved@ == connection.current_era_reserved(None),
        r.non_reserved@ == connection.current_era_non_reserved(None),
{
    connection.read_current_era_validators(None)
}

/// The reserved validators of the current era: exactly the `reserved` field
/// of [`get_current_era_validators`], re-read from the chain.
pub fn get_current_era_reserved_validators<C: ReadStorage>(connection: &C) -> (r: Vec<AccountId>)
    ensures
        r@ == connection.current_era_reserved(None),
{
    get_current_era_validators(connection).reserved
}

/// The non-reserved validators of the current era: exactly the
/// `non_reserved` field of [`get_current_era_validators`], re-read from the
/// chain.
pub fn get_current_era_non_reserved_validators<C: ReadStorage>(connection: &C) -> (r: Vec<
    AccountId,
>)
    ensures
        r@ == connection.current_era_non_reserved(None),
{
    get_current_era_validators(connection).non_reserved
}

/// The reserved validators elected for the next era, at the latest block.
pub fn get_next_era_reserved_validators<C: ReadStorage>(connection: &C) -> (r: Vec<AccountId>)
    ensures
        r@ == connection.next_era_reserved(),
{
    connection.read_next_era_reserved_validators()
}

/// The non-reserved validators elected for the next era, at the latest
/// block.
pub fn get_next_era_non_reserved_validators<C: ReadStorage>(connection: &C) -> (r: Vec<AccountId>)
    ensures
        r@ == connection.next_era_non_reserved(),
{
    connection.read_next_era_non_reserved_validators()
}

/// The validators elected for the next era, assembled from the two storage
/// items that hold them.
///
/// The two reads are independent: the chain does not pin them to one block,
/// so a connection whose chain advances between them may yield fields from
/// different heights. The contract states what holds of one observation.
pub fn get_next_era_validators<C: ReadStorage>(connection: &C) -> (r: EraValidators)
    ensures
        r.reserved@ == connection.next_era_reserved(),
        r.non_reserved@ == connection.next_era_non_reserved(),
{
    let reserved: Vec<AccountId> = connection.read_next_era_reserved_validators();
    let non_reserved: Vec<AccountId> = connection.read_next_era_non_reserved_validators();
    EraValidators { reserved, non_reserved }
}

/// The validators of the era that `session` belongs to: resolves the first
/// block of the session and reads the era-validator record as of that block,
/// a historical, reproducible snapshot rather than a live one.
pub fn get_era_validators<C: ReadStorage>(connection: &C, session: SessionIndex) -> (r:
    EraValidators)
    ensures
        r.reserved@ == connection.current_era_reserved(
            Some(connection.first_block_of_session(session)),
        ),
        r.non_reserved@ == connection.current_era_non_reserved(
            Some(connection.first_block_of_session(session)),
        ),
{
    let block_hash = connection.read_session_first_block(session);
    connection.read_current_era_validators(Some(block_hash))
}

/// The ban policy currently in force.
pub fn get_ban_config<C: ReadStorage>(connection: &C) -> (r: BanConfig)
    ensures
        r == connection.ban_config(),
{
    connection.read_ban_config()
}

/// How many sessions `account_id` underperformed in. Absence of a stored
/// entry is the "never underperformed" state, not an error: it yields 0.
pub fn get_underperformed_validator_session_count<C: ReadStorage>(
    connection: &C,
    account_id: &AccountId,
) -> (r: SessionCount)
    ensures
        r == match connection.underperformed_count(*account_id) {
            Option::Some(c) => c,
            Option::None => 0u32,
        },
{
    match connection.read_underperformed_count(account_id) {
        Option::Some(c) => c,
        Option::None => 0,
    }
}

/// Why `account_id` is banned; no value when it is not banned.
pub fn get_ban_reason_for_validator<C: ReadStorage>(connection: &C, account_id: &AccountId) -> (r:
    Option<BanInfo>)
    ensures
        opt_ban_info_eq(r, connection.banned(*account_id)),
        connection.banned(*account_id) is None ==> r is None,
{
    connection.read_banned(account_id)
}

/// Updates the ban policy through a root-signed `set_ban_config` call and
/// blocks until the requested inclusion status is reached. Each `Some`
/// parameter overwrites the corresponding stored field; each `None` leaves
/// it at its prior on-chain value.
pub fn change_ban_config<C: SudoConnection>(
    sudo_connection: &mut C,
    minimal_expected_performance: Option<u8>,
    underperformed_session_count_threshold: Option<SessionCount>,
    clean_session_counter_delay: Option<SessionIndex>,
    ban_period: Option<EraIndex>,
    status: XtStatus,
)
    ensures
        final(sudo_connection).ban_config() == (BanConfigChange {
            minimal_expected_performance,
            underperformed_session_count_threshold,
            clean_session_counter_delay,
            ban_period,
        }).applied_to(old(sudo_connection).ban_config()),
{
    let change = BanConfigChange {
        minimal_expected_performance,
        underperformed_session_count_threshold,
        clean_session_counter_delay,
        ban_period,
    };
    sudo_connection.submit_set_ban_config(&change, status);
}

/// The reserved projection agrees with the full record: any result of
/// [`get_current_era_reserved_validators`] holds, element for element, the
/// `reserved` field of any result of [`get_current_era_validators`], when
/// both reads observe the same connection value. The hypotheses are the two
/// functions' own postconditions.
pub proof fn lemma_current_era_projections_agree<C: ReadStorage>(
    connection: &C,
    record: EraValidators,
    reserved: Vec<AccountId>,
    non_reserved: Vec<AccountId>,
)
    requires
        record.reserved@ == connection.current_era_reserved(None),
        record.non_reserved@ == connection.current_era_non_reserved(None),
        reserved@ == connection.current_era_reserved(None),
        non_reserved@ == connection.current_era_non_reserved(None),
    ensures
        reserved@ == record.reserved@,
        non_reserved@ == record.non_reserved@,
{
}

/// The assembled next-era record agrees with the two individual reads: any
/// result of [`get_next_era_validators`] holds the same validators as any
/// results of [`get_next_era_reserved_validators`] and
/// [`get_next_era_non_reserved_validators`], when all reads observe the same
/// connection value (the same chain height). The hypotheses are the three
/// functions' own postconditions.
pub proof fn lemma_next_era_record_agrees<C: ReadStorage>(
    connection: &C,
    record: EraValidators,
    reserved: Vec<AccountId>,
    non_reserved: Vec<AccountId>,
)
    requires
        record.reserved@ == connection.next_era_reserved(),
        record.non_reserved@ == connection.next_era_non_reserved(),
        reserved@ == connection.next_era_reserved(),
        non_reserved@ == connection.next_era_non_reserved(),
    ensures
        reserved@ == record.reserved@,
        non_reserved@ == record.non_reserved@,
{
}

/// [`get_era_validators`] is the historical read it claims to be: its result
/// agrees with any direct read of the era-validator record at the block that
/// resolving the session's first block yields. The hypotheses are the
/// postconditions of [`get_era_validators`] and of the direct read,
/// [`crate::connections::ReadStorage::read_current_era_validators`].
pub proof fn lemma_era_validators_match_direct_read<C: ReadStorage>(
    connection: &C,
    session: SessionIndex,
    at_session: EraValidators,
    direct: EraValidators,
)
    requires
        at_session.reserved@ == connection.current_era_reserved(
            Some(connection.first_block_of_session(session)),
        ),
        at_session.non_reserved@ == connection.current_era_non_reserved(
            Some(connection.first_block_of_session(session)),
        ),
        direct.reserved@ == connection.current_era_reserved(
            Some(connection.first_block_of_session(session)),
        ),
        direct.non_reserved@ == connection.current_era_non_reserved(
            Some(connection.first_block_of_session(session)),
        ),
    ensures
        at_session.reserved@ == direct.reserved@,
        at_session.non_reserved@ == direct.non_reserved@,
{
}

/// A change that sets only the ban period keeps the other three policy
/// fields at their prior values and updates the ban period alone.
pub proof fn lemma_ban_period_only_update(cfg: BanConfig, period: EraIndex)
    ensures
        ({
            let updated = (BanConfigChange {
                minimal_expected_performance: None,
                underperformed_session_count_threshold: None,
                clean_session_counter_delay: None,
                ban_period: Some(period),
            }).applied_to(cfg);
            &&& updated.ban_period == period
            &&& updated.minimal_expected_performance == cfg.minimal_expected_performance
            &&& updated.underperformed_session_count_threshold
                == cfg.underperformed_session_count_threshold
            &&& updated.clean_session_counter_delay == cfg.clean_session_counter_delay
        }),
{
}

/// A change with every field unset leaves the ban policy as it was.
pub proof fn lemma_empty_change_is_identity(cfg: BanConfig)
    ensures
        (BanConfigChange {
            minimal_expected_performance: None,
            underperformed_session_count_threshold: None,
            clean_session_counter_delay: None,
            ban_period: None,
        }).applied_to(cfg) == cfg,
{
}

} // verus!
