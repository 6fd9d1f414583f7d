use aleph_client::elections::{
    change_ban_config, get_ban_config, get_ban_reason_for_validator, get_committee_seats,
    get_current_era_non_reserved_validators, get_current_era_reserved_validators,
    get_current_era_validators, get_era_validators, get_next_era_committee_seats,
    get_next_era_non_reserved_validators, get_next_era_reserved_validators,
    get_next_era_validators, get_underperformed_validator_session_count,
    get_validator_block_count,
};
use aleph_client::mock::{ElectionsState, MockConnection};
use aleph_client::types::{
    AccountId, BanConfig, BanConfigChange, BanInfo, BanReason, BlockHash, CommitteeSeats,
    EraValidators, XtStatus,
};

fn base_state() -> ElectionsState {
    ElectionsState {
        committee_size: CommitteeSeats { reserved_seats: 4, non_reserved_seats: 10 },
        next_era_committee_size: CommitteeSeats { reserved_seats: 5, non_reserved_seats: 12 },
        session_validator_block_count: Vec::new(),
        current_era_validators: EraValidators {
            reserved: vec![AccountId(1), AccountId(2)],
            non_reserved: vec![AccountId(3), AccountId(4), AccountId(5)],
        },
        next_era_reserved_validators: vec![AccountId(2), AccountId(6)],
        next_era_non_reserved_validators: vec![AccountId(7)],
        ban_config: BanConfig {
            minimal_expected_performance: 90,
            underperformed_session_count_threshold: 3,
            clean_session_counter_delay: 10,
            ban_period: 3,
        },
        underperformed_validator_session_count: Vec::new(),
        banned: Vec::new(),
    }
}

fn conn_with(latest: ElectionsState) -> MockConnection {
    MockConnection { latest, historical: Vec::new(), session_first_blocks: Vec::new() }
}

#[test]
fn underperformed_count_defaults_to_zero_when_absent() {
    let conn = conn_with(base_state());
    assert_eq!(get_underperformed_validator_session_count(&conn, &AccountId(42)), 0);
}

#[test]
fn underperformed_count_returns_stored_value() {
    let mut state = base_state();
    state.underperformed_validator_session_count = vec![(AccountId(1), 2), (AccountId(9), 7)];
    let conn = conn_with(state);
    assert_eq!(get_underperformed_validator_session_count(&conn, &AccountId(9)), 7);
    assert_eq!(get_underperformed_validator_session_count(&conn, &AccountId(1)), 2);
    assert_eq!(get_underperformed_validator_session_count(&conn, &AccountId(3)), 0);
}

#[test]
fn underperformed_count_takes_first_entry_on_equal_keys() {
    let mut state = base_state();
    state.underperformed_validator_session_count = vec![(AccountId(1), 2), (AccountId(1), 9)];
    let conn = conn_with(state);
    assert_eq!(get_underperformed_validator_session_count(&conn, &AccountId(1)), 2);
}

#[test]
fn ban_reason_absent_means_not_banned() {
    let conn = conn_with(base_state());
    assert!(get_ban_reason_for_validator(&conn, &AccountId(1)).is_none());
}

#[test]
fn ban_reason_returns_stored_uptime_record() {
    let mut state = base_state();
    state.banned = vec![(
        AccountId(4),
        BanInfo { reason: BanReason::InsufficientUptime(3), start: 11 },
    )];
    let conn = conn_with(state);
    let info = get_ban_reason_for_validator(&conn, &AccountId(4)).expect("stored ban record");
    assert_eq!(info.start, 11);
    assert!(matches!(info.reason, BanReason::InsufficientUptime(3)));
    assert!(get_ban_reason_for_validator(&conn, &AccountId(5)).is_none());
}

#[test]
fn ban_reason_returns_stored_other_record() {
    let mut state = base_state();
    state.banned = vec![(
        AccountId(5),
        BanInfo { reason: BanReason::OtherReason(vec![1, 2, 3]), start: 4 },
    )];
    let conn = conn_with(state);
    let info = get_ban_reason_for_validator(&conn, &AccountId(5)).expect("stored ban record");
    assert_eq!(info.start, 4);
    match info.reason {
        BanReason::OtherReason(bytes) => assert_eq!(bytes, vec![1, 2, 3]),
        other => panic!("unexpected reason {:?}", other),
    }
}

#[test]
fn current_era_projections_match_the_record() {
    let conn = conn_with(base_state());
    let record = get_current_era_validators(&conn);
    assert_eq!(get_current_era_reserved_validators(&conn), record.reserved);
    assert_eq!(get_current_era_non_reserved_validators(&conn), record.non_reserved);
    assert_eq!(record.reserved, vec![AccountId(1), AccountId(2)]);
    assert_eq!(record.non_reserved, vec![AccountId(3), AccountId(4), AccountId(5)]);
}

#[test]
fn next_era_record_matches_the_individual_reads() {
    let conn = conn_with(base_state());
    let record = get_next_era_validators(&conn);
    assert_eq!(record.reserved, get_next_era_reserved_validators(&conn));
    assert_eq!(record.non_reserved, get_next_era_non_reserved_validators(&conn));
    assert_eq!(record.reserved, vec![AccountId(2), AccountId(6)]);
    assert_eq!(record.non_reserved, vec![AccountId(7)]);
}

#[test]
fn era_validators_read_the_state_at_the_session_first_block() {
    let mut old_state = base_state();
    old_state.current_era_validators = EraValidators {
        reserved: vec![AccountId(8)],
        non_reserved: vec![AccountId(9)],
    };
    let conn = MockConnection {
        latest: base_state(),
        historical: vec![(BlockHash(100), old_state)],
        session_first_blocks: vec![(21, BlockHash(100))],
    };
    let at_session = get_era_validators(&conn, 21);
    assert_eq!(at_session.reserved, vec![AccountId(8)]);
    assert_eq!(at_session.non_reserved, vec![AccountId(9)]);
    // The live record differs: the historical snapshot was really used.
    let live = get_current_era_validators(&conn);
    assert_eq!(live.reserved, vec![AccountId(1), AccountId(2)]);
}

#[test]
fn ban_config_returns_the_stored_record() {
    let conn = conn_with(base_state());
    assert_eq!(
        get_ban_config(&conn),
        BanConfig {
            minimal_expected_performance: 90,
            underperformed_session_count_threshold: 3,
            clean_session_counter_delay: 10,
            ban_period: 3,
        }
    );
}

#[test]
fn ban_period_only_change_updates_only_the_ban_period() {
    let mut conn = conn_with(base_state());
    change_ban_config(&mut conn, None, None, None, Some(5), XtStatus::Finalized);
    assert_eq!(
        get_ban_config(&conn),
        BanConfig {
            minimal_expected_performance: 90,
            underperformed_session_count_threshold: 3,
            clean_session_counter_delay: 10,
            ban_period: 5,
        }
    );
}

#[test]
fn change_with_every_field_set_overwrites_the_whole_policy() {
    let mut conn = conn_with(base_state());
    change_ban_config(&mut conn, Some(80), Some(4), Some(20), Some(1), XtStatus::InBlock);
    assert_eq!(
        get_ban_config(&conn),
        BanConfig {
            minimal_expected_performance: 80,
            underperformed_session_count_threshold: 4,
            clean_session_counter_delay: 20,
            ban_period: 1,
        }
    );
}

#[test]
fn change_with_no_field_set_keeps_the_policy() {
    let mut conn = conn_with(base_state());
    let before = get_ban_config(&conn);
    change_ban_config(&mut conn, None, None, None, None, XtStatus::Ready);
    assert_eq!(get_ban_config(&conn), before);
}

#[test]
fn apply_overwrites_set_fields_and_keeps_unset_ones() {
    let change = BanConfigChange {
        minimal_expected_performance: Some(75),
        underperformed_session_count_threshold: None,
        clean_session_counter_delay: Some(2),
        ban_period: None,
    };
    let applied = change.apply(BanConfig {
        minimal_expected_performance: 90,
        underperformed_session_count_threshold: 3,
        clean_session_counter_delay: 10,
        ban_period: 3,
    });
    assert_eq!(
        applied,
        BanConfig {
            minimal_expected_performance: 75,
            underperformed_session_count_threshold: 3,
            clean_session_counter_delay: 2,
            ban_period: 3,
        }
    );
}

#[test]
fn committee_seats_read_latest_and_historical_blocks() {
    let mut old_state = base_state();
    old_state.committee_size = CommitteeSeats { reserved_seats: 2, non_reserved_seats: 6 };
    let conn = MockConnection {
        latest: base_state(),
        historical: vec![(BlockHash(7), old_state)],
        session_first_blocks: Vec::new(),
    };
    assert_eq!(
        get_committee_seats(&conn, None),
        CommitteeSeats { reserved_seats: 4, non_reserved_seats: 10 }
    );
    assert_eq!(
        get_committee_seats(&conn, Some(BlockHash(7))),
        CommitteeSeats { reserved_seats: 2, non_reserved_seats: 6 }
    );
}

#[test]
fn next_era_committee_seats_read_the_pending_record() {
    let conn = conn_with(base_state());
    assert_eq!(
        get_next_era_committee_seats(&conn),
        CommitteeSeats { reserved_seats: 5, non_reserved_seats: 12 }
    );
}

#[test]
fn validator_block_count_is_absent_without_an_entry() {
    let conn = conn_with(base_state());
    assert!(get_validator_block_count(&conn, &AccountId(1), None).is_none());
}

#[test]
fn validator_block_count_reads_latest_and_historical_entries() {
    let mut old_state = base_state();
    old_state.session_validator_block_count = vec![(AccountId(1), 30)];
    let mut latest = base_state();
    latest.session_validator_block_count = vec![(AccountId(1), 90), (AccountId(2), 88)];
    let conn = MockConnection {
        latest,
        historical: vec![(BlockHash(50), old_state)],
        session_first_blocks: Vec::new(),
    };
    assert_eq!(get_validator_block_count(&conn, &AccountId(1), None), Some(90));
    assert_eq!(get_validator_block_count(&conn, &AccountId(2), None), Some(88));
    assert_eq!(get_validator_block_count(&conn, &AccountId(1), Some(BlockHash(50))), Some(30));
    assert_eq!(get_validator_block_count(&conn, &AccountId(2), Some(BlockHash(50))), None);
}
