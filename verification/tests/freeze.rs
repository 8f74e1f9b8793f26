use staking::address::Address;
use staking::freeze::{
    FreezeBalanceContract, DAY_IN_MS, MAX_NUM_OF_FROZEN_DAYS_FOR_RESOURCE,
    MIN_NUM_OF_FROZEN_DAYS_FOR_RESOURCE,
};
use staking::outcome::{ExecutionError, OperationReceipt, Shortfall, ValidationError};
use staking::records::{
    Account, AccountType, ChainParameters, RecordKey, ResourceCode, ResourceDelegation,
};
use staking::state::State;

const NOW: i64 = 1_600_000_000_000;

fn freeze_addr(tag: u8) -> Address {
    let mut bytes = [0u8; 21];
    bytes[0] = 0x41;
    bytes[20] = tag;
    Address { bytes }
}

fn freeze_params(delegate: i64, constantinople: i64) -> ChainParameters {
    ChainParameters {
        allow_delegate_resource: delegate,
        allow_tvm_constantinople_upgrade: constantinople,
    }
}

/// Owner 1 holds 10 coins, receiver 2 holds nothing, 3 is a contract.
fn freeze_state(delegate: i64, constantinople: i64) -> State {
    let mut state = State::new(freeze_params(delegate, constantinople), NOW);
    state.put_account(freeze_addr(1), Account::new(10_000_000, AccountType::Normal));
    state.put_account(freeze_addr(2), Account::new(0, AccountType::Normal));
    state.put_account(freeze_addr(3), Account::new(0, AccountType::Contract));
    state
}

fn freeze_request(
    amount: i64,
    days: i64,
    resource: i32,
    receiver: Vec<u8>,
) -> FreezeBalanceContract {
    FreezeBalanceContract {
        owner_address: freeze_addr(1).to_bytes(),
        frozen_balance: amount,
        frozen_duration: days,
        resource,
        receiver_address: receiver,
    }
}

#[test]
fn freeze_constants_are_three_days_and_a_day_of_milliseconds() {
    assert_eq!(MIN_NUM_OF_FROZEN_DAYS_FOR_RESOURCE, 3);
    assert_eq!(MAX_NUM_OF_FROZEN_DAYS_FOR_RESOURCE, 3);
    assert_eq!(DAY_IN_MS, 86_400_000);
}

#[test]
fn freeze_rejects_malformed_owner() {
    let state = freeze_state(0, 0);
    let mut request = freeze_request(2_000_000, 3, 0, vec![]);
    request.owner_address = vec![0x41; 20];
    assert_eq!(request.validate(&state), Err(ValidationError::InvalidAddress));
    request.owner_address = vec![0x41; 22];
    assert_eq!(request.validate(&state), Err(ValidationError::InvalidAddress));
    request.owner_address = vec![];
    assert_eq!(request.validate(&state), Err(ValidationError::InvalidAddress));
}

#[test]
fn freeze_rejects_unknown_owner() {
    let state = freeze_state(0, 0);
    let mut request = freeze_request(2_000_000, 3, 0, vec![]);
    request.owner_address = freeze_addr(9).to_bytes();
    assert_eq!(request.validate(&state), Err(ValidationError::AccountNotFound));
}

#[test]
fn freeze_amount_at_the_minimum() {
    let state = freeze_state(0, 0);
    assert_eq!(
        freeze_request(999_999, 3, 0, vec![]).validate(&state),
        Err(ValidationError::InsufficientBalance(Shortfall::BelowMinimum))
    );
    assert_eq!(
        freeze_request(0, 3, 0, vec![]).validate(&state),
        Err(ValidationError::InsufficientBalance(Shortfall::BelowMinimum))
    );
    assert_eq!(
        freeze_request(-5_000_000, 3, 0, vec![]).validate(&state),
        Err(ValidationError::InsufficientBalance(Shortfall::BelowMinimum))
    );
    assert_eq!(freeze_request(1_000_000, 3, 0, vec![]).validate(&state), Ok(()));
}

#[test]
fn freeze_amount_at_the_balance() {
    let state = freeze_state(0, 0);
    assert_eq!(freeze_request(10_000_000, 3, 0, vec![]).validate(&state), Ok(()));
    assert_eq!(
        freeze_request(10_000_001, 3, 0, vec![]).validate(&state),
        Err(ValidationError::InsufficientBalance(Shortfall::AboveBalance))
    );
}

#[test]
fn freeze_duration_at_the_bounds() {
    let state = freeze_state(0, 0);
    assert_eq!(
        freeze_request(2_000_000, 2, 0, vec![]).validate(&state),
        Err(ValidationError::InvalidDuration)
    );
    assert_eq!(freeze_request(2_000_000, 3, 0, vec![]).validate(&state), Ok(()));
    assert_eq!(
        freeze_request(2_000_000, 4, 0, vec![]).validate(&state),
        Err(ValidationError::InvalidDuration)
    );
}

#[test]
fn freeze_resource_code_at_the_bounds() {
    let state = freeze_state(0, 0);
    assert_eq!(
        freeze_request(2_000_000, 3, -1, vec![]).validate(&state),
        Err(ValidationError::InvalidResourceType)
    );
    assert_eq!(freeze_request(2_000_000, 3, 0, vec![]).validate(&state), Ok(()));
    assert_eq!(freeze_request(2_000_000, 3, 1, vec![]).validate(&state), Ok(()));
    assert_eq!(
        freeze_request(2_000_000, 3, 2, vec![]).validate(&state),
        Err(ValidationError::InvalidResourceType)
    );
}

#[test]
fn freeze_checks_come_in_order() {
    let state = freeze_state(1, 1);
    // Everything is wrong: the amount is reported first.
    assert_eq!(
        freeze_request(1, 9, 7, freeze_addr(1).to_bytes()).validate(&state),
        Err(ValidationError::InsufficientBalance(Shortfall::BelowMinimum))
    );
    assert_eq!(
        freeze_request(2_000_000, 9, 7, freeze_addr(1).to_bytes()).validate(&state),
        Err(ValidationError::InvalidDuration)
    );
    assert_eq!(
        freeze_request(2_000_000, 3, 7, freeze_addr(1).to_bytes()).validate(&state),
        Err(ValidationError::InvalidResourceType)
    );
    assert_eq!(
        freeze_request(2_000_000, 3, 1, freeze_addr(1).to_bytes()).validate(&state),
        Err(ValidationError::SameOwnerAndReceiver)
    );
}

#[test]
fn freeze_for_oneself_as_receiver_fails_whatever_the_balance() {
    let state = freeze_state(1, 0);
    for amount in [1_000_000i64, 10_000_000, 10_000_001, i64::MAX, 0] {
        let verdict = freeze_request(amount, 3, 0, freeze_addr(1).to_bytes()).validate(&state);
        assert!(verdict.is_err());
    }
    assert_eq!(
        freeze_request(10_000_000, 3, 0, freeze_addr(1).to_bytes()).validate(&state),
        Err(ValidationError::SameOwnerAndReceiver)
    );
}

#[test]
fn freeze_receiver_must_be_well_formed_and_exist() {
    let state = freeze_state(1, 0);
    assert_eq!(
        freeze_request(2_000_000, 3, 0, vec![0x41, 2]).validate(&state),
        Err(ValidationError::InvalidAddress)
    );
    assert_eq!(
        freeze_request(2_000_000, 3, 0, freeze_addr(8).to_bytes()).validate(&state),
        Err(ValidationError::ReceiverNotFound)
    );
    assert_eq!(
        freeze_request(2_000_000, 3, 0, freeze_addr(2).to_bytes()).validate(&state),
        Ok(())
    );
}

#[test]
fn freeze_for_a_contract_depends_on_the_upgrade() {
    let before_upgrade = freeze_state(1, 0);
    let after_upgrade = freeze_state(1, 1);
    let request = freeze_request(2_000_000, 3, 0, freeze_addr(3).to_bytes());
    assert_eq!(request.validate(&before_upgrade), Ok(()));
    assert_eq!(request.validate(&after_upgrade), Err(ValidationError::DelegateToContract));
    // A feature is on only where its value is 1.
    let other_value = freeze_state(1, 2);
    assert_eq!(request.validate(&other_value), Ok(()));
}

#[test]
fn freeze_ignores_the_receiver_where_delegation_is_off() {
    let mut state = freeze_state(0, 1);
    for receiver in [freeze_addr(1).to_bytes(), freeze_addr(8).to_bytes(), vec![1, 2, 3]] {
        assert_eq!(freeze_request(2_000_000, 3, 0, receiver).validate(&state), Ok(()));
    }
    let request = freeze_request(2_000_000, 3, 0, freeze_addr(2).to_bytes());
    assert_eq!(request.validate(&state), Ok(()));
    assert_eq!(request.execute(&mut state), Ok(OperationReceipt { unfrozen_amount: 0 }));
    // The owner froze for itself; the receiver got nothing.
    let owner = state.account(&freeze_addr(1)).unwrap();
    assert_eq!(owner.frozen_amount_for_bandwidth, 2_000_000);
    assert_eq!(owner.delegated_out_amount, 0);
    assert_eq!(state.account(&freeze_addr(2)), Some(Account::new(0, AccountType::Normal)));
    assert!(state.delegation(&freeze_addr(1), &freeze_addr(2)).is_none());
    assert!(state.delegation(&freeze_addr(1), &freeze_addr(1)).is_some());
}

#[test]
fn freeze_validate_leaves_the_state_alone() {
    let state = freeze_state(1, 1);
    let before = state.clone();
    let _ = freeze_request(2_000_000, 3, 0, freeze_addr(2).to_bytes()).validate(&state);
    let _ = freeze_request(2_000_000, 3, 0, vec![]).validate(&state);
    assert_eq!(state, before);
}

#[test]
fn freeze_for_oneself_moves_balance_into_stake() {
    let mut state = freeze_state(0, 0);
    let request = freeze_request(2_000_000, 3, 0, vec![]);
    assert_eq!(request.validate(&state), Ok(()));
    assert_eq!(request.execute(&mut state), Ok(OperationReceipt { unfrozen_amount: 0 }));

    let owner = state.account(&freeze_addr(1)).unwrap();
    assert_eq!(
        owner,
        Account {
            balance: 8_000_000,
            frozen_amount_for_bandwidth: 2_000_000,
            frozen_amount_for_energy: 0,
            delegated_frozen_amount_for_bandwidth: 0,
            delegated_frozen_amount_for_energy: 0,
            delegated_out_amount: 0,
            account_type: AccountType::Normal,
        }
    );
    assert_eq!(
        state.delegation(&freeze_addr(1), &freeze_addr(1)),
        Some(ResourceDelegation {
            from_address: freeze_addr(1),
            to_address: freeze_addr(1),
            amount_for_bandwidth: 2_000_000,
            expiration_timestamp_for_bandwidth: NOW + 259_200_000,
            amount_for_energy: 0,
            expiration_timestamp_for_energy: 0,
        })
    );
    assert_eq!(state.delegation_index(&freeze_addr(1)), Some(vec![freeze_addr(1)]));
    assert_eq!(state.total_weight(ResourceCode::Bandwidth), 2);
    assert_eq!(state.total_weight(ResourceCode::Energy), 0);
    assert!(state.weights_consistent());
}

#[test]
fn freeze_energy_touches_only_energy() {
    let mut state = freeze_state(0, 0);
    let request = freeze_request(3_000_000, 3, 1, vec![]);
    assert_eq!(request.validate(&state), Ok(()));
    assert_eq!(request.execute(&mut state), Ok(OperationReceipt { unfrozen_amount: 0 }));
    let owner = state.account(&freeze_addr(1)).unwrap();
    assert_eq!(owner.balance, 7_000_000);
    assert_eq!(owner.frozen_amount_for_energy, 3_000_000);
    assert_eq!(owner.frozen_amount_for_bandwidth, 0);
    let record = state.delegation(&freeze_addr(1), &freeze_addr(1)).unwrap();
    assert_eq!(record.amount_for_energy, 3_000_000);
    assert_eq!(record.expiration_timestamp_for_energy, NOW + 3 * DAY_IN_MS);
    assert_eq!(record.amount_for_bandwidth, 0);
    assert_eq!(record.expiration_timestamp_for_bandwidth, 0);
    assert_eq!(state.total_weight(ResourceCode::Energy), 3);
    assert_eq!(state.total_weight(ResourceCode::Bandwidth), 0);
}

#[test]
fn freeze_again_adds_the_amount_and_replaces_the_expiration() {
    let mut state = freeze_state(0, 0);
    let request = freeze_request(2_000_000, 3, 0, vec![]);
    assert_eq!(request.execute(&mut state), Ok(OperationReceipt { unfrozen_amount: 0 }));
    state.set_latest_block_timestamp(NOW + 1_000);
    let again = freeze_request(3_000_000, 3, 0, vec![]);
    assert_eq!(again.validate(&state), Ok(()));
    assert_eq!(again.execute(&mut state), Ok(OperationReceipt { unfrozen_amount: 0 }));

    let record = state.delegation(&freeze_addr(1), &freeze_addr(1)).unwrap();
    assert_eq!(record.amount_for_bandwidth, 5_000_000);
    assert_eq!(record.expiration_timestamp_for_bandwidth, NOW + 1_000 + 259_200_000);
    let owner = state.account(&freeze_addr(1)).unwrap();
    assert_eq!(owner.balance, 5_000_000);
    assert_eq!(owner.frozen_amount_for_bandwidth, 5_000_000);
    assert_eq!(state.delegation_index(&freeze_addr(1)), Some(vec![freeze_addr(1)]));
    assert_eq!(state.total_weight(ResourceCode::Bandwidth), 5);
}

#[test]
fn freeze_for_a_receiver_delegates() {
    let mut state = freeze_state(1, 1);
    let request = freeze_request(4_000_000, 3, 1, freeze_addr(2).to_bytes());
    assert_eq!(request.validate(&state), Ok(()));
    assert_eq!(request.execute(&mut state), Ok(OperationReceipt { unfrozen_amount: 0 }));

    assert_eq!(
        state.account(&freeze_addr(1)),
        Some(Account {
            balance: 6_000_000,
            frozen_amount_for_bandwidth: 0,
            frozen_amount_for_energy: 0,
            delegated_frozen_amount_for_bandwidth: 0,
            delegated_frozen_amount_for_energy: 0,
            delegated_out_amount: 4_000_000,
            account_type: AccountType::Normal,
        })
    );
    assert_eq!(
        state.account(&freeze_addr(2)),
        Some(Account {
            balance: 0,
            frozen_amount_for_bandwidth: 0,
            frozen_amount_for_energy: 0,
            delegated_frozen_amount_for_bandwidth: 0,
            delegated_frozen_amount_for_energy: 4_000_000,
            delegated_out_amount: 0,
            account_type: AccountType::Normal,
        })
    );
    assert_eq!(
        state.delegation(&freeze_addr(1), &freeze_addr(2)),
        Some(ResourceDelegation {
            from_address: freeze_addr(1),
            to_address: freeze_addr(2),
            amount_for_bandwidth: 0,
            expiration_timestamp_for_bandwidth: 0,
            amount_for_energy: 4_000_000,
            expiration_timestamp_for_energy: NOW + 259_200_000,
        })
    );
    assert!(state.delegation(&freeze_addr(2), &freeze_addr(1)).is_none());
    assert!(state.delegation(&freeze_addr(1), &freeze_addr(1)).is_none());
    assert_eq!(state.delegation_index(&freeze_addr(1)), Some(vec![freeze_addr(2)]));
    assert_eq!(state.delegation_index(&freeze_addr(2)), None);
    assert_eq!(state.total_weight(ResourceCode::Energy), 4);
    assert_eq!(state.total_weight(ResourceCode::Bandwidth), 0);
    assert!(state.weights_consistent());
}

#[test]
fn freeze_for_oneself_and_for_others_share_the_index() {
    let mut state = freeze_state(1, 0);
    assert!(freeze_request(1_000_000, 3, 0, vec![]).execute(&mut state).is_ok());
    assert!(freeze_request(1_000_000, 3, 0, freeze_addr(2).to_bytes()).execute(&mut state).is_ok());
    assert!(freeze_request(1_000_000, 3, 1, freeze_addr(3).to_bytes()).execute(&mut state).is_ok());
    assert!(freeze_request(1_000_000, 3, 1, freeze_addr(2).to_bytes()).execute(&mut state).is_ok());
    assert_eq!(
        state.delegation_index(&freeze_addr(1)),
        Some(vec![freeze_addr(1), freeze_addr(2), freeze_addr(3)])
    );
    assert_eq!(state.total_weight(ResourceCode::Bandwidth), 2);
    assert_eq!(state.total_weight(ResourceCode::Energy), 2);
    assert_eq!(state.audit_weight(ResourceCode::Bandwidth), 2);
    assert_eq!(state.audit_weight(ResourceCode::Energy), 2);
    assert_eq!(state.account(&freeze_addr(1)).unwrap().balance, 6_000_000);
}

#[test]
fn freeze_weight_counts_whole_coins_only() {
    let mut state = freeze_state(0, 0);
    assert!(freeze_request(1_999_999, 3, 0, vec![]).execute(&mut state).is_ok());
    assert_eq!(state.total_weight(ResourceCode::Bandwidth), 1);
    assert_eq!(state.audit_weight(ResourceCode::Bandwidth), 1);
    assert!(state.weights_consistent());
}

#[test]
fn freeze_that_carries_makes_the_counter_drift() {
    let mut state = freeze_state(0, 0);
    assert!(freeze_request(1_500_000, 3, 0, vec![]).execute(&mut state).is_ok());
    assert!(state.weights_consistent());
    // 500,000 in the record and 500,000 in the amount make one more coin.
    assert!(freeze_request(1_500_000, 3, 0, vec![]).execute(&mut state).is_ok());
    assert_eq!(state.total_weight(ResourceCode::Bandwidth), 2);
    assert_eq!(state.audit_weight(ResourceCode::Bandwidth), 3);
    assert!(!state.weights_consistent());
}

#[test]
fn freeze_fails_whole_where_the_expiration_overflows() {
    let mut state = freeze_state(0, 0);
    state.set_latest_block_timestamp(i64::MAX - 259_199_999);
    let before = state.clone();
    let request = freeze_request(2_000_000, 3, 0, vec![]);
    assert_eq!(request.validate(&state), Ok(()));
    assert_eq!(request.execute(&mut state), Err(ExecutionError::ArithmeticOverflow));
    assert_eq!(state, before);
    // One millisecond earlier it fits.
    state.set_latest_block_timestamp(i64::MAX - 259_200_000);
    assert_eq!(request.execute(&mut state), Ok(OperationReceipt { unfrozen_amount: 0 }));
    assert_eq!(
        state
            .delegation(&freeze_addr(1), &freeze_addr(1))
            .unwrap()
            .expiration_timestamp_for_bandwidth,
        i64::MAX
    );
}

#[test]
fn freeze_fails_whole_where_the_weight_overflows() {
    let mut state = freeze_state(1, 0);
    state.set_total_weight(ResourceCode::Bandwidth, i64::MAX - 1);
    let before = state.clone();
    assert_eq!(
        freeze_request(2_000_000, 3, 0, vec![]).execute(&mut state),
        Err(ExecutionError::ArithmeticOverflow)
    );
    assert_eq!(state, before);
    assert_eq!(
        freeze_request(2_000_000, 3, 0, freeze_addr(2).to_bytes()).execute(&mut state),
        Err(ExecutionError::ArithmeticOverflow)
    );
    assert_eq!(state, before);
    assert_eq!(
        freeze_request(1_000_000, 3, 0, vec![]).execute(&mut state),
        Ok(OperationReceipt { unfrozen_amount: 0 })
    );
    assert_eq!(state.total_weight(ResourceCode::Bandwidth), i64::MAX);
}

#[test]
fn freeze_fails_whole_where_the_stake_overflows() {
    let mut state = freeze_state(1, 0);
    let mut owner = Account::new(10_000_000, AccountType::Normal);
    owner.frozen_amount_for_energy = i64::MAX - 1_999_999;
    owner.delegated_out_amount = i64::MAX - 1_999_999;
    state.put_account(freeze_addr(1), owner);
    let mut receiver = Account::new(0, AccountType::Normal);
    receiver.delegated_frozen_amount_for_energy = i64::MAX;
    state.put_account(freeze_addr(2), receiver);
    let before = state.clone();
    assert_eq!(
        freeze_request(2_000_000, 3, 1, vec![]).execute(&mut state),
        Err(ExecutionError::ArithmeticOverflow)
    );
    assert_eq!(
        freeze_request(2_000_000, 3, 0, freeze_addr(3).to_bytes()).execute(&mut state),
        Err(ExecutionError::ArithmeticOverflow)
    );
    assert_eq!(
        freeze_request(1_000_000, 3, 1, freeze_addr(2).to_bytes()).execute(&mut state),
        Err(ExecutionError::ArithmeticOverflow)
    );
    assert_eq!(state, before);
    assert!(freeze_request(1_999_999, 3, 1, vec![]).execute(&mut state).is_ok());
    assert_eq!(state.account(&freeze_addr(1)).unwrap().frozen_amount_for_energy, i64::MAX);
}

#[test]
fn freeze_writes_record_weight_index_and_account_in_order() {
    let mut state = freeze_state(1, 0);
    assert_eq!(state.take_written().len(), 3);
    assert!(freeze_request(2_000_000, 3, 0, vec![]).execute(&mut state).is_ok());
    assert_eq!(
        state.take_written(),
        vec![
            RecordKey::ResourceDelegation(freeze_addr(1), freeze_addr(1)),
            RecordKey::TotalWeight(ResourceCode::Bandwidth),
            RecordKey::ResourceDelegationIndex(freeze_addr(1)),
            RecordKey::Account(freeze_addr(1)),
        ]
    );
    // A second freeze leaves the index entry as it is.
    assert!(freeze_request(2_000_000, 3, 0, vec![]).execute(&mut state).is_ok());
    assert_eq!(
        state.take_written(),
        vec![
            RecordKey::ResourceDelegation(freeze_addr(1), freeze_addr(1)),
            RecordKey::TotalWeight(ResourceCode::Bandwidth),
            RecordKey::Account(freeze_addr(1)),
        ]
    );
    assert!(freeze_request(2_000_000, 3, 1, freeze_addr(2).to_bytes()).execute(&mut state).is_ok());
    assert_eq!(
        state.take_written(),
        vec![
            RecordKey::ResourceDelegation(freeze_addr(1), freeze_addr(2)),
            RecordKey::TotalWeight(ResourceCode::Energy),
            RecordKey::ResourceDelegationIndex(freeze_addr(1)),
            RecordKey::Account(freeze_addr(2)),
            RecordKey::Account(freeze_addr(1)),
        ]
    );
    assert_eq!(state.take_written(), vec![]);
}

#[test]
fn freeze_that_fails_writes_nothing() {
    let mut state = freeze_state(0, 0);
    state.set_total_weight(ResourceCode::Bandwidth, i64::MAX);
    state.take_written();
    assert_eq!(
        freeze_request(2_000_000, 3, 0, vec![]).execute(&mut state),
        Err(ExecutionError::ArithmeticOverflow)
    );
    assert_eq!(state.take_written(), vec![]);
}
