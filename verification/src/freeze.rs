//! The freeze request: its validation and its execution.

use crate::address::{same_bytes, Address};
use crate::laws::law_freeze_moves_balance_into_stake;
use crate::ledger::Ledger;
use crate::outcome::{ExecutionError, OperationReceipt, Shortfall, ValidationError};
use crate::primitives::{delegate_resource, freeze_resource};
use crate::records::{AccountType, RecordKey, ResourceCode, UNITS_PER_COIN};
use crate::state::State;
use vstd::prelude::*;

verus! {

/// The shortest time, in days, for which stake can be frozen.
pub const MIN_NUM_OF_FROZEN_DAYS_FOR_RESOURCE: i64 = 3;

/// The longest time, in days, for which stake can be frozen.
pub const MAX_NUM_OF_FROZEN_DAYS_FOR_RESOURCE: i64 = 3;

/// Milliseconds in a day.
pub const DAY_IN_MS: i64 = 86_400_000;

/// A request to freeze part of the owner's balance, for the owner itself or,
/// where a receiver is given, for the receiver.
#[derive(Clone, Debug, PartialEq, Eq)]
pub struct FreezeBalanceContract {
    pub owner_address: Vec<u8>,
    pub frozen_balance: i64,
    pub frozen_duration: i64,
    pub resource: i32,
    pub receiver_address: Vec<u8>,
}

impl FreezeBalanceContract {
    /// The request is a delegation: a receiver is given and the chain allows
    /// delegation. Where the chain does not, a receiver counts as absent.
    pub open spec fn delegates(&self, ledger: Ledger) -> bool {
        self.receiver_address@.len() > 0 && ledger.parameters.delegation_enabled()
    }

    /// The owner, where the owner address is well formed.
    pub open spec fn owner(&self) -> Address {
        Address::with_bytes(self.owner_address@)
    }

    /// The receiver, where the receiver address is well formed.
    pub open spec fn receiver(&self) -> Address {
        Address::with_bytes(self.receiver_address@)
    }

    /// The verdict on the receiver of a delegation.
    pub open spec fn receiver_validation(&self, ledger: Ledger) -> Result<(), ValidationError> {
        if self.receiver_address@ == self.owner_address@ {
            Err(ValidationError::SameOwnerAndReceiver)
        } else if Address::parse(self.receiver_address@) is None {
            Err(ValidationError::InvalidAddress)
        } else if !ledger.accounts.contains_key(self.receiver()) {
            Err(ValidationError::ReceiverNotFound)
        } else if ledger.parameters.constantinople_enabled()
            && ledger.accounts[self.receiver()].account_type == AccountType::Contract {
            Err(ValidationError::DelegateToContract)
        } else {
            Ok(())
        }
    }

    /// The verdict on the request: the first rule that it breaks, in the
    /// order owner, amount, duration, resource, receiver.
    pub open spec fn validation(&self, ledger: Ledger) -> Result<(), ValidationError> {
        if Address::parse(self.owner_address@) is None {
            Err(ValidationError::InvalidAddress)
        } else if !ledger.accounts.contains_key(self.owner()) {
            Err(ValidationError::AccountNotFound)
        } else if self.frozen_balance < UNITS_PER_COIN {
            Err(ValidationError::InsufficientBalance(Shortfall::BelowMinimum))
        } else if self.frozen_balance > ledger.accounts[self.owner()].balance {
            Err(ValidationError::InsufficientBalance(Shortfall::AboveBalance))
        } else if self.frozen_duration < MIN_NUM_OF_FROZEN_DAYS_FOR_RESOURCE
            || self.frozen_duration > MAX_NUM_OF_FROZEN_DAYS_FOR_RESOURCE {
            Err(ValidationError::InvalidDuration)
        } else if ResourceCode::from_i32(self.resource) is None {
            Err(ValidationError::InvalidResourceType)
        } else if self.delegates(ledger) {
            self.receiver_validation(ledger)
        } else {
            Ok(())
        }
    }

    /// When the stake expires: the time of the latest block plus the
    /// duration in milliseconds.
    pub open spec fn expire_time(&self, ledger: Ledger) -> int {
        ledger.latest_block_timestamp + self.frozen_duration * DAY_IN_MS
    }

    /// The resource of a request with a valid resource code.
    pub open spec fn resource_code(&self) -> ResourceCode {
        ResourceCode::from_i32(self.resource)->0
    }

    /// Carrying the request out would exceed what an `i64` holds.
    pub open spec fn execution_overflows(&self, ledger: Ledger) -> bool {
        ||| self.expire_time(ledger) > i64::MAX
        ||| if self.delegates(ledger) {
            ledger.delegate_overflows(
                self.owner(),
                self.receiver(),
                self.resource_code(),
                self.frozen_balance,
            )
        } else {
            ledger.freeze_overflows(self.owner(), self.resource_code(), self.frozen_balance)
        }
    }

    /// The keys that carrying the request out writes, in order; the owner's
    /// account comes last.
    pub open spec fn written_keys(&self, ledger: Ledger) -> Seq<RecordKey> {
        if self.delegates(ledger) {
            ledger.delegated_keys(self.owner(), self.receiver(), self.resource_code())
        } else {
            ledger.frozen_keys(self.owner(), self.resource_code())
        }
    }

    /// The ledger after the request is carried out.
    pub open spec fn executed(&self, ledger: Ledger) -> Ledger {
        if self.delegates(ledger) {
            ledger.delegated(
                self.owner(),
                self.receiver(),
                self.resource_code(),
                self.frozen_balance,
                self.expire_time(ledger) as i64,
            )
        } else {
            ledger.frozen(
                self.owner(),
                self.resource_code(),
                self.frozen_balance,
                self.expire_time(ledger) as i64,
            )
        }
    }

    fn validate_receiver(&self, state: &State) -> (r: Result<(), ValidationError>)
        requires
            state.wf(),
        ensures
            r == self.receiver_validation(state@),
    {
        if same_bytes(self.receiver_address.as_slice(), self.owner_address.as_slice()) {
            return Err(ValidationError::SameOwnerAndReceiver);
        }
        let receiver = match Address::from_bytes(self.receiver_address.as_slice()) {
            Some(receiver) => receiver,
            None => {
                return Err(ValidationError::InvalidAddress);
            },
        };
        let account = match state.account(&receiver) {
            Some(account) => account,
            None => {
                return Err(ValidationError::ReceiverNotFound);
            },
        };
        if state.parameters().constantinople_enabled() && account.account_type
            == AccountType::Contract {
            return Err(ValidationError::DelegateToContract);
        }
        Ok(())
    }

    /// Checks the request against the state, which it leaves as it is.
    pub fn validate(&self, state: &State) -> (r: Result<(), ValidationError>)
        requires
            state.wf(),
        ensures
            r == self.validation(state@),
    {
        let owner = match Address::from_bytes(self.owner_address.as_slice()) {
            Some(owner) => owner,
            None => {
                return Err(ValidationError::InvalidAddress);
            },
        };
        let account = match state.account(&owner) {
            Some(account) => account,
            None => {
                return Err(ValidationError::AccountNotFound);
            },
        };
        if self.frozen_balance < UNITS_PER_COIN {
            return Err(ValidationError::InsufficientBalance(Shortfall::BelowMinimum));
        }
        if self.frozen_balance > account.balance {
            return Err(ValidationError::InsufficientBalance(Shortfall::AboveBalance));
        }
        if self.frozen_duration < MIN_NUM_OF_FROZEN_DAYS_FOR_RESOURCE || self.frozen_duration
            > MAX_NUM_OF_FROZEN_DAYS_FOR_RESOURCE {
            return Err(ValidationError::InvalidDuration);
        }
        if ResourceCode::from_i32(self.resource).is_none() {
            return Err(ValidationError::InvalidResourceType);
        }
        if self.receiver_address.len() > 0 && state.parameters().delegation_enabled() {
            return self.validate_receiver(state);
        }
        Ok(())
    }

    /// Carries out a request that passed validation: freezes the amount
    /// until the time of the latest block plus the duration, for the
    /// receiver of a delegation, else for the owner.
    ///
    /// Nothing is changed where a sum would overflow.
    pub fn execute(&self, state: &mut State) -> (r: Result<OperationReceipt, ExecutionError>)
        requires
            old(state).wf(),
            self.validation(old(state)@) is Ok,
        ensures
            final(state).wf(),
            r is Err <==> self.execution_overflows(old(state)@),
            r is Err ==> r == Err::<OperationReceipt, ExecutionError>(
                ExecutionError::ArithmeticOverflow,
            ) && final(state)@ == old(state)@ && final(state).written() == old(state).written(),
            r is Ok ==> final(state).written() == old(state).written() + self.written_keys(
                old(state)@,
            ),
            r is Ok ==> final(state).written().last() == RecordKey::Account(self.owner()),
            r is Ok ==> r == Ok::<OperationReceipt, ExecutionError>(
                OperationReceipt { unfrozen_amount: 0 },
            ) && final(state)@ == self.executed(old(state)@),
            r is Ok ==> old(state)@.accounts[self.owner()].balance
                == final(state)@.accounts[self.owner()].balance + self.frozen_balance,
            r is Ok && !self.delegates(old(state)@)
                ==> final(state)@.accounts[self.owner()].frozen_amount(self.resource_code())
                == old(state)@.accounts[self.owner()].frozen_amount(self.resource_code())
                + self.frozen_balance,
            r is Ok && self.delegates(old(state)@)
                ==> final(state)@.accounts[self.receiver()].delegated_frozen_amount(
                self.resource_code(),
            ) == old(state)@.accounts[self.receiver()].delegated_frozen_amount(
                self.resource_code(),
            ) + self.frozen_balance,
    {
        let owner = Address::from_bytes(self.owner_address.as_slice()).unwrap();
        let resource = ResourceCode::from_i32(self.resource).unwrap();
        let now: i64 = state.latest_block_timestamp();
        let duration: i64 = self.frozen_duration * DAY_IN_MS;
        let expire_time: i64 = match now.checked_add(duration) {
            Some(expire_time) => expire_time,
            None => {
                return Err(ExecutionError::ArithmeticOverflow);
            },
        };
        let done = if self.receiver_address.len() > 0 && state.parameters().delegation_enabled() {
            let receiver = Address::from_bytes(self.receiver_address.as_slice()).unwrap();
            delegate_resource(state, owner, receiver, resource, self.frozen_balance, expire_time)
        } else {
            freeze_resource(state, owner, resource, self.frozen_balance, expire_time)
        };
        match done {
            Ok(()) => {
                proof {
                    law_freeze_moves_balance_into_stake(old(state)@, *self);
                }
                Ok(OperationReceipt { unfrozen_amount: 0 })
            },
            Err(e) => Err(e),
        }
    }
}

} // verus!
