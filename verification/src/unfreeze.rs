//! The unfreeze request: its validation and its execution.

use crate::address::{same_bytes, Address};
use crate::laws::law_unfreeze_returns_stake;
use crate::ledger::Ledger;
use crate::outcome::{ExecutionError, OperationReceipt, ValidationError};
use crate::primitives::remove_from_delegation_index;
use crate::records::{RecordKey, ResourceCode, ResourceDelegation, UNITS_PER_COIN};
use crate::state::State;
use crate::votes::{take_back_votes, tally_would_underflow};
use vstd::prelude::*;

verus! {

/// A request to release the stake that the owner froze for itself in one
/// resource; all votes of the owner go with it.
#[derive(Clone, Debug, PartialEq, Eq)]
pub struct UnfreezeBalanceContract {
    pub owner_address: Vec<u8>,
    pub resource: i32,
    pub receiver_address: Vec<u8>,
}

impl UnfreezeBalanceContract {
    /// The request asks for delegated stake back: a receiver is given and
    /// the chain allows delegation. Where the chain does not, a receiver
    /// counts as absent.
    pub open spec fn undelegates(&self, ledger: Ledger) -> bool {
        self.receiver_address@.len() > 0 && ledger.parameters.delegation_enabled()
    }

    /// The owner, where the owner address is well formed.
    pub open spec fn owner(&self) -> Address {
        Address::with_bytes(self.owner_address@)
    }

    /// The receiver, where the receiver address is well formed.
    pub open spec fn receiver(&self) -> Address {
        Address::with_bytes(self.receiver_address@)
    }

    /// The resource of a request with a valid resource code.
    pub open spec fn resource_code(&self) -> ResourceCode {
        ResourceCode::from_i32(self.resource)->0
    }

    /// The verdict on a request for delegated stake: the receiver is
    /// checked, and a request that passes is turned down as unsupported.
    pub open spec fn receiver_validation(&self, ledger: Ledger) -> Result<(), ValidationError> {
        if self.receiver_address@ == self.owner_address@ {
            Err(ValidationError::SameOwnerAndReceiver)
        } else if Address::parse(self.receiver_address@) is None {
            Err(ValidationError::InvalidAddress)
        } else if !ledger.accounts.contains_key(self.receiver()) {
            Err(ValidationError::ReceiverNotFound)
        } else {
            Err(ValidationError::UndelegateUnsupported)
        }
    }

    /// The owner's own stake in the resource is still locked: the account
    /// holds some, and its delegation record expires after the latest block.
    pub open spec fn locked(&self, ledger: Ledger) -> bool {
        &&& ledger.accounts[self.owner()].frozen_amount(self.resource_code()) > 0
        &&& ledger.delegation_or_empty(self.owner(), self.owner()).expiration(self.resource_code())
            > ledger.latest_block_timestamp
    }

    /// The verdict on the request: the first rule that it breaks, in the
    /// order owner, resource, receiver or expiration.
    pub open spec fn validation(&self, ledger: Ledger) -> Result<(), ValidationError> {
        if Address::parse(self.owner_address@) is None {
            Err(ValidationError::InvalidAddress)
        } else if !ledger.accounts.contains_key(self.owner()) {
            Err(ValidationError::AccountNotFound)
        } else if ResourceCode::from_i32(self.resource) is None {
            Err(ValidationError::InvalidResourceType)
        } else if self.undelegates(ledger) {
            self.receiver_validation(ledger)
        } else if self.locked(ledger) {
            Err(ValidationError::NotYetExpired)
        } else {
            Ok(())
        }
    }

    /// Carrying the request out would exceed what an `i64` holds.
    pub open spec fn execution_overflows(&self, ledger: Ledger) -> bool {
        ledger.unfreeze_overflows(self.owner(), self.resource_code())
    }

    /// The keys that carrying the request out writes, in order; the owner's
    /// account comes last.
    pub open spec fn written_keys(&self, ledger: Ledger) -> Seq<RecordKey> {
        ledger.unfrozen_keys(self.owner(), self.resource_code())
    }

    /// The ledger after the request is carried out.
    pub open spec fn executed(&self, ledger: Ledger) -> Ledger {
        ledger.unfrozen(self.owner(), self.resource_code())
    }

    fn validate_receiver(&self, state: &State) -> (r: Result<(), ValidationError>)
        requires
            state.wf(),
        ensures
            r == self.receiver_validation(state@),
    {
        if same_bytes(self.owner_address.as_slice(), self.receiver_address.as_slice()) {
            return Err(ValidationError::SameOwnerAndReceiver);
        }
        let receiver = match Address::from_bytes(self.receiver_address.as_slice()) {
            Some(receiver) => receiver,
            None => {
                return Err(ValidationError::InvalidAddress);
            },
        };
        if state.account(&receiver).is_none() {
            return Err(ValidationError::ReceiverNotFound);
        }
        Err(ValidationError::UndelegateUnsupported)
    }

    /// Checks the request against the state, which it leaves as it is.
    pub fn validate(&self, state: &State) -> (r: Result<(), ValidationError>)
        requires
            state.wf(),
        ensures
            r == self.validation(state@),
    {
        let owner = match Address::from_bytes(self.owner_address.as_slice()) {
            Some(owner) => owner,
            None => {
                return Err(ValidationError::InvalidAddress);
            },
        };
        let account = match state.account(&owner) {
            Some(account) => account,
            None => {
                return Err(ValidationError::AccountNotFound);
            },
        };
        let resource = match ResourceCode::from_i32(self.resource) {
            Some(resource) => resource,
            None => {
                return Err(ValidationError::InvalidResourceType);
            },
        };
        if self.receiver_address.len() > 0 && state.parameters().delegation_enabled() {
            return self.validate_receiver(state);
        }
        let record = match state.delegation(&owner, &owner) {
            Some(record) => record,
            None => ResourceDelegation::empty(owner, owner),
        };
        if account.frozen_amount(resource) > 0 && record.expiration(resource)
            > state.latest_block_timestamp() {
            return Err(ValidationError::NotYetExpired);
        }
        Ok(())
    }

    /// Carries out a request that passed validation, once the owner's
    /// pending reward is settled: the frozen amount returns to the balance,
    /// the delegation record and the account's stake in the resource go to
    /// zero, the pair leaves the index when the record is empty, the weight
    /// counter drops by the whole coins released, and all votes of the owner
    /// are taken back and deleted.
    ///
    /// Nothing is changed where a sum would overflow.
    pub fn execute(&self, state: &mut State) -> (r: Result<OperationReceipt, ExecutionError>)
        requires
            old(state).wf(),
            self.validation(old(state)@) is Ok,
        ensures
            final(state).wf(),
            r is Err <==> self.execution_overflows(old(state)@),
            r is Err ==> r == Err::<OperationReceipt, ExecutionError>(
                ExecutionError::ArithmeticOverflow,
            ) && final(state)@ == old(state)@ && final(state).written() == old(state).written(),
            r is Ok ==> final(state).written() == old(state).written() + self.written_keys(
                old(state)@,
            ),
            r is Ok ==> final(state).written().last() == RecordKey::Account(self.owner()),
            r is Ok ==> r == Ok::<OperationReceipt, ExecutionError>(
                OperationReceipt {
                    unfrozen_amount: old(state)@.self_frozen(self.owner(), self.resource_code()),
                },
            ) && final(state)@ == self.executed(old(state)@),
            r is Ok ==> final(state)@.accounts[self.owner()].balance
                == old(state)@.accounts[self.owner()].balance + old(state)@.self_frozen(
                self.owner(),
                self.resource_code(),
            ),
            r is Ok ==> final(state)@.accounts[self.owner()].frozen_amount(self.resource_code())
                == 0,
            r is Ok ==> final(state)@.total_weight(self.resource_code()) == old(
                state,
            )@.total_weight(self.resource_code()) - old(state)@.self_frozen(
                self.owner(),
                self.resource_code(),
            ) / 1_000_000,
            r is Ok ==> !final(state)@.votes.contains_key(self.owner()),
    {
        let owner = Address::from_bytes(self.owner_address.as_slice()).unwrap();
        let resource = ResourceCode::from_i32(self.resource).unwrap();
        let account = state.must_get_account(&owner);
        let record = match state.delegation(&owner, &owner) {
            Some(record) => record,
            None => ResourceDelegation::empty(owner, owner),
        };
        let unfrozen_amount: i64 = record.amount(resource);
        if account.balance.checked_add(unfrozen_amount).is_none() {
            return Err(ExecutionError::ArithmeticOverflow);
        }
        let weight: i64 = match state.total_weight(resource).checked_sub(
            unfrozen_amount / UNITS_PER_COIN,
        ) {
            Some(weight) => weight,
            None => {
                return Err(ExecutionError::ArithmeticOverflow);
            },
        };
        let votes = state.votes(&owner);
        match &votes {
            Some(votes) => {
                if tally_would_underflow(state, votes) {
                    return Err(ExecutionError::ArithmeticOverflow);
                }
            },
            None => {},
        }
        let cleared = record.clear(resource);
        state.put_delegation(cleared);
        if cleared.is_empty() {
            remove_from_delegation_index(state, owner, owner);
        }
        state.set_total_weight(resource, weight);
        match &votes {
            Some(votes) => {
                take_back_votes(state, votes);
                state.delete_votes(&owner);
            },
            None => {},
        }
        state.put_account(owner, account.unfreeze(resource, unfrozen_amount));
        proof {
            law_unfreeze_returns_stake(old(state)@, *self);
        }
        Ok(OperationReceipt { unfrozen_amount })
    }
}

} // verus!
