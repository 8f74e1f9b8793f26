//! What holds of the operations, whatever the state and the request.

use crate::address::Address;
use crate::freeze::{
    FreezeBalanceContract, MAX_NUM_OF_FROZEN_DAYS_FOR_RESOURCE,
    MIN_NUM_OF_FROZEN_DAYS_FOR_RESOURCE,
};
use crate::ledger::{other_than, tally_underflows, votes_for, Ledger};
use crate::outcome::{Shortfall, ValidationError};
use crate::records::{ChainParameters, ResourceCode, UNITS_PER_COIN};
use crate::unfreeze::UnfreezeBalanceContract;
use crate::votes::lemma_votes_for_bounds;
use vstd::prelude::*;

verus! {

/// A freeze that is carried out takes the amount out of the owner's balance
/// and adds exactly that amount to the stake: to the owner's own stake in
/// the resource, or, in a delegation, to what others froze for the receiver.
pub proof fn law_freeze_moves_balance_into_stake(ledger: Ledger, request: FreezeBalanceContract)
    requires
        ledger.wf(),
        request.validation(ledger) is Ok,
        !request.execution_overflows(ledger),
    ensures
        ({
            let after = request.executed(ledger);
            let owner = request.owner();
            let receiver = request.receiver();
            let resource = request.resource_code();
            &&& after.wf()
            &&& after.accounts.contains_key(owner)
            &&& ledger.accounts[owner].balance == after.accounts[owner].balance
                + request.frozen_balance
            &&& !request.delegates(ledger) ==> after.accounts[owner].frozen_amount(resource)
                == ledger.accounts[owner].frozen_amount(resource) + request.frozen_balance
            &&& request.delegates(ledger) ==> after.accounts.contains_key(receiver)
                && after.accounts[receiver].delegated_frozen_amount(resource)
                == ledger.accounts[receiver].delegated_frozen_amount(resource)
                + request.frozen_balance
        }),
{
    let to = if request.delegates(ledger) {
        request.receiver()
    } else {
        request.owner()
    };
    ledger.lemma_stake_recorded_wf(
        request.owner(),
        to,
        request.resource_code(),
        request.frozen_balance,
        request.expire_time(ledger) as i64,
    );
}

/// An unfreeze that is carried out returns to the owner's balance exactly
/// what the owner had frozen for itself in the resource, sets the account's
/// own stake in the resource to zero, and lowers the weight counter of the
/// resource by the whole coins in the amount.
pub proof fn law_unfreeze_returns_stake(ledger: Ledger, request: UnfreezeBalanceContract)
    requires
        ledger.wf(),
        request.validation(ledger) is Ok,
        !request.execution_overflows(ledger),
    ensures
        ({
            let after = request.executed(ledger);
            let owner = request.owner();
            let resource = request.resource_code();
            let amount = ledger.self_frozen(owner, resource);
            &&& after.wf()
            &&& after.accounts.contains_key(owner)
            &&& after.accounts[owner].balance == ledger.accounts[owner].balance + amount
            &&& after.accounts[owner].frozen_amount(resource) == 0
            &&& after.total_weight(resource) == ledger.total_weight(resource) - amount
                / 1_000_000
            &&& after.self_frozen(owner, resource) == 0
        }),
{
    ledger.lemma_unfrozen_wf(request.owner(), request.resource_code());
}

/// Stake that was just frozen cannot be released before it expires, and
/// can be from the moment of expiration on: after a freeze for oneself, an
/// unfreeze of the same owner and resource at time `now` fails validation
/// as not yet expired where `now` is before the expiration, and passes
/// otherwise. At the time of the freeze itself it fails.
pub proof fn law_unfreeze_waits_for_expiration(
    ledger: Ledger,
    freeze: FreezeBalanceContract,
    unfreeze: UnfreezeBalanceContract,
    now: i64,
)
    requires
        ledger.wf(),
        freeze.validation(ledger) is Ok,
        !freeze.delegates(ledger),
        !freeze.execution_overflows(ledger),
        unfreeze.owner_address@ == freeze.owner_address@,
        ResourceCode::from_i32(unfreeze.resource) == ResourceCode::from_i32(freeze.resource),
        !unfreeze.undelegates(ledger),
    ensures
        unfreeze.validation(freeze.executed(ledger)) == Err::<(), ValidationError>(
            ValidationError::NotYetExpired,
        ),
        now < freeze.expire_time(ledger) ==> unfreeze.validation(
            freeze.executed(ledger).with_latest_block_timestamp(now),
        ) == Err::<(), ValidationError>(ValidationError::NotYetExpired),
        now >= freeze.expire_time(ledger) ==> unfreeze.validation(
            freeze.executed(ledger).with_latest_block_timestamp(now),
        ) == Ok::<(), ValidationError>(()),
{
    law_freeze_moves_balance_into_stake(ledger, freeze);
}

/// A freeze for oneself, of a resource in which the owner holds no stake
/// yet, followed at or after its expiration by the unfreeze of that
/// resource, is undone: the unfreeze passes validation and returns the
/// frozen amount, every account and both weight counters are as before the
/// freeze, and the pair's record holds nothing in the resource. Where the
/// record holds nothing in the other resource either, the owner is no
/// longer indexed under itself.
pub proof fn law_unfreeze_undoes_freeze(
    ledger: Ledger,
    freeze: FreezeBalanceContract,
    unfreeze: UnfreezeBalanceContract,
    now: i64,
)
    requires
        ledger.wf(),
        freeze.validation(ledger) is Ok,
        !freeze.delegates(ledger),
        !freeze.execution_overflows(ledger),
        unfreeze.owner_address@ == freeze.owner_address@,
        ResourceCode::from_i32(unfreeze.resource) == ResourceCode::from_i32(freeze.resource),
        !unfreeze.undelegates(ledger),
        now >= freeze.expire_time(ledger),
        ledger.self_frozen(freeze.owner(), freeze.resource_code()) == 0,
        ledger.accounts[freeze.owner()].frozen_amount(freeze.resource_code()) == 0,
        ledger.votes.contains_key(freeze.owner()) ==> !tally_underflows(
            ledger.witnesses,
            ledger.votes[freeze.owner()],
        ),
    ensures
        ({
            let owner = freeze.owner();
            let resource = freeze.resource_code();
            let frozen = freeze.executed(ledger).with_latest_block_timestamp(now);
            let after = unfreeze.executed(frozen);
            let record = after.delegation_or_empty(owner, owner);
            &&& unfreeze.validation(frozen) is Ok
            &&& !unfreeze.execution_overflows(frozen)
            &&& frozen.self_frozen(owner, resource) == freeze.frozen_balance
            &&& after.accounts == ledger.accounts
            &&& after.total_bandwidth_weight == ledger.total_bandwidth_weight
            &&& after.total_energy_weight == ledger.total_energy_weight
            &&& record.amount(resource) == 0
            &&& record.expiration(resource) == 0
            &&& record.is_empty() ==> !after.indexed(owner).contains(owner)
            &&& record.is_empty() && !ledger.delegation_index.contains_key(owner)
                ==> !after.delegation_index.contains_key(owner)
        }),
{
    law_freeze_moves_balance_into_stake(ledger, freeze);
    law_unfreeze_waits_for_expiration(ledger, freeze, unfreeze, now);
    let owner = freeze.owner();
    let frozen = freeze.executed(ledger).with_latest_block_timestamp(now);
    let after = unfreeze.executed(frozen);
    if after.delegation_or_empty(owner, owner).is_empty() {
        // What is left of the index entry holds no owner, and nothing at
        // all where the freeze had made the entry.
        let listed = frozen.indexed(owner);
        let rest = listed.filter(other_than(owner));
        if rest.contains(owner) {
            let i = choose|i: int| 0 <= i < rest.len() && rest[i] == owner;
            listed.lemma_filter_pred(other_than(owner), i);
        }
        if !ledger.delegation_index.contains_key(owner) && rest.len() > 0 {
            listed.lemma_filter_contains_rev(other_than(owner), rest[0]);
        }
    }
}

/// An unfreeze that is carried out, of either resource, deletes the
/// owner's vote record and lowers the tally of every witness by exactly the
/// votes that the owner had cast for it.
pub proof fn law_unfreeze_takes_votes_back(
    ledger: Ledger,
    request: UnfreezeBalanceContract,
    witness: Address,
)
    requires
        ledger.wf(),
        request.validation(ledger) is Ok,
        !request.execution_overflows(ledger),
        ledger.witnesses.contains_key(witness),
    ensures
        !request.executed(ledger).votes.contains_key(request.owner()),
        request.executed(ledger).witnesses.contains_key(witness),
        request.executed(ledger).witnesses[witness].vote_count
            == ledger.witnesses[witness].vote_count - (if ledger.votes.contains_key(
            request.owner(),
        ) {
            votes_for(ledger.votes[request.owner()], witness)
        } else {
            0
        }),
{
    let owner = request.owner();
    if ledger.votes.contains_key(owner) {
        let votes = ledger.votes[owner];
        lemma_votes_for_bounds(votes, votes.len() as int, witness);
    }
}

/// The thresholds of a freeze, for an owner that has an account: an amount
/// under one whole coin is turned down as below the minimum; with an amount
/// in range, a duration outside the allowed days is turned down; with both
/// in range, an unknown resource code is turned down.
pub proof fn law_freeze_thresholds(ledger: Ledger, request: FreezeBalanceContract)
    requires
        Address::parse(request.owner_address@) is Some,
        ledger.accounts.contains_key(request.owner()),
    ensures
        request.frozen_balance < UNITS_PER_COIN ==> request.validation(ledger) == Err::<
            (),
            ValidationError,
        >(ValidationError::InsufficientBalance(Shortfall::BelowMinimum)),
        UNITS_PER_COIN <= request.frozen_balance <= ledger.accounts[request.owner()].balance && (
        request.frozen_duration < MIN_NUM_OF_FROZEN_DAYS_FOR_RESOURCE || request.frozen_duration
            > MAX_NUM_OF_FROZEN_DAYS_FOR_RESOURCE) ==> request.validation(ledger) == Err::<
            (),
            ValidationError,
        >(ValidationError::InvalidDuration),
        UNITS_PER_COIN <= request.frozen_balance <= ledger.accounts[request.owner()].balance
            && MIN_NUM_OF_FROZEN_DAYS_FOR_RESOURCE <= request.frozen_duration
            <= MAX_NUM_OF_FROZEN_DAYS_FOR_RESOURCE && request.resource != 0 && request.resource
            != 1 ==> request.validation(ledger) == Err::<(), ValidationError>(
            ValidationError::InvalidResourceType,
        ),
{
}

/// Where the chain allows delegation, a freeze whose receiver is the owner
/// never passes validation, whatever the balances; where nothing else is
/// wrong with it, it is turned down because owner and receiver are the same.
pub proof fn law_no_delegation_to_oneself(ledger: Ledger, request: FreezeBalanceContract)
    requires
        request.delegates(ledger),
        request.receiver_address@ == request.owner_address@,
    ensures
        request.validation(ledger) is Err,
        Address::parse(request.owner_address@) is Some && ledger.accounts.contains_key(
            request.owner(),
        ) && UNITS_PER_COIN <= request.frozen_balance <= ledger.accounts[request.owner()].balance
            && MIN_NUM_OF_FROZEN_DAYS_FOR_RESOURCE <= request.frozen_duration
            <= MAX_NUM_OF_FROZEN_DAYS_FOR_RESOURCE && ResourceCode::from_i32(request.resource)
            is Some ==> request.validation(ledger) == Err::<(), ValidationError>(
            ValidationError::SameOwnerAndReceiver,
        ),
{
}

/// One step in the life of the ledger: a request of either kind, or a new
/// block, which moves the clock.
pub enum Operation {
    Freeze(FreezeBalanceContract),
    Unfreeze(UnfreezeBalanceContract),
    NewBlock(i64),
}

impl Operation {
    /// The step goes through: a request passes validation and can be
    /// carried out without overflow; a new block always comes.
    pub open spec fn accepted(self, ledger: Ledger) -> bool {
        match self {
            Operation::Freeze(request) => request.validation(ledger) is Ok
                && !request.execution_overflows(ledger),
            Operation::Unfreeze(request) => request.validation(ledger) is Ok
                && !request.execution_overflows(ledger),
            Operation::NewBlock(_) => true,
        }
    }

    /// The ledger after the step: changed as the request asks where it is
    /// accepted, unchanged where it is not; at the time of the new block.
    pub open spec fn applied(self, ledger: Ledger) -> Ledger {
        if self.accepted(ledger) {
            match self {
                Operation::Freeze(request) => request.executed(ledger),
                Operation::Unfreeze(request) => request.executed(ledger),
                Operation::NewBlock(now) => ledger.with_latest_block_timestamp(now),
            }
        } else {
            ledger
        }
    }

    /// The step is an accepted freeze whose amount carries into a whole
    /// coin of the record that it adds to.
    pub open spec fn carries(self, ledger: Ledger) -> bool {
        match self {
            Operation::Freeze(request) => self.accepted(ledger) && ledger.carries(
                request.owner(),
                if request.delegates(ledger) {
                    request.receiver()
                } else {
                    request.owner()
                },
                request.resource_code(),
                request.frozen_balance,
            ),
            Operation::Unfreeze(_) => false,
            Operation::NewBlock(_) => false,
        }
    }
}

/// The ledger after a sequence of steps, each applied to what the ones
/// before it left.
pub open spec fn applied_all(ledger: Ledger, steps: Seq<Operation>) -> Ledger
    decreases steps.len(),
{
    if steps.len() == 0 {
        ledger
    } else {
        steps.last().applied(applied_all(ledger, steps.drop_last()))
    }
}

/// No step of the sequence carries, on the ledger that it is applied to.
pub open spec fn never_carries(ledger: Ledger, steps: Seq<Operation>) -> bool
    decreases steps.len(),
{
    steps.len() == 0 || (never_carries(ledger, steps.drop_last()) && !steps.last().carries(
        applied_all(ledger, steps.drop_last()),
    ))
}

/// A ledger without records keeps the invariants, and its weight counters,
/// both zero, equal the sums over its delegation records.
pub proof fn law_empty_ledger_is_consistent(parameters: ChainParameters, now: i64)
    ensures
        Ledger::empty(parameters, now).wf(),
        Ledger::empty(parameters, now).weights_consistent(),
{
}

/// One step that does not carry keeps the invariants of the ledger, and
/// keeps the weight counters equal to the sums over all delegation records.
pub proof fn law_step_keeps_weights(ledger: Ledger, step: Operation)
    requires
        ledger.wf(),
        ledger.weights_consistent(),
        !step.carries(ledger),
    ensures
        step.applied(ledger).wf(),
        step.applied(ledger).weights_consistent(),
{
    if step.accepted(ledger) {
        match step {
            Operation::Freeze(freeze) => {
                law_freeze_moves_balance_into_stake(ledger, freeze);
                let to = if freeze.delegates(ledger) {
                    freeze.receiver()
                } else {
                    freeze.owner()
                };
                ledger.lemma_stake_recorded_weights(
                    freeze.owner(),
                    to,
                    freeze.resource_code(),
                    freeze.frozen_balance,
                    freeze.expire_time(ledger) as i64,
                );
            },
            Operation::Unfreeze(unfreeze) => {
                law_unfreeze_returns_stake(ledger, unfreeze);
                ledger.lemma_unfrozen_weights(unfreeze.owner(), unfreeze.resource_code());
            },
            Operation::NewBlock(_) => {},
        }
    }
}

/// After any sequence of freezes, delegations, unfreezes and new blocks in
/// which no freeze carries, each weight counter equals the sum, over all
/// delegation records, of the whole coins frozen under the record.
pub proof fn law_weights_stay_consistent(ledger: Ledger, steps: Seq<Operation>)
    requires
        ledger.wf(),
        ledger.weights_consistent(),
        never_carries(ledger, steps),
    ensures
        applied_all(ledger, steps).wf(),
        applied_all(ledger, steps).weights_consistent(),
    decreases steps.len(),
{
    if steps.len() > 0 {
        law_weights_stay_consistent(ledger, steps.drop_last());
        law_step_keeps_weights(applied_all(ledger, steps.drop_last()), steps.last());
    }
}

} // verus!
