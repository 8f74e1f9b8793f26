//! The building blocks of freezing: the stake record, the index, the accounts.

use crate::address::Address;
use crate::ledger::other_than;
use crate::outcome::ExecutionError;
use crate::records::{RecordKey, ResourceCode, ResourceDelegation, UNITS_PER_COIN};
use crate::state::State;
use vstd::prelude::*;

verus! {

/// Whether `to` is listed in `addresses`.
fn lists(addresses: &Vec<Address>, to: &Address) -> (b: bool)
    ensures
        b == addresses@.contains(*to),
{
    let mut i: usize = 0;
    while i < addresses.len()
        invariant
            i <= addresses@.len(),
            forall|j: int| 0 <= j < i ==> addresses@[j] != *to,
        decreases addresses@.len() - i,
    {
        if addresses[i].same(to) {
            return true;
        }
        i += 1;
    }
    false
}

/// The addresses of `addresses` other than `to`, in their order.
fn without(addresses: &Vec<Address>, to: &Address) -> (rest: Vec<Address>)
    requires
        addresses@.no_duplicates(),
    ensures
        rest@ == addresses@.filter(other_than(*to)),
        rest@.no_duplicates(),
{
    let mut rest: Vec<Address> = Vec::new();
    let mut i: usize = 0;
    while i < addresses.len()
        invariant
            i <= addresses@.len(),
            addresses@.no_duplicates(),
            rest@ == addresses@.take(i as int).filter(other_than(*to)),
            rest@.no_duplicates(),
            forall|j: int| 0 <= j < rest@.len() ==> addresses@.take(i as int).contains(rest@[j]),
        decreases addresses@.len() - i,
    {
        let ghost before = rest@;
        let ghost seen = addresses@.take(i as int);
        proof {
            assert(addresses@.take(i + 1) =~= seen.push(addresses@[i as int]));
            seen.lemma_filter_push(addresses@[i as int], other_than(*to));
        }
        if !addresses[i].same(to) {
            rest.push(addresses[i]);
        }
        proof {
            assert forall|j: int| 0 <= j < rest@.len() implies addresses@.take(i + 1).contains(
                rest@[j],
            ) by {
                if j < before.len() {
                    let at = choose|at: int| 0 <= at < seen.len() && seen[at] == before[j];
                    assert(addresses@.take(i + 1)[at] == rest@[j]);
                } else {
                    assert(addresses@.take(i + 1)[i as int] == rest@[j]);
                }
            }
        }
        i += 1;
    }
    proof {
        assert(addresses@.take(addresses@.len() as int) =~= addresses@);
    }
    rest
}

/// Enters `to` in the delegation index of `from`, unless it is listed
/// there already.
pub fn add_to_delegation_index(state: &mut State, from: Address, to: Address)
    requires
        old(state).wf(),
    ensures
        final(state).wf(),
        final(state)@ == old(state)@.index_added(from, to),
        final(state).written() == old(state).written() + old(state)@.index_added_keys(from, to),
{
    let mut indexed = match state.delegation_index(&from) {
        Some(addresses) => addresses,
        None => Vec::new(),
    };
    if !lists(&indexed, &to) {
        let ghost before = indexed@;
        indexed.push(to);
        proof {
            assert forall|i: int, j: int|
                0 <= i < indexed@.len() && 0 <= j < indexed@.len() && i != j implies indexed@[i]
                != indexed@[j] by {
                if i < before.len() {
                    assert(before[i] == indexed@[i]);
                }
                if j < before.len() {
                    assert(before[j] == indexed@[j]);
                }
            }
        }
        state.put_delegation_index(from, indexed);
    }
}

/// Takes `to` out of the delegation index of `from`, and deletes the entry
/// when nothing is left in it.
pub fn remove_from_delegation_index(state: &mut State, from: Address, to: Address)
    requires
        old(state).wf(),
    ensures
        final(state).wf(),
        final(state)@ == old(state)@.index_removed(from, to),
        final(state).written() == old(state).written().push(
            RecordKey::ResourceDelegationIndex(from),
        ),
{
    let indexed = match state.delegation_index(&from) {
        Some(addresses) => addresses,
        None => Vec::new(),
    };
    let rest = without(&indexed, &to);
    if rest.len() > 0 {
        state.put_delegation_index(from, rest);
    } else {
        state.delete_delegation_index(&from);
    }
}

/// Records a stake of `amount` that `from` froze for `to`: adds it to the
/// pair's delegation record and replaces the record's expiration, adds the
/// whole coins in it to the weight counter, and indexes the pair.
///
/// Nothing is changed where a sum would overflow.
pub fn record_stake(
    state: &mut State,
    from: Address,
    to: Address,
    resource: ResourceCode,
    amount: i64,
    expired_time: i64,
) -> (r: Result<(), ExecutionError>)
    requires
        old(state).wf(),
        amount >= 0,
    ensures
        final(state).wf(),
        r is Err <==> old(state)@.stake_overflows(from, to, resource, amount),
        r is Err ==> r == Err::<(), ExecutionError>(ExecutionError::ArithmeticOverflow)
            && final(state)@ == old(state)@ && final(state).written() == old(state).written(),
        r is Ok ==> final(state)@ == old(state)@.stake_recorded(
            from,
            to,
            resource,
            amount,
            expired_time,
        ),
        r is Ok ==> final(state).written() == old(state).written() + old(state)@.stake_keys(
            from,
            to,
            resource,
        ),
{
    let record = match state.delegation(&from, &to) {
        Some(record) => record,
        None => ResourceDelegation::empty(from, to),
    };
    if record.amount(resource).checked_add(amount).is_none() {
        return Err(ExecutionError::ArithmeticOverflow);
    }
    let weight: i64 = match state.total_weight(resource).checked_add(amount / UNITS_PER_COIN) {
        Some(weight) => weight,
        None => {
            return Err(ExecutionError::ArithmeticOverflow);
        },
    };
    state.put_delegation(record.add(resource, amount, expired_time));
    state.set_total_weight(resource, weight);
    add_to_delegation_index(state, from, to);
    proof {
        assert(state.written() =~= old(state).written() + old(state)@.stake_keys(
            from,
            to,
            resource,
        ));
    }
    Ok(())
}

/// Freezes `amount` of the balance of `from` for itself, until
/// `expired_time`.
///
/// Nothing is changed where a sum would overflow.
pub fn freeze_resource(
    state: &mut State,
    from: Address,
    resource: ResourceCode,
    amount: i64,
    expired_time: i64,
) -> (r: Result<(), ExecutionError>)
    requires
        old(state).wf(),
        old(state)@.accounts.contains_key(from),
        0 <= amount <= old(state)@.accounts[from].balance,
    ensures
        final(state).wf(),
        r is Err <==> old(state)@.freeze_overflows(from, resource, amount),
        r is Err ==> r == Err::<(), ExecutionError>(ExecutionError::ArithmeticOverflow)
            && final(state)@ == old(state)@ && final(state).written() == old(state).written(),
        r is Ok ==> final(state)@ == old(state)@.frozen(from, resource, amount, expired_time),
        r is Ok ==> final(state).written() == old(state).written() + old(state)@.frozen_keys(
            from,
            resource,
        ),
{
    let account = state.must_get_account(&from);
    if account.frozen_amount(resource).checked_add(amount).is_none() {
        return Err(ExecutionError::ArithmeticOverflow);
    }
    match record_stake(state, from, from, resource, amount, expired_time) {
        Ok(()) => {},
        Err(e) => {
            return Err(e);
        },
    }
    state.put_account(from, account.freeze(resource, amount));
    proof {
        assert(state.written() =~= old(state).written() + old(state)@.frozen_keys(
            from,
            resource,
        ));
    }
    Ok(())
}

/// Freezes `amount` of the balance of `from` for `to`, until
/// `expired_time`.
///
/// Nothing is changed where a sum would overflow.
pub fn delegate_resource(
    state: &mut State,
    from: Address,
    to: Address,
    resource: ResourceCode,
    amount: i64,
    expired_time: i64,
) -> (r: Result<(), ExecutionError>)
    requires
        old(state).wf(),
        old(state)@.accounts.contains_key(from),
        old(state)@.accounts.contains_key(to),
        0 <= amount <= old(state)@.accounts[from].balance,
    ensures
        final(state).wf(),
        r is Err <==> old(state)@.delegate_overflows(from, to, resource, amount),
        r is Err ==> r == Err::<(), ExecutionError>(ExecutionError::ArithmeticOverflow)
            && final(state)@ == old(state)@ && final(state).written() == old(state).written(),
        r is Ok ==> final(state)@ == old(state)@.delegated(
            from,
            to,
            resource,
            amount,
            expired_time,
        ),
        r is Ok ==> final(state).written() == old(state).written() + old(state)@.delegated_keys(
            from,
            to,
            resource,
        ),
{
    let receiver = state.must_get_account(&to);
    let sender = state.must_get_account(&from);
    if receiver.delegated_frozen_amount(resource).checked_add(amount).is_none() {
        return Err(ExecutionError::ArithmeticOverflow);
    }
    if sender.delegated_out_amount.checked_add(amount).is_none() {
        return Err(ExecutionError::ArithmeticOverflow);
    }
    match record_stake(state, from, to, resource, amount, expired_time) {
        Ok(()) => {},
        Err(e) => {
            return Err(e);
        },
    }
    state.put_account(to, receiver.receive_delegation(resource, amount));
    let sender = state.must_get_account(&from);
    state.put_account(from, sender.delegate_out(amount));
    proof {
        assert(state.written() =~= old(state).written() + old(state)@.delegated_keys(
            from,
            to,
            resource,
        ));
    }
    Ok(())
}

} // verus!
