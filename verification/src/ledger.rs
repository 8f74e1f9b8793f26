//! The staking state as mathematics, and what each operation makes of it.

use crate::address::Address;
use crate::records::{
    Account, ChainParameters, DelegationKey, RecordKey, ResourceCode, ResourceDelegation, Vote,
    Witness,
};
use crate::weight::{lemma_total_weight_insert, total_weight};
use vstd::prelude::*;

verus! {

/// Votes in `votes` that went to `witness`, added up.
pub open spec fn votes_for(votes: Seq<Vote>, witness: Address) -> int
    decreases votes.len(),
{
    if votes.len() == 0 {
        0
    } else {
        votes_for(votes.drop_last(), witness) + (if votes.last().vote_address == witness {
            votes.last().vote_count as int
        } else {
            0
        })
    }
}

/// Holds of every address but `to`.
pub open spec fn other_than(to: Address) -> spec_fn(Address) -> bool {
    |a: Address| a != to
}

/// What is left of a sequence without repeats has no repeats.
pub proof fn lemma_filter_no_duplicates(s: Seq<Address>, keep: spec_fn(Address) -> bool)
    requires
        s.no_duplicates(),
    ensures
        s.filter(keep).no_duplicates(),
    decreases s.len(),
{
    reveal(Seq::filter);
    if s.len() > 0 {
        let front = s.drop_last();
        lemma_filter_no_duplicates(front, keep);
        if keep(s.last()) {
            let kept = front.filter(keep);
            if kept.contains(s.last()) {
                front.lemma_filter_contains_rev(keep, s.last());
                let i = choose|i: int| 0 <= i < front.len() && front[i] == s.last();
                assert(s[i] == s[s.len() - 1]);
            }
            assert forall|i: int, j: int|
                0 <= i < kept.len() + 1 && 0 <= j < kept.len() + 1 && i != j implies kept.push(
                s.last(),
            )[i] != kept.push(s.last())[j] by {
                if i < kept.len() {
                    assert(kept.contains(kept[i]));
                }
                if j < kept.len() {
                    assert(kept.contains(kept[j]));
                }
            }
        }
    }
}

/// No vote count is negative, and every vote names a known witness.
pub open spec fn votes_wf(votes: Seq<Vote>, witnesses: Map<Address, Witness>) -> bool {
    forall|i: int|
        0 <= i < votes.len() ==> (#[trigger] votes[i]).vote_count >= 0 && witnesses.contains_key(
            votes[i].vote_address,
        )
}

/// The tallies after every vote in `votes` is taken back from its witness.
pub open spec fn tallied(witnesses: Map<Address, Witness>, votes: Seq<Vote>) -> Map<
    Address,
    Witness,
> {
    Map::new(
        |w: Address| witnesses.contains_key(w),
        |w: Address| Witness { vote_count: (witnesses[w].vote_count - votes_for(votes, w)) as i64 },
    )
}

/// The keys written when every vote in `votes` is taken back: the witness
/// of each vote, in the order of the votes.
pub open spec fn witness_keys(votes: Seq<Vote>) -> Seq<RecordKey> {
    Seq::new(votes.len(), |i: int| RecordKey::Witness(votes[i].vote_address))
}

/// Taking `votes` back would push some tally below what an `i64` holds.
pub open spec fn tally_underflows(witnesses: Map<Address, Witness>, votes: Seq<Vote>) -> bool {
    exists|w: Address| #[trigger]
        witnesses.contains_key(w) && witnesses[w].vote_count - votes_for(votes, w) < i64::MIN
}

/// The staking state of the chain, as mathematics: what the executable
/// `State` stands for.
#[verifier::ext_equal]
pub struct Ledger {
    pub accounts: Map<Address, Account>,
    pub delegations: Map<DelegationKey, ResourceDelegation>,
    pub delegation_index: Map<Address, Seq<Address>>,
    pub votes: Map<Address, Seq<Vote>>,
    pub witnesses: Map<Address, Witness>,
    pub total_bandwidth_weight: i64,
    pub total_energy_weight: i64,
    pub parameters: ChainParameters,
    pub latest_block_timestamp: i64,
}

impl Ledger {
    /// A ledger with no records and both weights at zero.
    pub open spec fn empty(parameters: ChainParameters, latest_block_timestamp: i64) -> Ledger {
        Ledger {
            accounts: Map::empty(),
            delegations: Map::empty(),
            delegation_index: Map::empty(),
            votes: Map::empty(),
            witnesses: Map::empty(),
            total_bandwidth_weight: 0,
            total_energy_weight: 0,
            parameters,
            latest_block_timestamp,
        }
    }

    /// The invariants of the data model:
    /// no account and no delegation record holds a negative amount;
    /// a delegation record is stored under its own pair of addresses;
    /// an index entry is never empty and lists no address twice;
    /// votes are not negative and go to known witnesses.
    pub open spec fn wf(self) -> bool {
        &&& forall|a: Address| #[trigger]
            self.accounts.contains_key(a) ==> self.accounts[a].wf()
        &&& self.delegations.dom().finite()
        &&& forall|k: DelegationKey| #[trigger]
            self.delegations.contains_key(k) ==> self.delegations[k].wf()
                && self.delegations[k].key() == k
        &&& forall|a: Address| #[trigger]
            self.delegation_index.contains_key(a) ==> self.delegation_index[a].len() > 0
                && self.delegation_index[a].no_duplicates()
        &&& forall|a: Address| #[trigger]
            self.votes.contains_key(a) ==> votes_wf(self.votes[a], self.witnesses)
    }

    /// The ledger with `account` stored at `address`.
    pub open spec fn with_account(self, address: Address, account: Account) -> Ledger {
        Ledger { accounts: self.accounts.insert(address, account), ..self }
    }

    /// The ledger with `record` stored under its own pair of addresses.
    pub open spec fn with_delegation(self, record: ResourceDelegation) -> Ledger {
        Ledger { delegations: self.delegations.insert(record.key(), record), ..self }
    }

    /// The ledger with `to` stored as the index entry of `from`.
    pub open spec fn with_delegation_index(self, from: Address, to: Seq<Address>) -> Ledger {
        Ledger { delegation_index: self.delegation_index.insert(from, to), ..self }
    }

    /// The ledger without an index entry of `from`.
    pub open spec fn without_delegation_index(self, from: Address) -> Ledger {
        Ledger { delegation_index: self.delegation_index.remove(from), ..self }
    }

    /// The ledger with `votes` stored as the vote record of `address`.
    pub open spec fn with_votes(self, address: Address, votes: Seq<Vote>) -> Ledger {
        Ledger { votes: self.votes.insert(address, votes), ..self }
    }

    /// The ledger without a vote record of `address`.
    pub open spec fn without_votes(self, address: Address) -> Ledger {
        Ledger { votes: self.votes.remove(address), ..self }
    }

    /// The ledger with `witness` stored as the tally at `address`.
    pub open spec fn with_witness(self, address: Address, witness: Witness) -> Ledger {
        Ledger { witnesses: self.witnesses.insert(address, witness), ..self }
    }

    /// The ledger with the weight counter of `resource` set to `weight`.
    pub open spec fn with_total_weight(self, resource: ResourceCode, weight: i64) -> Ledger {
        match resource {
            ResourceCode::Bandwidth => Ledger { total_bandwidth_weight: weight, ..self },
            ResourceCode::Energy => Ledger { total_energy_weight: weight, ..self },
        }
    }

    /// The ledger under other chain parameters.
    pub open spec fn with_parameters(self, parameters: ChainParameters) -> Ledger {
        Ledger { parameters, ..self }
    }

    /// The ledger at the time `now`.
    pub open spec fn with_latest_block_timestamp(self, now: i64) -> Ledger {
        Ledger { latest_block_timestamp: now, ..self }
    }

    /// The network weight counter of `resource`.
    pub open spec fn total_weight(self, resource: ResourceCode) -> i64 {
        match resource {
            ResourceCode::Bandwidth => self.total_bandwidth_weight,
            ResourceCode::Energy => self.total_energy_weight,
        }
    }

    /// The record of the pair; all zero where none is stored.
    pub open spec fn delegation_or_empty(self, from: Address, to: Address) -> ResourceDelegation {
        let key = DelegationKey { from, to };
        if self.delegations.contains_key(key) {
            self.delegations[key]
        } else {
            ResourceDelegation::empty(from, to)
        }
    }

    /// The addresses indexed under `from`; none where no entry is stored.
    pub open spec fn indexed(self, from: Address) -> Seq<Address> {
        if self.delegation_index.contains_key(from) {
            self.delegation_index[from]
        } else {
            Seq::empty()
        }
    }

    /// The ledger after `to` is entered in the index of `from`: appended if
    /// it was not listed, nothing otherwise.
    pub open spec fn index_added(self, from: Address, to: Address) -> Ledger {
        if self.indexed(from).contains(to) {
            self
        } else {
            self.with_delegation_index(from, self.indexed(from).push(to))
        }
    }

    /// The ledger after `to` is taken out of the index of `from`; the entry
    /// goes altogether when nothing is left in it.
    pub open spec fn index_removed(self, from: Address, to: Address) -> Ledger {
        let rest = self.indexed(from).filter(other_than(to));
        if rest.len() > 0 {
            self.with_delegation_index(from, rest)
        } else {
            self.without_delegation_index(from)
        }
    }

    /// The keys written when `to` is entered in the index of `from`: the
    /// index entry where it changes, nothing where `to` is listed already.
    pub open spec fn index_added_keys(self, from: Address, to: Address) -> Seq<RecordKey> {
        if self.indexed(from).contains(to) {
            Seq::empty()
        } else {
            seq![RecordKey::ResourceDelegationIndex(from)]
        }
    }

    /// The keys written when a stake is recorded, in order: the delegation
    /// record, the weight counter, the index entry where it changes.
    pub open spec fn stake_keys(self, from: Address, to: Address, resource: ResourceCode) -> Seq<
        RecordKey,
    > {
        seq![RecordKey::ResourceDelegation(from, to), RecordKey::TotalWeight(resource)]
            + self.index_added_keys(from, to)
    }

    /// The keys written by a freeze for oneself: those of the stake, then
    /// the owner's account.
    pub open spec fn frozen_keys(self, owner: Address, resource: ResourceCode) -> Seq<RecordKey> {
        self.stake_keys(owner, owner, resource).push(RecordKey::Account(owner))
    }

    /// The keys written by a freeze for another account: those of the
    /// stake, then the receiver's account, then the sender's.
    pub open spec fn delegated_keys(
        self,
        from: Address,
        to: Address,
        resource: ResourceCode,
    ) -> Seq<RecordKey> {
        self.stake_keys(from, to, resource).push(RecordKey::Account(to)).push(
            RecordKey::Account(from),
        )
    }

    /// The keys written by an unfreeze, in order: the delegation record;
    /// the index entry, where the record is left empty; the weight counter;
    /// where the owner has a vote record, the witness of each vote and then
    /// the vote record; and last the owner's account.
    pub open spec fn unfrozen_keys(self, owner: Address, resource: ResourceCode) -> Seq<
        RecordKey,
    > {
        let cleared = self.delegation_or_empty(owner, owner).with_cleared(resource);
        seq![RecordKey::ResourceDelegation(owner, owner)] + (if cleared.is_empty() {
            seq![RecordKey::ResourceDelegationIndex(owner)]
        } else {
            Seq::empty()
        }) + seq![RecordKey::TotalWeight(resource)] + (if self.votes.contains_key(owner) {
            witness_keys(self.votes[owner]).push(RecordKey::Votes(owner))
        } else {
            Seq::empty()
        }) + seq![RecordKey::Account(owner)]
    }

    /// Recording a stake of `amount` for the pair would exceed what an
    /// `i64` holds, in the record or in the weight counter.
    pub open spec fn stake_overflows(
        self,
        from: Address,
        to: Address,
        resource: ResourceCode,
        amount: i64,
    ) -> bool {
        ||| self.delegation_or_empty(from, to).amount(resource) + amount > i64::MAX
        ||| self.total_weight(resource) + amount / 1_000_000 > i64::MAX
    }

    /// The ledger after a stake of `amount` is recorded for the pair: the
    /// record grows and takes the new expiration, the weight counter grows by
    /// the whole coins in `amount`, and the pair is indexed.
    pub open spec fn stake_recorded(
        self,
        from: Address,
        to: Address,
        resource: ResourceCode,
        amount: i64,
        expired_time: i64,
    ) -> Ledger {
        self.with_delegation(
            self.delegation_or_empty(from, to).with_added(resource, amount, expired_time),
        ).with_total_weight(
            resource,
            (self.total_weight(resource) + amount / 1_000_000) as i64,
        ).index_added(from, to)
    }

    /// Freezing `amount` of `owner`'s balance for itself would overflow.
    pub open spec fn freeze_overflows(
        self,
        owner: Address,
        resource: ResourceCode,
        amount: i64,
    ) -> bool {
        ||| self.stake_overflows(owner, owner, resource, amount)
        ||| self.accounts[owner].frozen_amount(resource) + amount > i64::MAX
    }

    /// The ledger after `owner` froze `amount` of its balance for itself.
    pub open spec fn frozen(
        self,
        owner: Address,
        resource: ResourceCode,
        amount: i64,
        expired_time: i64,
    ) -> Ledger {
        self.stake_recorded(owner, owner, resource, amount, expired_time).with_account(
            owner,
            self.accounts[owner].with_frozen(resource, amount),
        )
    }

    /// Freezing `amount` of `from`'s balance for `to` would overflow.
    pub open spec fn delegate_overflows(
        self,
        from: Address,
        to: Address,
        resource: ResourceCode,
        amount: i64,
    ) -> bool {
        ||| self.stake_overflows(from, to, resource, amount)
        ||| self.accounts[to].delegated_frozen_amount(resource) + amount > i64::MAX
        ||| self.accounts[from].delegated_out_amount + amount > i64::MAX
    }

    /// The ledger after `from` froze `amount` of its balance for `to`: the
    /// receiver's account is updated first, then the sender's.
    pub open spec fn delegated(
        self,
        from: Address,
        to: Address,
        resource: ResourceCode,
        amount: i64,
        expired_time: i64,
    ) -> Ledger {
        let received = self.stake_recorded(from, to, resource, amount, expired_time).with_account(
            to,
            self.accounts[to].with_delegated_in(resource, amount),
        );
        received.with_account(from, received.accounts[from].with_delegated_out(amount))
    }

    /// The ledger after all votes of `owner` are taken back from their
    /// witnesses and the vote record is deleted.
    pub open spec fn votes_cleared(self, owner: Address) -> Ledger {
        if self.votes.contains_key(owner) {
            Ledger {
                witnesses: tallied(self.witnesses, self.votes[owner]),
                votes: self.votes.remove(owner),
                ..self
            }
        } else {
            self
        }
    }

    /// What `owner` has frozen for itself in `resource`, by its delegation
    /// record.
    pub open spec fn self_frozen(self, owner: Address, resource: ResourceCode) -> i64 {
        self.delegation_or_empty(owner, owner).amount(resource)
    }

    /// Releasing the stake that `owner` froze for itself would overflow: in
    /// the balance, in the weight counter or in a witness tally.
    pub open spec fn unfreeze_overflows(self, owner: Address, resource: ResourceCode) -> bool {
        ||| self.accounts[owner].balance + self.self_frozen(owner, resource) > i64::MAX
        ||| self.total_weight(resource) - self.self_frozen(owner, resource) / 1_000_000 < i64::MIN
        ||| self.votes.contains_key(owner) && tally_underflows(self.witnesses, self.votes[owner])
    }

    /// The ledger after the stake that `owner` froze for itself in
    /// `resource` is released.
    pub open spec fn unfrozen(self, owner: Address, resource: ResourceCode) -> Ledger {
        let record = self.delegation_or_empty(owner, owner);
        let amount = record.amount(resource);
        let cleared = record.with_cleared(resource);
        let stored = self.with_delegation(cleared);
        let indexed = if cleared.is_empty() {
            stored.index_removed(owner, owner)
        } else {
            stored
        };
        indexed.with_total_weight(
            resource,
            (self.total_weight(resource) - amount / 1_000_000) as i64,
        ).votes_cleared(owner).with_account(
            owner,
            self.accounts[owner].with_unfrozen(resource, amount),
        )
    }

    /// Each weight counter equals the sum of the whole coins frozen under
    /// every delegation record.
    pub open spec fn weights_consistent(self) -> bool {
        &&& self.total_bandwidth_weight == total_weight(self.delegations, ResourceCode::Bandwidth)
        &&& self.total_energy_weight == total_weight(self.delegations, ResourceCode::Energy)
    }

    /// Adding `amount` to the pair's record would carry into a whole coin:
    /// the fractions of a coin in the record and in `amount` add up to one
    /// coin or more, so that the record's weight grows by one more than the
    /// weight counter does.
    pub open spec fn carries(
        self,
        from: Address,
        to: Address,
        resource: ResourceCode,
        amount: i64,
    ) -> bool {
        self.delegation_or_empty(from, to).amount(resource) % 1_000_000 + amount % 1_000_000
            >= 1_000_000
    }

    /// Taking an address out of the index keeps the invariants.
    pub proof fn lemma_index_removed_wf(self, from: Address, to: Address)
        requires
            self.wf(),
        ensures
            self.index_removed(from, to).wf(),
    {
        lemma_filter_no_duplicates(self.indexed(from), other_than(to));
    }

    /// Recording a stake keeps the invariants and leaves the accounts as
    /// they are.
    pub proof fn lemma_stake_recorded_wf(
        self,
        from: Address,
        to: Address,
        resource: ResourceCode,
        amount: i64,
        expired_time: i64,
    )
        requires
            self.wf(),
            amount >= 0,
            !self.stake_overflows(from, to, resource, amount),
        ensures
            self.stake_recorded(from, to, resource, amount, expired_time).wf(),
            self.stake_recorded(from, to, resource, amount, expired_time).accounts
                == self.accounts,
    {
    }

    /// Recording a stake that does not carry keeps the weight counters equal
    /// to the sums over the records.
    pub proof fn lemma_stake_recorded_weights(
        self,
        from: Address,
        to: Address,
        resource: ResourceCode,
        amount: i64,
        expired_time: i64,
    )
        requires
            self.wf(),
            self.weights_consistent(),
            amount >= 0,
            !self.stake_overflows(from, to, resource, amount),
            !self.carries(from, to, resource, amount),
        ensures
            self.stake_recorded(from, to, resource, amount, expired_time).weights_consistent(),
    {
        let before = self.delegation_or_empty(from, to);
        let record = before.with_added(resource, amount, expired_time);
        lemma_total_weight_insert(self.delegations, ResourceCode::Bandwidth, record.key(), record);
        lemma_total_weight_insert(self.delegations, ResourceCode::Energy, record.key(), record);
        let have = before.amount(resource) as int;
        assert((have + amount) / 1_000_000 == have / 1_000_000 + amount / 1_000_000);
    }

    /// Releasing the stake that an account froze for itself keeps the
    /// invariants.
    pub proof fn lemma_unfrozen_wf(self, owner: Address, resource: ResourceCode)
        requires
            self.wf(),
            self.accounts.contains_key(owner),
            !self.unfreeze_overflows(owner, resource),
        ensures
            self.unfrozen(owner, resource).wf(),
    {
        let cleared = self.delegation_or_empty(owner, owner).with_cleared(resource);
        self.with_delegation(cleared).lemma_index_removed_wf(owner, owner);
    }

    /// Releasing the stake that an account froze for itself keeps the weight
    /// counters equal to the sums over the records.
    pub proof fn lemma_unfrozen_weights(self, owner: Address, resource: ResourceCode)
        requires
            self.wf(),
            self.weights_consistent(),
            !self.unfreeze_overflows(owner, resource),
        ensures
            self.unfrozen(owner, resource).weights_consistent(),
    {
        let cleared = self.delegation_or_empty(owner, owner).with_cleared(resource);
        let key = cleared.key();
        lemma_total_weight_insert(self.delegations, ResourceCode::Bandwidth, key, cleared);
        lemma_total_weight_insert(self.delegations, ResourceCode::Energy, key, cleared);
    }
}

} // verus!
