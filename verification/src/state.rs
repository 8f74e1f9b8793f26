//! The staking state in memory, behind typed reads and writes.

use crate::address::Address;
use crate::ledger::{votes_wf, Ledger};
use crate::records::{
    Account, ChainParameters, DelegationKey, RecordKey, ResourceCode, ResourceDelegation, Vote,
    Witness, UNITS_PER_COIN,
};
use crate::table::Table;
use crate::weight::{lemma_total_weight_remove, total_weight};
use vstd::prelude::*;

verus! {

/// An owned copy of a vector of plain values.
pub fn copy_vec<T: Copy>(items: &Vec<T>) -> (out: Vec<T>)
    ensures
        out@ == items@,
{
    let mut out: Vec<T> = Vec::new();
    let mut i: usize = 0;
    while i < items.len()
        invariant
            i <= items@.len(),
            out@ == items@.take(i as int),
        decreases items@.len() - i,
    {
        out.push(items[i]);
        i += 1;
    }
    out
}

/// Whether `addresses` can stand as an index entry: it is not empty and
/// lists no address twice.
pub fn is_index_entry(addresses: &Vec<Address>) -> (b: bool)
    ensures
        b == (addresses@.len() > 0 && addresses@.no_duplicates()),
{
    if addresses.len() == 0 {
        return false;
    }
    let mut i: usize = 0;
    while i < addresses.len()
        invariant
            i <= addresses@.len(),
            forall|a: int, b: int| 0 <= a < b < i ==> addresses@[a] != addresses@[b],
        decreases addresses@.len() - i,
    {
        let mut j: usize = 0;
        while j < i
            invariant
                j <= i < addresses@.len(),
                forall|a: int| 0 <= a < j ==> addresses@[a] != addresses@[i as int],
            decreases i - j,
        {
            if addresses[j].same(&addresses[i]) {
                return false;
            }
            j += 1;
        }
        i += 1;
    }
    true
}

/// The staking records of the chain, held in memory: accounts, delegation
/// records and their index, votes, witness tallies, the two weight counters,
/// the chain parameters and the time of the latest block.
///
/// Its view is the `Ledger` that the records amount to. Beside the records
/// it keeps, in order, the key of every write made to it, for whoever
/// carries the writes over to a lasting store.
#[derive(Clone, Debug, PartialEq, Eq)]
pub struct State {
    accounts: Table<Address, Account>,
    delegations: Table<DelegationKey, ResourceDelegation>,
    delegation_index: Table<Address, Vec<Address>>,
    votes: Table<Address, Vec<Vote>>,
    witnesses: Table<Address, Witness>,
    total_bandwidth_weight: i64,
    total_energy_weight: i64,
    parameters: ChainParameters,
    latest_block_timestamp: i64,
    written: Vec<RecordKey>,
}

impl View for State {
    type V = Ledger;

    /// The ledger that the records amount to.
    closed spec fn view(&self) -> Ledger {
        Ledger {
            accounts: self.accounts@,
            delegations: self.delegations@,
            delegation_index: self.delegation_index@.map_values(|v: Vec<Address>| v@),
            votes: self.votes@.map_values(|v: Vec<Vote>| v@),
            witnesses: self.witnesses@,
            total_bandwidth_weight: self.total_bandwidth_weight,
            total_energy_weight: self.total_energy_weight,
            parameters: self.parameters,
            latest_block_timestamp: self.latest_block_timestamp,
        }
    }
}

impl State {
    /// The tables are in order.
    pub closed spec fn inv(&self) -> bool {
        &&& self.accounts.wf()
        &&& self.delegations.wf()
        &&& self.delegation_index.wf()
        &&& self.votes.wf()
        &&& self.witnesses.wf()
    }

    /// The keys of the writes made since the list was last taken, oldest
    /// first.
    pub closed spec fn written(&self) -> Seq<RecordKey> {
        self.written@
    }

    /// The tables are in order and the ledger keeps its invariants.
    pub open spec fn wf(&self) -> bool {
        self.inv() && self@.wf()
    }

    /// A state with no records and both weights at zero.
    pub fn new(parameters: ChainParameters, latest_block_timestamp: i64) -> (s: State)
        ensures
            s.wf(),
            s@ == Ledger::empty(parameters, latest_block_timestamp),
            s.written() == Seq::<RecordKey>::empty(),
    {
        let s = State {
            accounts: Table::new(),
            delegations: Table::new(),
            delegation_index: Table::new(),
            votes: Table::new(),
            witnesses: Table::new(),
            total_bandwidth_weight: 0,
            total_energy_weight: 0,
            parameters,
            latest_block_timestamp,
            written: Vec::new(),
        };
        s
    }

    /// The time of the latest block, in milliseconds.
    pub fn latest_block_timestamp(&self) -> (now: i64)
        ensures
            now == self@.latest_block_timestamp,
    {
        self.latest_block_timestamp
    }

    /// Moves the clock to the time of a new block.
    pub fn set_latest_block_timestamp(&mut self, now: i64)
        requires
            old(self).wf(),
        ensures
            final(self).wf(),
            final(self)@ == old(self)@.with_latest_block_timestamp(now),
            final(self).written() == old(self).written(),
    {
        self.latest_block_timestamp = now;
        proof {
            assert(self@ =~= old(self)@.with_latest_block_timestamp(now));
        }
    }

    /// The chain parameters in force.
    pub fn parameters(&self) -> (p: ChainParameters)
        ensures
            p == self@.parameters,
    {
        self.parameters
    }

    /// Puts other chain parameters in force.
    pub fn set_parameters(&mut self, parameters: ChainParameters)
        requires
            old(self).wf(),
        ensures
            final(self).wf(),
            final(self)@ == old(self)@.with_parameters(parameters),
            final(self).written() == old(self).written(),
    {
        self.parameters = parameters;
        proof {
            assert(self@ =~= old(self)@.with_parameters(parameters));
        }
    }

    /// The account at `address`, if there is one.
    pub fn account(&self, address: &Address) -> (r: Option<Account>)
        requires
            self.wf(),
        ensures
            match r {
                Some(a) => self@.accounts.contains_key(*address) && a == self@.accounts[*address],
                None => !self@.accounts.contains_key(*address),
            },
    {
        match self.accounts.get(address) {
            Some(a) => Some(*a),
            None => None,
        }
    }

    /// The account at `address`, which must exist.
    pub fn must_get_account(&self, address: &Address) -> (a: Account)
        requires
            self.wf(),
            self@.accounts.contains_key(*address),
        ensures
            a == self@.accounts[*address],
    {
        *self.accounts.get(address).unwrap()
    }

    /// Stores `account` at `address`.
    pub fn put_account(&mut self, address: Address, account: Account)
        requires
            old(self).wf(),
            account.wf(),
        ensures
            final(self).wf(),
            final(self)@ == old(self)@.with_account(address, account),
            final(self).written() == old(self).written().push(RecordKey::Account(address)),
    {
        self.written.push(RecordKey::Account(address));
        self.accounts.put(address, account);
        proof {
            assert(self@ =~= old(self)@.with_account(address, account));
        }
    }

    /// The delegation record of the pair, if there is one.
    pub fn delegation(&self, from: &Address, to: &Address) -> (r: Option<ResourceDelegation>)
        requires
            self.wf(),
        ensures
            match r {
                Some(d) => {
                    let key = DelegationKey { from: *from, to: *to };
                    self@.delegations.contains_key(key) && d == self@.delegations[key]
                },
                None => !self@.delegations.contains_key(DelegationKey { from: *from, to: *to }),
            },
    {
        let key = DelegationKey { from: *from, to: *to };
        match self.delegations.get(&key) {
            Some(d) => Some(*d),
            None => None,
        }
    }

    /// Stores a delegation record under its own pair of addresses.
    pub fn put_delegation(&mut self, record: ResourceDelegation)
        requires
            old(self).wf(),
            record.wf(),
        ensures
            final(self).wf(),
            final(self)@ == old(self)@.with_delegation(record),
            final(self).written() == old(self).written().push(
                RecordKey::ResourceDelegation(record.from_address, record.to_address),
            ),
    {
        self.written.push(RecordKey::ResourceDelegation(record.from_address, record.to_address));
        self.delegations.put(record.key(), record);
        proof {
            assert(self@ =~= old(self)@.with_delegation(record));
        }
    }

    /// The addresses indexed under `from`, if an entry is stored.
    pub fn delegation_index(&self, from: &Address) -> (r: Option<Vec<Address>>)
        requires
            self.wf(),
        ensures
            match r {
                Some(to) => self@.delegation_index.contains_key(*from) && to@
                    == self@.delegation_index[*from],
                None => !self@.delegation_index.contains_key(*from),
            },
    {
        match self.delegation_index.get(from) {
            Some(to) => Some(copy_vec(to)),
            None => None,
        }
    }

    /// Stores the index entry of `from`.
    pub fn put_delegation_index(&mut self, from: Address, to: Vec<Address>)
        requires
            old(self).wf(),
            to@.len() > 0,
            to@.no_duplicates(),
        ensures
            final(self).wf(),
            final(self)@ == old(self)@.with_delegation_index(from, to@),
            final(self).written() == old(self).written().push(
                RecordKey::ResourceDelegationIndex(from),
            ),
    {
        self.written.push(RecordKey::ResourceDelegationIndex(from));
        self.delegation_index.put(from, to);
        proof {
            assert(self@ =~= old(self)@.with_delegation_index(from, to@));
        }
    }

    /// Deletes the index entry of `from`.
    pub fn delete_delegation_index(&mut self, from: &Address)
        requires
            old(self).wf(),
        ensures
            final(self).wf(),
            final(self)@ == old(self)@.without_delegation_index(*from),
            final(self).written() == old(self).written().push(
                RecordKey::ResourceDelegationIndex(*from),
            ),
    {
        self.written.push(RecordKey::ResourceDelegationIndex(*from));
        self.delegation_index.remove(from);
        proof {
            assert(self@ =~= old(self)@.without_delegation_index(*from));
        }
    }

    /// The votes that `address` cast, if a vote record is stored.
    pub fn votes(&self, address: &Address) -> (r: Option<Vec<Vote>>)
        requires
            self.wf(),
        ensures
            match r {
                Some(votes) => self@.votes.contains_key(*address) && votes@
                    == self@.votes[*address],
                None => !self@.votes.contains_key(*address),
            },
    {
        match self.votes.get(address) {
            Some(votes) => Some(copy_vec(votes)),
            None => None,
        }
    }

    /// Whether `votes` can be stored: no count is negative and every vote
    /// names a witness that the state holds.
    pub fn accepts_votes(&self, votes: &Vec<Vote>) -> (b: bool)
        requires
            self.wf(),
        ensures
            b == votes_wf(votes@, self@.witnesses),
    {
        let mut i: usize = 0;
        while i < votes.len()
            invariant
                i <= votes@.len(),
                self.wf(),
                forall|j: int|
                    0 <= j < i ==> (#[trigger] votes@[j]).vote_count >= 0
                        && self@.witnesses.contains_key(votes@[j].vote_address),
            decreases votes@.len() - i,
        {
            if votes[i].vote_count < 0 || self.witness(&votes[i].vote_address).is_none() {
                return false;
            }
            i += 1;
        }
        true
    }

    /// Stores the vote record of `address`.
    pub fn put_votes(&mut self, address: Address, votes: Vec<Vote>)
        requires
            old(self).wf(),
            votes_wf(votes@, old(self)@.witnesses),
        ensures
            final(self).wf(),
            final(self)@ == old(self)@.with_votes(address, votes@),
            final(self).written() == old(self).written().push(RecordKey::Votes(address)),
    {
        self.written.push(RecordKey::Votes(address));
        self.votes.put(address, votes);
        proof {
            assert(self@ =~= old(self)@.with_votes(address, votes@));
        }
    }

    /// Deletes the vote record of `address`.
    pub fn delete_votes(&mut self, address: &Address)
        requires
            old(self).wf(),
        ensures
            final(self).wf(),
            final(self)@ == old(self)@.without_votes(*address),
            final(self).written() == old(self).written().push(RecordKey::Votes(*address)),
    {
        self.written.push(RecordKey::Votes(*address));
        self.votes.remove(address);
        proof {
            assert(self@ =~= old(self)@.without_votes(*address));
        }
    }

    /// The tally of the witness at `address`, if there is one.
    pub fn witness(&self, address: &Address) -> (r: Option<Witness>)
        requires
            self.wf(),
        ensures
            match r {
                Some(w) => self@.witnesses.contains_key(*address) && w
                    == self@.witnesses[*address],
                None => !self@.witnesses.contains_key(*address),
            },
    {
        match self.witnesses.get(address) {
            Some(w) => Some(*w),
            None => None,
        }
    }

    /// The tally of the witness at `address`, which must exist.
    pub fn must_get_witness(&self, address: &Address) -> (w: Witness)
        requires
            self.wf(),
            self@.witnesses.contains_key(*address),
        ensures
            w == self@.witnesses[*address],
    {
        *self.witnesses.get(address).unwrap()
    }

    /// Stores the tally of the witness at `address`.
    pub fn put_witness(&mut self, address: Address, witness: Witness)
        requires
            old(self).wf(),
        ensures
            final(self).wf(),
            final(self)@ == old(self)@.with_witness(address, witness),
            final(self).written() == old(self).written().push(RecordKey::Witness(address)),
    {
        self.written.push(RecordKey::Witness(address));
        self.witnesses.put(address, witness);
        proof {
            assert(self@ =~= old(self)@.with_witness(address, witness));
        }
    }

    /// The network weight counter of `resource`.
    pub fn total_weight(&self, resource: ResourceCode) -> (weight: i64)
        ensures
            weight == self@.total_weight(resource),
    {
        match resource {
            ResourceCode::Bandwidth => self.total_bandwidth_weight,
            ResourceCode::Energy => self.total_energy_weight,
        }
    }

    /// Sets the network weight counter of `resource`.
    pub fn set_total_weight(&mut self, resource: ResourceCode, weight: i64)
        requires
            old(self).wf(),
        ensures
            final(self).wf(),
            final(self)@ == old(self)@.with_total_weight(resource, weight),
            final(self).written() == old(self).written().push(RecordKey::TotalWeight(resource)),
    {
        self.written.push(RecordKey::TotalWeight(resource));
        match resource {
            ResourceCode::Bandwidth => {
                self.total_bandwidth_weight = weight;
            },
            ResourceCode::Energy => {
                self.total_energy_weight = weight;
            },
        }
        proof {
            assert(self@ =~= old(self)@.with_total_weight(resource, weight));
        }
    }

    /// Hands out the keys of the writes made so far, oldest first, and
    /// starts the list anew.
    pub fn take_written(&mut self) -> (keys: Vec<RecordKey>)
        requires
            old(self).wf(),
        ensures
            final(self).wf(),
            final(self)@ == old(self)@,
            final(self).written() == Seq::<RecordKey>::empty(),
            keys@ == old(self).written(),
    {
        let mut keys: Vec<RecordKey> = Vec::new();
        std::mem::swap(&mut self.written, &mut keys);
        keys
    }

    /// Adds up, over all delegation records, the whole coins frozen in
    /// `resource`: what the weight counter of `resource` should show.
    pub fn audit_weight(&self, resource: ResourceCode) -> (sum: i128)
        requires
            self.wf(),
        ensures
            sum == total_weight(self@.delegations, resource),
    {
        let n: usize = self.delegations.len();
        let ghost records = self.delegations@;
        let ghost keys = self.delegations.key_seq();
        proof {
            self.delegations.lemma_key_seq();
            assert(records.remove_keys(keys.take(0).to_set()) =~= records);
        }
        let mut sum: i128 = 0;
        let mut i: usize = 0;
        while i < n
            invariant
                self.wf(),
                i <= n,
                n == keys.len(),
                keys == self.delegations.key_seq(),
                records == self.delegations@,
                records == self@.delegations,
                keys.no_duplicates(),
                forall|k: DelegationKey| keys.contains(k) <==> #[trigger] records.contains_key(k),
                0 <= sum <= i * 9_223_372_036_854,
                records.dom().finite(),
                sum + total_weight(records.remove_keys(keys.take(i as int).to_set()), resource)
                    == total_weight(records, resource),
            decreases n - i,
        {
            let record = self.delegations.value_at(i);
            proof {
                let k = keys[i as int];
                let done = keys.take(i as int).to_set();
                let rest = records.remove_keys(done);
                assert(rest.dom().subset_of(records.dom()));
                lemma_total_weight_remove(rest, resource, k);
                let next = keys.take(i + 1);
                assert forall|q: DelegationKey| next.contains(q) <==> done.contains(q) || q
                    == k by {
                    if keys.take(i as int).contains(q) {
                        let j = choose|j: int| 0 <= j < i && keys.take(i as int)[j] == q;
                        assert(next[j] == q);
                    }
                    if q == k {
                        assert(next[i as int] == q);
                    }
                    if next.contains(q) {
                        let j = choose|j: int| 0 <= j < i + 1 && next[j] == q;
                        if j < i {
                            assert(keys.take(i as int)[j] == q);
                        }
                    }
                }
                assert(rest.remove(k) =~= records.remove_keys(next.to_set()));
            }
            sum = sum + (record.amount(resource) / UNITS_PER_COIN) as i128;
            i += 1;
        }
        proof {
            assert(keys.take(n as int) =~= keys);
            assert(records.remove_keys(keys.to_set()) =~= Map::<
                DelegationKey,
                ResourceDelegation,
            >::empty());
        }
        sum
    }

    /// Whether each weight counter equals the sum over all delegation
    /// records.
    pub fn weights_consistent(&self) -> (b: bool)
        requires
            self.wf(),
        ensures
            b == self@.weights_consistent(),
    {
        let bandwidth: i128 = self.audit_weight(ResourceCode::Bandwidth);
        let energy: i128 = self.audit_weight(ResourceCode::Energy);
        self.total_bandwidth_weight as i128 == bandwidth && self.total_energy_weight as i128
            == energy
    }
}

} // verus!
