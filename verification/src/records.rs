//! The records that staking reads and writes.

use crate::address::Address;
use crate::table::Key;
use vstd::prelude::*;

verus! {

/// Raw units in one whole coin; weights count whole coins.
pub const UNITS_PER_COIN: i64 = 1_000_000;

/// The two resources that frozen stake generates.
#[derive(Clone, Copy, Debug, PartialEq, Eq, Structural)]
pub enum ResourceCode {
    Bandwidth,
    Energy,
}

impl ResourceCode {
    /// The resource that a wire code stands for: 0 is bandwidth, 1 is energy.
    pub open spec fn spec_from_i32(code: i32) -> Option<ResourceCode> {
        if code == 0 {
            Some(ResourceCode::Bandwidth)
        } else if code == 1 {
            Some(ResourceCode::Energy)
        } else {
            None
        }
    }

    /// Reads a resource from its wire code.
    #[verifier::when_used_as_spec(spec_from_i32)]
    pub fn from_i32(code: i32) -> (r: Option<ResourceCode>)
        ensures
            r == Self::spec_from_i32(code),
    {
        if code == 0 {
            Some(ResourceCode::Bandwidth)
        } else if code == 1 {
            Some(ResourceCode::Energy)
        } else {
            None
        }
    }

    /// The wire code of a resource.
    pub fn code(self) -> (c: i32)
        ensures
            Self::spec_from_i32(c) == Some(self),
    {
        match self {
            ResourceCode::Bandwidth => 0,
            ResourceCode::Energy => 1,
        }
    }
}

/// What kind of account an address holds.
#[derive(Clone, Copy, Debug, PartialEq, Eq, Structural)]
pub enum AccountType {
    Normal,
    AssetIssue,
    Contract,
}

/// The part of an account that staking reads and writes.
#[derive(Clone, Copy, Debug, PartialEq, Eq, Structural)]
pub struct Account {
    pub balance: i64,
    pub frozen_amount_for_bandwidth: i64,
    pub frozen_amount_for_energy: i64,
    pub delegated_frozen_amount_for_bandwidth: i64,
    pub delegated_frozen_amount_for_energy: i64,
    pub delegated_out_amount: i64,
    pub account_type: AccountType,
}

impl Account {
    /// No amount of an account is ever negative.
    pub open spec fn wf(self) -> bool {
        &&& self.balance >= 0
        &&& self.frozen_amount_for_bandwidth >= 0
        &&& self.frozen_amount_for_energy >= 0
        &&& self.delegated_frozen_amount_for_bandwidth >= 0
        &&& self.delegated_frozen_amount_for_energy >= 0
        &&& self.delegated_out_amount >= 0
    }

    /// Stake that the account froze for itself, per resource.
    pub open spec fn spec_frozen_amount(self, resource: ResourceCode) -> i64 {
        match resource {
            ResourceCode::Bandwidth => self.frozen_amount_for_bandwidth,
            ResourceCode::Energy => self.frozen_amount_for_energy,
        }
    }

    /// Stake that others froze for the account, per resource.
    pub open spec fn spec_delegated_frozen_amount(self, resource: ResourceCode) -> i64 {
        match resource {
            ResourceCode::Bandwidth => self.delegated_frozen_amount_for_bandwidth,
            ResourceCode::Energy => self.delegated_frozen_amount_for_energy,
        }
    }

    /// The account after `amount` of its balance is frozen for itself.
    pub open spec fn with_frozen(self, resource: ResourceCode, amount: i64) -> Account {
        match resource {
            ResourceCode::Bandwidth => Account {
                balance: (self.balance - amount) as i64,
                frozen_amount_for_bandwidth: (self.frozen_amount_for_bandwidth + amount) as i64,
                ..self
            },
            ResourceCode::Energy => Account {
                balance: (self.balance - amount) as i64,
                frozen_amount_for_energy: (self.frozen_amount_for_energy + amount) as i64,
                ..self
            },
        }
    }

    /// The account after another account froze `amount` for it.
    pub open spec fn with_delegated_in(self, resource: ResourceCode, amount: i64) -> Account {
        match resource {
            ResourceCode::Bandwidth => Account {
                delegated_frozen_amount_for_bandwidth: (self.delegated_frozen_amount_for_bandwidth
                    + amount) as i64,
                ..self
            },
            ResourceCode::Energy => Account {
                delegated_frozen_amount_for_energy: (self.delegated_frozen_amount_for_energy
                    + amount) as i64,
                ..self
            },
        }
    }

    /// The account after `amount` of its balance is frozen for another account.
    pub open spec fn with_delegated_out(self, amount: i64) -> Account {
        Account {
            balance: (self.balance - amount) as i64,
            delegated_out_amount: (self.delegated_out_amount + amount) as i64,
            ..self
        }
    }

    /// The account after its own stake in `resource` is released and `amount`
    /// returns to its balance.
    pub open spec fn with_unfrozen(self, resource: ResourceCode, amount: i64) -> Account {
        match resource {
            ResourceCode::Bandwidth => Account {
                balance: (self.balance + amount) as i64,
                frozen_amount_for_bandwidth: 0,
                ..self
            },
            ResourceCode::Energy => Account {
                balance: (self.balance + amount) as i64,
                frozen_amount_for_energy: 0,
                ..self
            },
        }
    }

    /// Whether no amount of the account is negative.
    pub fn is_well_formed(self) -> (b: bool)
        ensures
            b == self.wf(),
    {
        self.balance >= 0 && self.frozen_amount_for_bandwidth >= 0
            && self.frozen_amount_for_energy >= 0 && self.delegated_frozen_amount_for_bandwidth
            >= 0 && self.delegated_frozen_amount_for_energy >= 0 && self.delegated_out_amount >= 0
    }

    /// A fresh account that holds `balance` and no stake.
    pub fn new(balance: i64, account_type: AccountType) -> (a: Account)
        ensures
            a == (Account {
                balance,
                frozen_amount_for_bandwidth: 0,
                frozen_amount_for_energy: 0,
                delegated_frozen_amount_for_bandwidth: 0,
                delegated_frozen_amount_for_energy: 0,
                delegated_out_amount: 0,
                account_type,
            }),
    {
        Account {
            balance,
            frozen_amount_for_bandwidth: 0,
            frozen_amount_for_energy: 0,
            delegated_frozen_amount_for_bandwidth: 0,
            delegated_frozen_amount_for_energy: 0,
            delegated_out_amount: 0,
            account_type,
        }
    }

    /// Stake that the account froze for itself, per resource.
    #[verifier::when_used_as_spec(spec_frozen_amount)]
    pub fn frozen_amount(self, resource: ResourceCode) -> (amount: i64)
        ensures
            amount == self.spec_frozen_amount(resource),
    {
        match resource {
            ResourceCode::Bandwidth => self.frozen_amount_for_bandwidth,
            ResourceCode::Energy => self.frozen_amount_for_energy,
        }
    }

    /// Stake that others froze for the account, per resource.
    #[verifier::when_used_as_spec(spec_delegated_frozen_amount)]
    pub fn delegated_frozen_amount(self, resource: ResourceCode) -> (amount: i64)
        ensures
            amount == self.spec_delegated_frozen_amount(resource),
    {
        match resource {
            ResourceCode::Bandwidth => self.delegated_frozen_amount_for_bandwidth,
            ResourceCode::Energy => self.delegated_frozen_amount_for_energy,
        }
    }

    /// Moves `amount` from the balance into the account's own stake.
    pub fn freeze(self, resource: ResourceCode, amount: i64) -> (a: Account)
        requires
            i64::MIN <= self.balance - amount <= i64::MAX,
            i64::MIN <= self.frozen_amount(resource) + amount <= i64::MAX,
        ensures
            a == self.with_frozen(resource, amount),
    {
        let mut a = self;
        a.balance = self.balance - amount;
        match resource {
            ResourceCode::Bandwidth => {
                a.frozen_amount_for_bandwidth = self.frozen_amount_for_bandwidth + amount;
            },
            ResourceCode::Energy => {
                a.frozen_amount_for_energy = self.frozen_amount_for_energy + amount;
            },
        }
        a
    }

    /// Adds `amount` to the stake that others froze for this account.
    pub fn receive_delegation(self, resource: ResourceCode, amount: i64) -> (a: Account)
        requires
            i64::MIN <= self.delegated_frozen_amount(resource) + amount <= i64::MAX,
        ensures
            a == self.with_delegated_in(resource, amount),
    {
        let mut a = self;
        match resource {
            ResourceCode::Bandwidth => {
                a.delegated_frozen_amount_for_bandwidth =
                    self.delegated_frozen_amount_for_bandwidth + amount;
            },
            ResourceCode::Energy => {
                a.delegated_frozen_amount_for_energy = self.delegated_frozen_amount_for_energy
                    + amount;
            },
        }
        a
    }

    /// Moves `amount` from the balance into stake frozen for another account.
    pub fn delegate_out(self, amount: i64) -> (a: Account)
        requires
            i64::MIN <= self.balance - amount <= i64::MAX,
            i64::MIN <= self.delegated_out_amount + amount <= i64::MAX,
        ensures
            a == self.with_delegated_out(amount),
    {
        let mut a = self;
        a.balance = self.balance - amount;
        a.delegated_out_amount = self.delegated_out_amount + amount;
        a
    }

    /// Releases the account's own stake in `resource` and returns `amount`
    /// to its balance.
    pub fn unfreeze(self, resource: ResourceCode, amount: i64) -> (a: Account)
        requires
            i64::MIN <= self.balance + amount <= i64::MAX,
        ensures
            a == self.with_unfrozen(resource, amount),
    {
        let mut a = self;
        a.balance = self.balance + amount;
        match resource {
            ResourceCode::Bandwidth => {
                a.frozen_amount_for_bandwidth = 0;
            },
            ResourceCode::Energy => {
                a.frozen_amount_for_energy = 0;
            },
        }
        a
    }
}

/// The ordered pair that names a delegation record: who froze, and for whom.
#[derive(Clone, Copy, Debug, PartialEq, Eq)]
pub struct DelegationKey {
    pub from: Address,
    pub to: Address,
}

/// What a record is stored under.
#[derive(Clone, Copy, Debug, PartialEq, Eq)]
pub enum RecordKey {
    Account(Address),
    ResourceDelegation(Address, Address),
    ResourceDelegationIndex(Address),
    TotalWeight(ResourceCode),
    Votes(Address),
    Witness(Address),
}

impl Key for Address {
    fn same_key(&self, other: &Address) -> (b: bool) {
        self.same(other)
    }
}

impl Key for DelegationKey {
    fn same_key(&self, other: &DelegationKey) -> (b: bool) {
        self.from.same(&other.from) && self.to.same(&other.to)
    }
}

/// Stake that `from_address` froze for `to_address`; for itself where the
/// two are the same.
#[derive(Clone, Copy, Debug, PartialEq, Eq)]
pub struct ResourceDelegation {
    pub from_address: Address,
    pub to_address: Address,
    pub amount_for_bandwidth: i64,
    pub expiration_timestamp_for_bandwidth: i64,
    pub amount_for_energy: i64,
    pub expiration_timestamp_for_energy: i64,
}

impl ResourceDelegation {
    /// No amount of a record is ever negative.
    pub open spec fn wf(self) -> bool {
        &&& self.amount_for_bandwidth >= 0
        &&& self.amount_for_energy >= 0
    }

    /// The key under which the record is stored.
    pub open spec fn spec_key(self) -> DelegationKey {
        DelegationKey { from: self.from_address, to: self.to_address }
    }

    /// The record of a pair that has nothing frozen.
    pub open spec fn spec_empty(from: Address, to: Address) -> ResourceDelegation {
        ResourceDelegation {
            from_address: from,
            to_address: to,
            amount_for_bandwidth: 0,
            expiration_timestamp_for_bandwidth: 0,
            amount_for_energy: 0,
            expiration_timestamp_for_energy: 0,
        }
    }

    /// What is frozen under the record, per resource.
    pub open spec fn spec_amount(self, resource: ResourceCode) -> i64 {
        match resource {
            ResourceCode::Bandwidth => self.amount_for_bandwidth,
            ResourceCode::Energy => self.amount_for_energy,
        }
    }

    /// When what is frozen under the record can be released, per resource.
    pub open spec fn spec_expiration(self, resource: ResourceCode) -> i64 {
        match resource {
            ResourceCode::Bandwidth => self.expiration_timestamp_for_bandwidth,
            ResourceCode::Energy => self.expiration_timestamp_for_energy,
        }
    }

    /// Whole coins that the record adds to the network weight of `resource`.
    pub open spec fn weight(self, resource: ResourceCode) -> int {
        self.spec_amount(resource) / 1_000_000
    }

    /// Nothing is frozen under the record, in either resource.
    pub open spec fn spec_is_empty(self) -> bool {
        self.amount_for_bandwidth == 0 && self.amount_for_energy == 0
    }

    /// The record after `amount` more is frozen: the amount adds up, the
    /// expiration is replaced.
    pub open spec fn with_added(
        self,
        resource: ResourceCode,
        amount: i64,
        expired_time: i64,
    ) -> ResourceDelegation {
        match resource {
            ResourceCode::Bandwidth => ResourceDelegation {
                amount_for_bandwidth: (self.amount_for_bandwidth + amount) as i64,
                expiration_timestamp_for_bandwidth: expired_time,
                ..self
            },
            ResourceCode::Energy => ResourceDelegation {
                amount_for_energy: (self.amount_for_energy + amount) as i64,
                expiration_timestamp_for_energy: expired_time,
                ..self
            },
        }
    }

    /// The record with amount and expiration of `resource` set to zero.
    pub open spec fn with_cleared(self, resource: ResourceCode) -> ResourceDelegation {
        match resource {
            ResourceCode::Bandwidth => ResourceDelegation {
                amount_for_bandwidth: 0,
                expiration_timestamp_for_bandwidth: 0,
                ..self
            },
            ResourceCode::Energy => ResourceDelegation {
                amount_for_energy: 0,
                expiration_timestamp_for_energy: 0,
                ..self
            },
        }
    }

    /// Whether no amount of the record is negative.
    pub fn is_well_formed(self) -> (b: bool)
        ensures
            b == self.wf(),
    {
        self.amount_for_bandwidth >= 0 && self.amount_for_energy >= 0
    }

    /// The key under which the record is stored.
    #[verifier::when_used_as_spec(spec_key)]
    pub fn key(self) -> (k: DelegationKey)
        ensures
            k == self.spec_key(),
    {
        DelegationKey { from: self.from_address, to: self.to_address }
    }

    /// The record of a pair that has nothing frozen.
    #[verifier::when_used_as_spec(spec_empty)]
    pub fn empty(from: Address, to: Address) -> (d: ResourceDelegation)
        ensures
            d == Self::spec_empty(from, to),
    {
        ResourceDelegation {
            from_address: from,
            to_address: to,
            amount_for_bandwidth: 0,
            expiration_timestamp_for_bandwidth: 0,
            amount_for_energy: 0,
            expiration_timestamp_for_energy: 0,
        }
    }

    /// What is frozen under the record, per resource.
    #[verifier::when_used_as_spec(spec_amount)]
    pub fn amount(self, resource: ResourceCode) -> (amount: i64)
        ensures
            amount == self.spec_amount(resource),
    {
        match resource {
            ResourceCode::Bandwidth => self.amount_for_bandwidth,
            ResourceCode::Energy => self.amount_for_energy,
        }
    }

    /// When what is frozen under the record can be released, per resource.
    #[verifier::when_used_as_spec(spec_expiration)]
    pub fn expiration(self, resource: ResourceCode) -> (at: i64)
        ensures
            at == self.spec_expiration(resource),
    {
        match resource {
            ResourceCode::Bandwidth => self.expiration_timestamp_for_bandwidth,
            ResourceCode::Energy => self.expiration_timestamp_for_energy,
        }
    }

    /// Whether nothing is frozen under the record, in either resource.
    #[verifier::when_used_as_spec(spec_is_empty)]
    pub fn is_empty(self) -> (b: bool)
        ensures
            b == self.spec_is_empty(),
    {
        self.amount_for_bandwidth == 0 && self.amount_for_energy == 0
    }

    /// Adds `amount` to what is frozen and replaces the expiration.
    pub fn add(self, resource: ResourceCode, amount: i64, expired_time: i64) -> (d:
        ResourceDelegation)
        requires
            i64::MIN <= self.amount(resource) + amount <= i64::MAX,
        ensures
            d == self.with_added(resource, amount, expired_time),
    {
        let mut d = self;
        match resource {
            ResourceCode::Bandwidth => {
                d.amount_for_bandwidth = self.amount_for_bandwidth + amount;
                d.expiration_timestamp_for_bandwidth = expired_time;
            },
            ResourceCode::Energy => {
                d.amount_for_energy = self.amount_for_energy + amount;
                d.expiration_timestamp_for_energy = expired_time;
            },
        }
        d
    }

    /// Sets amount and expiration of `resource` to zero.
    pub fn clear(self, resource: ResourceCode) -> (d: ResourceDelegation)
        ensures
            d == self.with_cleared(resource),
    {
        let mut d = self;
        match resource {
            ResourceCode::Bandwidth => {
                d.amount_for_bandwidth = 0;
                d.expiration_timestamp_for_bandwidth = 0;
            },
            ResourceCode::Energy => {
                d.amount_for_energy = 0;
                d.expiration_timestamp_for_energy = 0;
            },
        }
        d
    }
}

/// Votes that an account cast for one witness.
#[derive(Clone, Copy, Debug, PartialEq, Eq)]
pub struct Vote {
    pub vote_address: Address,
    pub vote_count: i64,
}

/// The tally of a witness.
#[derive(Clone, Copy, Debug, PartialEq, Eq, Structural)]
pub struct Witness {
    pub vote_count: i64,
}

/// Chain features that staking consults; a feature is on where its value is 1.
#[derive(Clone, Copy, Debug, PartialEq, Eq, Structural)]
pub struct ChainParameters {
    pub allow_delegate_resource: i64,
    pub allow_tvm_constantinople_upgrade: i64,
}

impl ChainParameters {
    /// Stake may be frozen for another account.
    pub open spec fn spec_delegation_enabled(self) -> bool {
        self.allow_delegate_resource == 1
    }

    /// The upgrade that bars delegation to contracts is active.
    pub open spec fn spec_constantinople_enabled(self) -> bool {
        self.allow_tvm_constantinople_upgrade == 1
    }

    /// Whether stake may be frozen for another account.
    #[verifier::when_used_as_spec(spec_delegation_enabled)]
    pub fn delegation_enabled(self) -> (b: bool)
        ensures
            b == self.spec_delegation_enabled(),
    {
        self.allow_delegate_resource == 1
    }

    /// Whether the upgrade that bars delegation to contracts is active.
    #[verifier::when_used_as_spec(spec_constantinople_enabled)]
    pub fn constantinople_enabled(self) -> (b: bool)
        ensures
            b == self.spec_constantinople_enabled(),
    {
        self.allow_tvm_constantinople_upgrade == 1
    }
}

} // verus!
