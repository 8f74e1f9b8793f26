//! How a request can end: rejected, failed, or carried out.

use vstd::prelude::*;

verus! {

/// Why a requested amount cannot be frozen.
#[derive(Clone, Copy, Debug, PartialEq, Eq, Structural)]
pub enum Shortfall {
    /// The amount is less than one whole coin.
    BelowMinimum,
    /// The amount is more than the owner's balance.
    AboveBalance,
}

/// Why an operation was rejected before anything was changed.
#[derive(Clone, Copy, Debug, PartialEq, Eq, Structural)]
pub enum ValidationError {
    /// An address is not twenty-one bytes long.
    InvalidAddress,
    /// The owner has no account.
    AccountNotFound,
    /// The amount is under the minimum or over the owner's balance.
    InsufficientBalance(Shortfall),
    /// The duration is outside the allowed range of days.
    InvalidDuration,
    /// The resource code is neither bandwidth nor energy.
    InvalidResourceType,
    /// Owner and receiver are the same address.
    SameOwnerAndReceiver,
    /// The receiver has no account.
    ReceiverNotFound,
    /// The receiver is a contract, to which nothing may be delegated.
    DelegateToContract,
    /// The stake has not reached its expiration.
    NotYetExpired,
    /// Taking back stake that was frozen for another account is not
    /// supported.
    UndelegateUnsupported,
}

/// What an operation reports back once it is carried out.
#[derive(Clone, Copy, Debug, PartialEq, Eq, Structural)]
pub struct OperationReceipt {
    /// The amount that went back to the owner's balance.
    pub unfrozen_amount: i64,
}

/// Why an operation that passed validation could not be carried out.
#[derive(Clone, Copy, Debug, PartialEq, Eq, Structural)]
pub enum ExecutionError {
    /// A sum would not fit in an `i64`.
    ArithmeticOverflow,
}

} // verus!
