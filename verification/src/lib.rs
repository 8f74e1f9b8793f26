//! Freezing balance into bandwidth and energy, delegating the two to other
//! accounts, and unfreezing: the rules, verified, over records held in
//! memory.

pub mod address;
pub mod freeze;
pub mod laws;
pub mod ledger;
pub mod outcome;
pub mod primitives;
pub mod records;
pub mod state;
pub mod table;
pub mod unfreeze;
pub mod votes;
pub mod weight;
