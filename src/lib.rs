//! A fungible-token ledger: balances, delegated allowances, and the
//! notifications emitted by each successful state transition.
pub mod laws;
pub mod ledger;
pub mod total;
