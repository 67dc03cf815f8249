//! The persisted record kinds of the engine and the balances they govern.

pub mod settings;
pub mod agreement;
pub mod investor;
pub mod token_account;
pub mod registry;
