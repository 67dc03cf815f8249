//! The externally invocable operations. Each operation names the records and
//! balances it works on, validates them, and mutates them in place; the
//! caller persists what came back and performs no logic of its own.

pub mod initialize;
pub mod initialize_agreement;
pub mod add_investors;
pub mod process_token_deposit;
pub mod deposit_stablecoins;
pub mod cancel_agreement;
pub mod withdraw_funds;
pub mod withdraw_tokens;
pub mod withdraw_tokens_batch;
pub mod withdraw_cancelled_funds;
pub mod withdraw_cancelled_funds_batch;
