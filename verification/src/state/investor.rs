//! A registered participant's allocation and deposit record within one
//! agreement.

use vstd::prelude::*;
use crate::state::settings::Address;
use crate::state::token_account::TokenAccount;

verus! {

/// One record per (agreement, wallet) pair, created during the registration
/// phase only.
#[derive(Clone, Copy, Debug, PartialEq, Eq, Structural)]
pub struct Investor {
    /// Whether the investor has claimed their tokens.
    pub has_withdrawn_tokens: bool,
    /// Whether the investor's stablecoin deposit has been accepted.
    pub investor_deposited: bool,
    /// Project tokens promised to this investor.
    pub token_allocation: u64,
    /// Exact stablecoin amount this investor must deposit.
    pub required_amount: u64,
    /// The investor's wallet; also part of this record's key.
    pub wallet: Address,
    /// Key of the agreement this record belongs to.
    pub agreement: u64,
}

impl Investor {
    /// Both targets are positive at creation.
    pub open spec fn valid(self) -> bool {
        &&& self.required_amount > 0
        &&& self.token_allocation > 0
    }
}

/// One entry of a batch operation: an investor record together with the
/// token account that is to receive that investor's payout.
#[derive(Clone, Copy, Debug, PartialEq, Eq, Structural)]
pub struct BatchEntry {
    /// The investor record named by this entry.
    pub investor: Investor,
    /// Where this entry's payout is sent.
    pub destination: TokenAccount,
}

/// What became of one entry of a batch operation.
#[derive(Clone, Copy, Debug, PartialEq, Eq, Structural)]
pub enum EntryOutcome {
    /// The entry qualified and its payout was made.
    Completed,
    /// The entry did not qualify and was passed over without failing the
    /// batch.
    Skipped,
}

/// The inspectable result of a partially-successful batch operation: one
/// outcome per entry, in order, and the count of completed entries.
#[derive(Clone, Debug, PartialEq, Eq)]
pub struct BatchReport {
    /// One outcome per entry, in entry order.
    pub outcomes: Vec<EntryOutcome>,
    /// How many entries completed.
    pub success_count: u64,
}

} // verus!
