//! The aggregate record of one sale and the phase it is in.

use vstd::prelude::*;
use crate::state::settings::Address;

verus! {

/// One token-for-stablecoin sale: its terms, accumulators and phase flags.
///
/// The record is keyed by `agreement_id` in the external store; the two pool
/// fields hold the store's deterministic addresses of the token accounts
/// that escrow the payment and the project tokens.
#[derive(Clone, Copy, Debug, PartialEq, Eq, Structural)]
pub struct Agreement {
    /// Caller-chosen numeric id; also the key of this record.
    pub agreement_id: u64,
    /// Mint of the stablecoin investors pay with.
    pub payment_token_mint: Address,
    /// Mint of the project token being sold.
    pub project_token_mint: Address,
    /// Wallet of the company behind the sale; receives surplus tokens and
    /// untracked direct deposits.
    pub company_wallet: Address,
    /// The seller of the project tokens.
    pub token_seller: Address,
    /// Stablecoin total the sale is expected to collect.
    pub expected_payment: u64,
    /// Project-token total the seller is expected to deposit.
    pub expected_tokens: u64,
    /// Stablecoins collected from registered investors so far.
    pub total_invested: u64,
    /// Sum of the registered investors' required payment amounts.
    pub total_required: u64,
    /// Sum of the registered investors' token allocations.
    pub total_token_allocation: u64,
    /// Lock-up interval in seconds, counted from `hold_duration_start`.
    pub hold_duration: i64,
    /// When the full expected payment was collected; zero while unset.
    pub hold_duration_start: i64,
    /// Whether the seller's token deposit has been processed.
    pub seller_deposited: bool,
    /// When the seller's token deposit was processed; zero while unset.
    pub first_deposit_time: i64,
    /// Whether the funds commission has been collected.
    pub funds_commision_collected: bool,
    /// Running total of token commission collected so far.
    pub token_commision_collected: u64,
    /// Whether the agreement has been cancelled.
    pub agreement_cancelled: bool,
    /// How many investor records have been registered.
    pub investors_count: u64,
    /// Copy of the administrator's address at creation time.
    pub owner: Address,
    /// Address of the payment pool account in the external store.
    pub payment_pool: Address,
    /// Address of the project-token pool account in the external store.
    pub project_pool: Address,
}

/// The phase of a sale, derived from the flag combination.
#[derive(Clone, Copy, Debug, PartialEq, Eq, Structural)]
pub enum AgreementState {
    /// No seller deposit yet; investors may still be registered.
    Registering,
    /// The seller has deposited; stablecoin deposits are accepted.
    Funded,
    /// The full payment is collected and the lock-up period runs.
    Locked,
    /// The lock-up period has elapsed; investors may claim tokens.
    Withdrawable,
    /// The agreement was cancelled; deposits can only be reclaimed.
    Cancelled,
}

impl Agreement {
    /// The invariants every operation preserves: allocation and deposit
    /// totals never exceed their targets, the sale's terms are positive, and
    /// the recorded times are timestamps.
    pub open spec fn valid(self) -> bool {
        &&& self.expected_payment > 0
        &&& self.expected_tokens > 0
        &&& self.hold_duration > 0
        &&& self.total_required <= self.expected_payment
        &&& self.total_token_allocation <= self.expected_tokens
        &&& self.total_invested <= self.expected_payment
        &&& self.hold_duration_start >= 0
        &&& self.first_deposit_time >= 0
    }

    /// The phase the sale is in at time `now`.
    pub open spec fn state_at(self, now: int) -> AgreementState {
        if self.agreement_cancelled {
            AgreementState::Cancelled
        } else if !self.seller_deposited {
            AgreementState::Registering
        } else if self.hold_duration_start == 0 {
            AgreementState::Funded
        } else if now >= self.hold_duration_start + self.hold_duration {
            AgreementState::Withdrawable
        } else {
            AgreementState::Locked
        }
    }

    /// Derives the phase from the flags, once per operation, so that the
    /// transition table can be audited directly.
    pub fn state(&self, now: i64) -> (s: AgreementState)
        ensures
            s == self.state_at(now as int),
    {
        if self.agreement_cancelled {
            AgreementState::Cancelled
        } else if !self.seller_deposited {
            AgreementState::Registering
        } else if self.hold_duration_start == 0 {
            AgreementState::Funded
        } else if (now as i128) >= (self.hold_duration_start as i128) + (self.hold_duration as i128) {
            AgreementState::Withdrawable
        } else {
            AgreementState::Locked
        }
    }
}

} // verus!
