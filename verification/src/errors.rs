//! Error taxonomy of the settlement engine.
//!
//! Every operation rejects synchronously with one of these codes and, apart
//! from the explicitly partial batch operations, leaves no partial mutation
//! behind.

use vstd::prelude::*;

verus! {

/// The reasons an operation can be refused.
#[derive(Clone, Copy, Debug, PartialEq, Eq, Structural)]
pub enum ErrorCode {
    /// A zero or otherwise malformed amount was supplied.
    InvalidAmount,
    /// The hold duration of a new agreement must be positive.
    InvalidHoldDuration,
    /// A batch entry names an investor record of another agreement.
    InvalidInvestorAccount,
    /// A wallet appears twice in one registration batch.
    DuplicateInvestor,
    /// An investor record for this wallet already exists.
    InvestorAlreadyExists,
    /// The investor has already deposited.
    AlreadyDeposited,
    /// The deposit would push the collected total past the expected payment.
    DepositExceedsExpectedPayment,
    /// Investors can no longer be registered once the seller has deposited.
    SellerDeposited,
    /// The batch of allocations would exceed the expected payment target.
    TotalAllocationsExceedTarget,
    /// The batch of allocations would exceed the expected token target.
    TotalTokenAllocationsExceedTarget,
    /// Stablecoin deposits are accepted only after the seller's deposit.
    SellerMustDepositFirst,
    /// The seller may not deposit stablecoins into their own sale.
    SellerCannotDepositStablecoins,
    /// A destination account does not match the required owner, mint or pool.
    InvalidDestination,
    /// The agreement has already been cancelled.
    AgreementAlreadyCancelled,
    /// The seller's tokens have already been processed.
    TokensAlreadyDeposited,
    /// The full expected payment has not been collected, or the sale
    /// completed and can no longer be cancelled.
    FullAmountNotCollected,
    /// The funds commission has already been collected.
    FundCommissionAlreadyCollected,
    /// The seller has not deposited the project tokens.
    TokensNotDeposited,
    /// The hold period has not started.
    HoldDurationNotStarted,
    /// The hold period has not elapsed yet.
    HoldDurationPeriodNotExpired,
    /// The investor has already withdrawn their tokens.
    TokensAlreadyWithdrawn,
    /// The caller is not a deposited investor, or no batch entry qualified.
    NotAnInvestor,
    /// The caller is not authorized for this operation.
    NotAuthorized,
    /// The seller's deposit time was never recorded.
    NoFirstDeposit,
    /// The cancellation timeout has not elapsed since the seller's deposit.
    CancellationTimeoutNotReached,
    /// The agreement is not cancelled.
    AgreementNotCancelled,
    /// The pool does not hold the expected token balance.
    InsufficientTokenBalance,
    /// There is nothing left to withdraw or refund.
    NoFundsToWithdraw,
}

} // verus!
