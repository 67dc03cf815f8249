//! Reclaiming funds from a cancelled agreement.
//!
//! The seller takes back the whole remaining project-token pool; a
//! deposited investor is refunded their exact required amount from the
//! payment pool. Cancellation is terminal: no flag of the agreement is
//! changed here.

use vstd::prelude::*;
use crate::errors::ErrorCode;
use crate::state::agreement::Agreement;
use crate::state::investor::Investor;
use crate::state::settings::Address;
use crate::state::token_account::{transfer, TokenAccount};

verus! {

/// Arguments of `WithdrawCancelledFunds::handle`.
#[derive(Clone, Copy, Debug, PartialEq, Eq, Structural)]
pub struct WithdrawCancelledFundsParams;

/// What `WithdrawCancelledFunds::handle` names: the cancelled agreement,
/// the caller's investor record (if any), the pool the refund is drawn from
/// — the payment pool for an investor, the project pool otherwise — and the
/// destination account.
#[derive(Clone, Copy, Debug, PartialEq, Eq, Structural)]
pub struct WithdrawCancelledFunds {
    /// The cancelled agreement.
    pub agreement: Agreement,
    /// The caller's investor record, when an investor reclaims a refund.
    pub investor: Option<Investor>,
    /// The pool drawn from: keyed by the store to the payment pool when an
    /// investor record is named, the project pool otherwise.
    pub agreement_token_account: TokenAccount,
    /// Where the reclaimed funds are sent.
    pub destination_token_account: TokenAccount,
    /// The signing caller.
    pub payer: Address,
}

impl WithdrawCancelledFunds {
    /// The first reason this call is refused, if any: the agreement must be
    /// cancelled; the seller needs a non-empty pool to reclaim, an investor
    /// must have deposited to be refunded, and any other caller has nothing
    /// here.
    pub open spec fn validation(self) -> Option<ErrorCode> {
        if !self.agreement.agreement_cancelled {
            Some(ErrorCode::AgreementNotCancelled)
        } else if self.agreement.token_seller == self.payer {
            if self.agreement_token_account.amount > 0 {
                None
            } else {
                Some(ErrorCode::NoFundsToWithdraw)
            }
        } else {
            match self.investor {
                Some(investor) => {
                    if !investor.investor_deposited {
                        Some(ErrorCode::NoFundsToWithdraw)
                    } else {
                        None
                    }
                },
                None => Some(ErrorCode::NotAnInvestor),
            }
        }
    }

    /// What a successful call moves out of the pool: the whole remaining
    /// balance for the seller, the exact deposited amount for an investor.
    pub open spec fn reclaimed(self) -> int {
        if self.agreement.token_seller == self.payer {
            self.agreement_token_account.amount as int
        } else {
            self.investor->0.required_amount as int
        }
    }

    /// Moves the reclaimed amount from the pool to the destination. No
    /// record is otherwise changed: the agreement stays cancelled with its
    /// flags intact, and the investor record keeps its deposited flag (the
    /// single-refund path leaves clearing to the batch variant).
    pub fn handle(&mut self, _params: WithdrawCancelledFundsParams)
        -> (r: Result<(), ErrorCode>)
        requires
            old(self).agreement.valid(),
            old(self).investor matches Some(investor)
                ==> investor.agreement == old(self).agreement.agreement_id,
            old(self).agreement_token_account.address
                == if old(self).investor is Some {
                    old(self).agreement.payment_pool
                } else {
                    old(self).agreement.project_pool
                },
            old(self).validation() is None ==> {
                &&& old(self).reclaimed() <= old(self).agreement_token_account.amount
                &&& old(self).destination_token_account.amount + old(self).reclaimed()
                    <= u64::MAX
            },
        ensures
            match r {
                Ok(()) => {
                    &&& old(self).validation() is None
                    &&& *final(self) == (WithdrawCancelledFunds {
                        agreement_token_account: TokenAccount {
                            amount: (old(self).agreement_token_account.amount
                                - old(self).reclaimed()) as u64,
                            ..old(self).agreement_token_account
                        },
                        destination_token_account: TokenAccount {
                            amount: (old(self).destination_token_account.amount
                                + old(self).reclaimed()) as u64,
                            ..old(self).destination_token_account
                        },
                        ..*old(self)
                    })
                },
                Err(e) => old(self).validation() == Some(e) && *final(self) == *old(self),
            },
    {
        if !self.agreement.agreement_cancelled {
            return Err(ErrorCode::AgreementNotCancelled);
        }
        if self.agreement.token_seller == self.payer {
            let remaining_tokens = self.agreement_token_account.amount;
            if remaining_tokens > 0 {
                transfer(
                    &mut self.agreement_token_account,
                    &mut self.destination_token_account,
                    remaining_tokens,
                );
            } else {
                return Err(ErrorCode::NoFundsToWithdraw);
            }
        } else {
            match self.investor {
                Some(investor) => {
                    if !investor.investor_deposited {
                        return Err(ErrorCode::NoFundsToWithdraw);
                    }
                    transfer(
                        &mut self.agreement_token_account,
                        &mut self.destination_token_account,
                        investor.required_amount,
                    );
                }
                None => {
                    return Err(ErrorCode::NotAnInvestor);
                }
            }
        }
        Ok(())
    }
}

} // verus!
