//! Processing of the seller's project-token deposit.
//!
//! The seller first transfers tokens into the project pool on their own;
//! this operation then checks that the pool covers the expected amount,
//! forwards any surplus to the company wallet, and opens the funding phase.

use vstd::prelude::*;
use crate::errors::ErrorCode;
use crate::state::agreement::Agreement;
use crate::state::token_account::{transfer, TokenAccount};

verus! {

/// Arguments of `ProcessTokenDeposit::handle`.
#[derive(Clone, Copy, Debug, PartialEq, Eq, Structural)]
pub struct ProcessTokenDepositParams;

/// What `ProcessTokenDeposit::handle` names: the agreement, its project
/// pool, the company's token account for surplus, and the clock reading.
#[derive(Clone, Copy, Debug, PartialEq, Eq, Structural)]
pub struct ProcessTokenDeposit {
    /// The agreement being funded.
    pub agreement: Agreement,
    /// The agreement's project-token pool.
    pub project_token_account: TokenAccount,
    /// The company's account; receives any surplus above the expected total.
    pub company_token_account: TokenAccount,
    /// Current time in seconds, from the clock oracle.
    pub clock: i64,
}

impl ProcessTokenDeposit {
    /// The first reason this call is refused, if any: the sale must be
    /// live and not yet funded, the surplus destination must belong to the
    /// company and the project mint, and the pool must cover the expected
    /// token total.
    pub open spec fn validation(self) -> Option<ErrorCode> {
        if self.agreement.agreement_cancelled {
            Some(ErrorCode::AgreementAlreadyCancelled)
        } else if self.agreement.seller_deposited {
            Some(ErrorCode::TokensAlreadyDeposited)
        } else if self.company_token_account.mint != self.agreement.project_token_mint
            || self.company_token_account.owner != self.agreement.company_wallet {
            Some(ErrorCode::InvalidDestination)
        } else if self.project_token_account.amount < self.agreement.expected_tokens {
            Some(ErrorCode::InsufficientTokenBalance)
        } else {
            None
        }
    }

    /// Marks the seller's deposit as processed: any surplus above the
    /// expected token total is forwarded to the company wallet, the pool
    /// keeps exactly the expected total, and the deposit time is recorded.
    /// This is the sole operation that sets `seller_deposited`.
    pub fn handle(&mut self, _params: ProcessTokenDepositParams) -> (r: Result<(), ErrorCode>)
        requires
            old(self).agreement.valid(),
            old(self).clock >= 0,
            old(self).project_token_account.address == old(self).agreement.project_pool,
            old(self).validation() is None ==>
                old(self).company_token_account.amount + old(self).project_token_account.amount
                    <= u64::MAX,
        ensures
            match r {
                Ok(()) => {
                    &&& old(self).validation() is None
                    &&& final(self).agreement == (Agreement {
                        seller_deposited: true,
                        first_deposit_time: old(self).clock,
                        ..old(self).agreement
                    })
                    &&& final(self).agreement.valid()
                    &&& final(self).project_token_account == (TokenAccount {
                        amount: old(self).agreement.expected_tokens,
                        ..old(self).project_token_account
                    })
                    &&& final(self).company_token_account == (TokenAccount {
                        amount: (old(self).company_token_account.amount
                            + old(self).project_token_account.amount
                            - old(self).agreement.expected_tokens) as u64,
                        ..old(self).company_token_account
                    })
                    &&& final(self).clock == old(self).clock
                },
                Err(e) => old(self).validation() == Some(e) && *final(self) == *old(self),
            },
    {
        if self.agreement.agreement_cancelled {
            return Err(ErrorCode::AgreementAlreadyCancelled);
        }
        if self.agreement.seller_deposited {
            return Err(ErrorCode::TokensAlreadyDeposited);
        }
        if self.company_token_account.mint != self.agreement.project_token_mint
            || self.company_token_account.owner != self.agreement.company_wallet {
            return Err(ErrorCode::InvalidDestination);
        }
        let current_balance = self.project_token_account.amount;
        if current_balance < self.agreement.expected_tokens {
            return Err(ErrorCode::InsufficientTokenBalance);
        }
        let excess_tokens = current_balance - self.agreement.expected_tokens;
        if excess_tokens > 0 {
            transfer(
                &mut self.project_token_account,
                &mut self.company_token_account,
                excess_tokens,
            );
        }
        self.agreement.seller_deposited = true;
        self.agreement.first_deposit_time = self.clock;
        Ok(())
    }
}

} // verus!
