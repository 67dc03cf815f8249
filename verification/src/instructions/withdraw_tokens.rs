//! An investor's token claim after the hold period.
//!
//! The investor receives their allocation net of commission; the commission
//! goes to the administrator and is accumulated on the agreement. The
//! withdrawn flag makes the claim happen at most once per investor.

use vstd::prelude::*;
use crate::errors::ErrorCode;
use crate::settlement::{commission_amount, commission_of, lemma_settlement_split, net_of};
use crate::state::agreement::Agreement;
use crate::state::investor::Investor;
use crate::state::settings::Settings;
use crate::state::token_account::{transfer, TokenAccount};

verus! {

/// Arguments of `WithdrawTokens::handle`.
#[derive(Clone, Copy, Debug, PartialEq, Eq, Structural)]
pub struct WithdrawTokensParams;

/// What `WithdrawTokens::handle` names: the configuration, the agreement,
/// the claiming investor's record, the project pool, and the investor's and
/// administrator's destination accounts.
#[derive(Clone, Copy, Debug, PartialEq, Eq, Structural)]
pub struct WithdrawTokens {
    /// The process-wide configuration.
    pub settings: Settings,
    /// The agreement the claim runs against.
    pub agreement: Agreement,
    /// The claiming investor's record.
    pub investor: Investor,
    /// The agreement's project-token pool.
    pub project_token_account: TokenAccount,
    /// The investor's account; receives the allocation net of commission.
    pub investor_token_account: TokenAccount,
    /// The administrator's account; receives the commission.
    pub owner_token_account: TokenAccount,
    /// Current time in seconds, from the clock oracle.
    pub clock: i64,
}

impl WithdrawTokens {
    /// The first reason this call is refused, if any: the sale must be
    /// funded, live and past its hold period, the investor must have
    /// deposited and not yet withdrawn, and the commission destination must
    /// belong to the administrator.
    pub open spec fn validation(self) -> Option<ErrorCode> {
        if !self.agreement.seller_deposited {
            Some(ErrorCode::TokensNotDeposited)
        } else if !self.investor.investor_deposited {
            Some(ErrorCode::NotAnInvestor)
        } else if self.agreement.agreement_cancelled {
            Some(ErrorCode::AgreementAlreadyCancelled)
        } else if self.agreement.hold_duration_start == 0 {
            Some(ErrorCode::HoldDurationNotStarted)
        } else if self.clock
            < self.agreement.hold_duration_start + self.agreement.hold_duration {
            Some(ErrorCode::HoldDurationPeriodNotExpired)
        } else if self.investor.has_withdrawn_tokens {
            Some(ErrorCode::TokensAlreadyWithdrawn)
        } else if self.settings.owner != self.owner_token_account.owner {
            Some(ErrorCode::InvalidDestination)
        } else {
            None
        }
    }

    /// The commission owed on this investor's allocation.
    pub open spec fn commission(self) -> int {
        commission_of(
            self.investor.token_allocation as int,
            self.settings.commission_basis_points as int,
        )
    }

    /// The net payout owed to this investor.
    pub open spec fn payout(self) -> int {
        net_of(
            self.investor.token_allocation as int,
            self.settings.commission_basis_points as int,
        )
    }

    /// Pays `floor(allocation * rate / 10000)` to the administrator and the
    /// rest of the allocation to the investor, accumulates the commission on
    /// the agreement, and marks the investor as withdrawn so that the claim
    /// cannot be repeated.
    pub fn handle(&mut self, _params: WithdrawTokensParams) -> (r: Result<(), ErrorCode>)
        requires
            old(self).agreement.valid(),
            old(self).settings.valid(),
            old(self).project_token_account.address == old(self).agreement.project_pool,
            old(self).investor.agreement == old(self).agreement.agreement_id,
            old(self).validation() is None ==> {
                &&& old(self).project_token_account.amount
                    >= old(self).investor.token_allocation
                &&& old(self).owner_token_account.amount
                    + old(self).investor.token_allocation <= u64::MAX
                &&& old(self).investor_token_account.amount
                    + old(self).investor.token_allocation <= u64::MAX
                &&& old(self).agreement.token_commision_collected
                    + old(self).investor.token_allocation <= u64::MAX
            },
        ensures
            match r {
                Ok(()) => {
                    &&& old(self).validation() is None
                    &&& final(self).agreement == (Agreement {
                        token_commision_collected: (old(self).agreement.token_commision_collected
                            + old(self).commission()) as u64,
                        ..old(self).agreement
                    })
                    &&& final(self).investor == (Investor {
                        has_withdrawn_tokens: true,
                        ..old(self).investor
                    })
                    &&& final(self).project_token_account == (TokenAccount {
                        amount: (old(self).project_token_account.amount
                            - old(self).investor.token_allocation) as u64,
                        ..old(self).project_token_account
                    })
                    &&& final(self).owner_token_account == (TokenAccount {
                        amount: (old(self).owner_token_account.amount
                            + old(self).commission()) as u64,
                        ..old(self).owner_token_account
                    })
                    &&& final(self).investor_token_account == (TokenAccount {
                        amount: (old(self).investor_token_account.amount
                            + old(self).payout()) as u64,
                        ..old(self).investor_token_account
                    })
                    &&& final(self).settings == old(self).settings
                    &&& final(self).clock == old(self).clock
                    &&& final(self).agreement.valid()
                },
                Err(e) => old(self).validation() == Some(e) && *final(self) == *old(self),
            },
    {
        if !self.agreement.seller_deposited {
            return Err(ErrorCode::TokensNotDeposited);
        }
        if !self.investor.investor_deposited {
            return Err(ErrorCode::NotAnInvestor);
        }
        if self.agreement.agreement_cancelled {
            return Err(ErrorCode::AgreementAlreadyCancelled);
        }
        if self.agreement.hold_duration_start == 0 {
            return Err(ErrorCode::HoldDurationNotStarted);
        }
        if (self.clock as i128)
            < (self.agreement.hold_duration_start as i128)
                + (self.agreement.hold_duration as i128) {
            return Err(ErrorCode::HoldDurationPeriodNotExpired);
        }
        if self.investor.has_withdrawn_tokens {
            return Err(ErrorCode::TokensAlreadyWithdrawn);
        }
        if self.settings.owner != self.owner_token_account.owner {
            return Err(ErrorCode::InvalidDestination);
        }
        let investor_tokens = self.investor.token_allocation;
        proof {
            lemma_settlement_split(investor_tokens, self.settings.commission_basis_points);
        }
        let commission_value =
            commission_amount(investor_tokens, self.settings.commission_basis_points);
        let final_token_amount = investor_tokens - commission_value;
        if commission_value > 0 {
            transfer(
                &mut self.project_token_account,
                &mut self.owner_token_account,
                commission_value,
            );
            self.agreement.token_commision_collected =
                self.agreement.token_commision_collected + commission_value;
        }
        transfer(
            &mut self.project_token_account,
            &mut self.investor_token_account,
            final_token_amount,
        );
        self.investor = Investor { has_withdrawn_tokens: true, ..self.investor };
        Ok(())
    }
}

} // verus!
