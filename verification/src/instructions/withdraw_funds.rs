//! Settlement of the collected payment once the sale is fully funded.
//!
//! The commission and the seller's share split the expected payment
//! exactly; the collected flag makes the settlement happen at most once.

use vstd::prelude::*;
use crate::errors::ErrorCode;
use crate::settlement::{commission_amount, commission_of, lemma_settlement_split, net_of};
use crate::state::agreement::Agreement;
use crate::state::settings::Settings;
use crate::state::token_account::{transfer, TokenAccount};

verus! {

/// Arguments of `WithdrawFunds::handle`.
#[derive(Clone, Copy, Debug, PartialEq, Eq, Structural)]
pub struct WithdrawFundsParams;

/// What `WithdrawFunds::handle` names: the configuration, the agreement,
/// its payment pool, and the seller's and administrator's destination
/// accounts.
#[derive(Clone, Copy, Debug, PartialEq, Eq, Structural)]
pub struct WithdrawFunds {
    /// The process-wide configuration.
    pub settings: Settings,
    /// The fully funded agreement being settled.
    pub agreement: Agreement,
    /// The agreement's payment pool.
    pub payment_token_account: TokenAccount,
    /// The seller's account; receives the payment net of commission.
    pub seller_token_account: TokenAccount,
    /// The administrator's account; receives the commission.
    pub owner_token_account: TokenAccount,
}

impl WithdrawFunds {
    /// The first reason this call is refused, if any: the sale must be
    /// live and fully funded, the settlement must not have happened yet,
    /// and the destinations must belong to the seller and the
    /// administrator.
    pub open spec fn validation(self) -> Option<ErrorCode> {
        if self.agreement.agreement_cancelled {
            Some(ErrorCode::AgreementAlreadyCancelled)
        } else if self.agreement.total_invested != self.agreement.expected_payment {
            Some(ErrorCode::FullAmountNotCollected)
        } else if self.agreement.funds_commision_collected {
            Some(ErrorCode::FundCommissionAlreadyCollected)
        } else if self.agreement.token_seller != self.seller_token_account.owner {
            Some(ErrorCode::InvalidDestination)
        } else if self.settings.owner != self.owner_token_account.owner {
            Some(ErrorCode::InvalidDestination)
        } else {
            None
        }
    }

    /// The commission owed on this settlement.
    pub open spec fn commission(self) -> int {
        commission_of(
            self.agreement.expected_payment as int,
            self.settings.commission_basis_points as int,
        )
    }

    /// Pays the commission to the administrator and the remainder to the
    /// seller — together exactly the expected payment — and sets the
    /// collected flag so that a second settlement is refused.
    pub fn handle(&mut self, _params: WithdrawFundsParams) -> (r: Result<(), ErrorCode>)
        requires
            old(self).agreement.valid(),
            old(self).settings.valid(),
            old(self).payment_token_account.address == old(self).agreement.payment_pool,
            old(self).validation() is None ==> {
                &&& old(self).payment_token_account.amount
                    >= old(self).agreement.expected_payment
                &&& old(self).owner_token_account.amount
                    + old(self).agreement.expected_payment <= u64::MAX
                &&& old(self).seller_token_account.amount
                    + old(self).agreement.expected_payment <= u64::MAX
            },
        ensures
            match r {
                Ok(()) => {
                    &&& old(self).validation() is None
                    &&& final(self).agreement == (Agreement {
                        funds_commision_collected: true,
                        ..old(self).agreement
                    })
                    &&& final(self).payment_token_account == (TokenAccount {
                        amount: (old(self).payment_token_account.amount
                            - old(self).agreement.expected_payment) as u64,
                        ..old(self).payment_token_account
                    })
                    &&& final(self).owner_token_account == (TokenAccount {
                        amount: (old(self).owner_token_account.amount
                            + old(self).commission()) as u64,
                        ..old(self).owner_token_account
                    })
                    &&& final(self).seller_token_account == (TokenAccount {
                        amount: (old(self).seller_token_account.amount
                            + net_of(
                                old(self).agreement.expected_payment as int,
                                old(self).settings.commission_basis_points as int,
                            )) as u64,
                        ..old(self).seller_token_account
                    })
                    &&& final(self).settings == old(self).settings
                    &&& final(self).agreement.valid()
                },
                Err(e) => old(self).validation() == Some(e) && *final(self) == *old(self),
            },
    {
        if self.agreement.agreement_cancelled {
            return Err(ErrorCode::AgreementAlreadyCancelled);
        }
        if self.agreement.total_invested != self.agreement.expected_payment {
            return Err(ErrorCode::FullAmountNotCollected);
        }
        if self.agreement.funds_commision_collected {
            return Err(ErrorCode::FundCommissionAlreadyCollected);
        }
        if self.agreement.token_seller != self.seller_token_account.owner {
            return Err(ErrorCode::InvalidDestination);
        }
        if self.settings.owner != self.owner_token_account.owner {
            return Err(ErrorCode::InvalidDestination);
        }
        proof {
            lemma_settlement_split(
                self.agreement.expected_payment,
                self.settings.commission_basis_points,
            );
        }
        let commission_value = commission_amount(
            self.agreement.expected_payment,
            self.settings.commission_basis_points,
        );
        let seller_amount = self.agreement.expected_payment - commission_value;
        if commission_value > 0 {
            transfer(
                &mut self.payment_token_account,
                &mut self.owner_token_account,
                commission_value,
            );
        }
        transfer(
            &mut self.payment_token_account,
            &mut self.seller_token_account,
            seller_amount,
        );
        self.agreement.funds_commision_collected = true;
        Ok(())
    }
}

} // verus!
