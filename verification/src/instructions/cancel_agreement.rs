//! Cancellation of a sale.
//!
//! Two independent legal triggers: before the seller's deposit is processed,
//! a positive project-pool balance lets any authorized party cancel
//! immediately; after the seller's deposit, cancellation requires the
//! cancellation timeout to have elapsed and is forbidden once the sale
//! completed and the hold period started.

use vstd::prelude::*;
use crate::errors::ErrorCode;
use crate::state::agreement::Agreement;
use crate::state::investor::Investor;
use crate::state::settings::{Address, Settings};
use crate::state::token_account::TokenAccount;

verus! {

/// Arguments of `CancelAgreement::handle`.
#[derive(Clone, Copy, Debug, PartialEq, Eq, Structural)]
pub struct CancelAgreementParams;

/// What `CancelAgreement::handle` names: the configuration, the agreement,
/// its project pool, the investor record of an investor-caller (if any),
/// the signing caller, and the clock reading.
#[derive(Clone, Copy, Debug, PartialEq, Eq, Structural)]
pub struct CancelAgreement {
    /// The process-wide configuration.
    pub settings: Settings,
    /// The agreement to cancel.
    pub agreement: Agreement,
    /// The agreement's project-token pool.
    pub project_token_account: TokenAccount,
    /// The caller's investor record, when an investor cancels for themself.
    pub investor: Option<Investor>,
    /// The signing caller.
    pub payer: Address,
    /// Current time in seconds, from the clock oracle.
    pub clock: i64,
}

/// The two cancellation triggers, for an authorized caller on a live
/// agreement: with tokens in the pool and no processed seller deposit,
/// cancellation succeeds immediately; after the seller's deposit it is
/// refused before `first_deposit_time + cancel_timeout` and succeeds at or
/// after that moment, unless the sale fully completed and entered the hold
/// phase, in which case it is always refused; with neither tokens nor a
/// seller deposit there is nothing to cancel.
pub proof fn lemma_cancellation_triggers(ctx: CancelAgreement)
    requires
        ctx.authorized(),
        !ctx.agreement.agreement_cancelled,
    ensures
        ctx.project_token_account.amount > 0 && !ctx.agreement.seller_deposited
            ==> ctx.validation() is None,
        ctx.agreement.seller_deposited && ctx.agreement.first_deposit_time > 0
            && ctx.clock < ctx.agreement.first_deposit_time + ctx.settings.cancel_timeout
            ==> ctx.validation() == Some(ErrorCode::CancellationTimeoutNotReached),
        ctx.agreement.seller_deposited && ctx.agreement.first_deposit_time > 0
            && ctx.clock >= ctx.agreement.first_deposit_time + ctx.settings.cancel_timeout
            ==> if ctx.agreement.total_invested == ctx.agreement.expected_payment
                && ctx.agreement.hold_duration_start > 0 {
                ctx.validation() == Some(ErrorCode::FullAmountNotCollected)
            } else {
                ctx.validation() is None
            },
        ctx.project_token_account.amount == 0 && !ctx.agreement.seller_deposited
            ==> ctx.validation() == Some(ErrorCode::TokensNotDeposited),
{
}

impl CancelAgreement {
    /// Whether the caller may cancel: an investor for themself, or the
    /// seller or the administrator for the whole agreement.
    pub open spec fn authorized(self) -> bool {
        match self.investor {
            Some(investor) => investor.wallet == self.payer,
            None => self.agreement.token_seller == self.payer
                || self.agreement.owner == self.payer,
        }
    }

    /// The first reason this call is refused, if any. With tokens in the
    /// pool but no processed seller deposit, cancellation is immediate;
    /// after the seller's deposit it waits for the cancellation timeout and
    /// is refused once the sale fully completed and the hold period started;
    /// in every other state there is nothing to cancel.
    pub open spec fn validation(self) -> Option<ErrorCode> {
        if !self.authorized() {
            Some(ErrorCode::NotAuthorized)
        } else if self.agreement.agreement_cancelled {
            Some(ErrorCode::AgreementAlreadyCancelled)
        } else if self.project_token_account.amount > 0 && !self.agreement.seller_deposited {
            None
        } else if self.agreement.seller_deposited {
            if self.agreement.first_deposit_time == 0 {
                Some(ErrorCode::NoFirstDeposit)
            } else if self.clock
                < self.agreement.first_deposit_time + self.settings.cancel_timeout {
                Some(ErrorCode::CancellationTimeoutNotReached)
            } else if self.agreement.total_invested == self.agreement.expected_payment
                && self.agreement.hold_duration_start > 0 {
                Some(ErrorCode::FullAmountNotCollected)
            } else {
                None
            }
        } else {
            Some(ErrorCode::TokensNotDeposited)
        }
    }

    /// Flips `agreement_cancelled` — and nothing else — when one of the two
    /// cancellation triggers applies.
    pub fn handle(&mut self, _params: CancelAgreementParams) -> (r: Result<(), ErrorCode>)
        requires
            old(self).agreement.valid(),
            old(self).project_token_account.address == old(self).agreement.project_pool,
            old(self).investor matches Some(investor)
                ==> investor.agreement == old(self).agreement.agreement_id,
        ensures
            match r {
                Ok(()) => {
                    &&& old(self).validation() is None
                    &&& *final(self) == (CancelAgreement {
                        agreement: Agreement {
                            agreement_cancelled: true,
                            ..old(self).agreement
                        },
                        ..*old(self)
                    })
                    &&& final(self).agreement.valid()
                },
                Err(e) => old(self).validation() == Some(e) && *final(self) == *old(self),
            },
    {
        match self.investor {
            Some(investor) => {
                if investor.wallet != self.payer {
                    return Err(ErrorCode::NotAuthorized);
                }
            }
            None => {
                if self.agreement.token_seller != self.payer
                    && self.agreement.owner != self.payer {
                    return Err(ErrorCode::NotAuthorized);
                }
            }
        }
        if self.agreement.agreement_cancelled {
            return Err(ErrorCode::AgreementAlreadyCancelled);
        }
        let current_balance = self.project_token_account.amount;
        if current_balance > 0 && !self.agreement.seller_deposited {
            self.agreement.agreement_cancelled = true;
            return Ok(());
        }
        if self.agreement.seller_deposited {
            if self.agreement.first_deposit_time == 0 {
                return Err(ErrorCode::NoFirstDeposit);
            }
            if (self.clock as i128)
                < (self.agreement.first_deposit_time as i128)
                    + (self.settings.cancel_timeout as i128) {
                return Err(ErrorCode::CancellationTimeoutNotReached);
            }
            if self.agreement.total_invested == self.agreement.expected_payment
                && self.agreement.hold_duration_start > 0 {
                return Err(ErrorCode::FullAmountNotCollected);
            }
            self.agreement.agreement_cancelled = true;
            return Ok(());
        }
        Err(ErrorCode::TokensNotDeposited)
    }
}

} // verus!
