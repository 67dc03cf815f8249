//! Stablecoin deposits during the funding phase.
//!
//! A deposit bound to a registered investor is tracked: it must match the
//! investor's required amount exactly, counts towards `total_invested`, and
//! the deposit that completes the expected payment stamps the start of the
//! hold period. An unbound deposit only moves funds to the company wallet
//! and changes no accounting.

use vstd::prelude::*;
use crate::errors::ErrorCode;
use crate::state::agreement::Agreement;
use crate::state::investor::Investor;
use crate::state::settings::Address;
use crate::state::token_account::{transfer, TokenAccount};

verus! {

/// Arguments of `DepositStablecoins::handle`.
#[derive(Clone, Copy, Debug, PartialEq, Eq, Structural)]
pub struct DepositStablecoinsParams {
    /// Stablecoins to move from the payer's account to the destination.
    pub amount: u64,
}

/// A deposit not bound to a registered investor never changes the
/// accounting: whatever else it validates or moves, `total_invested` and
/// every other agreement field stay as they were.
pub proof fn lemma_unbound_deposit_keeps_accounting(
    ctx: DepositStablecoins,
    params: DepositStablecoinsParams,
)
    requires
        ctx.investor is None,
    ensures
        ctx.agreement_after(params) == ctx.agreement,
{
}

/// A deposit bound to an investor is accepted at most once: once the record
/// is marked deposited, a further deposit that passes every earlier check is
/// refused as already deposited.
pub proof fn lemma_deposit_accepted_at_most_once(
    ctx: DepositStablecoins,
    params: DepositStablecoinsParams,
)
    requires
        ctx.investor matches Some(investor) && investor.investor_deposited,
        params.amount != 0,
        ctx.agreement.seller_deposited,
        ctx.agreement.token_seller != ctx.payer,
        params.amount == ctx.investor->0.required_amount,
    ensures
        ctx.validation(params) == Some(ErrorCode::AlreadyDeposited),
{
}

/// The hold start is stamped exactly when a bound deposit first brings
/// `total_invested` to `expected_payment`; a stamped hold start is never
/// reset, and once the total equals the target no further bound deposit is
/// accepted.
pub proof fn lemma_hold_start_set_exactly_once(
    ctx: DepositStablecoins,
    params: DepositStablecoinsParams,
)
    ensures
        ctx.starts_hold(params) ==> ctx.agreement_after(params).hold_duration_start == ctx.clock,
        ctx.agreement.hold_duration_start != 0
            ==> ctx.agreement_after(params).hold_duration_start
                == ctx.agreement.hold_duration_start,
        ctx.agreement_after(params).hold_duration_start != ctx.agreement.hold_duration_start
            ==> ctx.starts_hold(params),
        ctx.investor is Some && ctx.agreement.total_invested == ctx.agreement.expected_payment
            && params.amount > 0 ==> ctx.validation(params) != None::<ErrorCode>,
{
}

/// What `DepositStablecoins::handle` names: the agreement, the investor
/// record the deposit is bound to (if any), the two token accounts the
/// transfer runs between, the signing payer, and the clock reading.
#[derive(Clone, Copy, Debug, PartialEq, Eq, Structural)]
pub struct DepositStablecoins {
    /// The agreement being funded.
    pub agreement: Agreement,
    /// The investor record the deposit is bound to, if the payer is a
    /// registered investor.
    pub investor: Option<Investor>,
    /// Where the deposit goes: the payment pool for a bound deposit, the
    /// company's account for an untracked one.
    pub destination_token_account: TokenAccount,
    /// The payer's stablecoin account, debited by the deposit.
    pub payer_token_account: TokenAccount,
    /// The signing caller.
    pub payer: Address,
    /// Current time in seconds, from the clock oracle.
    pub clock: i64,
}

impl DepositStablecoins {
    /// The first reason this call is refused, if any. A bound deposit must
    /// equal the investor's required amount, may happen once, must not push
    /// `total_invested` past `expected_payment`, and must go to the payment
    /// pool; an unbound deposit must go to a company-owned account of the
    /// payment mint.
    pub open spec fn validation(self, params: DepositStablecoinsParams) -> Option<ErrorCode> {
        if params.amount == 0 {
            Some(ErrorCode::InvalidAmount)
        } else if !self.agreement.seller_deposited {
            Some(ErrorCode::SellerMustDepositFirst)
        } else if self.agreement.token_seller == self.payer {
            Some(ErrorCode::SellerCannotDepositStablecoins)
        } else if self.investor is Some {
            let investor = self.investor->0;
            if params.amount != investor.required_amount {
                Some(ErrorCode::InvalidAmount)
            } else if investor.investor_deposited {
                Some(ErrorCode::AlreadyDeposited)
            } else if self.agreement.total_invested + params.amount
                > self.agreement.expected_payment {
                Some(ErrorCode::DepositExceedsExpectedPayment)
            } else if self.destination_token_account.address != self.agreement.payment_pool {
                Some(ErrorCode::InvalidDestination)
            } else {
                None
            }
        } else {
            if self.destination_token_account.owner != self.agreement.company_wallet
                || self.destination_token_account.mint != self.agreement.payment_token_mint {
                Some(ErrorCode::InvalidDestination)
            } else {
                None
            }
        }
    }

    /// Whether this deposit completes the expected payment and therefore
    /// stamps the start of the hold period.
    pub open spec fn starts_hold(self, params: DepositStablecoinsParams) -> bool {
        &&& self.investor is Some
        &&& self.agreement.total_invested + params.amount == self.agreement.expected_payment
        &&& self.agreement.hold_duration_start == 0
    }

    /// The agreement after a successful call: a bound deposit adds its
    /// amount to `total_invested` and, exactly when the total first reaches
    /// `expected_payment`, records the hold start; an unbound deposit
    /// changes nothing.
    pub open spec fn agreement_after(self, params: DepositStablecoinsParams) -> Agreement {
        if self.investor is Some {
            Agreement {
                total_invested: (self.agreement.total_invested + params.amount) as u64,
                hold_duration_start: if self.starts_hold(params) {
                    self.clock
                } else {
                    self.agreement.hold_duration_start
                },
                ..self.agreement
            }
        } else {
            self.agreement
        }
    }

    /// Validates the deposit, moves `params.amount` from the payer's
    /// account to the destination, and updates the accounting for a bound
    /// deposit.
    pub fn handle(&mut self, params: DepositStablecoinsParams) -> (r: Result<(), ErrorCode>)
        requires
            old(self).agreement.valid(),
            old(self).clock >= 0,
            old(self).investor matches Some(investor)
                ==> investor.agreement == old(self).agreement.agreement_id,
            old(self).validation(params) is None ==> {
                &&& params.amount <= old(self).payer_token_account.amount
                &&& old(self).destination_token_account.amount + params.amount <= u64::MAX
            },
        ensures
            match r {
                Ok(()) => {
                    &&& old(self).validation(params) is None
                    &&& final(self).agreement == old(self).agreement_after(params)
                    &&& final(self).agreement.valid()
                    &&& final(self).investor == (match old(self).investor {
                        Some(investor) => Some(Investor { investor_deposited: true, ..investor }),
                        None => None,
                    })
                    &&& final(self).payer_token_account == (TokenAccount {
                        amount: (old(self).payer_token_account.amount - params.amount) as u64,
                        ..old(self).payer_token_account
                    })
                    &&& final(self).destination_token_account == (TokenAccount {
                        amount: (old(self).destination_token_account.amount
                            + params.amount) as u64,
                        ..old(self).destination_token_account
                    })
                    &&& final(self).payer == old(self).payer
                    &&& final(self).clock == old(self).clock
                },
                Err(e) => old(self).validation(params) == Some(e) && *final(self) == *old(self),
            },
    {
        if params.amount == 0 {
            return Err(ErrorCode::InvalidAmount);
        }
        if !self.agreement.seller_deposited {
            return Err(ErrorCode::SellerMustDepositFirst);
        }
        if self.agreement.token_seller == self.payer {
            return Err(ErrorCode::SellerCannotDepositStablecoins);
        }
        match self.investor {
            Some(investor) => {
                if params.amount != investor.required_amount {
                    return Err(ErrorCode::InvalidAmount);
                }
                if investor.investor_deposited {
                    return Err(ErrorCode::AlreadyDeposited);
                }
                if (self.agreement.total_invested as u128) + (params.amount as u128)
                    > (self.agreement.expected_payment as u128) {
                    return Err(ErrorCode::DepositExceedsExpectedPayment);
                }
                if self.destination_token_account.address != self.agreement.payment_pool {
                    return Err(ErrorCode::InvalidDestination);
                }
                self.agreement.total_invested = self.agreement.total_invested + params.amount;
                if self.agreement.total_invested == self.agreement.expected_payment
                    && self.agreement.hold_duration_start == 0 {
                    self.agreement.hold_duration_start = self.clock;
                }
                self.investor = Some(Investor { investor_deposited: true, ..investor });
            }
            None => {
                if self.destination_token_account.owner != self.agreement.company_wallet
                    || self.destination_token_account.mint != self.agreement.payment_token_mint {
                    return Err(ErrorCode::InvalidDestination);
                }
            }
        }
        transfer(
            &mut self.payer_token_account,
            &mut self.destination_token_account,
            params.amount,
        );
        Ok(())
    }
}

} // verus!
