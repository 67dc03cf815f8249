//! Creation of one agreement and its two empty pool accounts.

use vstd::prelude::*;
use crate::errors::ErrorCode;
use crate::state::agreement::Agreement;
use crate::state::settings::{Address, Settings};
use crate::state::token_account::TokenAccount;

verus! {

/// Arguments of `InitializeAgreement::handle`.
#[derive(Clone, Copy, Debug, PartialEq, Eq, Structural)]
pub struct InitializeAgreementParams {
    /// Caller-chosen id; also the key of the new record.
    pub agreement_id: u64,
    /// Stablecoin total the sale is to collect; must be positive.
    pub expected_payment: u64,
    /// Project-token total the seller is to deposit; must be positive.
    pub expected_tokens: u64,
    /// Lock-up interval in seconds; must be positive.
    pub hold_duration: i64,
}

/// What `InitializeAgreement::handle` names: the configuration, the caller,
/// and the identities and store addresses the new records are built from.
#[derive(Clone, Copy, Debug, PartialEq, Eq, Structural)]
pub struct InitializeAgreement {
    /// The process-wide configuration.
    pub settings: Settings,
    /// Mint of the stablecoin investors pay with.
    pub payment_token_mint: Address,
    /// Mint of the project token being sold.
    pub project_token_mint: Address,
    /// Store address reserved for the payment pool account.
    pub payment_token_account: Address,
    /// Store address reserved for the project-token pool account.
    pub project_token_account: Address,
    /// Wallet of the company behind the sale.
    pub company_wallet: Address,
    /// The seller of the project tokens.
    pub token_seller: Address,
    /// The signing caller.
    pub payer: Address,
}

impl InitializeAgreement {
    /// The first reason this call is refused, if any: only the administrator
    /// may create agreements, and a sale's targets must be positive.
    pub open spec fn validation(self, params: InitializeAgreementParams) -> Option<ErrorCode> {
        if self.payer != self.settings.owner {
            Some(ErrorCode::NotAuthorized)
        } else if params.expected_payment == 0 {
            Some(ErrorCode::InvalidAmount)
        } else if params.expected_tokens == 0 {
            Some(ErrorCode::InvalidAmount)
        } else if params.hold_duration <= 0 {
            Some(ErrorCode::InvalidHoldDuration)
        } else {
            None
        }
    }

    /// The agreement record a successful call creates.
    pub open spec fn created_agreement(self, params: InitializeAgreementParams) -> Agreement {
        Agreement {
            agreement_id: params.agreement_id,
            payment_token_mint: self.payment_token_mint,
            project_token_mint: self.project_token_mint,
            company_wallet: self.company_wallet,
            token_seller: self.token_seller,
            expected_payment: params.expected_payment,
            expected_tokens: params.expected_tokens,
            total_invested: 0,
            total_required: 0,
            total_token_allocation: 0,
            hold_duration: params.hold_duration,
            hold_duration_start: 0,
            seller_deposited: false,
            first_deposit_time: 0,
            funds_commision_collected: false,
            token_commision_collected: 0,
            agreement_cancelled: false,
            investors_count: 0,
            owner: self.payer,
            payment_pool: self.payment_token_account,
            project_pool: self.project_token_account,
        }
    }

    /// Creates the agreement record together with its two zero-balance pool
    /// accounts, owned by the agreement's transfer authority.
    pub fn handle(&self, params: InitializeAgreementParams)
        -> (r: Result<(Agreement, TokenAccount, TokenAccount), ErrorCode>)
        ensures
            match r {
                Ok((agreement, payment_pool, project_pool)) => {
                    &&& self.validation(params) is None
                    &&& agreement == self.created_agreement(params)
                    &&& agreement.valid()
                    &&& payment_pool == (TokenAccount {
                        address: self.payment_token_account,
                        owner: params.agreement_id,
                        mint: self.payment_token_mint,
                        amount: 0,
                    })
                    &&& project_pool == (TokenAccount {
                        address: self.project_token_account,
                        owner: params.agreement_id,
                        mint: self.project_token_mint,
                        amount: 0,
                    })
                },
                Err(e) => self.validation(params) == Some(e),
            },
    {
        if self.payer != self.settings.owner {
            return Err(ErrorCode::NotAuthorized);
        }
        if params.expected_payment == 0 {
            return Err(ErrorCode::InvalidAmount);
        }
        if params.expected_tokens == 0 {
            return Err(ErrorCode::InvalidAmount);
        }
        if params.hold_duration <= 0 {
            return Err(ErrorCode::InvalidHoldDuration);
        }
        let agreement = Agreement {
            agreement_id: params.agreement_id,
            payment_token_mint: self.payment_token_mint,
            project_token_mint: self.project_token_mint,
            company_wallet: self.company_wallet,
            token_seller: self.token_seller,
            expected_payment: params.expected_payment,
            expected_tokens: params.expected_tokens,
            total_invested: 0,
            total_required: 0,
            total_token_allocation: 0,
            hold_duration: params.hold_duration,
            hold_duration_start: 0,
            seller_deposited: false,
            first_deposit_time: 0,
            funds_commision_collected: false,
            token_commision_collected: 0,
            agreement_cancelled: false,
            investors_count: 0,
            owner: self.payer,
            payment_pool: self.payment_token_account,
            project_pool: self.project_token_account,
        };
        let payment_pool = TokenAccount {
            address: self.payment_token_account,
            owner: params.agreement_id,
            mint: self.payment_token_mint,
            amount: 0,
        };
        let project_pool = TokenAccount {
            address: self.project_token_account,
            owner: params.agreement_id,
            mint: self.project_token_mint,
            amount: 0,
        };
        Ok((agreement, payment_pool, project_pool))
    }
}

} // verus!
