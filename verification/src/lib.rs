//! Escrow / time-lock settlement engine for a single token-for-stablecoin
//! sale between one seller and many investors.
//!
//! The library holds the full state machine of one `Agreement` together with
//! its `Investor` records: the sequencing and validation rules that decide
//! when token deposits, stablecoin deposits, withdrawals and cancellation
//! are legal, and the commission arithmetic applied at settlement time.
//!
//! External collaborators are modelled at their interface: the record store
//! is a keyed collection of plain records, the token-transfer service moves
//! `u64` balances between `TokenAccount` values, the clock is a timestamp
//! handed to each operation, and signer authentication is an address
//! comparison. Each entry point below names the records and balances its
//! operation works on, and its contract states exactly which inputs are
//! refused with which error and how the records change on success.

use vstd::prelude::*;

pub mod errors;
pub mod settlement;
pub mod state;
pub mod instructions;

use crate::errors::ErrorCode;
use crate::instructions::add_investors::{
    records_of, sum_amounts, sum_token_amounts, AddInvestors, AddInvestorsParams,
};
use crate::instructions::cancel_agreement::{CancelAgreement, CancelAgreementParams};
use crate::instructions::deposit_stablecoins::{DepositStablecoins, DepositStablecoinsParams};
use crate::instructions::initialize::{Initialize, InitializeParams};
use crate::instructions::initialize_agreement::{
    InitializeAgreement, InitializeAgreementParams,
};
use crate::instructions::process_token_deposit::{
    ProcessTokenDeposit, ProcessTokenDepositParams,
};
use crate::instructions::withdraw_cancelled_funds::{
    WithdrawCancelledFunds, WithdrawCancelledFundsParams,
};
use crate::instructions::withdraw_cancelled_funds_batch::{
    entry_after_refund, refund_count, refund_sum, refundable_entry,
    WithdrawCancelledFundsBatch, WithdrawCancelledFundsBatchParams,
};
use crate::instructions::withdraw_funds::{WithdrawFunds, WithdrawFundsParams};
use crate::instructions::withdraw_tokens::{WithdrawTokens, WithdrawTokensParams};
use crate::instructions::withdraw_tokens_batch::{
    commission_sum, eligible_alloc_sum, eligible_count, eligible_entry, entry_after,
    WithdrawTokensBatch, WithdrawTokensBatchParams,
};
use crate::settlement::{net_of, BASIC_POINTS};
use crate::state::agreement::Agreement;
use crate::state::investor::{BatchReport, EntryOutcome, Investor};
use crate::state::registry::wallets_unique;
use crate::state::settings::Settings;
use crate::state::token_account::TokenAccount;

verus! {

/// Creates the configuration singleton; see `Initialize::handle`.
pub fn initialize(params: InitializeParams) -> (s: Settings)
    requires
        params.commission_basis_points <= BASIC_POINTS,
    ensures
        s == (Settings {
            cancel_timeout: params.cancel_timeout,
            commission_basis_points: params.commission_basis_points,
            owner: params.owner,
        }),
        s.valid(),
{
    Initialize::handle(params)
}

/// Creates one agreement and its two empty pools; see
/// `InitializeAgreement::handle`.
pub fn initialize_agreement(ctx: &InitializeAgreement, params: InitializeAgreementParams)
    -> (r: Result<(Agreement, TokenAccount, TokenAccount), ErrorCode>)
    ensures
        match r {
            Ok((agreement, payment_pool, project_pool)) => {
                &&& ctx.validation(params) is None
                &&& agreement == ctx.created_agreement(params)
                &&& agreement.valid()
                &&& payment_pool == (TokenAccount {
                    address: ctx.payment_token_account,
                    owner: params.agreement_id,
                    mint: ctx.payment_token_mint,
                    amount: 0,
                })
                &&& project_pool == (TokenAccount {
                    address: ctx.project_token_account,
                    owner: params.agreement_id,
                    mint: ctx.project_token_mint,
                    amount: 0,
                })
            },
            Err(e) => ctx.validation(params) == Some(e),
        },
{
    ctx.handle(params)
}

/// Registers a batch of investors; see `AddInvestors::handle`.
pub fn add_investors(ctx: &mut AddInvestors, params: AddInvestorsParams)
    -> (r: Result<(), ErrorCode>)
    requires
        old(ctx).agreement.valid(),
        wallets_unique(old(ctx).registry.investors@),
        old(ctx).agreement.investors_count + params.allocations@.len() <= u64::MAX,
    ensures
        match r {
            Ok(()) => old(ctx).validation(params) is None
                && final(ctx).registry.investors@
                    == old(ctx).registry.investors@
                        + records_of(old(ctx).agreement.agreement_id, params.allocations@)
                && final(ctx).agreement == (Agreement {
                    total_required: (old(ctx).agreement.total_required
                        + sum_amounts(params.allocations@)) as u64,
                    total_token_allocation: (old(ctx).agreement.total_token_allocation
                        + sum_token_amounts(params.allocations@)) as u64,
                    investors_count: (old(ctx).agreement.investors_count
                        + params.allocations@.len()) as u64,
                    ..old(ctx).agreement
                })
                && final(ctx).agreement.valid()
                && wallets_unique(final(ctx).registry.investors@)
                && final(ctx).settings == old(ctx).settings
                && final(ctx).payer == old(ctx).payer,
            Err(e) => old(ctx).validation(params) == Some(e) && *final(ctx) == *old(ctx),
        },
{
    ctx.handle(params)
}

/// Processes the seller's token deposit; see `ProcessTokenDeposit::handle`.
pub fn process_token_deposit(ctx: &mut ProcessTokenDeposit, params: ProcessTokenDepositParams)
    -> (r: Result<(), ErrorCode>)
    requires
        old(ctx).agreement.valid(),
        old(ctx).clock >= 0,
        old(ctx).project_token_account.address == old(ctx).agreement.project_pool,
        old(ctx).validation() is None ==>
            old(ctx).company_token_account.amount + old(ctx).project_token_account.amount
                <= u64::MAX,
    ensures
        match r {
            Ok(()) => old(ctx).validation() is None
                && final(ctx).agreement == (Agreement {
                    seller_deposited: true,
                    first_deposit_time: old(ctx).clock,
                    ..old(ctx).agreement
                })
                && final(ctx).project_token_account == (TokenAccount {
                    amount: old(ctx).agreement.expected_tokens,
                    ..old(ctx).project_token_account
                })
                && final(ctx).company_token_account == (TokenAccount {
                    amount: (old(ctx).company_token_account.amount
                        + old(ctx).project_token_account.amount
                        - old(ctx).agreement.expected_tokens) as u64,
                    ..old(ctx).company_token_account
                })
                && final(ctx).clock == old(ctx).clock,
            Err(e) => old(ctx).validation() == Some(e) && *final(ctx) == *old(ctx),
        },
{
    ctx.handle(params)
}

/// Accepts a stablecoin deposit; see `DepositStablecoins::handle`.
pub fn deposit_stablecoins(ctx: &mut DepositStablecoins, params: DepositStablecoinsParams)
    -> (r: Result<(), ErrorCode>)
    requires
        old(ctx).agreement.valid(),
        old(ctx).clock >= 0,
        old(ctx).investor matches Some(investor)
            ==> investor.agreement == old(ctx).agreement.agreement_id,
        old(ctx).validation(params) is None ==> {
            &&& params.amount <= old(ctx).payer_token_account.amount
            &&& old(ctx).destination_token_account.amount + params.amount <= u64::MAX
        },
    ensures
        match r {
            Ok(()) => old(ctx).validation(params) is None
                && final(ctx).agreement == old(ctx).agreement_after(params)
                && final(ctx).agreement.valid()
                && final(ctx).investor == (match old(ctx).investor {
                    Some(investor) => Some(Investor {
                        investor_deposited: true,
                        ..investor
                    }),
                    None => None,
                })
                && final(ctx).payer_token_account == (TokenAccount {
                    amount: (old(ctx).payer_token_account.amount - params.amount) as u64,
                    ..old(ctx).payer_token_account
                })
                && final(ctx).destination_token_account == (TokenAccount {
                    amount: (old(ctx).destination_token_account.amount + params.amount) as u64,
                    ..old(ctx).destination_token_account
                })
                && final(ctx).payer == old(ctx).payer
                && final(ctx).clock == old(ctx).clock,
            Err(e) => old(ctx).validation(params) == Some(e) && *final(ctx) == *old(ctx),
        },
{
    ctx.handle(params)
}

/// Settles the collected payment; see `WithdrawFunds::handle`.
pub fn withdraw_funds(ctx: &mut WithdrawFunds, params: WithdrawFundsParams)
    -> (r: Result<(), ErrorCode>)
    requires
        old(ctx).agreement.valid(),
        old(ctx).settings.valid(),
        old(ctx).payment_token_account.address == old(ctx).agreement.payment_pool,
        old(ctx).validation() is None ==> {
            &&& old(ctx).payment_token_account.amount >= old(ctx).agreement.expected_payment
            &&& old(ctx).owner_token_account.amount + old(ctx).agreement.expected_payment
                <= u64::MAX
            &&& old(ctx).seller_token_account.amount + old(ctx).agreement.expected_payment
                <= u64::MAX
        },
    ensures
        match r {
            Ok(()) => old(ctx).validation() is None
                && final(ctx).agreement == (Agreement {
                    funds_commision_collected: true,
                    ..old(ctx).agreement
                })
                && final(ctx).payment_token_account == (TokenAccount {
                    amount: (old(ctx).payment_token_account.amount
                        - old(ctx).agreement.expected_payment) as u64,
                    ..old(ctx).payment_token_account
                })
                && final(ctx).owner_token_account == (TokenAccount {
                    amount: (old(ctx).owner_token_account.amount + old(ctx).commission()) as u64,
                    ..old(ctx).owner_token_account
                })
                && final(ctx).seller_token_account == (TokenAccount {
                    amount: (old(ctx).seller_token_account.amount
                        + net_of(
                            old(ctx).agreement.expected_payment as int,
                            old(ctx).settings.commission_basis_points as int,
                        )) as u64,
                    ..old(ctx).seller_token_account
                })
                && final(ctx).settings == old(ctx).settings,
            Err(e) => old(ctx).validation() == Some(e) && *final(ctx) == *old(ctx),
        },
{
    ctx.handle(params)
}

/// Pays one investor their tokens; see `WithdrawTokens::handle`.
pub fn withdraw_tokens(ctx: &mut WithdrawTokens, params: WithdrawTokensParams)
    -> (r: Result<(), ErrorCode>)
    requires
        old(ctx).agreement.valid(),
        old(ctx).settings.valid(),
        old(ctx).project_token_account.address == old(ctx).agreement.project_pool,
        old(ctx).investor.agreement == old(ctx).agreement.agreement_id,
        old(ctx).validation() is None ==> {
            &&& old(ctx).project_token_account.amount >= old(ctx).investor.token_allocation
            &&& old(ctx).owner_token_account.amount + old(ctx).investor.token_allocation
                <= u64::MAX
            &&& old(ctx).investor_token_account.amount + old(ctx).investor.token_allocation
                <= u64::MAX
            &&& old(ctx).agreement.token_commision_collected
                + old(ctx).investor.token_allocation <= u64::MAX
        },
    ensures
        match r {
            Ok(()) => old(ctx).validation() is None
                && final(ctx).agreement == (Agreement {
                    token_commision_collected: (old(ctx).agreement.token_commision_collected
                        + old(ctx).commission()) as u64,
                    ..old(ctx).agreement
                })
                && final(ctx).investor == (Investor {
                    has_withdrawn_tokens: true,
                    ..old(ctx).investor
                })
                && final(ctx).project_token_account == (TokenAccount {
                    amount: (old(ctx).project_token_account.amount
                        - old(ctx).investor.token_allocation) as u64,
                    ..old(ctx).project_token_account
                })
                && final(ctx).owner_token_account == (TokenAccount {
                    amount: (old(ctx).owner_token_account.amount + old(ctx).commission()) as u64,
                    ..old(ctx).owner_token_account
                })
                && final(ctx).investor_token_account == (TokenAccount {
                    amount: (old(ctx).investor_token_account.amount + old(ctx).payout()) as u64,
                    ..old(ctx).investor_token_account
                })
                && final(ctx).settings == old(ctx).settings
                && final(ctx).clock == old(ctx).clock,
            Err(e) => old(ctx).validation() == Some(e) && *final(ctx) == *old(ctx),
        },
{
    ctx.handle(params)
}

/// Pays a batch of investors their tokens; see `WithdrawTokensBatch::handle`.
pub fn withdraw_tokens_batch(ctx: &mut WithdrawTokensBatch, params: WithdrawTokensBatchParams)
    -> (r: Result<BatchReport, ErrorCode>)
    requires
        old(ctx).agreement.valid(),
        old(ctx).settings.valid(),
        old(ctx).project_token_account.address == old(ctx).agreement.project_pool,
        old(ctx).validation() is None ==> {
            &&& old(ctx).project_token_account.amount
                >= eligible_alloc_sum(old(ctx).entries@)
            &&& old(ctx).owner_token_account.amount
                + eligible_alloc_sum(old(ctx).entries@) <= u64::MAX
            &&& old(ctx).agreement.token_commision_collected
                + eligible_alloc_sum(old(ctx).entries@) <= u64::MAX
            &&& forall|i: int| 0 <= i < old(ctx).entries@.len()
                && eligible_entry(old(ctx).entries@[i])
                ==> old(ctx).entries@[i].destination.amount
                    + old(ctx).entries@[i].investor.token_allocation <= u64::MAX
        },
    ensures
        match r {
            Ok(report) => old(ctx).validation() is None
                && final(ctx).entries@.len() == old(ctx).entries@.len()
                && (forall|i: int| 0 <= i < old(ctx).entries@.len()
                    ==> final(ctx).entries@[i]
                        == entry_after(old(ctx).entries@[i], old(ctx).rate()))
                && final(ctx).project_token_account == (TokenAccount {
                    amount: (old(ctx).project_token_account.amount
                        - eligible_alloc_sum(old(ctx).entries@)) as u64,
                    ..old(ctx).project_token_account
                })
                && final(ctx).owner_token_account == (TokenAccount {
                    amount: (old(ctx).owner_token_account.amount
                        + commission_sum(old(ctx).entries@, old(ctx).rate())) as u64,
                    ..old(ctx).owner_token_account
                })
                && final(ctx).agreement == (Agreement {
                    token_commision_collected: (old(ctx).agreement.token_commision_collected
                        + commission_sum(old(ctx).entries@, old(ctx).rate())) as u64,
                    ..old(ctx).agreement
                })
                && final(ctx).settings == old(ctx).settings
                && final(ctx).clock == old(ctx).clock
                && report.outcomes@.len() == old(ctx).entries@.len()
                && (forall|i: int| 0 <= i < old(ctx).entries@.len()
                    ==> report.outcomes@[i] == (if eligible_entry(old(ctx).entries@[i]) {
                        EntryOutcome::Completed
                    } else {
                        EntryOutcome::Skipped
                    }))
                && report.success_count
                    == eligible_count(old(ctx).entries@)
                && report.success_count > 0,
            Err(e) => old(ctx).validation() == Some(e) && *final(ctx) == *old(ctx),
        },
{
    ctx.handle(params)
}

/// Cancels the sale under one of the two legal triggers; see
/// `CancelAgreement::handle`.
pub fn cancel_agreement(ctx: &mut CancelAgreement, params: CancelAgreementParams)
    -> (r: Result<(), ErrorCode>)
    requires
        old(ctx).agreement.valid(),
        old(ctx).project_token_account.address == old(ctx).agreement.project_pool,
        old(ctx).investor matches Some(investor)
            ==> investor.agreement == old(ctx).agreement.agreement_id,
    ensures
        match r {
            Ok(()) => old(ctx).validation() is None
                && *final(ctx) == (CancelAgreement {
                    agreement: Agreement {
                        agreement_cancelled: true,
                        ..old(ctx).agreement
                    },
                    ..*old(ctx)
                }),
            Err(e) => old(ctx).validation() == Some(e) && *final(ctx) == *old(ctx),
        },
{
    ctx.handle(params)
}

/// Reclaims funds from a cancelled agreement; see
/// `WithdrawCancelledFunds::handle`.
pub fn withdraw_cancelled_funds(
    ctx: &mut WithdrawCancelledFunds,
    params: WithdrawCancelledFundsParams,
) -> (r: Result<(), ErrorCode>)
    requires
        old(ctx).agreement.valid(),
        old(ctx).investor matches Some(investor)
            ==> investor.agreement == old(ctx).agreement.agreement_id,
        old(ctx).agreement_token_account.address
            == if old(ctx).investor is Some {
                old(ctx).agreement.payment_pool
            } else {
                old(ctx).agreement.project_pool
            },
        old(ctx).validation() is None ==> {
            &&& old(ctx).reclaimed() <= old(ctx).agreement_token_account.amount
            &&& old(ctx).destination_token_account.amount + old(ctx).reclaimed() <= u64::MAX
        },
    ensures
        match r {
            Ok(()) => old(ctx).validation() is None
                && *final(ctx) == (WithdrawCancelledFunds {
                    agreement_token_account: TokenAccount {
                        amount: (old(ctx).agreement_token_account.amount
                            - old(ctx).reclaimed()) as u64,
                        ..old(ctx).agreement_token_account
                    },
                    destination_token_account: TokenAccount {
                        amount: (old(ctx).destination_token_account.amount
                            + old(ctx).reclaimed()) as u64,
                        ..old(ctx).destination_token_account
                    },
                    ..*old(ctx)
                }),
            Err(e) => old(ctx).validation() == Some(e) && *final(ctx) == *old(ctx),
        },
{
    ctx.handle(params)
}

/// Refunds a batch of investors after cancellation; see
/// `WithdrawCancelledFundsBatch::handle`.
pub fn withdraw_cancelled_funds_batch(
    ctx: &mut WithdrawCancelledFundsBatch,
    params: WithdrawCancelledFundsBatchParams,
) -> (r: Result<BatchReport, ErrorCode>)
    requires
        old(ctx).agreement.valid(),
        old(ctx).payment_token_account.address == old(ctx).agreement.payment_pool,
        old(ctx).validation() is None ==> {
            &&& old(ctx).payment_token_account.amount
                >= refund_sum(old(ctx).entries@)
            &&& forall|i: int| 0 <= i < old(ctx).entries@.len()
                && refundable_entry(old(ctx).entries@[i])
                ==> old(ctx).entries@[i].destination.amount
                    + old(ctx).entries@[i].investor.required_amount <= u64::MAX
        },
    ensures
        match r {
            Ok(report) => old(ctx).validation() is None
                && final(ctx).entries@.len() == old(ctx).entries@.len()
                && (forall|i: int| 0 <= i < old(ctx).entries@.len()
                    ==> final(ctx).entries@[i]
                        == entry_after_refund(old(ctx).entries@[i]))
                && final(ctx).payment_token_account == (TokenAccount {
                    amount: (old(ctx).payment_token_account.amount
                        - refund_sum(old(ctx).entries@)) as u64,
                    ..old(ctx).payment_token_account
                })
                && final(ctx).agreement == old(ctx).agreement
                && report.outcomes@.len() == old(ctx).entries@.len()
                && (forall|i: int| 0 <= i < old(ctx).entries@.len()
                    ==> report.outcomes@[i] == (if refundable_entry(old(ctx).entries@[i]) {
                        EntryOutcome::Completed
                    } else {
                        EntryOutcome::Skipped
                    }))
                && report.success_count
                    == refund_count(old(ctx).entries@)
                && report.success_count > 0,
            Err(e) => old(ctx).validation() == Some(e) && *final(ctx) == *old(ctx),
        },
{
    ctx.handle(params)
}

} // verus!
