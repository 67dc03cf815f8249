//! Settlement of funds and token claims, single and batch.

use token_time_lock_agreement::errors::ErrorCode;
use token_time_lock_agreement::instructions::initialize::{Initialize, InitializeParams};
use token_time_lock_agreement::instructions::withdraw_funds::{
    WithdrawFunds, WithdrawFundsParams,
};
use token_time_lock_agreement::instructions::withdraw_tokens::{
    WithdrawTokens, WithdrawTokensParams,
};
use token_time_lock_agreement::instructions::withdraw_tokens_batch::{
    WithdrawTokensBatch, WithdrawTokensBatchParams,
};
use token_time_lock_agreement::state::agreement::Agreement;
use token_time_lock_agreement::state::investor::{BatchEntry, EntryOutcome, Investor};
use token_time_lock_agreement::state::settings::Settings;
use token_time_lock_agreement::state::token_account::TokenAccount;

const ADMIN: u64 = 1;
const COMPANY: u64 = 2;
const SELLER: u64 = 3;
const WALLET_A: u64 = 4;
const WALLET_B: u64 = 5;
const PAYMENT_MINT: u64 = 10;
const PROJECT_MINT: u64 = 11;

fn settings_at(rate: u16) -> Settings {
    Initialize::handle(InitializeParams {
        cancel_timeout: 3600,
        commission_basis_points: rate,
        owner: ADMIN,
    })
}

/// A fully funded agreement: seller deposited, the whole expected payment
/// collected, hold started at 2000.
fn locked_agreement() -> Agreement {
    Agreement {
        agreement_id: 7,
        payment_token_mint: PAYMENT_MINT,
        project_token_mint: PROJECT_MINT,
        company_wallet: COMPANY,
        token_seller: SELLER,
        expected_payment: 1000,
        expected_tokens: 500,
        total_invested: 1000,
        total_required: 1000,
        total_token_allocation: 500,
        hold_duration: 86400,
        hold_duration_start: 2_000,
        seller_deposited: true,
        first_deposit_time: 1_000,
        funds_commision_collected: false,
        token_commision_collected: 0,
        agreement_cancelled: false,
        investors_count: 2,
        owner: ADMIN,
        payment_pool: 20,
        project_pool: 21,
    }
}

fn payment_pool(amount: u64) -> TokenAccount {
    TokenAccount { address: 20, owner: 7, mint: PAYMENT_MINT, amount }
}

fn project_pool(amount: u64) -> TokenAccount {
    TokenAccount { address: 21, owner: 7, mint: PROJECT_MINT, amount }
}

fn funds_context(rate: u16) -> WithdrawFunds {
    WithdrawFunds {
        settings: settings_at(rate),
        agreement: locked_agreement(),
        payment_token_account: payment_pool(1000),
        seller_token_account: TokenAccount {
            address: 32,
            owner: SELLER,
            mint: PAYMENT_MINT,
            amount: 0,
        },
        owner_token_account: TokenAccount {
            address: 33,
            owner: ADMIN,
            mint: PAYMENT_MINT,
            amount: 0,
        },
    }
}

fn deposited_investor(wallet: u64, allocation: u64) -> Investor {
    Investor {
        has_withdrawn_tokens: false,
        investor_deposited: true,
        token_allocation: allocation,
        required_amount: 1000,
        wallet,
        agreement: 7,
    }
}

fn tokens_context(rate: u16) -> WithdrawTokens {
    WithdrawTokens {
        settings: settings_at(rate),
        agreement: locked_agreement(),
        investor: deposited_investor(WALLET_A, 500),
        project_token_account: project_pool(500),
        investor_token_account: TokenAccount {
            address: 34,
            owner: WALLET_A,
            mint: PROJECT_MINT,
            amount: 0,
        },
        owner_token_account: TokenAccount {
            address: 35,
            owner: ADMIN,
            mint: PROJECT_MINT,
            amount: 0,
        },
        clock: 2_000 + 86400,
    }
}

fn batch_context(rate: u16, entries: Vec<BatchEntry>, pool: u64) -> WithdrawTokensBatch {
    WithdrawTokensBatch {
        settings: settings_at(rate),
        agreement: locked_agreement(),
        project_token_account: project_pool(pool),
        owner_token_account: TokenAccount {
            address: 35,
            owner: ADMIN,
            mint: PROJECT_MINT,
            amount: 0,
        },
        entries,
        clock: 2_000 + 86400,
    }
}

fn entry(wallet: u64, allocation: u64, address: u64) -> BatchEntry {
    BatchEntry {
        investor: deposited_investor(wallet, allocation),
        destination: TokenAccount { address, owner: wallet, mint: PROJECT_MINT, amount: 0 },
    }
}

#[test]
fn funds_split_exactly_between_administrator_and_seller() {
    let mut ctx = funds_context(100);
    assert_eq!(ctx.handle(WithdrawFundsParams), Ok(()));
    assert_eq!(ctx.owner_token_account.amount, 10);
    assert_eq!(ctx.seller_token_account.amount, 990);
    assert_eq!(ctx.owner_token_account.amount + ctx.seller_token_account.amount, 1000);
    assert_eq!(ctx.payment_token_account.amount, 0);
    assert!(ctx.agreement.funds_commision_collected);
}

#[test]
fn funds_split_holds_at_rate_bounds() {
    let mut zero = funds_context(0);
    assert_eq!(zero.handle(WithdrawFundsParams), Ok(()));
    assert_eq!(zero.owner_token_account.amount, 0);
    assert_eq!(zero.seller_token_account.amount, 1000);
    assert!(zero.agreement.funds_commision_collected);

    let mut full = funds_context(10000);
    assert_eq!(full.handle(WithdrawFundsParams), Ok(()));
    assert_eq!(full.owner_token_account.amount, 1000);
    assert_eq!(full.seller_token_account.amount, 0);
}

#[test]
fn funds_settlement_succeeds_at_most_once() {
    let mut ctx = funds_context(100);
    assert_eq!(ctx.handle(WithdrawFundsParams), Ok(()));
    // put money back in to show the flag alone refuses the second call
    ctx.payment_token_account.amount = 1000;
    assert_eq!(
        ctx.handle(WithdrawFundsParams),
        Err(ErrorCode::FundCommissionAlreadyCollected)
    );
    // even at rate zero the flag is set by the first success
    let mut zero = funds_context(0);
    assert_eq!(zero.handle(WithdrawFundsParams), Ok(()));
    zero.payment_token_account.amount = 1000;
    assert_eq!(
        zero.handle(WithdrawFundsParams),
        Err(ErrorCode::FundCommissionAlreadyCollected)
    );
}

#[test]
fn funds_settlement_rejections() {
    let mut cancelled = funds_context(100);
    cancelled.agreement.agreement_cancelled = true;
    assert_eq!(
        cancelled.handle(WithdrawFundsParams),
        Err(ErrorCode::AgreementAlreadyCancelled)
    );

    let mut not_full = funds_context(100);
    not_full.agreement.total_invested = 999;
    assert_eq!(
        not_full.handle(WithdrawFundsParams),
        Err(ErrorCode::FullAmountNotCollected)
    );
    assert_eq!(not_full.payment_token_account.amount, 1000);

    let mut wrong_seller = funds_context(100);
    wrong_seller.seller_token_account.owner = WALLET_A;
    assert_eq!(
        wrong_seller.handle(WithdrawFundsParams),
        Err(ErrorCode::InvalidDestination)
    );

    let mut wrong_owner = funds_context(100);
    wrong_owner.owner_token_account.owner = WALLET_A;
    assert_eq!(
        wrong_owner.handle(WithdrawFundsParams),
        Err(ErrorCode::InvalidDestination)
    );
}

#[test]
fn token_claim_pays_commission_and_net_exactly() {
    let mut ctx = tokens_context(100);
    assert_eq!(ctx.handle(WithdrawTokensParams), Ok(()));
    // floor(500 * 100 / 10000) = 5 to the administrator, 495 to the investor
    assert_eq!(ctx.owner_token_account.amount, 5);
    assert_eq!(ctx.investor_token_account.amount, 495);
    assert_eq!(ctx.project_token_account.amount, 0);
    assert_eq!(ctx.agreement.token_commision_collected, 5);
    assert!(ctx.investor.has_withdrawn_tokens);
}

#[test]
fn token_claim_cannot_be_repeated() {
    let mut ctx = tokens_context(100);
    assert_eq!(ctx.handle(WithdrawTokensParams), Ok(()));
    ctx.project_token_account.amount = 500;
    assert_eq!(ctx.handle(WithdrawTokensParams), Err(ErrorCode::TokensAlreadyWithdrawn));
}

#[test]
fn token_claim_rejections() {
    let mut not_funded = tokens_context(100);
    not_funded.agreement.seller_deposited = false;
    assert_eq!(not_funded.handle(WithdrawTokensParams), Err(ErrorCode::TokensNotDeposited));

    let mut not_deposited = tokens_context(100);
    not_deposited.investor.investor_deposited = false;
    assert_eq!(not_deposited.handle(WithdrawTokensParams), Err(ErrorCode::NotAnInvestor));

    let mut cancelled = tokens_context(100);
    cancelled.agreement.agreement_cancelled = true;
    assert_eq!(
        cancelled.handle(WithdrawTokensParams),
        Err(ErrorCode::AgreementAlreadyCancelled)
    );

    let mut no_hold = tokens_context(100);
    no_hold.agreement.hold_duration_start = 0;
    assert_eq!(no_hold.handle(WithdrawTokensParams), Err(ErrorCode::HoldDurationNotStarted));

    let mut early = tokens_context(100);
    early.clock = 2_000 + 86400 - 1;
    assert_eq!(
        early.handle(WithdrawTokensParams),
        Err(ErrorCode::HoldDurationPeriodNotExpired)
    );

    let mut wrong_owner = tokens_context(100);
    wrong_owner.owner_token_account.owner = WALLET_A;
    assert_eq!(wrong_owner.handle(WithdrawTokensParams), Err(ErrorCode::InvalidDestination));
}

#[test]
fn batch_claim_pays_every_eligible_entry_and_pools_commission() {
    let mut skipped = entry(WALLET_B, 200, 41);
    skipped.investor.has_withdrawn_tokens = true;
    let entries = vec![entry(WALLET_A, 300, 40), skipped, entry(6, 200, 42)];
    let mut ctx = batch_context(100, entries, 500);
    let report = ctx.handle(WithdrawTokensBatchParams).unwrap();
    assert_eq!(report.success_count, 2);
    assert_eq!(
        report.outcomes,
        vec![EntryOutcome::Completed, EntryOutcome::Skipped, EntryOutcome::Completed]
    );
    // floor(300*1%) = 3 and floor(200*1%) = 2
    assert_eq!(ctx.entries[0].destination.amount, 297);
    assert!(ctx.entries[0].investor.has_withdrawn_tokens);
    assert_eq!(ctx.entries[1].destination.amount, 0);
    assert_eq!(ctx.entries[2].destination.amount, 198);
    assert_eq!(ctx.owner_token_account.amount, 5);
    assert_eq!(ctx.agreement.token_commision_collected, 5);
    assert_eq!(ctx.project_token_account.amount, 0);
}

#[test]
fn batch_claim_skips_undeposited_and_withdrawn() {
    let mut undeposited = entry(WALLET_A, 300, 40);
    undeposited.investor.investor_deposited = false;
    let entries = vec![undeposited, entry(WALLET_B, 200, 41)];
    let mut ctx = batch_context(100, entries, 500);
    let report = ctx.handle(WithdrawTokensBatchParams).unwrap();
    assert_eq!(report.success_count, 1);
    assert_eq!(report.outcomes, vec![EntryOutcome::Skipped, EntryOutcome::Completed]);
    assert!(!ctx.entries[0].investor.investor_deposited);
    assert_eq!(ctx.entries[0].destination.amount, 0);
}

#[test]
fn batch_claim_fails_when_nothing_qualifies() {
    let mut done = entry(WALLET_A, 300, 40);
    done.investor.has_withdrawn_tokens = true;
    let mut ctx = batch_context(100, vec![done], 500);
    assert_eq!(ctx.handle(WithdrawTokensBatchParams), Err(ErrorCode::NotAnInvestor));
    assert_eq!(ctx.project_token_account.amount, 500);
    assert!(ctx.entries[0].investor.has_withdrawn_tokens);
}

#[test]
fn batch_claim_fails_whole_call_on_foreign_entry() {
    let mut foreign = entry(WALLET_B, 200, 41);
    foreign.investor.agreement = 8;
    let mut ctx = batch_context(100, vec![entry(WALLET_A, 300, 40), foreign], 500);
    assert_eq!(
        ctx.handle(WithdrawTokensBatchParams),
        Err(ErrorCode::InvalidInvestorAccount)
    );
    // nothing was paid out
    assert_eq!(ctx.entries[0].destination.amount, 0);
    assert!(!ctx.entries[0].investor.has_withdrawn_tokens);
    assert_eq!(ctx.project_token_account.amount, 500);
}

#[test]
fn batch_claim_header_rejections() {
    let mut early = batch_context(100, vec![entry(WALLET_A, 300, 40)], 500);
    early.clock = 2_000;
    assert_eq!(
        early.handle(WithdrawTokensBatchParams),
        Err(ErrorCode::HoldDurationPeriodNotExpired)
    );
    let mut wrong_owner = batch_context(100, vec![entry(WALLET_A, 300, 40)], 500);
    wrong_owner.owner_token_account.owner = WALLET_A;
    assert_eq!(
        wrong_owner.handle(WithdrawTokensBatchParams),
        Err(ErrorCode::InvalidDestination)
    );
}
