//! End-to-end runs of a whole sale, the caller playing the record store.

use token_time_lock_agreement::errors::ErrorCode;
use token_time_lock_agreement::instructions::add_investors::{
    AddInvestors, AddInvestorsParams, InvestorAllocation,
};
use token_time_lock_agreement::instructions::cancel_agreement::{
    CancelAgreement, CancelAgreementParams,
};
use token_time_lock_agreement::instructions::deposit_stablecoins::{
    DepositStablecoins, DepositStablecoinsParams,
};
use token_time_lock_agreement::instructions::initialize::{Initialize, InitializeParams};
use token_time_lock_agreement::instructions::initialize_agreement::{
    InitializeAgreement, InitializeAgreementParams,
};
use token_time_lock_agreement::instructions::process_token_deposit::{
    ProcessTokenDeposit, ProcessTokenDepositParams,
};
use token_time_lock_agreement::instructions::withdraw_cancelled_funds::{
    WithdrawCancelledFunds, WithdrawCancelledFundsParams,
};
use token_time_lock_agreement::instructions::withdraw_funds::{
    WithdrawFunds, WithdrawFundsParams,
};
use token_time_lock_agreement::instructions::withdraw_tokens::{
    WithdrawTokens, WithdrawTokensParams,
};
use token_time_lock_agreement::state::agreement::AgreementState;
use token_time_lock_agreement::state::registry::InvestorRegistry;
use token_time_lock_agreement::state::settings::Settings;
use token_time_lock_agreement::state::token_account::TokenAccount;

const ADMIN: u64 = 1;
const COMPANY: u64 = 2;
const SELLER: u64 = 3;
const INVESTOR: u64 = 4;
const PAYMENT_MINT: u64 = 10;
const PROJECT_MINT: u64 = 11;
const CANCEL_TIMEOUT: i64 = 3600;
const HOLD_DURATION: i64 = 86400;

fn settings() -> Settings {
    Initialize::handle(InitializeParams {
        cancel_timeout: CANCEL_TIMEOUT,
        commission_basis_points: 100,
        owner: ADMIN,
    })
}

fn account(address: u64, owner: u64, mint: u64, amount: u64) -> TokenAccount {
    TokenAccount { address, owner, mint, amount }
}

#[test]
fn full_sale_from_creation_to_token_claim() {
    let settings = settings();

    // the administrator creates the agreement and its pools
    let (agreement, payment_pool, project_pool) = InitializeAgreement {
        settings,
        payment_token_mint: PAYMENT_MINT,
        project_token_mint: PROJECT_MINT,
        payment_token_account: 20,
        project_token_account: 21,
        company_wallet: COMPANY,
        token_seller: SELLER,
        payer: ADMIN,
    }
    .handle(InitializeAgreementParams {
        agreement_id: 7,
        expected_payment: 1000,
        expected_tokens: 500,
        hold_duration: HOLD_DURATION,
    })
    .unwrap();
    assert_eq!(agreement.state(0), AgreementState::Registering);

    // one investor is registered for the whole sale
    let mut registration = AddInvestors {
        settings,
        agreement,
        registry: InvestorRegistry::new(),
        payer: ADMIN,
    };
    registration
        .handle(AddInvestorsParams {
            allocations: vec![InvestorAllocation {
                amount: 1000,
                token_amount: 500,
                wallet: INVESTOR,
            }],
        })
        .unwrap();
    assert_eq!(registration.agreement.total_required, 1000);
    let investor = *registration.registry.get(INVESTOR).unwrap();

    // the seller moves 500 tokens into the project pool, then the deposit is
    // processed
    let mut token_deposit = ProcessTokenDeposit {
        agreement: registration.agreement,
        project_token_account: TokenAccount { amount: 500, ..project_pool },
        company_token_account: account(30, COMPANY, PROJECT_MINT, 0),
        clock: 1_000,
    };
    token_deposit.handle(ProcessTokenDepositParams).unwrap();
    assert!(token_deposit.agreement.seller_deposited);
    assert_eq!(token_deposit.agreement.state(1_000), AgreementState::Funded);

    // the investor deposits exactly their required amount
    let mut deposit = DepositStablecoins {
        agreement: token_deposit.agreement,
        investor: Some(investor),
        destination_token_account: payment_pool,
        payer_token_account: account(31, INVESTOR, PAYMENT_MINT, 1000),
        payer: INVESTOR,
        clock: 2_000,
    };
    deposit.handle(DepositStablecoinsParams { amount: 1000 }).unwrap();
    assert_eq!(deposit.agreement.total_invested, 1000);
    assert_eq!(deposit.agreement.hold_duration_start, 2_000);
    assert_eq!(deposit.agreement.state(2_000), AgreementState::Locked);

    // the settlement pays 10 to the administrator and 990 to the seller
    let mut funds = WithdrawFunds {
        settings,
        agreement: deposit.agreement,
        payment_token_account: deposit.destination_token_account,
        seller_token_account: account(32, SELLER, PAYMENT_MINT, 0),
        owner_token_account: account(33, ADMIN, PAYMENT_MINT, 0),
    };
    funds.handle(WithdrawFundsParams).unwrap();
    assert_eq!(funds.owner_token_account.amount, 10);
    assert_eq!(funds.seller_token_account.amount, 990);

    // before the hold period ends, tokens are locked
    let mut early_claim = WithdrawTokens {
        settings,
        agreement: funds.agreement,
        investor: deposit.investor.unwrap(),
        project_token_account: token_deposit.project_token_account,
        investor_token_account: account(34, INVESTOR, PROJECT_MINT, 0),
        owner_token_account: account(35, ADMIN, PROJECT_MINT, 0),
        clock: 2_000 + HOLD_DURATION - 1,
    };
    assert_eq!(
        early_claim.handle(WithdrawTokensParams),
        Err(ErrorCode::HoldDurationPeriodNotExpired)
    );
    assert_eq!(
        early_claim.agreement.state(2_000 + HOLD_DURATION - 1),
        AgreementState::Locked
    );

    // after the hold period the claim pays 5 and 495
    let mut claim = WithdrawTokens { clock: 2_000 + HOLD_DURATION, ..early_claim };
    assert_eq!(
        claim.agreement.state(2_000 + HOLD_DURATION),
        AgreementState::Withdrawable
    );
    claim.handle(WithdrawTokensParams).unwrap();
    assert_eq!(claim.owner_token_account.amount, 5);
    assert_eq!(claim.investor_token_account.amount, 495);
    assert_eq!(claim.project_token_account.amount, 0);

    // a second claim fails as already withdrawn
    assert_eq!(claim.handle(WithdrawTokensParams), Err(ErrorCode::TokensAlreadyWithdrawn));
}

#[test]
fn abandoned_sale_is_cancelled_and_unwound() {
    let settings = settings();
    let (agreement, payment_pool, project_pool) = InitializeAgreement {
        settings,
        payment_token_mint: PAYMENT_MINT,
        project_token_mint: PROJECT_MINT,
        payment_token_account: 20,
        project_token_account: 21,
        company_wallet: COMPANY,
        token_seller: SELLER,
        payer: ADMIN,
    }
    .handle(InitializeAgreementParams {
        agreement_id: 7,
        expected_payment: 1000,
        expected_tokens: 500,
        hold_duration: HOLD_DURATION,
    })
    .unwrap();

    let mut registration = AddInvestors {
        settings,
        agreement,
        registry: InvestorRegistry::new(),
        payer: ADMIN,
    };
    registration
        .handle(AddInvestorsParams {
            allocations: vec![InvestorAllocation {
                amount: 600,
                token_amount: 300,
                wallet: INVESTOR,
            }],
        })
        .unwrap();
    let investor = *registration.registry.get(INVESTOR).unwrap();

    // seller never deposits and the pool is empty: nothing to cancel
    let mut premature = CancelAgreement {
        settings,
        agreement: registration.agreement,
        project_token_account: project_pool,
        investor: None,
        payer: SELLER,
        clock: 500,
    };
    assert_eq!(premature.handle(CancelAgreementParams), Err(ErrorCode::TokensNotDeposited));

    // the seller deposits; the investor pays their 600 of the expected 1000
    let mut token_deposit = ProcessTokenDeposit {
        agreement: premature.agreement,
        project_token_account: TokenAccount { amount: 500, ..project_pool },
        company_token_account: account(30, COMPANY, PROJECT_MINT, 0),
        clock: 1_000,
    };
    token_deposit.handle(ProcessTokenDepositParams).unwrap();
    let mut deposit = DepositStablecoins {
        agreement: token_deposit.agreement,
        investor: Some(investor),
        destination_token_account: payment_pool,
        payer_token_account: account(31, INVESTOR, PAYMENT_MINT, 600),
        payer: INVESTOR,
        clock: 1_500,
    };
    deposit.handle(DepositStablecoinsParams { amount: 600 }).unwrap();
    assert_eq!(deposit.agreement.total_invested, 600);

    // an immediate cancellation attempt is too early
    let mut early = CancelAgreement {
        settings,
        agreement: deposit.agreement,
        project_token_account: token_deposit.project_token_account,
        investor: None,
        payer: SELLER,
        clock: 1_200,
    };
    assert_eq!(
        early.handle(CancelAgreementParams),
        Err(ErrorCode::CancellationTimeoutNotReached)
    );

    // once the timeout elapses with the funding incomplete, it succeeds
    let mut due = CancelAgreement { clock: 1_000 + CANCEL_TIMEOUT, ..early };
    due.handle(CancelAgreementParams).unwrap();
    assert!(due.agreement.agreement_cancelled);
    assert_eq!(due.agreement.state(1_000 + CANCEL_TIMEOUT), AgreementState::Cancelled);

    // the investor gets their deposit back from the payment pool
    let mut refund = WithdrawCancelledFunds {
        agreement: due.agreement,
        investor: deposit.investor,
        agreement_token_account: deposit.destination_token_account,
        destination_token_account: account(40, INVESTOR, PAYMENT_MINT, 0),
        payer: INVESTOR,
    };
    refund.handle(WithdrawCancelledFundsParams).unwrap();
    assert_eq!(refund.destination_token_account.amount, 600);
    assert_eq!(refund.agreement_token_account.amount, 0);

    // the seller takes back the remaining project tokens
    let mut reclaim = WithdrawCancelledFunds {
        agreement: refund.agreement,
        investor: None,
        agreement_token_account: due.project_token_account,
        destination_token_account: account(41, SELLER, PROJECT_MINT, 0),
        payer: SELLER,
    };
    reclaim.handle(WithdrawCancelledFundsParams).unwrap();
    assert_eq!(reclaim.destination_token_account.amount, 500);
    assert_eq!(reclaim.agreement_token_account.amount, 0);
    // cancellation stays terminal
    assert!(reclaim.agreement.agreement_cancelled);
    assert!(reclaim.agreement.seller_deposited);
}
