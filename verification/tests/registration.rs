//! Creating agreements and registering investors.

use token_time_lock_agreement::errors::ErrorCode;
use token_time_lock_agreement::instructions::add_investors::{
    AddInvestors, AddInvestorsParams, InvestorAllocation,
};
use token_time_lock_agreement::instructions::initialize::{Initialize, InitializeParams};
use token_time_lock_agreement::instructions::initialize_agreement::{
    InitializeAgreement, InitializeAgreementParams,
};
use token_time_lock_agreement::state::agreement::Agreement;
use token_time_lock_agreement::state::registry::InvestorRegistry;
use token_time_lock_agreement::state::settings::Settings;

const ADMIN: u64 = 1;
const COMPANY: u64 = 2;
const SELLER: u64 = 3;
const WALLET_A: u64 = 4;
const WALLET_B: u64 = 5;

fn settings() -> Settings {
    Initialize::handle(InitializeParams {
        cancel_timeout: 3600,
        commission_basis_points: 100,
        owner: ADMIN,
    })
}

fn creation_context() -> InitializeAgreement {
    InitializeAgreement {
        settings: settings(),
        payment_token_mint: 10,
        project_token_mint: 11,
        payment_token_account: 20,
        project_token_account: 21,
        company_wallet: COMPANY,
        token_seller: SELLER,
        payer: ADMIN,
    }
}

fn fresh_agreement() -> Agreement {
    let (agreement, _, _) = creation_context()
        .handle(InitializeAgreementParams {
            agreement_id: 7,
            expected_payment: 1000,
            expected_tokens: 500,
            hold_duration: 86400,
        })
        .unwrap();
    agreement
}

fn registration_context() -> AddInvestors {
    AddInvestors {
        settings: settings(),
        agreement: fresh_agreement(),
        registry: InvestorRegistry::new(),
        payer: ADMIN,
    }
}

fn allocation(wallet: u64, amount: u64, token_amount: u64) -> InvestorAllocation {
    InvestorAllocation { amount, token_amount, wallet }
}

#[test]
fn creation_records_terms_and_empty_pools() {
    let (agreement, payment_pool, project_pool) = creation_context()
        .handle(InitializeAgreementParams {
            agreement_id: 7,
            expected_payment: 1000,
            expected_tokens: 500,
            hold_duration: 86400,
        })
        .unwrap();
    assert_eq!(agreement.agreement_id, 7);
    assert_eq!(agreement.expected_payment, 1000);
    assert_eq!(agreement.expected_tokens, 500);
    assert_eq!(agreement.hold_duration, 86400);
    assert_eq!(agreement.token_seller, SELLER);
    assert_eq!(agreement.company_wallet, COMPANY);
    assert_eq!(agreement.owner, ADMIN);
    assert_eq!(agreement.total_invested, 0);
    assert_eq!(agreement.total_required, 0);
    assert_eq!(agreement.total_token_allocation, 0);
    assert_eq!(agreement.investors_count, 0);
    assert!(!agreement.seller_deposited);
    assert!(!agreement.agreement_cancelled);
    assert_eq!(payment_pool.amount, 0);
    assert_eq!(payment_pool.mint, 10);
    assert_eq!(project_pool.amount, 0);
    assert_eq!(project_pool.mint, 11);
}

#[test]
fn creation_rejects_bad_terms() {
    let ctx = creation_context();
    let base = InitializeAgreementParams {
        agreement_id: 7,
        expected_payment: 1000,
        expected_tokens: 500,
        hold_duration: 86400,
    };
    assert_eq!(
        ctx.handle(InitializeAgreementParams { expected_payment: 0, ..base }),
        Err(ErrorCode::InvalidAmount)
    );
    assert_eq!(
        ctx.handle(InitializeAgreementParams { expected_tokens: 0, ..base }),
        Err(ErrorCode::InvalidAmount)
    );
    assert_eq!(
        ctx.handle(InitializeAgreementParams { hold_duration: 0, ..base }),
        Err(ErrorCode::InvalidHoldDuration)
    );
    assert_eq!(
        ctx.handle(InitializeAgreementParams { hold_duration: -5, ..base }),
        Err(ErrorCode::InvalidHoldDuration)
    );
    let stranger = InitializeAgreement { payer: SELLER, ..creation_context() };
    assert_eq!(stranger.handle(base), Err(ErrorCode::NotAuthorized));
}

#[test]
fn registration_creates_records_and_raises_totals() {
    let mut ctx = registration_context();
    let r = ctx.handle(AddInvestorsParams {
        allocations: vec![allocation(WALLET_A, 600, 300), allocation(WALLET_B, 400, 200)],
    });
    assert_eq!(r, Ok(()));
    assert_eq!(ctx.agreement.total_required, 1000);
    assert_eq!(ctx.agreement.total_token_allocation, 500);
    assert_eq!(ctx.agreement.investors_count, 2);
    assert_eq!(ctx.registry.investors.len(), 2);
    let a = ctx.registry.get(WALLET_A).unwrap();
    assert_eq!(a.required_amount, 600);
    assert_eq!(a.token_allocation, 300);
    assert_eq!(a.agreement, 7);
    assert!(!a.investor_deposited);
    assert!(!a.has_withdrawn_tokens);
    let b = ctx.registry.get(WALLET_B).unwrap();
    assert_eq!(b.required_amount, 400);
    assert_eq!(b.token_allocation, 200);
}

#[test]
fn registration_is_administrator_only() {
    let mut ctx = AddInvestors { payer: SELLER, ..registration_context() };
    let r = ctx.handle(AddInvestorsParams { allocations: vec![allocation(WALLET_A, 600, 300)] });
    assert_eq!(r, Err(ErrorCode::NotAuthorized));
    assert_eq!(ctx.agreement.total_required, 0);
}

#[test]
fn registration_closes_once_seller_deposited() {
    let mut ctx = registration_context();
    ctx.agreement.seller_deposited = true;
    let r = ctx.handle(AddInvestorsParams { allocations: vec![allocation(WALLET_A, 600, 300)] });
    assert_eq!(r, Err(ErrorCode::SellerDeposited));
}

#[test]
fn batch_exceeding_payment_target_is_rejected_in_full() {
    let mut ctx = registration_context();
    // individually fine, collectively one unit over the 1000 target
    let r = ctx.handle(AddInvestorsParams {
        allocations: vec![allocation(WALLET_A, 600, 300), allocation(WALLET_B, 401, 200)],
    });
    assert_eq!(r, Err(ErrorCode::TotalAllocationsExceedTarget));
    assert_eq!(ctx.agreement.total_required, 0);
    assert_eq!(ctx.agreement.investors_count, 0);
    assert_eq!(ctx.registry.investors.len(), 0);
}

#[test]
fn batch_exceeding_token_target_is_rejected_in_full() {
    let mut ctx = registration_context();
    let r = ctx.handle(AddInvestorsParams {
        allocations: vec![allocation(WALLET_A, 600, 300), allocation(WALLET_B, 400, 201)],
    });
    assert_eq!(r, Err(ErrorCode::TotalTokenAllocationsExceedTarget));
    assert_eq!(ctx.agreement.total_token_allocation, 0);
    assert_eq!(ctx.registry.investors.len(), 0);
}

#[test]
fn second_batch_respects_remaining_target() {
    let mut ctx = registration_context();
    assert_eq!(
        ctx.handle(AddInvestorsParams { allocations: vec![allocation(WALLET_A, 600, 300)] }),
        Ok(())
    );
    // 600 of 1000 is taken: 401 more does not fit
    assert_eq!(
        ctx.handle(AddInvestorsParams { allocations: vec![allocation(WALLET_B, 401, 200)] }),
        Err(ErrorCode::TotalAllocationsExceedTarget)
    );
    assert_eq!(ctx.agreement.total_required, 600);
    // 400 fits exactly
    assert_eq!(
        ctx.handle(AddInvestorsParams { allocations: vec![allocation(WALLET_B, 400, 200)] }),
        Ok(())
    );
    assert_eq!(ctx.agreement.total_required, 1000);
    assert_eq!(ctx.agreement.total_token_allocation, 500);
}

#[test]
fn duplicate_wallet_in_one_batch_is_rejected() {
    let mut ctx = registration_context();
    let r = ctx.handle(AddInvestorsParams {
        allocations: vec![allocation(WALLET_A, 300, 100), allocation(WALLET_A, 300, 100)],
    });
    assert_eq!(r, Err(ErrorCode::DuplicateInvestor));
    assert_eq!(ctx.registry.investors.len(), 0);
}

#[test]
fn already_registered_wallet_is_rejected() {
    let mut ctx = registration_context();
    assert_eq!(
        ctx.handle(AddInvestorsParams { allocations: vec![allocation(WALLET_A, 300, 100)] }),
        Ok(())
    );
    let r = ctx.handle(AddInvestorsParams { allocations: vec![allocation(WALLET_A, 300, 100)] });
    assert_eq!(r, Err(ErrorCode::InvestorAlreadyExists));
    assert_eq!(ctx.registry.investors.len(), 1);
    assert_eq!(ctx.agreement.total_required, 300);
}

#[test]
fn zero_allocations_are_rejected() {
    let mut ctx = registration_context();
    assert_eq!(
        ctx.handle(AddInvestorsParams { allocations: vec![allocation(WALLET_A, 0, 100)] }),
        Err(ErrorCode::InvalidAmount)
    );
    assert_eq!(
        ctx.handle(AddInvestorsParams { allocations: vec![allocation(WALLET_A, 300, 0)] }),
        Err(ErrorCode::InvalidAmount)
    );
    assert_eq!(ctx.registry.investors.len(), 0);
}

#[test]
fn empty_batch_is_a_no_op() {
    let mut ctx = registration_context();
    assert_eq!(ctx.handle(AddInvestorsParams { allocations: vec![] }), Ok(()));
    assert_eq!(ctx.agreement.total_required, 0);
    assert_eq!(ctx.agreement.investors_count, 0);
}

#[test]
fn store_refuses_second_record_per_wallet() {
    let mut registry = InvestorRegistry::new();
    let mut ctx = registration_context();
    assert_eq!(
        ctx.handle(AddInvestorsParams { allocations: vec![allocation(WALLET_A, 300, 100)] }),
        Ok(())
    );
    let record = *ctx.registry.get(WALLET_A).unwrap();
    assert_eq!(registry.create(record), Ok(()));
    assert_eq!(registry.create(record), Err(ErrorCode::InvestorAlreadyExists));
    assert!(registry.contains(WALLET_A));
    assert!(!registry.contains(WALLET_B));
}
