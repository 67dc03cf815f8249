//! Registration of a batch of investors.
//!
//! The whole batch is validated against the agreement's targets and the
//! existing records before anything is applied: a batch that would exceed a
//! target, repeat a wallet or name an empty allocation is rejected in full,
//! with no partial increment.

use vstd::prelude::*;
use crate::errors::ErrorCode;
use crate::state::agreement::Agreement;
use crate::state::investor::Investor;
use crate::state::registry::{has_wallet, wallets_unique, InvestorRegistry};
use crate::state::settings::{Address, Settings};

verus! {

/// One requested registration: the wallet and its two allocation targets.
#[derive(Clone, Copy, Debug, PartialEq, Eq, Structural)]
pub struct InvestorAllocation {
    /// Stablecoin amount this investor will be required to deposit.
    pub amount: u64,
    /// Project tokens promised to this investor.
    pub token_amount: u64,
    /// The investor's wallet.
    pub wallet: Address,
}

/// Arguments of `AddInvestors::handle`.
#[derive(Clone, Debug, PartialEq, Eq)]
pub struct AddInvestorsParams {
    /// The requested registrations, applied in order.
    pub allocations: Vec<InvestorAllocation>,
}

/// What `AddInvestors::handle` names: the configuration, the agreement, its
/// investor store, and the signing caller.
#[derive(Clone, Debug, PartialEq, Eq)]
pub struct AddInvestors {
    /// The process-wide configuration.
    pub settings: Settings,
    /// The agreement investors are registered for.
    pub agreement: Agreement,
    /// The agreement's investor records.
    pub registry: InvestorRegistry,
    /// The signing caller.
    pub payer: Address,
}

/// Sum of the stablecoin amounts of a batch.
pub open spec fn sum_amounts(s: Seq<InvestorAllocation>) -> int
    decreases s.len(),
{
    if s.len() == 0 {
        0
    } else {
        sum_amounts(s.drop_last()) + s.last().amount
    }
}

/// Sum of the token amounts of a batch.
pub open spec fn sum_token_amounts(s: Seq<InvestorAllocation>) -> int
    decreases s.len(),
{
    if s.len() == 0 {
        0
    } else {
        sum_token_amounts(s.drop_last()) + s.last().token_amount
    }
}

/// The fresh record one allocation creates.
pub open spec fn record_of(agreement_id: u64, a: InvestorAllocation) -> Investor {
    Investor {
        has_withdrawn_tokens: false,
        investor_deposited: false,
        token_allocation: a.token_amount,
        required_amount: a.amount,
        wallet: a.wallet,
        agreement: agreement_id,
    }
}

/// The records a whole batch creates, in order.
pub open spec fn records_of(agreement_id: u64, s: Seq<InvestorAllocation>) -> Seq<Investor> {
    s.map_values(|a: InvestorAllocation| record_of(agreement_id, a))
}

/// The reason entry `i` of a batch is refused, if any: a wallet repeated
/// within the call, a wallet that already has a record, or a zero amount.
pub open spec fn alloc_error(
    existing: Seq<Investor>,
    allocs: Seq<InvestorAllocation>,
    i: int,
) -> Option<ErrorCode> {
    if exists|j: int| 0 <= j < i && allocs[j].wallet == allocs[i].wallet {
        Some(ErrorCode::DuplicateInvestor)
    } else if has_wallet(existing, allocs[i].wallet) {
        Some(ErrorCode::InvestorAlreadyExists)
    } else if allocs[i].amount == 0 {
        Some(ErrorCode::InvalidAmount)
    } else if allocs[i].token_amount == 0 {
        Some(ErrorCode::InvalidAmount)
    } else {
        None
    }
}

/// The first per-entry error at or after entry `i`, if any.
pub open spec fn scan_allocs(
    existing: Seq<Investor>,
    allocs: Seq<InvestorAllocation>,
    i: int,
) -> Option<ErrorCode>
    decreases allocs.len() - i,
{
    if i < 0 || i >= allocs.len() {
        None
    } else if alloc_error(existing, allocs, i) is Some {
        alloc_error(existing, allocs, i)
    } else {
        scan_allocs(existing, allocs, i + 1)
    }
}

/// Both batch sums are bounded by the batch's length times the largest
/// amount.
proof fn lemma_sum_bounds(s: Seq<InvestorAllocation>)
    ensures
        0 <= sum_amounts(s) <= s.len() * (u64::MAX as int),
        0 <= sum_token_amounts(s) <= s.len() * (u64::MAX as int),
    decreases s.len(),
{
    if s.len() > 0 {
        lemma_sum_bounds(s.drop_last());
        assert((s.len() - 1) * (u64::MAX as int) + (u64::MAX as int)
            == s.len() * (u64::MAX as int)) by (nonlinear_arith);
    }
}

/// A prefix of a batch never sums to more than the whole batch.
proof fn lemma_sum_prefix_le(s: Seq<InvestorAllocation>, i: int)
    requires
        0 <= i <= s.len(),
    ensures
        sum_amounts(s.subrange(0, i)) <= sum_amounts(s),
        sum_token_amounts(s.subrange(0, i)) <= sum_token_amounts(s),
    decreases s.len() - i,
{
    if i == s.len() {
        assert(s.subrange(0, i) =~= s);
    } else {
        lemma_sum_prefix_le(s, i + 1);
        assert(s.subrange(0, i + 1).drop_last() =~= s.subrange(0, i));
    }
}

/// If every entry before `i` is error-free, the scan of the whole batch is
/// the scan from `i`.
proof fn lemma_scan_prefix(
    existing: Seq<Investor>,
    allocs: Seq<InvestorAllocation>,
    i: int,
)
    requires
        0 <= i <= allocs.len(),
        forall|j: int| 0 <= j < i ==> alloc_error(existing, allocs, j) is None,
    ensures
        scan_allocs(existing, allocs, 0) == scan_allocs(existing, allocs, i),
    decreases i,
{
    if i > 0 {
        lemma_scan_prefix(existing, allocs, i - 1);
    }
}

/// An error-free scan means every entry is error-free.
proof fn lemma_scan_none(
    existing: Seq<Investor>,
    allocs: Seq<InvestorAllocation>,
    i: int,
)
    requires
        0 <= i <= allocs.len(),
        scan_allocs(existing, allocs, i) is None,
    ensures
        forall|j: int| i <= j < allocs.len() ==> alloc_error(existing, allocs, j) is None,
    decreases allocs.len() - i,
{
    if i < allocs.len() {
        lemma_scan_none(existing, allocs, i + 1);
    }
}

/// A batch that passes validation fits the remaining targets as a whole:
/// the pre-call totals plus the full batch sums stay within
/// `expected_payment` and `expected_tokens`. Together with `handle`'s
/// postcondition — the totals grow by exactly those sums on success and not
/// at all on failure — the allocation bounds hold after every sequence of
/// registration calls.
pub proof fn lemma_accepted_batch_fits(ctx: AddInvestors, params: AddInvestorsParams)
    requires
        ctx.validation(params) is None,
    ensures
        ctx.agreement.total_required + sum_amounts(params.allocations@)
            <= ctx.agreement.expected_payment,
        ctx.agreement.total_token_allocation + sum_token_amounts(params.allocations@)
            <= ctx.agreement.expected_tokens,
{
}

impl AddInvestors {
    /// The first reason this call is refused, if any: only the
    /// administrator registers investors, registration closes with the
    /// seller's deposit, the batch as a whole must fit the remaining
    /// targets, and every entry must be fresh and positive.
    pub open spec fn validation(self, params: AddInvestorsParams) -> Option<ErrorCode> {
        if self.payer != self.settings.owner {
            Some(ErrorCode::NotAuthorized)
        } else if self.agreement.seller_deposited {
            Some(ErrorCode::SellerDeposited)
        } else if self.agreement.total_required + sum_amounts(params.allocations@)
            > self.agreement.expected_payment {
            Some(ErrorCode::TotalAllocationsExceedTarget)
        } else if self.agreement.total_token_allocation + sum_token_amounts(params.allocations@)
            > self.agreement.expected_tokens {
            Some(ErrorCode::TotalTokenAllocationsExceedTarget)
        } else {
            scan_allocs(self.registry.investors@, params.allocations@, 0)
        }
    }

    /// Validates the whole batch and only then creates one record per
    /// allocation and raises the agreement's totals by the batch sums; a
    /// refused batch leaves every record untouched.
    #[verifier::loop_isolation(false)]
    pub fn handle(&mut self, params: AddInvestorsParams) -> (r: Result<(), ErrorCode>)
        requires
            old(self).agreement.valid(),
            wallets_unique(old(self).registry.investors@),
            old(self).agreement.investors_count + params.allocations@.len() <= u64::MAX,
        ensures
            match r {
                Ok(()) => {
                    &&& old(self).validation(params) is None
                    &&& final(self).registry.investors@
                        == old(self).registry.investors@
                            + records_of(old(self).agreement.agreement_id, params.allocations@)
                    &&& final(self).agreement == (Agreement {
                        total_required: (old(self).agreement.total_required
                            + sum_amounts(params.allocations@)) as u64,
                        total_token_allocation: (old(self).agreement.total_token_allocation
                            + sum_token_amounts(params.allocations@)) as u64,
                        investors_count: (old(self).agreement.investors_count
                            + params.allocations@.len()) as u64,
                        ..old(self).agreement
                    })
                    &&& final(self).agreement.valid()
                    &&& wallets_unique(final(self).registry.investors@)
                    &&& final(self).settings == old(self).settings
                    &&& final(self).payer == old(self).payer
                },
                Err(e) => old(self).validation(params) == Some(e) && *final(self) == *old(self),
            },
    {
        if self.payer != self.settings.owner {
            return Err(ErrorCode::NotAuthorized);
        }
        if self.agreement.seller_deposited {
            return Err(ErrorCode::SellerDeposited);
        }

        let n = params.allocations.len();
        let ghost allocs = params.allocations@;
        let ghost existing = self.registry.investors@;

        // The batch is checked against the targets as a whole: the pre-call
        // totals plus the full batch sums must fit.
        let mut pay_sum: u128 = 0;
        let mut tok_sum: u128 = 0;
        let mut i: usize = 0;
        while i < n
            invariant
                i <= n,
                pay_sum == sum_amounts(allocs.subrange(0, i as int)),
                tok_sum == sum_token_amounts(allocs.subrange(0, i as int)),
            decreases n - i,
        {
            proof {
                lemma_sum_bounds(allocs.subrange(0, i as int));
                assert((i as int) * (u64::MAX as int) + (u64::MAX as int)
                    <= u128::MAX as int) by (nonlinear_arith)
                    requires
                        0 <= i as int <= u64::MAX as int,
                ;
                assert(allocs.subrange(0, i as int + 1).drop_last()
                    =~= allocs.subrange(0, i as int));
            }
            pay_sum = pay_sum + (params.allocations[i].amount as u128);
            tok_sum = tok_sum + (params.allocations[i].token_amount as u128);
            i = i + 1;
        }
        proof {
            assert(allocs.subrange(0, n as int) =~= allocs);
            lemma_sum_bounds(allocs);
            assert((n as int) * (u64::MAX as int) + (u64::MAX as int)
                <= u128::MAX as int) by (nonlinear_arith)
                requires
                    0 <= n as int <= u64::MAX as int,
            ;
        }
        if (self.agreement.total_required as u128) + pay_sum
            > (self.agreement.expected_payment as u128) {
            return Err(ErrorCode::TotalAllocationsExceedTarget);
        }
        if (self.agreement.total_token_allocation as u128) + tok_sum
            > (self.agreement.expected_tokens as u128) {
            return Err(ErrorCode::TotalTokenAllocationsExceedTarget);
        }

        // Every entry is checked before any is applied, in order, so a bad
        // entry rejects the batch with no partial application.
        let mut i: usize = 0;
        while i < n
            invariant
                i <= n,
                forall|j: int| 0 <= j < i ==> alloc_error(existing, allocs, j) is None,
            decreases n - i,
        {
            let allocation = params.allocations[i];
            let mut j: usize = 0;
            while j < i
                invariant
                    j <= i < n,
                    forall|k: int| 0 <= k < j ==> allocs[k].wallet != allocation.wallet,
                decreases i - j,
            {
                if params.allocations[j].wallet == allocation.wallet {
                    proof {
                        lemma_scan_prefix(existing, allocs, i as int);
                    }
                    return Err(ErrorCode::DuplicateInvestor);
                }
                j = j + 1;
            }
            assert(!(exists|j: int| 0 <= j < i as int
                && allocs[j].wallet == allocs[i as int].wallet));
            if self.registry.contains(allocation.wallet) {
                proof {
                    lemma_scan_prefix(existing, allocs, i as int);
                }
                return Err(ErrorCode::InvestorAlreadyExists);
            }
            if allocation.amount == 0 {
                proof {
                    lemma_scan_prefix(existing, allocs, i as int);
                }
                return Err(ErrorCode::InvalidAmount);
            }
            if allocation.token_amount == 0 {
                proof {
                    lemma_scan_prefix(existing, allocs, i as int);
                }
                return Err(ErrorCode::InvalidAmount);
            }
            assert(alloc_error(existing, allocs, i as int) is None);
            i = i + 1;
        }
        proof {
            lemma_scan_prefix(existing, allocs, n as int);
            lemma_scan_none(existing, allocs, 0);
        }

        // The batch is known to be good: create the records and raise the
        // totals.
        let ghost agreement_before = self.agreement;
        let mut i: usize = 0;
        while i < n
            invariant
                i <= n,
                self.registry.investors@
                    == existing + records_of(agreement_before.agreement_id,
                        allocs.subrange(0, i as int)),
                self.agreement == (Agreement {
                    total_required: (agreement_before.total_required
                        + sum_amounts(allocs.subrange(0, i as int))) as u64,
                    total_token_allocation: (agreement_before.total_token_allocation
                        + sum_token_amounts(allocs.subrange(0, i as int))) as u64,
                    investors_count: (agreement_before.investors_count + i) as u64,
                    ..agreement_before
                }),
                self.settings == old(self).settings,
                self.payer == old(self).payer,
            decreases n - i,
        {
            let allocation = params.allocations[i];
            proof {
                lemma_sum_prefix_le(allocs, i as int + 1);
                lemma_sum_bounds(allocs.subrange(0, i as int));
                assert(allocs.subrange(0, i as int + 1).drop_last()
                    =~= allocs.subrange(0, i as int));
            }
            let investor = Investor {
                has_withdrawn_tokens: false,
                investor_deposited: false,
                token_allocation: allocation.token_amount,
                required_amount: allocation.amount,
                wallet: allocation.wallet,
                agreement: self.agreement.agreement_id,
            };
            self.registry.investors.push(investor);
            self.agreement.investors_count = self.agreement.investors_count + 1;
            self.agreement.total_required = self.agreement.total_required + allocation.amount;
            self.agreement.total_token_allocation =
                self.agreement.total_token_allocation + allocation.token_amount;
            proof {
                assert(existing + records_of(agreement_before.agreement_id,
                        allocs.subrange(0, i as int + 1))
                    =~= (existing + records_of(agreement_before.agreement_id,
                        allocs.subrange(0, i as int))).push(
                            record_of(agreement_before.agreement_id, allocs[i as int])));
            }
            i = i + 1;
        }
        proof {
            assert(allocs.subrange(0, n as int) =~= allocs);
            let combined = existing + records_of(agreement_before.agreement_id, allocs);
            assert forall|a: int, b: int| 0 <= a < b < combined.len()
                implies combined[a].wallet != combined[b].wallet by {
                let m = existing.len() as int;
                if b >= m {
                    assert(alloc_error(existing, allocs, b - m) is None);
                    if a >= m {
                        assert(combined[a].wallet == allocs[a - m].wallet);
                        assert(combined[b].wallet == allocs[b - m].wallet);
                    } else {
                        assert(combined[a].wallet == existing[a].wallet);
                        assert(!has_wallet(existing, allocs[b - m].wallet));
                    }
                }
            }
        }
        Ok(())
    }
}

} // verus!
