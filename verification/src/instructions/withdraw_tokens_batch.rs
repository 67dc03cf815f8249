//! Token claims for a whole batch of investors after the hold period.
//!
//! Entries that have not deposited or have already withdrawn are skipped
//! rather than failing the call; an entry of another agreement fails the
//! whole batch; the commission of all completed entries is accumulated into
//! a single payment to the administrator. The call fails if no entry
//! completed.

use vstd::prelude::*;
use crate::errors::ErrorCode;
use crate::settlement::{commission_amount, commission_of, lemma_settlement_split, net_of};
use crate::state::agreement::Agreement;
use crate::state::investor::{BatchEntry, BatchReport, EntryOutcome, Investor};
use crate::state::settings::Settings;
use crate::state::token_account::{transfer, TokenAccount};

verus! {

/// Arguments of `WithdrawTokensBatch::handle`.
#[derive(Clone, Copy, Debug, PartialEq, Eq, Structural)]
pub struct WithdrawTokensBatchParams;

/// Whether an entry qualifies for a token claim: the investor deposited and
/// has not withdrawn yet.
pub open spec fn eligible_entry(e: BatchEntry) -> bool {
    e.investor.investor_deposited && !e.investor.has_withdrawn_tokens
}

/// Some entry names an investor record of another agreement.
pub open spec fn any_mismatch(s: Seq<BatchEntry>, agreement_id: u64) -> bool {
    exists|i: int| 0 <= i < s.len() && s[i].investor.agreement != agreement_id
}

/// Total allocation of the qualifying entries: what the batch moves out of
/// the project pool in payouts and commission together.
pub open spec fn eligible_alloc_sum(s: Seq<BatchEntry>) -> int
    decreases s.len(),
{
    if s.len() == 0 {
        0
    } else {
        eligible_alloc_sum(s.drop_last())
            + if eligible_entry(s.last()) {
                s.last().investor.token_allocation as int
            } else {
                0
            }
    }
}

/// Total commission of the qualifying entries.
pub open spec fn commission_sum(s: Seq<BatchEntry>, rate_bp: int) -> int
    decreases s.len(),
{
    if s.len() == 0 {
        0
    } else {
        commission_sum(s.drop_last(), rate_bp)
            + if eligible_entry(s.last()) {
                commission_of(s.last().investor.token_allocation as int, rate_bp)
            } else {
                0
            }
    }
}

/// How many entries qualify.
pub open spec fn eligible_count(s: Seq<BatchEntry>) -> int
    decreases s.len(),
{
    if s.len() == 0 {
        0
    } else {
        eligible_count(s.drop_last()) + if eligible_entry(s.last()) {
            1int
        } else {
            0int
        }
    }
}

/// An entry after the batch ran: a qualifying entry is marked withdrawn and
/// its destination is credited with the allocation net of commission; any
/// other entry is untouched.
pub open spec fn entry_after(e: BatchEntry, rate_bp: int) -> BatchEntry {
    if eligible_entry(e) {
        BatchEntry {
            investor: Investor { has_withdrawn_tokens: true, ..e.investor },
            destination: TokenAccount {
                amount: (e.destination.amount
                    + net_of(e.investor.token_allocation as int, rate_bp)) as u64,
                ..e.destination
            },
        }
    } else {
        e
    }
}

/// The batch sums are non-negative, the commission never exceeds the
/// allocation it is taken from, and at most every entry qualifies.
proof fn lemma_batch_sums(s: Seq<BatchEntry>, rate_bp: u16)
    requires
        rate_bp <= 10000,
    ensures
        0 <= commission_sum(s, rate_bp as int) <= eligible_alloc_sum(s),
        0 <= eligible_count(s) <= s.len(),
    decreases s.len(),
{
    if s.len() > 0 {
        lemma_batch_sums(s.drop_last(), rate_bp);
        if eligible_entry(s.last()) {
            lemma_settlement_split(s.last().investor.token_allocation, rate_bp);
        }
    }
}

/// A prefix of a batch never sums to more than the whole batch.
proof fn lemma_batch_prefix_le(s: Seq<BatchEntry>, i: int, rate_bp: u16)
    requires
        0 <= i <= s.len(),
        rate_bp <= 10000,
    ensures
        eligible_alloc_sum(s.subrange(0, i)) <= eligible_alloc_sum(s),
        commission_sum(s.subrange(0, i), rate_bp as int)
            <= commission_sum(s, rate_bp as int),
    decreases s.len() - i,
{
    if i == s.len() {
        assert(s.subrange(0, i) =~= s);
    } else {
        lemma_batch_prefix_le(s, i + 1, rate_bp);
        assert(s.subrange(0, i + 1).drop_last() =~= s.subrange(0, i));
        if eligible_entry(s[i]) {
            lemma_settlement_split(s[i].investor.token_allocation, rate_bp);
        }
    }
}

/// What `WithdrawTokensBatch::handle` names: the configuration, the
/// agreement, the project pool, the administrator's commission account, the
/// batch entries, and the clock reading.
#[derive(Clone, Debug, PartialEq, Eq)]
pub struct WithdrawTokensBatch {
    /// The process-wide configuration.
    pub settings: Settings,
    /// The agreement the claims run against.
    pub agreement: Agreement,
    /// The agreement's project-token pool.
    pub project_token_account: TokenAccount,
    /// The administrator's account; receives the accumulated commission.
    pub owner_token_account: TokenAccount,
    /// The claims to process, in order.
    pub entries: Vec<BatchEntry>,
    /// Current time in seconds, from the clock oracle.
    pub clock: i64,
}

impl WithdrawTokensBatch {
    /// The commission rate this batch settles at.
    pub open spec fn rate(self) -> int {
        self.settings.commission_basis_points as int
    }

    /// The first reason this call is refused, if any: the sale must be
    /// funded, live and past its hold period, the commission destination
    /// must belong to the administrator, every entry must belong to this
    /// agreement, and at least one entry must qualify.
    pub open spec fn validation(self) -> Option<ErrorCode> {
        if !self.agreement.seller_deposited {
            Some(ErrorCode::TokensNotDeposited)
        } else if self.agreement.agreement_cancelled {
            Some(ErrorCode::AgreementAlreadyCancelled)
        } else if self.agreement.hold_duration_start == 0 {
            Some(ErrorCode::HoldDurationNotStarted)
        } else if self.clock
            < self.agreement.hold_duration_start + self.agreement.hold_duration {
            Some(ErrorCode::HoldDurationPeriodNotExpired)
        } else if self.settings.owner != self.owner_token_account.owner {
            Some(ErrorCode::InvalidDestination)
        } else if any_mismatch(self.entries@, self.agreement.agreement_id) {
            Some(ErrorCode::InvalidInvestorAccount)
        } else if eligible_count(self.entries@) == 0 {
            Some(ErrorCode::NotAnInvestor)
        } else {
            None
        }
    }

    /// Processes every qualifying entry — payout to its destination, the
    /// entry marked withdrawn — skips the rest, and pays the accumulated
    /// commission to the administrator in one transfer. Reports one outcome
    /// per entry and the number of completed entries.
    #[verifier::loop_isolation(false)]
    pub fn handle(&mut self, _params: WithdrawTokensBatchParams)
        -> (r: Result<BatchReport, ErrorCode>)
        requires
            old(self).agreement.valid(),
            old(self).settings.valid(),
            old(self).project_token_account.address == old(self).agreement.project_pool,
            old(self).validation() is None ==> {
                &&& old(self).project_token_account.amount
                    >= eligible_alloc_sum(old(self).entries@)
                &&& old(self).owner_token_account.amount
                    + eligible_alloc_sum(old(self).entries@) <= u64::MAX
                &&& old(self).agreement.token_commision_collected
                    + eligible_alloc_sum(old(self).entries@) <= u64::MAX
                &&& forall|i: int| 0 <= i < old(self).entries@.len()
                    && eligible_entry(old(self).entries@[i])
                    ==> old(self).entries@[i].destination.amount
                        + old(self).entries@[i].investor.token_allocation <= u64::MAX
            },
        ensures
            match r {
                Ok(report) => {
                    &&& old(self).validation() is None
                    &&& final(self).entries@.len() == old(self).entries@.len()
                    &&& forall|i: int| 0 <= i < old(self).entries@.len()
                        ==> final(self).entries@[i]
                            == entry_after(old(self).entries@[i], old(self).rate())
                    &&& final(self).project_token_account == (TokenAccount {
                        amount: (old(self).project_token_account.amount
                            - eligible_alloc_sum(old(self).entries@)) as u64,
                        ..old(self).project_token_account
                    })
                    &&& final(self).owner_token_account == (TokenAccount {
                        amount: (old(self).owner_token_account.amount
                            + commission_sum(old(self).entries@, old(self).rate())) as u64,
                        ..old(self).owner_token_account
                    })
                    &&& final(self).agreement == (Agreement {
                        token_commision_collected: (old(self).agreement.token_commision_collected
                            + commission_sum(old(self).entries@, old(self).rate())) as u64,
                        ..old(self).agreement
                    })
                    &&& final(self).settings == old(self).settings
                    &&& final(self).clock == old(self).clock
                    &&& final(self).agreement.valid()
                    &&& report.outcomes@.len() == old(self).entries@.len()
                    &&& forall|i: int| 0 <= i < old(self).entries@.len()
                        ==> report.outcomes@[i] == (if eligible_entry(old(self).entries@[i]) {
                            EntryOutcome::Completed
                        } else {
                            EntryOutcome::Skipped
                        })
                    &&& report.success_count == eligible_count(old(self).entries@)
                    &&& report.success_count > 0
                },
                Err(e) => old(self).validation() == Some(e) && *final(self) == *old(self),
            },
    {
        if !self.agreement.seller_deposited {
            return Err(ErrorCode::TokensNotDeposited);
        }
        if self.agreement.agreement_cancelled {
            return Err(ErrorCode::AgreementAlreadyCancelled);
        }
        if self.agreement.hold_duration_start == 0 {
            return Err(ErrorCode::HoldDurationNotStarted);
        }
        if (self.clock as i128)
            < (self.agreement.hold_duration_start as i128)
                + (self.agreement.hold_duration as i128) {
            return Err(ErrorCode::HoldDurationPeriodNotExpired);
        }
        if self.settings.owner != self.owner_token_account.owner {
            return Err(ErrorCode::InvalidDestination);
        }

        let n = self.entries.len();
        let ghost entries0 = self.entries@;
        let rate_bp = self.settings.commission_basis_points;

        // An entry of another agreement fails the whole batch before any
        // payout.
        let mut i: usize = 0;
        while i < n
            invariant
                i <= n,
                forall|j: int| 0 <= j < i
                    ==> entries0[j].investor.agreement == self.agreement.agreement_id,
            decreases n - i,
        {
            if self.entries[i].investor.agreement != self.agreement.agreement_id {
                return Err(ErrorCode::InvalidInvestorAccount);
            }
            i = i + 1;
        }

        // The batch fails as a whole when nothing qualifies.
        let mut qualifying: usize = 0;
        let mut i: usize = 0;
        while i < n
            invariant
                i <= n,
                qualifying == eligible_count(entries0.subrange(0, i as int)),
                qualifying <= i,
            decreases n - i,
        {
            proof {
                assert(entries0.subrange(0, i as int + 1).drop_last()
                    =~= entries0.subrange(0, i as int));
            }
            let entry = self.entries[i];
            if entry.investor.investor_deposited && !entry.investor.has_withdrawn_tokens {
                qualifying = qualifying + 1;
            }
            i = i + 1;
        }
        proof {
            assert(entries0.subrange(0, n as int) =~= entries0);
        }
        if qualifying == 0 {
            return Err(ErrorCode::NotAnInvestor);
        }

        // Pay out every qualifying entry and accumulate the commission.
        let mut outcomes: Vec<EntryOutcome> = Vec::new();
        let mut success_count: usize = 0;
        let mut total_commission: u64 = 0;
        let ghost pool0 = self.project_token_account;
        let mut i: usize = 0;
        while i < n
            invariant
                i <= n,
                self.entries@.len() == n,
                forall|j: int| 0 <= j < i
                    ==> self.entries@[j] == entry_after(entries0[j], rate_bp as int),
                forall|j: int| i <= j < n ==> self.entries@[j] == entries0[j],
                self.project_token_account == (TokenAccount {
                    amount: (pool0.amount
                        - (eligible_alloc_sum(entries0.subrange(0, i as int))
                            - commission_sum(entries0.subrange(0, i as int),
                                rate_bp as int))) as u64,
                    ..pool0
                }),
                total_commission
                    == commission_sum(entries0.subrange(0, i as int), rate_bp as int),
                success_count == eligible_count(entries0.subrange(0, i as int)),
                success_count <= i,
                outcomes@.len() == i,
                forall|j: int| 0 <= j < i
                    ==> outcomes@[j] == (if eligible_entry(entries0[j]) {
                        EntryOutcome::Completed
                    } else {
                        EntryOutcome::Skipped
                    }),
                self.agreement == old(self).agreement,
                self.settings == old(self).settings,
                self.owner_token_account == old(self).owner_token_account,
                self.clock == old(self).clock,
            decreases n - i,
        {
            proof {
                assert(entries0.subrange(0, i as int + 1).drop_last()
                    =~= entries0.subrange(0, i as int));
                lemma_batch_sums(entries0.subrange(0, i as int), rate_bp);
                lemma_batch_sums(entries0, rate_bp);
                lemma_batch_prefix_le(entries0, i as int + 1, rate_bp);
                lemma_batch_prefix_le(entries0, i as int, rate_bp);
            }
            let entry = self.entries[i];
            if entry.investor.investor_deposited && !entry.investor.has_withdrawn_tokens {
                let investor_tokens = entry.investor.token_allocation;
                proof {
                    lemma_settlement_split(investor_tokens, rate_bp);
                }
                let commission_value = commission_amount(investor_tokens, rate_bp);
                let final_token_amount = investor_tokens - commission_value;
                let mut destination = entry.destination;
                transfer(&mut self.project_token_account, &mut destination, final_token_amount);
                let updated = BatchEntry {
                    investor: Investor {
                        has_withdrawn_tokens: true,
                        ..entry.investor
                    },
                    destination,
                };
                self.entries.set(i, updated);
                total_commission = total_commission + commission_value;
                success_count = success_count + 1;
                outcomes.push(EntryOutcome::Completed);
            } else {
                outcomes.push(EntryOutcome::Skipped);
            }
            i = i + 1;
        }
        proof {
            assert(entries0.subrange(0, n as int) =~= entries0);
            lemma_batch_sums(entries0, rate_bp);
        }
        if total_commission > 0 {
            transfer(
                &mut self.project_token_account,
                &mut self.owner_token_account,
                total_commission,
            );
            self.agreement.token_commision_collected =
                self.agreement.token_commision_collected + total_commission;
        }
        Ok(BatchReport { outcomes, success_count: success_count as u64 })
    }
}

} // verus!
