//! Refunds for a whole batch of investors after cancellation.
//!
//! Every deposited entry is refunded its exact required amount from the
//! payment pool and its deposited flag is cleared — the refund is consumed.
//! Entries that never deposited are skipped; an entry of another agreement
//! fails the whole batch; the call fails if nothing was refunded.

use vstd::prelude::*;
use crate::errors::ErrorCode;
use crate::instructions::withdraw_tokens_batch::any_mismatch;
use crate::state::agreement::Agreement;
use crate::state::investor::{BatchEntry, BatchReport, EntryOutcome, Investor};
use crate::state::token_account::{transfer, TokenAccount};

verus! {

/// Arguments of `WithdrawCancelledFundsBatch::handle`.
#[derive(Clone, Copy, Debug, PartialEq, Eq, Structural)]
pub struct WithdrawCancelledFundsBatchParams;

/// Whether an entry is owed a refund: the investor deposited and the refund
/// has not been consumed yet.
pub open spec fn refundable_entry(e: BatchEntry) -> bool {
    e.investor.investor_deposited
}

/// Total refund of the qualifying entries: what the batch moves out of the
/// payment pool.
pub open spec fn refund_sum(s: Seq<BatchEntry>) -> int
    decreases s.len(),
{
    if s.len() == 0 {
        0
    } else {
        refund_sum(s.drop_last()) + if refundable_entry(s.last()) {
            s.last().investor.required_amount as int
        } else {
            0
        }
    }
}

/// How many entries are owed a refund.
pub open spec fn refund_count(s: Seq<BatchEntry>) -> int
    decreases s.len(),
{
    if s.len() == 0 {
        0
    } else {
        refund_count(s.drop_last()) + if refundable_entry(s.last()) {
            1int
        } else {
            0int
        }
    }
}

/// An entry after the batch ran: a qualifying entry has its destination
/// credited with the required amount and its deposited flag cleared; any
/// other entry is untouched.
pub open spec fn entry_after_refund(e: BatchEntry) -> BatchEntry {
    if refundable_entry(e) {
        BatchEntry {
            investor: Investor { investor_deposited: false, ..e.investor },
            destination: TokenAccount {
                amount: (e.destination.amount + e.investor.required_amount) as u64,
                ..e.destination
            },
        }
    } else {
        e
    }
}

/// The refund sums are non-negative and at most every entry qualifies.
proof fn lemma_refund_nonneg(s: Seq<BatchEntry>)
    ensures
        0 <= refund_sum(s),
        0 <= refund_count(s) <= s.len(),
    decreases s.len(),
{
    if s.len() > 0 {
        lemma_refund_nonneg(s.drop_last());
    }
}

/// A prefix of a batch never sums to more than the whole batch.
proof fn lemma_refund_prefix_le(s: Seq<BatchEntry>, i: int)
    requires
        0 <= i <= s.len(),
    ensures
        0 <= refund_sum(s.subrange(0, i)) <= refund_sum(s),
    decreases s.len() - i,
{
    lemma_refund_nonneg(s.subrange(0, i));
    if i == s.len() {
        assert(s.subrange(0, i) =~= s);
    } else {
        lemma_refund_prefix_le(s, i + 1);
        assert(s.subrange(0, i + 1).drop_last() =~= s.subrange(0, i));
    }
}

/// What `WithdrawCancelledFundsBatch::handle` names: the cancelled
/// agreement, its payment pool, and the refund entries.
#[derive(Clone, Debug, PartialEq, Eq)]
pub struct WithdrawCancelledFundsBatch {
    /// The cancelled agreement.
    pub agreement: Agreement,
    /// The agreement's payment pool, refunds are drawn from it.
    pub payment_token_account: TokenAccount,
    /// The refunds to process, in order.
    pub entries: Vec<BatchEntry>,
}

impl WithdrawCancelledFundsBatch {
    /// The first reason this call is refused, if any: the agreement must be
    /// cancelled, every entry must belong to it, and at least one entry
    /// must be owed a refund.
    pub open spec fn validation(self) -> Option<ErrorCode> {
        if !self.agreement.agreement_cancelled {
            Some(ErrorCode::AgreementNotCancelled)
        } else if any_mismatch(self.entries@, self.agreement.agreement_id) {
            Some(ErrorCode::InvalidInvestorAccount)
        } else if refund_count(self.entries@) == 0 {
            Some(ErrorCode::NoFundsToWithdraw)
        } else {
            None
        }
    }

    /// Refunds every qualifying entry its exact deposited amount and clears
    /// its deposited flag, skips the rest, and reports one outcome per
    /// entry and the number of refunds made.
    #[verifier::loop_isolation(false)]
    pub fn handle(&mut self, _params: WithdrawCancelledFundsBatchParams)
        -> (r: Result<BatchReport, ErrorCode>)
        requires
            old(self).agreement.valid(),
            old(self).payment_token_account.address == old(self).agreement.payment_pool,
            old(self).validation() is None ==> {
                &&& old(self).payment_token_account.amount >= refund_sum(old(self).entries@)
                &&& forall|i: int| 0 <= i < old(self).entries@.len()
                    && refundable_entry(old(self).entries@[i])
                    ==> old(self).entries@[i].destination.amount
                        + old(self).entries@[i].investor.required_amount <= u64::MAX
            },
        ensures
            match r {
                Ok(report) => {
                    &&& old(self).validation() is None
                    &&& final(self).entries@.len() == old(self).entries@.len()
                    &&& forall|i: int| 0 <= i < old(self).entries@.len()
                        ==> final(self).entries@[i] == entry_after_refund(old(self).entries@[i])
                    &&& final(self).payment_token_account == (TokenAccount {
                        amount: (old(self).payment_token_account.amount
                            - refund_sum(old(self).entries@)) as u64,
                        ..old(self).payment_token_account
                    })
                    &&& final(self).agreement == old(self).agreement
                    &&& report.outcomes@.len() == old(self).entries@.len()
                    &&& forall|i: int| 0 <= i < old(self).entries@.len()
                        ==> report.outcomes@[i] == (if refundable_entry(old(self).entries@[i]) {
                            EntryOutcome::Completed
                        } else {
                            EntryOutcome::Skipped
                        })
                    &&& report.success_count == refund_count(old(self).entries@)
                    &&& report.success_count > 0
                },
                Err(e) => old(self).validation() == Some(e) && *final(self) == *old(self),
            },
    {
        if !self.agreement.agreement_cancelled {
            return Err(ErrorCode::AgreementNotCancelled);
        }

        let n = self.entries.len();
        let ghost entries0 = self.entries@;

        // An entry of another agreement fails the whole batch before any
        // refund.
        let mut i: usize = 0;
        while i < n
            invariant
                i <= n,
                forall|j: int| 0 <= j < i
                    ==> entries0[j].investor.agreement == self.agreement.agreement_id,
            decreases n - i,
        {
            if self.entries[i].investor.agreement != self.agreement.agreement_id {
                return Err(ErrorCode::InvalidInvestorAccount);
            }
            i = i + 1;
        }

        // The batch fails as a whole when nothing is owed.
        let mut qualifying: usize = 0;
        let mut i: usize = 0;
        while i < n
            invariant
                i <= n,
                qualifying == refund_count(entries0.subrange(0, i as int)),
                qualifying <= i,
            decreases n - i,
        {
            proof {
                assert(entries0.subrange(0, i as int + 1).drop_last()
                    =~= entries0.subrange(0, i as int));
            }
            if self.entries[i].investor.investor_deposited {
                qualifying = qualifying + 1;
            }
            i = i + 1;
        }
        proof {
            assert(entries0.subrange(0, n as int) =~= entries0);
        }
        if qualifying == 0 {
            return Err(ErrorCode::NoFundsToWithdraw);
        }

        // Refund every qualifying entry.
        let mut outcomes: Vec<EntryOutcome> = Vec::new();
        let mut success_count: usize = 0;
        let ghost pool0 = self.payment_token_account;
        let mut i: usize = 0;
        while i < n
            invariant
                i <= n,
                self.entries@.len() == n,
                forall|j: int| 0 <= j < i
                    ==> self.entries@[j] == entry_after_refund(entries0[j]),
                forall|j: int| i <= j < n ==> self.entries@[j] == entries0[j],
                self.payment_token_account == (TokenAccount {
                    amount: (pool0.amount - refund_sum(entries0.subrange(0, i as int))) as u64,
                    ..pool0
                }),
                success_count == refund_count(entries0.subrange(0, i as int)),
                success_count <= i,
                outcomes@.len() == i,
                forall|j: int| 0 <= j < i
                    ==> outcomes@[j] == (if refundable_entry(entries0[j]) {
                        EntryOutcome::Completed
                    } else {
                        EntryOutcome::Skipped
                    }),
                self.agreement == old(self).agreement,
            decreases n - i,
        {
            proof {
                assert(entries0.subrange(0, i as int + 1).drop_last()
                    =~= entries0.subrange(0, i as int));
                lemma_refund_prefix_le(entries0, i as int + 1);
                lemma_refund_prefix_le(entries0, i as int);
            }
            let entry = self.entries[i];
            if entry.investor.investor_deposited {
                let invested_amount = entry.investor.required_amount;
                let mut destination = entry.destination;
                transfer(&mut self.payment_token_account, &mut destination, invested_amount);
                let updated = BatchEntry {
                    investor: Investor { investor_deposited: false, ..entry.investor },
                    destination,
                };
                self.entries.set(i, updated);
                success_count = success_count + 1;
                outcomes.push(EntryOutcome::Completed);
            } else {
                outcomes.push(EntryOutcome::Skipped);
            }
            i = i + 1;
        }
        proof {
            assert(entries0.subrange(0, n as int) =~= entries0);
            lemma_refund_prefix_le(entries0, n as int);
        }
        Ok(BatchReport { outcomes, success_count: success_count as u64 })
    }
}

} // verus!
