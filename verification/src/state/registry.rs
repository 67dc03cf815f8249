//! The per-agreement store of investor records: a keyed collection with an
//! explicit create-if-absent primitive, keyed by wallet address.

use vstd::prelude::*;
use crate::errors::ErrorCode;
use crate::state::investor::Investor;
use crate::state::settings::Address;

verus! {

/// No two records share a wallet.
pub open spec fn wallets_unique(s: Seq<Investor>) -> bool {
    forall|i: int, j: int| 0 <= i < j < s.len() ==> s[i].wallet != s[j].wallet
}

/// Some record is keyed by `wallet`.
pub open spec fn has_wallet(s: Seq<Investor>, wallet: Address) -> bool {
    exists|i: int| 0 <= i < s.len() && s[i].wallet == wallet
}

/// The investor records of one agreement, keyed by wallet.
#[derive(Clone, Debug, PartialEq, Eq)]
pub struct InvestorRegistry {
    /// The records, in registration order.
    pub investors: Vec<Investor>,
}

impl InvestorRegistry {
    /// An empty store.
    pub fn new() -> (r: InvestorRegistry)
        ensures
            r.investors@ == Seq::<Investor>::empty(),
    {
        InvestorRegistry { investors: Vec::new() }
    }

    /// Whether a record keyed by `wallet` exists.
    pub fn contains(&self, wallet: Address) -> (r: bool)
        ensures
            r == has_wallet(self.investors@, wallet),
    {
        let mut i: usize = 0;
        while i < self.investors.len()
            invariant
                i <= self.investors@.len(),
                forall|j: int| 0 <= j < i ==> self.investors@[j].wallet != wallet,
            decreases self.investors@.len() - i,
        {
            if self.investors[i].wallet == wallet {
                return true;
            }
            i = i + 1;
        }
        false
    }

    /// The record keyed by `wallet`, if one exists.
    pub fn get(&self, wallet: Address) -> (r: Option<&Investor>)
        ensures
            match r {
                Some(inv) => inv.wallet == wallet && self.investors@.contains(*inv),
                None => !has_wallet(self.investors@, wallet),
            },
    {
        let mut i: usize = 0;
        while i < self.investors.len()
            invariant
                i <= self.investors@.len(),
                forall|j: int| 0 <= j < i ==> self.investors@[j].wallet != wallet,
            decreases self.investors@.len() - i,
        {
            if self.investors[i].wallet == wallet {
                return Some(&self.investors[i]);
            }
            i = i + 1;
        }
        None
    }

    /// Create-if-absent: stores `investor` under its wallet, and refuses the
    /// call if a record with that wallet already exists.
    pub fn create(&mut self, investor: Investor) -> (r: Result<(), ErrorCode>)
        ensures
            match r {
                Ok(()) => !has_wallet(old(self).investors@, investor.wallet)
                    && final(self).investors@ == old(self).investors@.push(investor),
                Err(e) => e == ErrorCode::InvestorAlreadyExists
                    && has_wallet(old(self).investors@, investor.wallet)
                    && *final(self) == *old(self),
            },
            wallets_unique(old(self).investors@) ==> wallets_unique(final(self).investors@),
    {
        if self.contains(investor.wallet) {
            Err(ErrorCode::InvestorAlreadyExists)
        } else {
            self.investors.push(investor);
            Ok(())
        }
    }
}

} // verus!
