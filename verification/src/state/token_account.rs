//! Token balances and the transfer primitive of the external token service,
//! modelled at its interface: a transfer atomically debits the source and
//! credits the destination.

use vstd::prelude::*;
use crate::state::settings::Address;

verus! {

/// A token-holding balance. Pool accounts are owned by the agreement's
/// transfer authority; every other account belongs to some wallet.
#[derive(Clone, Copy, Debug, PartialEq, Eq, Structural)]
pub struct TokenAccount {
    /// The account's address in the external store.
    pub address: Address,
    /// The wallet this balance belongs to.
    pub owner: Address,
    /// The mint of the tokens held.
    pub mint: Address,
    /// Current balance.
    pub amount: u64,
}

/// Moves `amount` from `from` to `to`, debiting and crediting atomically.
pub fn transfer(from: &mut TokenAccount, to: &mut TokenAccount, amount: u64)
    requires
        amount <= old(from).amount,
        old(to).amount + amount <= u64::MAX,
    ensures
        final(from).amount == old(from).amount - amount,
        final(to).amount == old(to).amount + amount,
        final(from).address == old(from).address,
        final(from).owner == old(from).owner,
        final(from).mint == old(from).mint,
        final(to).address == old(to).address,
        final(to).owner == old(to).owner,
        final(to).mint == old(to).mint,
{
    from.amount = from.amount - amount;
    to.amount = to.amount + amount;
}

} // verus!
