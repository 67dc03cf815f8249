//! Process-wide configuration, created once by deployment and immutable
//! thereafter.

use vstd::prelude::*;
use crate::settlement::BASIC_POINTS;

verus! {

/// Addresses are the keys of the external record store and the identities of
/// signers; the engine only ever compares them, so they are plain numbers
/// here.
pub type Address = u64;

/// The singleton configuration read by every money-moving operation.
#[derive(Clone, Copy, Debug, PartialEq, Eq, Structural)]
pub struct Settings {
    /// Seconds that must elapse after the seller's token deposit before
    /// cancellation for non-completion becomes legal.
    pub cancel_timeout: i64,
    /// Fee rate in 1/10000ths, applied to both stablecoin and token
    /// settlements.
    pub commission_basis_points: u16,
    /// The administrator: the sole account authorized to create agreements,
    /// and the recipient of commission.
    pub owner: Address,
}

impl Settings {
    /// A usable configuration: the rate is a fraction of one whole, so that
    /// a commission never exceeds the amount it is taken from.
    pub open spec fn valid(self) -> bool {
        self.commission_basis_points <= BASIC_POINTS
    }
}

} // verus!
