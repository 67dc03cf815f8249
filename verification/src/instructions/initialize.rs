//! Creation of the process-wide `Settings` record.

use vstd::prelude::*;
use crate::settlement::BASIC_POINTS;
use crate::state::settings::{Address, Settings};

verus! {

/// Arguments of `Initialize::handle`.
#[derive(Clone, Copy, Debug, PartialEq, Eq, Structural)]
pub struct InitializeParams {
    /// Seconds before cancellation for non-completion becomes legal.
    pub cancel_timeout: i64,
    /// Commission rate in basis points.
    pub commission_basis_points: u16,
    /// The administrator and commission recipient.
    pub owner: Address,
}

/// Creates the configuration singleton. The external store rejects
/// re-creation at the same address, so this runs once per deployment.
pub struct Initialize;

impl Initialize {
    /// Builds the `Settings` record from the given parameters.
    pub fn handle(params: InitializeParams) -> (s: Settings)
        requires
            params.commission_basis_points <= BASIC_POINTS,
        ensures
            s == (Settings {
                cancel_timeout: params.cancel_timeout,
                commission_basis_points: params.commission_basis_points,
                owner: params.owner,
            }),
            s.valid(),
    {
        Settings {
            cancel_timeout: params.cancel_timeout,
            commission_basis_points: params.commission_basis_points,
            owner: params.owner,
        }
    }
}

} // verus!
