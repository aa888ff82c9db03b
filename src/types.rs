//! Identities, assets and the value-transfer instructions the engine emits.

use vstd::prelude::*;

verus! {

/// A 256-bit account identity (a user, a vault, or an asset's mint), held as
/// its high and low 128-bit halves.
#[derive(Clone, Copy, Debug, PartialEq, Eq, Structural)]
pub struct Identity {
    pub high: u128,
    pub low: u128,
}

impl Identity {
    pub fn new(high: u128, low: u128) -> (r: Identity)
        ensures
            r.high == high,
            r.low == low,
    {
        Identity { high, low }
    }
}

/// The asset a transfer moves: units of a position's collateral asset, or the
/// stable-value asset that loans are paid out and repaid in.
#[derive(Clone, Copy, Debug, PartialEq, Eq, Structural)]
pub enum Asset {
    Collateral(Identity),
    Stable,
}

/// One side of a transfer: a participant's own account, or the custody
/// account that a vault holds pooled assets in.
#[derive(Clone, Copy, Debug, PartialEq, Eq, Structural)]
pub enum Holder {
    Account(Identity),
    Custody(Identity),
}

/// An instruction to the value-transfer port: move `amount` units of `asset`
/// from `from` to `to`, atomically or not at all.
#[derive(Clone, Copy, Debug, PartialEq, Eq, Structural)]
pub struct Transfer {
    pub asset: Asset,
    pub amount: u64,
    pub from: Holder,
    pub to: Holder,
}

} // verus!
