//! The ledger's records: one `Vault` per lending pool and one
//! `CollateralPosition` per (user, vault, collateral asset).

use vstd::prelude::*;
use crate::error::CollateralError;
use crate::types::Identity;

verus! {

/// A lending pool: its parameters and the running totals over its positions.
#[derive(Clone, Debug)]
pub struct Vault {
    /// The identity that positions of this vault refer to it by.
    pub address: Identity,
    /// The administrator that created the vault.
    pub authority: Identity,
    pub vault_name: String,
    /// Required collateralization in basis points (15000 = 150%); never zero
    /// for a vault made by [`create_vault`].
    pub collateral_ratio: u64,
    pub total_collateral_value: u64,
    pub total_borrowed: u64,
    /// New deposits and borrows are accepted only while this holds.
    pub is_active: bool,
    pub created_at: i64,
}

/// One user's collateral and debt in one vault for one collateral asset.
#[derive(Clone, Copy, Debug, PartialEq, Eq, Structural)]
pub struct CollateralPosition {
    pub user: Identity,
    pub vault: Identity,
    /// The collateral asset (its mint) that this position holds.
    pub property_mint: Identity,
    /// Units of the collateral asset held in custody for the user.
    pub collateral_amount: u64,
    /// Stable-value worth of the collateral, summed over deposits at the
    /// unit value given with each.
    pub collateral_value: u64,
    /// Outstanding debt in the stable-value asset.
    pub borrowed_amount: u64,
    /// When the position last changed; kept for audit only.
    pub last_update: i64,
}

/// Whether a position holds neither collateral nor debt.
pub open spec fn is_empty(p: CollateralPosition) -> bool {
    &&& p.collateral_amount == 0
    &&& p.collateral_value == 0
    &&& p.borrowed_amount == 0
}

/// The two states a position moves between.
#[derive(Clone, Copy, Debug, PartialEq, Eq, Structural)]
pub enum PositionState {
    Empty,
    Funded,
}

impl CollateralPosition {
    /// A fresh position, as it stands before its first deposit.
    pub fn new(user: Identity, vault: Identity, property_mint: Identity) -> (r: CollateralPosition)
        ensures
            r.user == user,
            r.vault == vault,
            r.property_mint == property_mint,
            is_empty(r),
            r.last_update == 0,
    {
        CollateralPosition {
            user,
            vault,
            property_mint,
            collateral_amount: 0,
            collateral_value: 0,
            borrowed_amount: 0,
            last_update: 0,
        }
    }

    pub fn state(&self) -> (r: PositionState)
        ensures
            r == PositionState::Empty <==> is_empty(*self),
    {
        if self.collateral_amount == 0 && self.collateral_value == 0 && self.borrowed_amount == 0 {
            PositionState::Empty
        } else {
            PositionState::Funded
        }
    }
}

/// Creates a vault with zero totals that accepts deposits and borrows.
/// Fails with `InvalidParameter` exactly when the ratio is zero.
pub fn create_vault(
    address: Identity,
    authority: Identity,
    vault_name: String,
    collateral_ratio: u64,
    now: i64,
) -> (r: Result<Vault, CollateralError>)
    ensures
        collateral_ratio == 0 <==> r == Err::<Vault, CollateralError>(
            CollateralError::InvalidParameter,
        ),
        r is Ok <==> collateral_ratio > 0,
        r matches Ok(v) ==> {
            &&& v.address == address
            &&& v.authority == authority
            &&& v.vault_name@ == vault_name@
            &&& v.collateral_ratio == collateral_ratio
            &&& v.total_collateral_value == 0
            &&& v.total_borrowed == 0
            &&& v.is_active
            &&& v.created_at == now
        },
{
    if collateral_ratio == 0 {
        return Err(CollateralError::InvalidParameter);
    }
    Ok(
        Vault {
            address,
            authority,
            vault_name,
            collateral_ratio,
            total_collateral_value: 0,
            total_borrowed: 0,
            is_active: true,
            created_at: now,
        },
    )
}

} // verus!
