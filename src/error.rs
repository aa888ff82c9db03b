//! The ways an operation on the ledger can be refused.

use vstd::prelude::*;

verus! {

#[derive(Clone, Copy, Debug, PartialEq, Eq, Structural)]
pub enum CollateralError {
    /// A deposit or borrow was attempted on a vault that is not active.
    InactiveVault,
    /// A zero amount, a zero collateral ratio, or a position of another vault.
    InvalidParameter,
    /// The caller is not the owner of the position.
    Unauthorized,
    /// The borrow would push the debt above the vault's ceiling.
    ExceedsCollateralRatio,
    /// Collateral cannot leave while debt remains.
    OutstandingDebt,
    /// The withdrawal asks for more collateral than the position holds.
    InsufficientCollateral,
    /// The position meets its required ratio and cannot be liquidated.
    HealthyPosition,
    /// A checked step of arithmetic would leave the 64-bit range.
    ArithmeticOverflow,
    /// The value-transfer port refused the transfer, for the reason given.
    TransferFailed(u32),
}

impl CollateralError {
    /// A short human-readable description of the error.
    pub fn message(&self) -> (r: &'static str) {
        match self {
            CollateralError::InactiveVault => "Vault is not active",
            CollateralError::InvalidParameter => "Invalid parameter",
            CollateralError::Unauthorized => "Unauthorized access",
            CollateralError::ExceedsCollateralRatio => "Borrow amount exceeds collateral ratio",
            CollateralError::OutstandingDebt => "Outstanding debt must be repaid first",
            CollateralError::InsufficientCollateral => "Insufficient collateral",
            CollateralError::HealthyPosition => "Position is healthy, cannot liquidate",
            CollateralError::ArithmeticOverflow => "Arithmetic overflow",
            CollateralError::TransferFailed(_) => "Transfer failed",
        }
    }
}

} // verus!
