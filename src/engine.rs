//! The lending engine. Each operation comes in two steps:
//!
//! * `plan_*` validates a request against the current records and returns the
//!   transfer that the value-transfer port must carry out;
//! * the operation itself validates again, atomically with the commit, and
//!   applies the change only when the port reported success. On any error the
//!   records stay as they were.

use vstd::prelude::*;
use crate::error::CollateralError;
use crate::health::{covers, is_healthy, lemma_ceiling_is_coverage, max_borrow, max_borrow_of};
use crate::state::{CollateralPosition, Vault};
use crate::types::{Asset, Holder, Identity, Transfer};

verus! {

/// The result of a plan: the first failed check, else the transfer.
pub open spec fn planned(check: Option<CollateralError>, transfer: Transfer) -> Result<
    Transfer,
    CollateralError,
> {
    match check {
        Some(e) => Err(e),
        None => Ok(transfer),
    }
}

/// The result of an operation: the first failed check, else what the
/// value-transfer port reported.
pub open spec fn settled(check: Option<CollateralError>, outcome: Result<(), u32>) -> Result<
    (),
    CollateralError,
> {
    match check {
        Some(e) => Err(e),
        None => match outcome {
            Ok(_) => Ok(()),
            Err(reason) => Err(CollateralError::TransferFailed(reason)),
        },
    }
}

/// The vault keeps its parameters, and its totals move by exactly what the
/// position's collateral value and debt moved by.
pub open spec fn tracks(
    v0: Vault,
    p0: CollateralPosition,
    v1: Vault,
    p1: CollateralPosition,
) -> bool {
    &&& v1.address == v0.address
    &&& v1.authority == v0.authority
    &&& v1.vault_name == v0.vault_name
    &&& v1.collateral_ratio == v0.collateral_ratio
    &&& v1.is_active == v0.is_active
    &&& v1.created_at == v0.created_at
    &&& v1.total_collateral_value - v0.total_collateral_value == p1.collateral_value
        - p0.collateral_value
    &&& v1.total_borrowed - v0.total_borrowed == p1.borrowed_amount - p0.borrowed_amount
}

/// The position keeps its key: user, vault and collateral asset.
pub open spec fn same_key(p0: CollateralPosition, p1: CollateralPosition) -> bool {
    &&& p1.user == p0.user
    &&& p1.vault == p0.vault
    &&& p1.property_mint == p0.property_mint
}

/// The ceiling invariant carries over: if the old position's debt was covered
/// at the vault's ratio, so is the new one's.
pub open spec fn kept_covered(v: Vault, p0: CollateralPosition, p1: CollateralPosition) -> bool {
    covers(p0.collateral_value as int, p0.borrowed_amount as int, v.collateral_ratio as int)
        ==> covers(p1.collateral_value as int, p1.borrowed_amount as int, v.collateral_ratio as int)
}

// ---------------------------------------------------------------- deposit

/// Every total that a deposit raises stays within 64 bits.
pub open spec fn deposit_fits(
    v: Vault,
    p: CollateralPosition,
    amount: u64,
    unit_value: u64,
) -> bool {
    &&& amount * unit_value <= u64::MAX
    &&& p.collateral_amount + amount <= u64::MAX
    &&& p.collateral_value + amount * unit_value <= u64::MAX
    &&& v.total_collateral_value + amount * unit_value <= u64::MAX
}

/// The first check that a deposit fails, if any.
pub open spec fn deposit_check(
    v: Vault,
    p: CollateralPosition,
    user: Identity,
    amount: u64,
    unit_value: u64,
) -> Option<CollateralError> {
    if !v.is_active {
        Some(CollateralError::InactiveVault)
    } else if p.vault != v.address {
        Some(CollateralError::InvalidParameter)
    } else if p.user != user {
        Some(CollateralError::Unauthorized)
    } else if amount == 0 {
        Some(CollateralError::InvalidParameter)
    } else if !deposit_fits(v, p, amount, unit_value) {
        Some(CollateralError::ArithmeticOverflow)
    } else {
        None
    }
}

/// A deposit moves the collateral from the user into the vault's custody.
pub open spec fn deposit_transfer(v: Vault, p: CollateralPosition, amount: u64) -> Transfer {
    Transfer {
        asset: Asset::Collateral(p.property_mint),
        amount,
        from: Holder::Account(p.user),
        to: Holder::Custody(v.address),
    }
}

/// `p1` is `p0` after a deposit of `amount` units worth `unit_value` each.
pub open spec fn deposited(
    p0: CollateralPosition,
    p1: CollateralPosition,
    amount: u64,
    unit_value: u64,
    now: i64,
) -> bool {
    &&& same_key(p0, p1)
    &&& p1.collateral_amount == p0.collateral_amount + amount
    &&& p1.collateral_value == p0.collateral_value + amount * unit_value
    &&& p1.borrowed_amount == p0.borrowed_amount
    &&& p1.last_update == now
}

/// Validates a deposit; on success returns the value it adds.
fn check_deposit(
    vault: &Vault,
    position: &CollateralPosition,
    user: &Identity,
    amount: u64,
    unit_value: u64,
) -> (r: Result<u64, CollateralError>)
    ensures
        match deposit_check(*vault, *position, *user, amount, unit_value) {
            Some(e) => r == Err::<u64, CollateralError>(e),
            None => r == Ok::<u64, CollateralError>((amount * unit_value) as u64),
        },
{
    if !vault.is_active {
        return Err(CollateralError::InactiveVault);
    }
    if position.vault != vault.address {
        return Err(CollateralError::InvalidParameter);
    }
    if position.user != *user {
        return Err(CollateralError::Unauthorized);
    }
    if amount == 0 {
        return Err(CollateralError::InvalidParameter);
    }
    proof {
        assert(0 <= amount * unit_value <= 0xffff_ffff_ffff_ffff * 0xffff_ffff_ffff_ffff)
            by (nonlinear_arith)
            requires
                amount <= 0xffff_ffff_ffff_ffff,
                unit_value <= 0xffff_ffff_ffff_ffff,
        ;
    }
    let wide: u128 = (amount as u128) * (unit_value as u128);
    if wide > u64::MAX as u128 {
        return Err(CollateralError::ArithmeticOverflow);
    }
    let value = wide as u64;
    if position.collateral_amount > u64::MAX - amount || position.collateral_value > u64::MAX
        - value || vault.total_collateral_value > u64::MAX - value {
        return Err(CollateralError::ArithmeticOverflow);
    }
    Ok(value)
}

/// Validates a deposit of `amount` units of the position's collateral asset,
/// each worth `unit_value`, and returns the transfer into custody.
pub fn plan_deposit(
    vault: &Vault,
    position: &CollateralPosition,
    user: &Identity,
    amount: u64,
    unit_value: u64,
) -> (r: Result<Transfer, CollateralError>)
    ensures
        r == planned(
            deposit_check(*vault, *position, *user, amount, unit_value),
            deposit_transfer(*vault, *position, amount),
        ),
{
    match check_deposit(vault, position, user, amount, unit_value) {
        Err(e) => Err(e),
        Ok(_) => Ok(
            Transfer {
                asset: Asset::Collateral(position.property_mint),
                amount,
                from: Holder::Account(position.user),
                to: Holder::Custody(vault.address),
            },
        ),
    }
}

/// Deposits `amount` units of collateral worth `unit_value` each, once the
/// transfer into custody has been carried out with result `outcome`.
pub fn deposit_collateral(
    vault: &mut Vault,
    position: &mut CollateralPosition,
    user: &Identity,
    amount: u64,
    unit_value: u64,
    now: i64,
    outcome: Result<(), u32>,
) -> (r: Result<(), CollateralError>)
    ensures
        r == settled(deposit_check(*old(vault), *old(position), *user, amount, unit_value), outcome),
        r is Err ==> *final(vault) == *old(vault) && *final(position) == *old(position),
        r is Ok ==> deposited(*old(position), *final(position), amount, unit_value, now),
        r is Ok ==> tracks(*old(vault), *old(position), *final(vault), *final(position)),
        r is Ok ==> kept_covered(*old(vault), *old(position), *final(position)),
{
    let value = match check_deposit(vault, position, user, amount, unit_value) {
        Err(e) => return Err(e),
        Ok(v) => v,
    };
    if let Err(reason) = outcome {
        return Err(CollateralError::TransferFailed(reason));
    }
    proof {
        let (cv, b, ratio) = (
            position.collateral_value as int,
            position.borrowed_amount as int,
            vault.collateral_ratio as int,
        );
        assert((cv + value) * 10000 >= cv * 10000) by (nonlinear_arith)
            requires
                value >= 0,
        ;
    }
    position.collateral_amount = position.collateral_amount + amount;
    position.collateral_value = position.collateral_value + value;
    position.last_update = now;
    vault.total_collateral_value = vault.total_collateral_value + value;
    Ok(())
}

// ----------------------------------------------------------------- borrow

/// The first check that a borrow fails, if any.
pub open spec fn borrow_check(
    v: Vault,
    p: CollateralPosition,
    user: Identity,
    amount: u64,
) -> Option<CollateralError> {
    if !v.is_active {
        Some(CollateralError::InactiveVault)
    } else if p.vault != v.address {
        Some(CollateralError::InvalidParameter)
    } else if p.user != user {
        Some(CollateralError::Unauthorized)
    } else if amount == 0 || v.collateral_ratio == 0 {
        Some(CollateralError::InvalidParameter)
    } else if p.borrowed_amount + amount > max_borrow_of(
        p.collateral_value as int,
        v.collateral_ratio as int,
    ) {
        Some(CollateralError::ExceedsCollateralRatio)
    } else if p.borrowed_amount + amount > u64::MAX || v.total_borrowed + amount > u64::MAX {
        Some(CollateralError::ArithmeticOverflow)
    } else {
        None
    }
}

/// A borrow pays the stable asset out of the vault's custody to the user.
pub open spec fn borrow_transfer(v: Vault, p: CollateralPosition, amount: u64) -> Transfer {
    Transfer {
        asset: Asset::Stable,
        amount,
        from: Holder::Custody(v.address),
        to: Holder::Account(p.user),
    }
}

/// `p1` is `p0` after borrowing `amount`.
pub open spec fn borrowed(
    p0: CollateralPosition,
    p1: CollateralPosition,
    amount: u64,
    now: i64,
) -> bool {
    &&& same_key(p0, p1)
    &&& p1.collateral_amount == p0.collateral_amount
    &&& p1.collateral_value == p0.collateral_value
    &&& p1.borrowed_amount == p0.borrowed_amount + amount
    &&& p1.last_update == now
}

fn check_borrow(
    vault: &Vault,
    position: &CollateralPosition,
    user: &Identity,
    amount: u64,
) -> (r: Result<(), CollateralError>)
    ensures
        match borrow_check(*vault, *position, *user, amount) {
            Some(e) => r == Err::<(), CollateralError>(e),
            None => r is Ok,
        },
{
    if !vault.is_active {
        return Err(CollateralError::InactiveVault);
    }
    if position.vault != vault.address {
        return Err(CollateralError::InvalidParameter);
    }
    if position.user != *user {
        return Err(CollateralError::Unauthorized);
    }
    if amount == 0 || vault.collateral_ratio == 0 {
        return Err(CollateralError::InvalidParameter);
    }
    let ceiling = max_borrow(position.collateral_value, vault.collateral_ratio);
    let wanted: u128 = position.borrowed_amount as u128 + amount as u128;
    if wanted > ceiling {
        return Err(CollateralError::ExceedsCollateralRatio);
    }
    if wanted > u64::MAX as u128 || vault.total_borrowed > u64::MAX - amount {
        return Err(CollateralError::ArithmeticOverflow);
    }
    Ok(())
}

/// Validates a borrow of `amount` of the stable asset against the position's
/// collateral, and returns the payout from custody.
pub fn plan_borrow(
    vault: &Vault,
    position: &CollateralPosition,
    user: &Identity,
    amount: u64,
) -> (r: Result<Transfer, CollateralError>)
    ensures
        r == planned(
            borrow_check(*vault, *position, *user, amount),
            borrow_transfer(*vault, *position, amount),
        ),
{
    match check_borrow(vault, position, user, amount) {
        Err(e) => Err(e),
        Ok(_) => Ok(
            Transfer {
                asset: Asset::Stable,
                amount,
                from: Holder::Custody(vault.address),
                to: Holder::Account(position.user),
            },
        ),
    }
}

/// Borrows `amount` against the position, once the payout has been carried
/// out with result `outcome`. The debt never leaves the vault's ceiling: after
/// a success the debt times the ratio is at most the collateral value times
/// 10000.
pub fn borrow_against_collateral(
    vault: &mut Vault,
    position: &mut CollateralPosition,
    user: &Identity,
    amount: u64,
    now: i64,
    outcome: Result<(), u32>,
) -> (r: Result<(), CollateralError>)
    ensures
        r == settled(borrow_check(*old(vault), *old(position), *user, amount), outcome),
        r is Err ==> *final(vault) == *old(vault) && *final(position) == *old(position),
        r is Ok ==> borrowed(*old(position), *final(position), amount, now),
        r is Ok ==> tracks(*old(vault), *old(position), *final(vault), *final(position)),
        r is Ok ==> covers(
            final(position).collateral_value as int,
            final(position).borrowed_amount as int,
            final(vault).collateral_ratio as int,
        ),
        old(vault).is_active && old(position).vault == old(vault).address && old(position).user
            == *user && amount > 0 && old(vault).collateral_ratio > 0 ==> (r == Err::<
            (),
            CollateralError,
        >(CollateralError::ExceedsCollateralRatio) <==> !covers(
            old(position).collateral_value as int,
            old(position).borrowed_amount + amount,
            old(vault).collateral_ratio as int,
        )),
{
    proof {
        if vault.collateral_ratio > 0 {
            lemma_ceiling_is_coverage(
                position.collateral_value as int,
                position.borrowed_amount + amount,
                vault.collateral_ratio as int,
            );
        }
    }
    match check_borrow(vault, position, user, amount) {
        Err(e) => return Err(e),
        Ok(_) => {},
    }
    if let Err(reason) = outcome {
        return Err(CollateralError::TransferFailed(reason));
    }
    proof {
        lemma_ceiling_is_coverage(
            position.collateral_value as int,
            position.borrowed_amount + amount,
            vault.collateral_ratio as int,
        );
    }
    position.borrowed_amount = position.borrowed_amount + amount;
    position.last_update = now;
    vault.total_borrowed = vault.total_borrowed + amount;
    Ok(())
}

// ------------------------------------------------------------------ repay

/// The debt left after repaying `amount`: an overpayment clears it.
pub open spec fn debt_after_repay(borrowed_amount: u64, amount: u64) -> int {
    if amount >= borrowed_amount {
        0
    } else {
        borrowed_amount - amount
    }
}

/// The first check that a repayment fails, if any.
pub open spec fn repay_check(
    v: Vault,
    p: CollateralPosition,
    user: Identity,
    amount: u64,
) -> Option<CollateralError> {
    if p.vault != v.address {
        Some(CollateralError::InvalidParameter)
    } else if p.user != user {
        Some(CollateralError::Unauthorized)
    } else if amount == 0 {
        Some(CollateralError::InvalidParameter)
    } else if v.total_borrowed < p.borrowed_amount - debt_after_repay(p.borrowed_amount, amount) {
        Some(CollateralError::ArithmeticOverflow)
    } else {
        None
    }
}

/// A repayment moves the stable asset from the user into custody; all of
/// `amount` moves, also where it exceeds the debt.
pub open spec fn repay_transfer(v: Vault, p: CollateralPosition, amount: u64) -> Transfer {
    Transfer {
        asset: Asset::Stable,
        amount,
        from: Holder::Account(p.user),
        to: Holder::Custody(v.address),
    }
}

/// `p1` is `p0` after repaying `amount`.
pub open spec fn repaid(
    p0: CollateralPosition,
    p1: CollateralPosition,
    amount: u64,
    now: i64,
) -> bool {
    &&& same_key(p0, p1)
    &&& p1.collateral_amount == p0.collateral_amount
    &&& p1.collateral_value == p0.collateral_value
    &&& p1.borrowed_amount == debt_after_repay(p0.borrowed_amount, amount)
    &&& p1.last_update == now
}

/// Validates a repayment; on success returns the debt it clears.
fn check_repay(
    vault: &Vault,
    position: &CollateralPosition,
    user: &Identity,
    amount: u64,
) -> (r: Result<u64, CollateralError>)
    ensures
        match repay_check(*vault, *position, *user, amount) {
            Some(e) => r == Err::<u64, CollateralError>(e),
            None => r == Ok::<u64, CollateralError>(
                (position.borrowed_amount - debt_after_repay(position.borrowed_amount, amount)) as u64,
            ),
        },
{
    if position.vault != vault.address {
        return Err(CollateralError::InvalidParameter);
    }
    if position.user != *user {
        return Err(CollateralError::Unauthorized);
    }
    if amount == 0 {
        return Err(CollateralError::InvalidParameter);
    }
    let remaining = position.borrowed_amount.saturating_sub(amount);
    let cleared = position.borrowed_amount - remaining;
    if vault.total_borrowed < cleared {
        return Err(CollateralError::ArithmeticOverflow);
    }
    Ok(cleared)
}

/// Validates a repayment of `amount` and returns the transfer into custody.
pub fn plan_repay(
    vault: &Vault,
    position: &CollateralPosition,
    user: &Identity,
    amount: u64,
) -> (r: Result<Transfer, CollateralError>)
    ensures
        r == planned(
            repay_check(*vault, *position, *user, amount),
            repay_transfer(*vault, *position, amount),
        ),
{
    match check_repay(vault, position, user, amount) {
        Err(e) => Err(e),
        Ok(_) => Ok(
            Transfer {
                asset: Asset::Stable,
                amount,
                from: Holder::Account(position.user),
                to: Holder::Custody(vault.address),
            },
        ),
    }
}

/// Repays `amount` of the position's debt, once the transfer into custody
/// has been carried out with result `outcome`. The debt saturates at zero.
/// Repayment is allowed on an inactive vault.
pub fn repay_loan(
    vault: &mut Vault,
    position: &mut CollateralPosition,
    user: &Identity,
    amount: u64,
    now: i64,
    outcome: Result<(), u32>,
) -> (r: Result<(), CollateralError>)
    ensures
        r == settled(repay_check(*old(vault), *old(position), *user, amount), outcome),
        r is Err ==> *final(vault) == *old(vault) && *final(position) == *old(position),
        r is Ok ==> repaid(*old(position), *final(position), amount, now),
        r is Ok ==> tracks(*old(vault), *old(position), *final(vault), *final(position)),
        r is Ok ==> kept_covered(*old(vault), *old(position), *final(position)),
{
    let cleared = match check_repay(vault, position, user, amount) {
        Err(e) => return Err(e),
        Ok(c) => c,
    };
    if let Err(reason) = outcome {
        return Err(CollateralError::TransferFailed(reason));
    }
    proof {
        let (b, ratio) = (position.borrowed_amount as int, vault.collateral_ratio as int);
        assert((b - cleared) * ratio <= b * ratio) by (nonlinear_arith)
            requires
                cleared >= 0,
                ratio >= 0,
        ;
    }
    position.borrowed_amount = position.borrowed_amount - cleared;
    position.last_update = now;
    vault.total_borrowed = vault.total_borrowed - cleared;
    Ok(())
}

// --------------------------------------------------------------- withdraw

/// The first check that a withdrawal fails, if any. Debt is checked before
/// the amount, so any request on an indebted position is refused for it.
pub open spec fn withdraw_check(
    v: Vault,
    p: CollateralPosition,
    user: Identity,
    amount: u64,
) -> Option<CollateralError> {
    if p.vault != v.address {
        Some(CollateralError::InvalidParameter)
    } else if p.user != user {
        Some(CollateralError::Unauthorized)
    } else if p.borrowed_amount > 0 {
        Some(CollateralError::OutstandingDebt)
    } else if amount == 0 {
        Some(CollateralError::InvalidParameter)
    } else if amount > p.collateral_amount {
        Some(CollateralError::InsufficientCollateral)
    } else if v.total_collateral_value < p.collateral_value - value_after_withdraw(
        p.collateral_value,
        p.collateral_amount,
        amount,
    ) {
        Some(CollateralError::ArithmeticOverflow)
    } else {
        None
    }
}

/// The collateral value that stays with the units left after withdrawing
/// `amount` of `held`: the value pro-rated to those units, rounded down, and
/// zero once no unit is left.
pub open spec fn value_after_withdraw(value: u64, held: u64, amount: u64) -> int {
    if amount >= held {
        0
    } else {
        value * (held - amount) / (held as int)
    }
}

/// A withdrawal returns collateral from custody to the user.
pub open spec fn withdraw_transfer(v: Vault, p: CollateralPosition, amount: u64) -> Transfer {
    Transfer {
        asset: Asset::Collateral(p.property_mint),
        amount,
        from: Holder::Custody(v.address),
        to: Holder::Account(p.user),
    }
}

/// `p1` is `p0` after withdrawing `amount` units; its collateral value is
/// pro-rated to the units that remain.
pub open spec fn withdrawn(
    p0: CollateralPosition,
    p1: CollateralPosition,
    amount: u64,
    now: i64,
) -> bool {
    &&& same_key(p0, p1)
    &&& p1.collateral_amount == p0.collateral_amount - amount
    &&& p1.collateral_value == value_after_withdraw(
        p0.collateral_value,
        p0.collateral_amount,
        amount,
    )
    &&& p1.borrowed_amount == p0.borrowed_amount
    &&& p1.last_update == now
}

/// Validates a withdrawal; on success returns the collateral value that
/// stays with the position.
fn check_withdraw(
    vault: &Vault,
    position: &CollateralPosition,
    user: &Identity,
    amount: u64,
) -> (r: Result<u64, CollateralError>)
    ensures
        match withdraw_check(*vault, *position, *user, amount) {
            Some(e) => r == Err::<u64, CollateralError>(e),
            None => r == Ok::<u64, CollateralError>(
                value_after_withdraw(position.collateral_value, position.collateral_amount, amount)
                    as u64,
            ),
        },
        r matches Ok(kept) ==> kept == value_after_withdraw(
            position.collateral_value,
            position.collateral_amount,
            amount,
        ) && kept <= position.collateral_value && position.collateral_value - kept
            <= vault.total_collateral_value,
{
    if position.vault != vault.address {
        return Err(CollateralError::InvalidParameter);
    }
    if position.user != *user {
        return Err(CollateralError::Unauthorized);
    }
    if position.borrowed_amount > 0 {
        return Err(CollateralError::OutstandingDebt);
    }
    if amount == 0 {
        return Err(CollateralError::InvalidParameter);
    }
    let held = position.collateral_amount;
    if amount > held {
        return Err(CollateralError::InsufficientCollateral);
    }
    let value = position.collateral_value;
    let remaining = held - amount;
    let kept: u64 = if remaining == 0 {
        0
    } else {
        proof {
            lemma_pro_rata_bounded(value as int, remaining as int, held as int);
        }
        let wide: u128 = (value as u128) * (remaining as u128);
        (wide / (held as u128)) as u64
    };
    if vault.total_collateral_value < value - kept {
        return Err(CollateralError::ArithmeticOverflow);
    }
    Ok(kept)
}

/// A pro-rated share of a 64-bit value is computed within 128 bits and is at
/// most the value itself.
proof fn lemma_pro_rata_bounded(value: int, part: int, whole: int)
    requires
        0 <= value <= u64::MAX,
        0 <= part <= whole <= u64::MAX,
        whole > 0,
    ensures
        0 <= value * part <= u64::MAX * u64::MAX,
        u64::MAX * u64::MAX < u128::MAX,
        0 <= value * part / whole <= value,
{
    assert(0 <= value * part <= value * whole) by (nonlinear_arith)
        requires
            0 <= value,
            0 <= part <= whole,
    ;
    assert(value * whole <= u64::MAX * u64::MAX) by (nonlinear_arith)
        requires
            0 <= value <= u64::MAX,
            0 <= whole <= u64::MAX,
    ;
    vstd::arithmetic::div_mod::lemma_div_is_ordered(value * part, value * whole, whole);
    vstd::arithmetic::div_mod::lemma_div_by_multiple(value, whole);
    vstd::arithmetic::div_mod::lemma_div_pos_is_pos(value * part, whole);
}

/// Validates a withdrawal of `amount` units of collateral and returns the
/// transfer out of custody.
pub fn plan_withdraw(
    vault: &Vault,
    position: &CollateralPosition,
    user: &Identity,
    amount: u64,
) -> (r: Result<Transfer, CollateralError>)
    ensures
        r == planned(
            withdraw_check(*vault, *position, *user, amount),
            withdraw_transfer(*vault, *position, amount),
        ),
{
    match check_withdraw(vault, position, user, amount) {
        Err(e) => Err(e),
        Ok(_) => Ok(
            Transfer {
                asset: Asset::Collateral(position.property_mint),
                amount,
                from: Holder::Custody(vault.address),
                to: Holder::Account(position.user),
            },
        ),
    }
}

/// Withdraws `amount` units of collateral, once the transfer out of custody
/// has been carried out with result `outcome`. The position's collateral
/// value is pro-rated to the units that remain (rounded down, zero when none
/// remain), and the vault's total drops by what the position's value lost.
/// Refused with `OutstandingDebt` whenever the owner still owes anything,
/// whatever the amount asked for.
pub fn withdraw_collateral(
    vault: &mut Vault,
    position: &mut CollateralPosition,
    user: &Identity,
    amount: u64,
    now: i64,
    outcome: Result<(), u32>,
) -> (r: Result<(), CollateralError>)
    ensures
        r == settled(withdraw_check(*old(vault), *old(position), *user, amount), outcome),
        old(position).vault == old(vault).address && old(position).user == *user
            && old(position).borrowed_amount > 0 ==> r == Err::<(), CollateralError>(
            CollateralError::OutstandingDebt,
        ),
        r is Err ==> *final(vault) == *old(vault) && *final(position) == *old(position),
        r is Ok ==> withdrawn(*old(position), *final(position), amount, now),
        r is Ok ==> tracks(*old(vault), *old(position), *final(vault), *final(position)),
        r is Ok ==> kept_covered(*old(vault), *old(position), *final(position)),
{
    let kept = match check_withdraw(vault, position, user, amount) {
        Err(e) => return Err(e),
        Ok(k) => k,
    };
    if let Err(reason) = outcome {
        return Err(CollateralError::TransferFailed(reason));
    }
    proof {
        let ratio = vault.collateral_ratio as int;
        assert(kept * 10000 >= 0 * ratio) by (nonlinear_arith)
            requires
                kept >= 0,
        ;
    }
    vault.total_collateral_value = vault.total_collateral_value - (position.collateral_value
        - kept);
    position.collateral_amount = position.collateral_amount - amount;
    position.collateral_value = kept;
    position.last_update = now;
    Ok(())
}

// -------------------------------------------------------------- liquidate

/// The first check that a liquidation fails, if any. A position is healthy,
/// and cannot be liquidated, when its collateral covers its debt at the
/// vault's ratio; a position without debt always does.
pub open spec fn liquidate_check(v: Vault, p: CollateralPosition) -> Option<CollateralError> {
    if p.vault != v.address {
        Some(CollateralError::InvalidParameter)
    } else if covers(p.collateral_value as int, p.borrowed_amount as int, v.collateral_ratio as int) {
        Some(CollateralError::HealthyPosition)
    } else if v.total_collateral_value < p.collateral_value || v.total_borrowed < p.borrowed_amount {
        Some(CollateralError::ArithmeticOverflow)
    } else {
        None
    }
}

/// A liquidation hands all of the position's collateral to the liquidator.
pub open spec fn liquidate_transfer(
    v: Vault,
    p: CollateralPosition,
    liquidator: Identity,
) -> Transfer {
    Transfer {
        asset: Asset::Collateral(p.property_mint),
        amount: p.collateral_amount,
        from: Holder::Custody(v.address),
        to: Holder::Account(liquidator),
    }
}

/// `p1` is `p0` seized whole: no collateral, no value, no debt.
pub open spec fn liquidated(p0: CollateralPosition, p1: CollateralPosition, now: i64) -> bool {
    &&& same_key(p0, p1)
    &&& p1.collateral_amount == 0
    &&& p1.collateral_value == 0
    &&& p1.borrowed_amount == 0
    &&& p1.last_update == now
}

fn check_liquidate(vault: &Vault, position: &CollateralPosition) -> (r: Result<
    (),
    CollateralError,
>)
    ensures
        match liquidate_check(*vault, *position) {
            Some(e) => r == Err::<(), CollateralError>(e),
            None => r is Ok,
        },
{
    if position.vault != vault.address {
        return Err(CollateralError::InvalidParameter);
    }
    if is_healthy(position.collateral_value, position.borrowed_amount, vault.collateral_ratio) {
        return Err(CollateralError::HealthyPosition);
    }
    if vault.total_collateral_value < position.collateral_value || vault.total_borrowed
        < position.borrowed_amount {
        return Err(CollateralError::ArithmeticOverflow);
    }
    Ok(())
}

/// Validates a liquidation by `liquidator`, who needs no relation to the
/// position, and returns the transfer of the whole collateral to them.
pub fn plan_liquidate(vault: &Vault, position: &CollateralPosition, liquidator: &Identity) -> (r:
    Result<Transfer, CollateralError>)
    ensures
        r == planned(
            liquidate_check(*vault, *position),
            liquidate_transfer(*vault, *position, *liquidator),
        ),
        r matches Ok(t) ==> t.amount == position.collateral_amount && t.to == Holder::Account(
            *liquidator,
        ),
{
    match check_liquidate(vault, position) {
        Err(e) => Err(e),
        Ok(_) => Ok(
            Transfer {
                asset: Asset::Collateral(position.property_mint),
                amount: position.collateral_amount,
                from: Holder::Custody(vault.address),
                to: Holder::Account(*liquidator),
            },
        ),
    }
}

/// Liquidates an under-collateralized position, once the seizure transfer
/// has been carried out with result `outcome`: all or nothing, the position
/// is zeroed (and kept) and the vault's totals drop by what it held.
pub fn liquidate_position(
    vault: &mut Vault,
    position: &mut CollateralPosition,
    now: i64,
    outcome: Result<(), u32>,
) -> (r: Result<(), CollateralError>)
    ensures
        r == settled(liquidate_check(*old(vault), *old(position)), outcome),
        old(position).vault == old(vault).address && covers(
            old(position).collateral_value as int,
            old(position).borrowed_amount as int,
            old(vault).collateral_ratio as int,
        ) ==> r == Err::<(), CollateralError>(CollateralError::HealthyPosition),
        old(position).vault == old(vault).address && old(position).borrowed_amount == 0 ==> r
            == Err::<(), CollateralError>(CollateralError::HealthyPosition),
        old(position).vault == old(vault).address && !covers(
            old(position).collateral_value as int,
            old(position).borrowed_amount as int,
            old(vault).collateral_ratio as int,
        ) && old(vault).total_collateral_value >= old(position).collateral_value
            && old(vault).total_borrowed >= old(position).borrowed_amount && outcome is Ok
            ==> r is Ok,
        r is Err ==> *final(vault) == *old(vault) && *final(position) == *old(position),
        r is Ok ==> liquidated(*old(position), *final(position), now),
        r is Ok ==> tracks(*old(vault), *old(position), *final(vault), *final(position)),
{
    proof {
        let (cv, ratio) = (position.collateral_value as int, vault.collateral_ratio as int);
        assert(cv * 10000 >= 0 * ratio) by (nonlinear_arith)
            requires
                cv >= 0,
        ;
    }
    match check_liquidate(vault, position) {
        Err(e) => return Err(e),
        Ok(_) => {},
    }
    if let Err(reason) = outcome {
        return Err(CollateralError::TransferFailed(reason));
    }
    vault.total_collateral_value = vault.total_collateral_value - position.collateral_value;
    vault.total_borrowed = vault.total_borrowed - position.borrowed_amount;
    position.collateral_amount = 0;
    position.collateral_value = 0;
    position.borrowed_amount = 0;
    position.last_update = now;
    Ok(())
}

} // verus!
