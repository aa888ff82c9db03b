use rwa_collateral::engine::{
    borrow_against_collateral, deposit_collateral, liquidate_position, plan_borrow, plan_deposit,
    plan_liquidate, plan_repay, plan_withdraw, repay_loan, withdraw_collateral,
};
use rwa_collateral::error::CollateralError;
use rwa_collateral::health::{is_healthy, max_borrow, ratio_bps};
use rwa_collateral::state::{create_vault, CollateralPosition, PositionState, Vault};
use rwa_collateral::types::{Asset, Holder, Identity, Transfer};

fn vault_id() -> Identity {
    Identity::new(10, 1)
}
fn admin() -> Identity {
    Identity::new(20, 2)
}
fn alice() -> Identity {
    Identity::new(30, 3)
}
fn bob() -> Identity {
    Identity::new(40, 4)
}
fn mint() -> Identity {
    Identity::new(50, 5)
}

fn vault(ratio: u64) -> Vault {
    create_vault(vault_id(), admin(), String::from("homes"), ratio, 100).unwrap()
}

fn position() -> CollateralPosition {
    CollateralPosition::new(alice(), vault_id(), mint())
}

/// A vault and a position holding `value` worth of collateral and `debt`,
/// with the vault's totals equal to the position's.
fn funded(ratio: u64, amount: u64, value: u64, debt: u64) -> (Vault, CollateralPosition) {
    let mut v = vault(ratio);
    let mut p = position();
    p.collateral_amount = amount;
    p.collateral_value = value;
    p.borrowed_amount = debt;
    v.total_collateral_value = value;
    v.total_borrowed = debt;
    (v, p)
}

#[test]
fn create_vault_starts_active_and_empty() {
    let v = vault(15000);
    assert_eq!(v.address, vault_id());
    assert_eq!(v.authority, admin());
    assert_eq!(v.vault_name, "homes");
    assert_eq!(v.collateral_ratio, 15000);
    assert_eq!(v.total_collateral_value, 0);
    assert_eq!(v.total_borrowed, 0);
    assert!(v.is_active);
    assert_eq!(v.created_at, 100);
}

#[test]
fn create_vault_rejects_zero_ratio() {
    let r = create_vault(vault_id(), admin(), String::from("x"), 0, 0);
    assert_eq!(r.unwrap_err(), CollateralError::InvalidParameter);
}

#[test]
fn new_position_is_empty() {
    let p = position();
    assert_eq!(p.state(), PositionState::Empty);
    assert_eq!(p.collateral_amount, 0);
    assert_eq!(p.collateral_value, 0);
    assert_eq!(p.borrowed_amount, 0);
    let (_, q) = funded(15000, 1, 1, 0);
    assert_eq!(q.state(), PositionState::Funded);
}

#[test]
fn deposits_sum_amount_times_unit_value() {
    let mut v = vault(15000);
    let mut p = position();
    let deposits: [(u64, u64); 4] = [(100, 10), (3, 7), (50, 0), (1, 999)];
    let mut value: u64 = 0;
    let mut amount: u64 = 0;
    for (i, (a, uv)) in deposits.iter().enumerate() {
        deposit_collateral(&mut v, &mut p, &alice(), *a, *uv, i as i64, Ok(())).unwrap();
        value += a * uv;
        amount += a;
    }
    assert_eq!(p.collateral_value, 1000 + 21 + 0 + 999);
    assert_eq!(p.collateral_value, value);
    assert_eq!(p.collateral_amount, amount);
    assert_eq!(v.total_collateral_value, value);
    assert_eq!(p.last_update, 3);
}

#[test]
fn deposit_plans_transfer_into_custody() {
    let v = vault(15000);
    let p = position();
    let t = plan_deposit(&v, &p, &alice(), 100, 10).unwrap();
    assert_eq!(
        t,
        Transfer {
            asset: Asset::Collateral(mint()),
            amount: 100,
            from: Holder::Account(alice()),
            to: Holder::Custody(vault_id()),
        }
    );
}

#[test]
fn deposit_refusals() {
    let mut v = vault(15000);
    let p = position();
    assert_eq!(plan_deposit(&v, &p, &alice(), 0, 10), Err(CollateralError::InvalidParameter));
    assert_eq!(plan_deposit(&v, &p, &bob(), 1, 10), Err(CollateralError::Unauthorized));
    let mut other = p;
    other.vault = Identity::new(0, 0);
    assert_eq!(plan_deposit(&v, &other, &alice(), 1, 10), Err(CollateralError::InvalidParameter));
    assert_eq!(
        plan_deposit(&v, &p, &alice(), u64::MAX, 2),
        Err(CollateralError::ArithmeticOverflow)
    );
    v.is_active = false;
    assert_eq!(plan_deposit(&v, &p, &alice(), 1, 10), Err(CollateralError::InactiveVault));
}

#[test]
fn deposit_overflow_is_refused_not_wrapped() {
    let (mut v, mut p) = funded(15000, 1, u64::MAX - 5, 0);
    let r = deposit_collateral(&mut v, &mut p, &alice(), 1, 6, 1, Ok(()));
    assert_eq!(r, Err(CollateralError::ArithmeticOverflow));
    assert_eq!(p.collateral_value, u64::MAX - 5);
    let r = deposit_collateral(&mut v, &mut p, &alice(), 1, 5, 1, Ok(()));
    assert_eq!(r, Ok(()));
    assert_eq!(p.collateral_value, u64::MAX);
}

#[test]
fn failed_transfer_leaves_records_unchanged() {
    let mut v = vault(15000);
    let mut p = position();
    let r = deposit_collateral(&mut v, &mut p, &alice(), 100, 10, 1, Err(42));
    assert_eq!(r, Err(CollateralError::TransferFailed(42)));
    assert_eq!(p, position());
    assert_eq!(v.total_collateral_value, 0);
    deposit_collateral(&mut v, &mut p, &alice(), 100, 10, 1, Ok(())).unwrap();
    let before = p;
    let r = borrow_against_collateral(&mut v, &mut p, &alice(), 10, 2, Err(7));
    assert_eq!(r, Err(CollateralError::TransferFailed(7)));
    assert_eq!(p, before);
    assert_eq!(v.total_borrowed, 0);
}

#[test]
fn borrow_ceiling_boundary() {
    // 150 of value at 150% supports exactly 100 of debt.
    let (mut v, mut p) = funded(15000, 15, 150, 0);
    assert_eq!(borrow_against_collateral(&mut v, &mut p, &alice(), 100, 1, Ok(())), Ok(()));
    assert_eq!(p.borrowed_amount, 100);
    assert!(p.borrowed_amount as u128 * 15000 <= p.collateral_value as u128 * 10000);
    assert_eq!(
        borrow_against_collateral(&mut v, &mut p, &alice(), 1, 2, Ok(())),
        Err(CollateralError::ExceedsCollateralRatio)
    );
    assert_eq!(p.borrowed_amount, 100);
    assert_eq!(v.total_borrowed, 100);
}

#[test]
fn borrow_ceiling_at_1500_value() {
    // 1500 of value at 150% supports 1000 of debt: 101 is still allowed.
    let (mut v, mut p) = funded(15000, 150, 1500, 100);
    assert_eq!(borrow_against_collateral(&mut v, &mut p, &alice(), 1, 1, Ok(())), Ok(()));
    assert_eq!(p.borrowed_amount, 101);
    assert_eq!(
        borrow_against_collateral(&mut v, &mut p, &alice(), 900, 2, Ok(())),
        Err(CollateralError::ExceedsCollateralRatio)
    );
    assert_eq!(borrow_against_collateral(&mut v, &mut p, &alice(), 899, 3, Ok(())), Ok(()));
    assert_eq!(p.borrowed_amount, 1000);
}

#[test]
fn borrow_refusals() {
    let (mut v, p) = funded(15000, 100, 1000, 0);
    assert_eq!(plan_borrow(&v, &p, &alice(), 0), Err(CollateralError::InvalidParameter));
    assert_eq!(plan_borrow(&v, &p, &bob(), 1), Err(CollateralError::Unauthorized));
    assert_eq!(plan_borrow(&v, &p, &alice(), 667), Err(CollateralError::ExceedsCollateralRatio));
    assert_eq!(
        plan_borrow(&v, &p, &alice(), 666),
        Ok(Transfer {
            asset: Asset::Stable,
            amount: 666,
            from: Holder::Custody(vault_id()),
            to: Holder::Account(alice()),
        })
    );
    v.collateral_ratio = 0;
    assert_eq!(plan_borrow(&v, &p, &alice(), 1), Err(CollateralError::InvalidParameter));
    v.collateral_ratio = 15000;
    v.is_active = false;
    assert_eq!(plan_borrow(&v, &p, &alice(), 1), Err(CollateralError::InactiveVault));
}

#[test]
fn borrow_with_huge_ceiling_reports_overflow() {
    // At 1% the ceiling of u64::MAX of value is far beyond 64 bits.
    let (mut v, mut p) = funded(100, 1, u64::MAX, u64::MAX - 1);
    assert_eq!(
        borrow_against_collateral(&mut v, &mut p, &alice(), 2, 1, Ok(())),
        Err(CollateralError::ArithmeticOverflow)
    );
    assert_eq!(borrow_against_collateral(&mut v, &mut p, &alice(), 1, 1, Ok(())), Ok(()));
    assert_eq!(p.borrowed_amount, u64::MAX);
}

#[test]
fn racing_borrows_one_wins() {
    // Ceiling 666: 400 and 300 each fit, together they do not.
    for (first, second) in [(400u64, 300u64), (300, 400)] {
        let (mut v, mut p) = funded(15000, 100, 1000, 0);
        assert!(plan_borrow(&v, &p, &alice(), first).is_ok());
        assert!(plan_borrow(&v, &p, &alice(), second).is_ok());
        assert_eq!(borrow_against_collateral(&mut v, &mut p, &alice(), first, 1, Ok(())), Ok(()));
        assert_eq!(
            borrow_against_collateral(&mut v, &mut p, &alice(), second, 1, Ok(())),
            Err(CollateralError::ExceedsCollateralRatio)
        );
        assert_eq!(p.borrowed_amount, first);
        assert_eq!(v.total_borrowed, first);
    }
}

#[test]
fn repay_overpayment_clears_debt() {
    let (mut v, mut p) = funded(15000, 100, 1000, 300);
    assert_eq!(repay_loan(&mut v, &mut p, &alice(), 100, 5, Ok(())), Ok(()));
    assert_eq!(p.borrowed_amount, 200);
    assert_eq!(v.total_borrowed, 200);
    assert_eq!(p.last_update, 5);
    assert_eq!(
        plan_repay(&v, &p, &alice(), 500),
        Ok(Transfer {
            asset: Asset::Stable,
            amount: 500,
            from: Holder::Account(alice()),
            to: Holder::Custody(vault_id()),
        })
    );
    assert_eq!(repay_loan(&mut v, &mut p, &alice(), 500, 6, Ok(())), Ok(()));
    assert_eq!(p.borrowed_amount, 0);
    assert_eq!(v.total_borrowed, 0);
}

#[test]
fn repay_refusals_and_inactive_vault() {
    let (mut v, mut p) = funded(15000, 100, 1000, 300);
    assert_eq!(plan_repay(&v, &p, &alice(), 0), Err(CollateralError::InvalidParameter));
    assert_eq!(plan_repay(&v, &p, &bob(), 10), Err(CollateralError::Unauthorized));
    v.is_active = false;
    assert_eq!(repay_loan(&mut v, &mut p, &alice(), 10, 1, Ok(())), Ok(()));
    assert_eq!(p.borrowed_amount, 290);
    v.total_borrowed = 5;
    assert_eq!(
        repay_loan(&mut v, &mut p, &alice(), 10, 1, Ok(())),
        Err(CollateralError::ArithmeticOverflow)
    );
}

#[test]
fn withdraw_refused_while_indebted() {
    let (mut v, mut p) = funded(15000, 100, 1000, 1);
    for amount in [0u64, 1, 100, 101, u64::MAX] {
        assert_eq!(
            withdraw_collateral(&mut v, &mut p, &alice(), amount, 1, Ok(())),
            Err(CollateralError::OutstandingDebt)
        );
    }
    assert_eq!(p.collateral_amount, 100);
}

#[test]
fn withdraw_limits_and_pro_rates_value() {
    let (mut v, mut p) = funded(15000, 100, 1000, 0);
    assert_eq!(plan_withdraw(&v, &p, &bob(), 1), Err(CollateralError::Unauthorized));
    assert_eq!(plan_withdraw(&v, &p, &alice(), 0), Err(CollateralError::InvalidParameter));
    assert_eq!(
        withdraw_collateral(&mut v, &mut p, &alice(), 101, 1, Ok(())),
        Err(CollateralError::InsufficientCollateral)
    );
    assert_eq!(
        plan_withdraw(&v, &p, &alice(), 40),
        Ok(Transfer {
            asset: Asset::Collateral(mint()),
            amount: 40,
            from: Holder::Custody(vault_id()),
            to: Holder::Account(alice()),
        })
    );
    assert_eq!(withdraw_collateral(&mut v, &mut p, &alice(), 40, 2, Ok(())), Ok(()));
    assert_eq!(p.collateral_amount, 60);
    assert_eq!(p.collateral_value, 600);
    assert_eq!(v.total_collateral_value, 600);
    v.is_active = false;
    assert_eq!(withdraw_collateral(&mut v, &mut p, &alice(), 60, 3, Ok(())), Ok(()));
    assert_eq!(p.collateral_amount, 0);
    assert_eq!(p.collateral_value, 0);
    assert_eq!(v.total_collateral_value, 0);
    assert_eq!(p.state(), PositionState::Empty);
}

#[test]
fn withdraw_rounds_kept_value_down() {
    // 2 of 3 units stay: 10 * 2 / 3 = 6 (rounded down), so the total drops by 4.
    let (mut v, mut p) = funded(15000, 3, 10, 0);
    assert_eq!(withdraw_collateral(&mut v, &mut p, &alice(), 1, 1, Ok(())), Ok(()));
    assert_eq!(p.collateral_amount, 2);
    assert_eq!(p.collateral_value, 6);
    assert_eq!(v.total_collateral_value, 6);
    // Large values are pro-rated without overflow.
    let (mut v, mut p) = funded(15000, u64::MAX, u64::MAX, 0);
    assert_eq!(withdraw_collateral(&mut v, &mut p, &alice(), 1, 1, Ok(())), Ok(()));
    assert_eq!(p.collateral_value, u64::MAX - 1);
    // A vault total below what the position loses is refused.
    let (mut v, mut p) = funded(15000, 10, 100, 0);
    v.total_collateral_value = 10;
    assert_eq!(
        withdraw_collateral(&mut v, &mut p, &alice(), 5, 1, Ok(())),
        Err(CollateralError::ArithmeticOverflow)
    );
    assert_eq!(p.collateral_value, 100);
}

#[test]
fn liquidate_refuses_healthy_positions() {
    // Exactly at the ratio: 1500 * 10000 == 1000 * 15000.
    let (mut v, mut p) = funded(15000, 10, 1500, 1000);
    assert_eq!(
        liquidate_position(&mut v, &mut p, 1, Ok(())),
        Err(CollateralError::HealthyPosition)
    );
    // No debt: never liquidated.
    let (mut v, mut p) = funded(15000, 10, 0, 0);
    assert_eq!(
        liquidate_position(&mut v, &mut p, 1, Ok(())),
        Err(CollateralError::HealthyPosition)
    );
}

#[test]
fn liquidation_seizes_everything() {
    // One short of the ratio: 1499 * 10000 < 1000 * 15000.
    let (mut v, mut p) = funded(15000, 10, 1499, 1000);
    let t = plan_liquidate(&v, &p, &bob()).unwrap();
    assert_eq!(
        t,
        Transfer {
            asset: Asset::Collateral(mint()),
            amount: 10,
            from: Holder::Custody(vault_id()),
            to: Holder::Account(bob()),
        }
    );
    assert_eq!(liquidate_position(&mut v, &mut p, 9, Ok(())), Ok(()));
    assert_eq!(p.collateral_amount, 0);
    assert_eq!(p.collateral_value, 0);
    assert_eq!(p.borrowed_amount, 0);
    assert_eq!(p.user, alice());
    assert_eq!(p.last_update, 9);
    assert_eq!(v.total_collateral_value, 0);
    assert_eq!(v.total_borrowed, 0);
    assert_eq!(p.state(), PositionState::Empty);
}

#[test]
fn liquidation_transfer_failure_keeps_position() {
    let (mut v, mut p) = funded(15000, 10, 100, 1000);
    let before = p;
    assert_eq!(
        liquidate_position(&mut v, &mut p, 9, Err(3)),
        Err(CollateralError::TransferFailed(3))
    );
    assert_eq!(p, before);
    let mut other = p;
    other.vault = Identity::new(9, 9);
    assert_eq!(plan_liquidate(&v, &other, &bob()), Err(CollateralError::InvalidParameter));
}

#[test]
fn round_trip_returns_to_empty() {
    let mut v = vault(15000);
    let mut p = position();
    let start = p;
    assert_eq!(deposit_collateral(&mut v, &mut p, &alice(), 100, 10, 1, Ok(())), Ok(()));
    assert_eq!(p.collateral_value, 1000);
    assert_eq!(max_borrow(p.collateral_value, v.collateral_ratio), 666);
    assert_eq!(borrow_against_collateral(&mut v, &mut p, &alice(), 500, 2, Ok(())), Ok(()));
    assert_eq!(repay_loan(&mut v, &mut p, &alice(), 500, 3, Ok(())), Ok(()));
    assert_eq!(p.borrowed_amount, 0);
    assert_eq!(withdraw_collateral(&mut v, &mut p, &alice(), 100, 4, Ok(())), Ok(()));
    assert_eq!(p.collateral_amount, 0);
    assert_eq!(p.collateral_value, 0);
    assert_eq!(p.borrowed_amount, 0);
    assert_eq!(p.state(), PositionState::Empty);
    assert_eq!(p.last_update, 4);
    let mut back = p;
    back.last_update = start.last_update;
    assert_eq!(back, start);
    assert_eq!(v.total_collateral_value, 0);
    assert_eq!(v.total_borrowed, 0);
}

#[test]
fn health_ratio_values() {
    assert_eq!(ratio_bps(1000, 500), 20000);
    assert_eq!(ratio_bps(1000, 3), 3333333);
    assert_eq!(ratio_bps(1000, 0), u128::MAX);
    assert_eq!(ratio_bps(u64::MAX, 1), u64::MAX as u128 * 10000);
    assert_eq!(max_borrow(1000, 15000), 666);
    assert_eq!(max_borrow(u64::MAX, 1), u64::MAX as u128 * 10000);
    assert!(is_healthy(1500, 1000, 15000));
    assert!(!is_healthy(1499, 1000, 15000));
    assert!(is_healthy(0, 0, 15000));
}

#[test]
fn error_messages() {
    assert_eq!(CollateralError::InactiveVault.message(), "Vault is not active");
    assert_eq!(CollateralError::HealthyPosition.message(), "Position is healthy, cannot liquidate");
    assert_eq!(CollateralError::TransferFailed(1).message(), "Transfer failed");
}
