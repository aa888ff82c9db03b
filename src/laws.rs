//! Properties that relate several operations, or hold across a history.

use vstd::prelude::*;
use crate::engine::{borrow_check, borrowed, deposited, liquidate_check, tracks, withdrawn};
use crate::error::CollateralError;
use crate::health::{covers, max_borrow_of};
use crate::state::{is_empty, CollateralPosition, Vault};
use crate::types::Identity;

verus! {

/// The units a sequence of deposits brings in; each deposit is
/// (amount, unit value, time).
pub open spec fn deposited_amount(deposits: Seq<(u64, u64, i64)>) -> int
    decreases deposits.len(),
{
    if deposits.len() == 0 {
        0
    } else {
        deposited_amount(deposits.drop_last()) + deposits.last().0
    }
}

/// The value a sequence of deposits brings in: the sum of amount times unit
/// value over the deposits.
pub open spec fn deposited_value(deposits: Seq<(u64, u64, i64)>) -> int
    decreases deposits.len(),
{
    if deposits.len() == 0 {
        0
    } else {
        deposited_value(deposits.drop_last()) + deposits.last().0 * deposits.last().1
    }
}

/// After any sequence of successful deposits, the position's collateral value
/// has grown by exactly the sum of amount times unit value over them, and its
/// collateral by the sum of the amounts. `history[i + 1]` is the position
/// after the deposit `deposits[i]`.
pub proof fn lemma_deposit_history(
    history: Seq<CollateralPosition>,
    deposits: Seq<(u64, u64, i64)>,
)
    requires
        history.len() == deposits.len() + 1,
        forall|i: int|
            0 <= i < deposits.len() ==> #[trigger] deposited(
                history[i],
                history[i + 1],
                deposits[i].0,
                deposits[i].1,
                deposits[i].2,
            ),
    ensures
        history.last().collateral_value == history[0].collateral_value + deposited_value(deposits),
        history.last().collateral_amount == history[0].collateral_amount + deposited_amount(
            deposits,
        ),
    decreases deposits.len(),
{
    if deposits.len() > 0 {
        let n = deposits.len() - 1;
        let earlier = history.drop_last();
        assert forall|i: int| 0 <= i < deposits.drop_last().len() implies #[trigger] deposited(
            earlier[i],
            earlier[i + 1],
            deposits.drop_last()[i].0,
            deposits.drop_last()[i].1,
            deposits.drop_last()[i].2,
        ) by {
            assert(deposited(history[i], history[i + 1], deposits[i].0, deposits[i].1, deposits[i].2));
        }
        lemma_deposit_history(earlier, deposits.drop_last());
        assert(deposited(history[n], history[n + 1], deposits[n].0, deposits[n].1, deposits[n].2));
    }
}

/// Two borrows that each pass on their own, but together exceed the ceiling,
/// cannot both succeed: once the first is committed (`p1`, `v1`), the
/// second is refused with `ExceedsCollateralRatio`. Either order is an
/// instance, so of the two exactly one succeeds.
pub proof fn lemma_racing_borrows(
    v0: Vault,
    p0: CollateralPosition,
    user: Identity,
    first: u64,
    second: u64,
    v1: Vault,
    p1: CollateralPosition,
    now: i64,
)
    requires
        borrow_check(v0, p0, user, first) is None,
        borrow_check(v0, p0, user, second) is None,
        p0.borrowed_amount + first + second > max_borrow_of(
            p0.collateral_value as int,
            v0.collateral_ratio as int,
        ),
        borrowed(p0, p1, first, now),
        tracks(v0, p0, v1, p1),
    ensures
        borrow_check(v1, p1, user, second) == Some(CollateralError::ExceedsCollateralRatio),
{
}

/// What the positions of a vault hold in all: collateral value and debt.
pub open spec fn value_sum(ps: Seq<CollateralPosition>) -> int
    decreases ps.len(),
{
    if ps.len() == 0 {
        0
    } else {
        value_sum(ps.drop_last()) + ps.last().collateral_value
    }
}

pub open spec fn debt_sum(ps: Seq<CollateralPosition>) -> int
    decreases ps.len(),
{
    if ps.len() == 0 {
        0
    } else {
        debt_sum(ps.drop_last()) + ps.last().borrowed_amount
    }
}

/// The vault's totals are the sums over its positions.
pub open spec fn totals_match(v: Vault, ps: Seq<CollateralPosition>) -> bool {
    &&& v.total_collateral_value == value_sum(ps)
    &&& v.total_borrowed == debt_sum(ps)
}

/// Replacing one position changes each sum by exactly that position's change.
pub proof fn lemma_sums_update(ps: Seq<CollateralPosition>, i: int, p: CollateralPosition)
    requires
        0 <= i < ps.len(),
    ensures
        value_sum(ps.update(i, p)) == value_sum(ps) - ps[i].collateral_value + p.collateral_value,
        debt_sum(ps.update(i, p)) == debt_sum(ps) - ps[i].borrowed_amount + p.borrowed_amount,
    decreases ps.len(),
{
    let qs = ps.update(i, p);
    if i == ps.len() - 1 {
        assert(qs.drop_last() =~= ps.drop_last());
    } else {
        lemma_sums_update(ps.drop_last(), i, p);
        assert(qs.drop_last() =~= ps.drop_last().update(i, p));
    }
}

/// Every operation keeps the vault's totals equal to the sums over its
/// positions: when one position `ps[i]` becomes `p1` and the vault moves as
/// the operations' contracts state (`tracks`), the totals still match.
pub proof fn lemma_totals_preserved(
    v0: Vault,
    ps: Seq<CollateralPosition>,
    i: int,
    v1: Vault,
    p1: CollateralPosition,
)
    requires
        0 <= i < ps.len(),
        totals_match(v0, ps),
        tracks(v0, ps[i], v1, p1),
    ensures
        totals_match(v1, ps.update(i, p1)),
{
    lemma_sums_update(ps, i, p1);
}

/// Each position's value and debt are at most the sums over all positions.
pub proof fn lemma_sums_bound_each(ps: Seq<CollateralPosition>, i: int)
    requires
        0 <= i < ps.len(),
    ensures
        ps[i].collateral_value <= value_sum(ps),
        ps[i].borrowed_amount <= debt_sum(ps),
    decreases ps.len(),
{
    if i < ps.len() - 1 {
        lemma_sums_bound_each(ps.drop_last(), i);
        assert(ps.drop_last()[i] == ps[i]);
    }
    lemma_sums_nonnegative(ps.drop_last());
}

pub proof fn lemma_sums_nonnegative(ps: Seq<CollateralPosition>)
    ensures
        value_sum(ps) >= 0,
        debt_sum(ps) >= 0,
    decreases ps.len(),
{
    if ps.len() > 0 {
        lemma_sums_nonnegative(ps.drop_last());
    }
}

/// In a vault whose totals match its positions, every position of the vault
/// whose collateral does not cover its debt passes every check of a
/// liquidation: it is refused only if the seizure transfer fails.
pub proof fn lemma_unhealthy_liquidates(v: Vault, ps: Seq<CollateralPosition>, i: int)
    requires
        0 <= i < ps.len(),
        totals_match(v, ps),
        ps[i].vault == v.address,
        !covers(
            ps[i].collateral_value as int,
            ps[i].borrowed_amount as int,
            v.collateral_ratio as int,
        ),
    ensures
        liquidate_check(v, ps[i]) is None,
{
    lemma_sums_bound_each(ps, i);
}

/// Withdrawing every unit of a debt-free position leaves it empty: no
/// collateral, no recorded value, no debt. With the deposit, borrow and repay
/// contracts this closes a round trip back to the position's starting state.
pub proof fn lemma_full_withdrawal_empties(p0: CollateralPosition, p1: CollateralPosition, now: i64)
    requires
        p0.borrowed_amount == 0,
        withdrawn(p0, p1, p0.collateral_amount, now),
    ensures
        is_empty(p1),
        p1.user == p0.user && p1.vault == p0.vault && p1.property_mint == p0.property_mint,
{
}

} // verus!
