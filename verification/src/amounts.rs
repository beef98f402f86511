//! Fixed-point representation of monetary amounts, prices and ratios.
//!
//! A stored value `x: i64` stands for the real quantity `x / SCALE`, so with
//! `SCALE == 10_000` the price 6.0 is stored as `60_000` and the ratio 14.9 as
//! `149_000`. Every amount the screening rules touch is bounded in magnitude
//! by `AMOUNT_MAX`, which keeps all rule arithmetic inside `i64` and `i128`.

use vstd::prelude::*;

verus! {

/// Number of fixed-point units per whole unit of currency (or per 1.0 of a ratio).
pub const SCALE: i64 = 10_000;

/// Largest magnitude an amount may have: 2 * 10^17 fixed-point units,
/// that is 2 * 10^13 whole units. Upstream balance-sheet figures divided
/// by their reporting unit always land below this bound.
pub const AMOUNT_MAX: i64 = 200_000_000_000_000_000;

/// An amount the screening rules may compute with.
pub open spec fn amount_in_range(x: int) -> bool {
    -AMOUNT_MAX <= x <= AMOUNT_MAX
}

/// An optional amount is in range when it is absent or its value is.
pub open spec fn opt_amount_in_range(x: Option<i64>) -> bool {
    match x {
        None => true,
        Some(v) => amount_in_range(v as int),
    }
}

/// A percentage figure converted to a plain ratio: division by one hundred,
/// truncating toward zero as the upstream figures are reported with more
/// precision than the rules ever compare at.
pub open spec fn percent_to_ratio_spec(x: int) -> int {
    if x >= 0 {
        x / 100
    } else {
        -((-x) / 100)
    }
}

/// The product of two in-range amounts is bounded well inside `i128`.
pub proof fn lemma_amount_product_bounded(a: int, b: int)
    requires
        amount_in_range(a),
        amount_in_range(b),
    ensures
        -(AMOUNT_MAX as int) * (AMOUNT_MAX as int) <= a * b <= (AMOUNT_MAX as int) * (
        AMOUNT_MAX as int),
{
    assert(-(AMOUNT_MAX as int) * (AMOUNT_MAX as int) <= a * b <= (AMOUNT_MAX as int) * (
    AMOUNT_MAX as int)) by (nonlinear_arith)
        requires
            -AMOUNT_MAX <= a <= AMOUNT_MAX,
            -AMOUNT_MAX <= b <= AMOUNT_MAX,
    ;
}

/// Converts a fixed-point percentage (as reported by the data source) to a
/// fixed-point ratio by dividing by one hundred, truncating toward zero.
pub fn percent_to_ratio(x: i64) -> (r: i64)
    requires
        amount_in_range(x as int),
    ensures
        r == percent_to_ratio_spec(x as int),
        amount_in_range(r as int),
{
    if x >= 0 {
        (x as u64 / 100) as i64
    } else {
        let m = (-x) as u64 / 100;
        -(m as i64)
    }
}

} // verus!
