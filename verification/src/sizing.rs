//! The size resolver.
//!
//! Order quantity is computed three ways, selected by the classified action:
//! opening orders divide a fixed quote-currency budget by the fill price and
//! round to the engine-level quantity precision; spot closes truncate the
//! wallet balance of the traded token down to the token's declared decimal
//! precision; derivative closes take the absolute magnitude of the open
//! position.

use vstd::prelude::*;
use crate::decimal::{
    Dec, MAX_SCALE, MAX_UNITS, pow10, pow10_u128, round_half_div, lemma_pow10_increases,
    lemma_pow10_pos, lemma_pow10_values,
};

verus! {

/// Decimal places of a notional-sized quantity: the engine-level precision
/// floor used when no asset-specific rule is consulted.
pub const QTY_PLACES: u32 = 4;

/// The unit count of a notional-sized quantity at [`QTY_PLACES`] places:
/// `budget / price`, rounded half away from zero to four decimal places.
pub open spec fn notional_units(budget: nat, px_units: nat, px_scale: nat) -> nat {
    round_half_div((budget * pow10(QTY_PLACES as nat + px_scale)) as nat, px_units)
}

/// Sizes an opening order: the fixed quote-currency budget divided by the
/// fill price, rounded to four decimal places.
pub fn notional_quantity(budget: u64, px: Dec) -> (r: Dec)
    requires
        0 < px.units < MAX_UNITS,
        px.scale <= MAX_SCALE,
    ensures
        r.scale == QTY_PLACES,
        r.units as nat == notional_units(budget as nat, px.units as nat, px.scale as nat),
{
    let m = pow10_u128(QTY_PLACES + px.scale);
    proof {
        lemma_pow10_pos((QTY_PLACES + px.scale) as nat);
        lemma_pow10_increases((QTY_PLACES + px.scale) as nat, 16);
        lemma_pow10_values();
        assert(budget as int * m as int <= u64::MAX as int * pow10(16)) by (nonlinear_arith)
            requires
                0 <= budget <= u64::MAX as int,
                0 <= m <= pow10(16),
        ;
    }
    let prod: u128 = (budget as u128) * m;
    let q = prod / px.units;
    let rem = prod % px.units;
    proof {
        assert(rem < px.units);
        assert(q <= prod) by (nonlinear_arith)
            requires
                px.units >= 1,
                prod >= 0,
                q == prod / px.units,
        ;
    }
    if rem * 2 >= px.units {
        Dec { units: q + 1, scale: QTY_PLACES }
    } else {
        Dec { units: q, scale: QTY_PLACES }
    }
}

/// The balance truncated to at most `places` decimal places, rounding toward
/// zero. A balance with fewer places is left as it is.
pub open spec fn truncated_units(bal_units: nat, bal_scale: nat, places: nat) -> nat {
    if places >= bal_scale {
        bal_units
    } else {
        bal_units / pow10((bal_scale - places) as nat)
    }
}

/// The scale of a truncated balance: the declared precision, or the
/// balance's own scale when that is already lower.
pub open spec fn truncated_scale(bal_scale: nat, places: nat) -> nat {
    if places >= bal_scale {
        bal_scale
    } else {
        places
    }
}

/// Sizes a spot close: the wallet balance rounded down to the token's
/// declared quantity precision.
pub fn truncate_quantity(bal: Dec, places: u32) -> (r: Dec)
    requires
        bal.scale <= MAX_SCALE,
    ensures
        r.units as nat == truncated_units(bal.units as nat, bal.scale as nat, places as nat),
        r.scale as nat == truncated_scale(bal.scale as nat, places as nat),
{
    if places >= bal.scale {
        bal
    } else {
        let f = pow10_u128(bal.scale - places);
        proof {
            lemma_pow10_pos((bal.scale - places) as nat);
        }
        Dec { units: bal.units / f, scale: places }
    }
}

} // verus!
