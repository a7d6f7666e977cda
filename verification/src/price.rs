//! The price adjuster.
//!
//! An order that must cross the book immediately is given a protective limit
//! price: the observed fill price raised by the buy slippage factor when
//! buying, or lowered by the sell slippage factor when selling. The adjusted
//! price is rounded half away from zero to the decimal-place count of the
//! observed price string, so that it satisfies the same tick-size constraints
//! the observed price satisfied.

use vstd::prelude::*;
use crate::decimal::{
    Dec, MAX_SCALE, MAX_UNITS, dec_string_of, is_dec_str, places_of, pow10, pow10_u128,
    round_half_div, units_of, lemma_pow10_increases, lemma_pow10_values, lemma_pow10_pos,
    lemma_dec_string_round_trip,
};

verus! {

/// A slippage factor is a proper fraction: strictly between zero and one.
pub open spec fn is_proper_fraction(d: Dec) -> bool {
    &&& 0 < d.units < pow10(d.scale as nat)
    &&& d.scale <= MAX_SCALE
}

/// The unit count of the protective price: the observed unit count scaled by
/// `1 + slip` when buying or `1 - slip` when selling, rounded half away from
/// zero back to the observed scale.
pub open spec fn adjusted_units(px_units: nat, slip: Dec, buying: bool) -> nat {
    let p = pow10(slip.scale as nat);
    if buying {
        round_half_div((px_units * (p + slip.units)) as nat, p)
    } else {
        round_half_div((px_units * (p - slip.units)) as nat, p)
    }
}

/// Computes the protective limit price for a fill price. The result keeps
/// the scale of the observed price.
pub fn adjust_price(px: Dec, slip: Dec, buying: bool) -> (r: Dec)
    requires
        px.units < MAX_UNITS,
        is_proper_fraction(slip),
    ensures
        r.scale == px.scale,
        r.units as nat == adjusted_units(px.units as nat, slip, buying),
{
    let p = pow10_u128(slip.scale);
    proof {
        lemma_pow10_pos(slip.scale as nat);
        lemma_pow10_increases(slip.scale as nat, 12);
        lemma_pow10_values();
    }
    let factor: u128 = if buying {
        p + slip.units
    } else {
        p - slip.units
    };
    proof {
        assert(px.units as int * factor as int <= MAX_UNITS as int * (2 * pow10(12)))
            by (nonlinear_arith)
            requires
                0 <= px.units <= (MAX_UNITS as int),
                0 <= factor <= 2 * pow10(12),
        ;
    }
    let prod: u128 = px.units * factor;
    let q = prod / p;
    let rem = prod % p;
    proof {
        assert(rem < p);
        assert(q <= prod) by (nonlinear_arith)
            requires
                p >= 1,
                prod >= 0,
                q == prod / p,
        ;
    }
    if rem * 2 >= p {
        Dec { units: q + 1, scale: px.scale }
    } else {
        Dec { units: q, scale: px.scale }
    }
}

/// The adjusted price string for an observed price string.
pub open spec fn adjusted_price_str(px: Seq<char>, slip: Dec, buying: bool) -> Seq<char> {
    dec_string_of(adjusted_units(units_of(px), slip, buying), places_of(px))
}

/// Round-trip precision: for every price string and every slippage factor,
/// the adjusted price string is itself a well-formed decimal string with
/// exactly the decimal-place count of the input.
pub proof fn lemma_price_precision_preserved(px: Seq<char>, slip: Dec, buying: bool)
    ensures
        is_dec_str(adjusted_price_str(px, slip, buying)),
        places_of(adjusted_price_str(px, slip, buying)) == places_of(px),
        units_of(adjusted_price_str(px, slip, buying)) == adjusted_units(
            units_of(px),
            slip,
            buying,
        ),
{
    lemma_dec_string_round_trip(adjusted_units(units_of(px), slip, buying), places_of(px));
}

/// Adjusts a decimal price string by a slippage factor, raising it when
/// buying and lowering it when selling, and renders the result with exactly
/// the decimal-place count of the input string. Returns `None` when the
/// input is not a decimal string the engine can represent.
pub fn format_adjust_price(px: &str, slip: Dec, buying: bool) -> (r: Option<String>)
    requires
        is_proper_fraction(slip),
    ensures
        r is Some <==> is_dec_str(px@) && units_of(px@) < MAX_UNITS && places_of(px@)
            <= MAX_SCALE,
        r matches Some(out) ==> out@ == adjusted_price_str(px@, slip, buying),
        r matches Some(out) ==> is_dec_str(out@) && places_of(out@) == places_of(px@),
{
    let parsed = match Dec::parse(px) {
        Some(d) => d,
        None => {
            return None;
        },
    };
    let adjusted = adjust_price(parsed, slip, buying);
    proof {
        lemma_dec_string_round_trip(adjusted.units as nat, adjusted.scale as nat);
    }
    Some(adjusted.to_dec_string())
}

} // verus!
