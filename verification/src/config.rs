//! Engine configuration and the feature gate.
//!
//! Each action category has its own enable switch; a disabled category is
//! dropped before any balance or position is queried and before any order is
//! built. The numeric parameters size and protect the orders the engine
//! emits.

use vstd::prelude::*;
use crate::classify::Action;
use crate::decimal::Dec;
use crate::price::is_proper_fraction;

verus! {

/// The engine's configuration, read once per batch and immutable while the
/// batch is processed.
#[derive(Clone, Copy, Debug)]
pub struct Config {
    /// Mirror spot buys of the watched account.
    pub enable_spot_buy: bool,
    /// Mirror spot sells of the watched account.
    pub enable_spot_sell: bool,
    /// Mirror derivative long opens and closes.
    pub enable_derivative_long: bool,
    /// Mirror derivative short opens and closes.
    pub enable_derivative_short: bool,
    /// Quote-currency budget of one opening trade.
    pub notional_budget: u64,
    /// Leverage set before a derivative open.
    pub leverage: u32,
    /// Fractional price buffer added when buying.
    pub buy_slippage: Dec,
    /// Fractional price buffer subtracted when selling.
    pub sell_slippage: Dec,
}

impl Config {
    /// Both slippage factors are proper fractions.
    pub open spec fn wf(self) -> bool {
        &&& is_proper_fraction(self.buy_slippage)
        &&& is_proper_fraction(self.sell_slippage)
    }
}

/// Whether an action's configuration switch is on. `Ignore` has no switch
/// and is never on.
pub open spec fn gate_spec(cfg: Config, action: Action) -> bool {
    match action {
        Action::SpotBuy => cfg.enable_spot_buy,
        Action::SpotSell => cfg.enable_spot_sell,
        Action::OpenLong => cfg.enable_derivative_long,
        Action::CloseLong => cfg.enable_derivative_long,
        Action::OpenShort => cfg.enable_derivative_short,
        Action::CloseShort => cfg.enable_derivative_short,
        Action::Ignore => false,
    }
}

/// Checks an action against the feature gate.
pub fn gate_enabled(cfg: &Config, action: Action) -> (r: bool)
    ensures
        r == gate_spec(*cfg, action),
{
    match action {
        Action::SpotBuy => cfg.enable_spot_buy,
        Action::SpotSell => cfg.enable_spot_sell,
        Action::OpenLong => cfg.enable_derivative_long,
        Action::CloseLong => cfg.enable_derivative_long,
        Action::OpenShort => cfg.enable_derivative_short,
        Action::CloseShort => cfg.enable_derivative_short,
        Action::Ignore => false,
    }
}

} // verus!
