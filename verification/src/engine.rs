//! The signal dispatcher and order assembly.
//!
//! Each fill moves independently through the states
//! `Received -> Classified -> {Ignored | Gated-off | Sizing -> Priced ->
//! Submitted -> {Succeeded | Failed}}`. The pure decisions live here:
//! [`plan_fill`] classifies a fill, checks the feature gate, and either
//! finishes (ignored, gated off, rejected, or an opening order ready to
//! submit) or names the single balance or position query it needs;
//! [`complete_spot_sell`] and [`complete_close`] turn the query's answer
//! into the order or into the desynchronization failure; and
//! [`interpret_response`] reads the execution interface's tagged reply.
//! The caller performs the queries and the submission and feeds the results
//! back in.

use vstd::prelude::*;
use crate::classify::{Action, classify, classify_spec};
use crate::config::{Config, gate_enabled, gate_spec};
use crate::decimal::{
    Dec, MAX_SCALE, MAX_UNITS, is_dec_str, is_signed_dec_str, magnitude_of, places_of, units_of,
};
use crate::feed::TradeInfo;
use crate::meta::{AssetMetaTable, find_rule_spec};
use crate::price::{adjust_price, adjusted_units};
use crate::sizing::{
    QTY_PLACES, notional_quantity, notional_units, truncate_quantity, truncated_scale,
    truncated_units,
};

verus! {

/// The side of an order.
#[derive(Clone, Copy, Debug, PartialEq, Eq, Structural)]
pub enum Side {
    Buy,
    Sell,
}

/// Order lifecycle policy: immediate-or-cancel for crossing opens,
/// good-till-cancelled for resting close orders.
#[derive(Clone, Copy, Debug, PartialEq, Eq, Structural)]
pub enum TimeInForce {
    Ioc,
    Gtc,
}

/// The engine's output: one concrete limit order.
#[derive(Clone, Debug)]
pub struct OrderIntent {
    pub asset: String,
    pub side: Side,
    pub limit_px: Dec,
    pub sz: Dec,
    pub reduce_only: bool,
    pub tif: TimeInForce,
}

/// An order ready for the execution interface, together with the leverage
/// that must be set (idempotently) before a derivative open is submitted.
#[derive(Clone, Debug)]
pub struct OrderRequest {
    pub intent: OrderIntent,
    pub set_leverage: Option<u32>,
}

/// Why a single fill's action failed. One fill's failure never affects its
/// siblings in a batch.
#[derive(Clone, Debug)]
pub enum ActionError {
    /// A numeric field of the fill or of a queried value did not parse.
    MalformedInput,
    /// A close or sell found no matching balance or position: the watched
    /// and the copying account have desynchronized.
    PositionNotFound,
    /// The exchange answered with a structured rejection.
    Rejected(String),
    /// The execution or query interface failed outright.
    Transport(String),
}

/// The terminal state of one fill.
#[derive(Clone, Debug)]
pub enum FillOutcome {
    /// The direction label lies outside the known vocabulary.
    Ignored,
    /// The action's feature switch is off.
    GatedOff,
    /// The order was placed or matched; the exchange's order identifier.
    Succeeded(u64),
    /// The action failed; nothing was or will be submitted for this fill.
    Failed(ActionError),
}

/// A spot sell waiting for the wallet balance of its token.
#[derive(Clone, Debug)]
pub struct PendingSell {
    pub asset: String,
    pub token: String,
    pub limit_px: Dec,
    pub sz_decimals: u32,
}

/// A derivative close waiting for the open position of its asset.
#[derive(Clone, Debug)]
pub struct PendingClose {
    pub asset: String,
    pub limit_px: Dec,
    pub closing_long: bool,
}

/// What the dispatcher decided for one fill before any I/O.
#[derive(Clone, Debug)]
pub enum FillPlan {
    /// Unknown direction label: terminal no-op.
    Ignore,
    /// The feature switch is off: nothing is queried or submitted.
    GatedOff,
    /// An opening order, fully priced and sized from the fill alone.
    Submit(OrderRequest),
    /// A spot sell: the named token's wallet balance is needed next.
    NeedBalance(PendingSell),
    /// A derivative close: the asset's open position is needed next.
    NeedPosition(PendingClose),
    /// The fill's own data was unusable.
    Reject(ActionError),
}

/// The tagged reply of the execution interface to one submission.
#[derive(Clone, Debug)]
pub enum ExchangeResponse {
    /// The order matched immediately; its order identifier.
    Filled(u64),
    /// The order rests on the book; its order identifier.
    Resting(u64),
    /// The exchange rejected the order; its reason.
    Rejected(String),
    /// The transport or the interface failed; a description.
    Transport(String),
}

/// An unsigned decimal string the engine can parse and represent: a price
/// or a balance.
pub open spec fn dec_ok(s: Seq<char>) -> bool {
    &&& is_dec_str(s)
    &&& units_of(s) < MAX_UNITS as nat
    &&& places_of(s) <= MAX_SCALE as nat
}

/// A price string that is also positive, as notional sizing divides by it.
pub open spec fn pos_price_ok(px: Seq<char>) -> bool {
    &&& dec_ok(px)
    &&& units_of(px) > 0
}

/// A signed size string the engine can parse and represent.
pub open spec fn signed_size_ok(s: Seq<char>) -> bool {
    &&& is_signed_dec_str(s)
    &&& units_of(magnitude_of(s)) < MAX_UNITS as nat
    &&& places_of(magnitude_of(s)) <= MAX_SCALE as nat
}

/// The fields of an order intent, spelled out.
pub open spec fn intent_is(
    i: OrderIntent,
    asset: Seq<char>,
    side: Side,
    px_units: nat,
    px_scale: nat,
    sz_units: nat,
    sz_scale: nat,
    reduce_only: bool,
    tif: TimeInForce,
) -> bool {
    &&& i.asset@ == asset
    &&& i.side == side
    &&& i.limit_px.units as nat == px_units
    &&& i.limit_px.scale as nat == px_scale
    &&& i.sz.units as nat == sz_units
    &&& i.sz.scale as nat == sz_scale
    &&& i.reduce_only == reduce_only
    &&& i.tif == tif
}

/// The order request an opening action must produce: the observed price
/// protected by the direction's slippage factor at the observed scale, the
/// notional quantity at the engine precision, immediate-or-cancel, not
/// reduce-only, and, for a derivative open, the configured leverage.
pub open spec fn is_open_request(
    req: OrderRequest,
    coin: Seq<char>,
    px: Seq<char>,
    cfg: Config,
    action: Action,
) -> bool {
    let buying = action is SpotBuy || action is OpenLong;
    let slip = if buying {
        cfg.buy_slippage
    } else {
        cfg.sell_slippage
    };
    &&& intent_is(
        req.intent,
        coin,
        if buying {
            Side::Buy
        } else {
            Side::Sell
        },
        adjusted_units(units_of(px), slip, buying),
        places_of(px),
        notional_units(cfg.notional_budget as nat, units_of(px), places_of(px)),
        QTY_PLACES as nat,
        false,
        TimeInForce::Ioc,
    )
    &&& req.set_leverage == (if action is SpotBuy {
        Option::<u32>::None
    } else {
        Option::<u32>::Some(cfg.leverage)
    })
}

/// The pending spot sell its fill and size rule call for: the observed
/// price lowered by the sell slippage factor, and the rule's token and
/// precision.
pub open spec fn is_sell_pending(
    p: PendingSell,
    coin: Seq<char>,
    px: Seq<char>,
    cfg: Config,
    token: Seq<char>,
    sz_decimals: u32,
) -> bool {
    &&& p.asset@ == coin
    &&& p.token@ == token
    &&& p.sz_decimals == sz_decimals
    &&& p.limit_px.units as nat == adjusted_units(units_of(px), cfg.sell_slippage, false)
    &&& p.limit_px.scale as nat == places_of(px)
}

/// The pending close its fill calls for: the observed price unchanged.
pub open spec fn is_close_pending(
    p: PendingClose,
    coin: Seq<char>,
    px: Seq<char>,
    closing_long: bool,
) -> bool {
    &&& p.asset@ == coin
    &&& p.limit_px.units as nat == units_of(px)
    &&& p.limit_px.scale as nat == places_of(px)
    &&& p.closing_long == closing_long
}

/// Prices and sizes an opening order (spot buy, derivative long open, or
/// derivative short open) from the fill alone.
pub fn plan_open_order(fill: &TradeInfo, cfg: &Config, action: Action) -> (r: Result<
    OrderRequest,
    ActionError,
>)
    requires
        cfg.wf(),
        action is SpotBuy || action is OpenLong || action is OpenShort,
    ensures
        r is Ok <==> pos_price_ok(fill.px@),
        r matches Ok(req) ==> is_open_request(req, fill.coin@, fill.px@, *cfg, action),
        r matches Err(e) ==> e is MalformedInput,
{
    let px = match Dec::parse(fill.px.as_str()) {
        Some(d) => d,
        None => {
            return Err(ActionError::MalformedInput);
        },
    };
    if px.units == 0 {
        return Err(ActionError::MalformedInput);
    }
    let buying = match action {
        Action::SpotBuy => true,
        Action::OpenLong => true,
        _ => false,
    };
    let slip = if buying {
        cfg.buy_slippage
    } else {
        cfg.sell_slippage
    };
    let limit_px = adjust_price(px, slip, buying);
    let sz = notional_quantity(cfg.notional_budget, px);
    let set_leverage = match action {
        Action::SpotBuy => None,
        _ => Some(cfg.leverage),
    };
    Ok(
        OrderRequest {
            intent: OrderIntent {
                asset: fill.coin.clone(),
                side: if buying {
                    Side::Buy
                } else {
                    Side::Sell
                },
                limit_px,
                sz,
                reduce_only: false,
                tif: TimeInForce::Ioc,
            },
            set_leverage,
        },
    )
}

/// Starts a spot sell: resolves the traded pair to its balance-bearing
/// token and protects the price. The wallet balance is queried afterwards
/// and handed to [`complete_spot_sell`].
pub fn plan_spot_sell(fill: &TradeInfo, cfg: &Config, table: &AssetMetaTable) -> (r: Result<
    PendingSell,
    ActionError,
>)
    requires
        cfg.wf(),
    ensures
        r is Ok <==> find_rule_spec(table.rules@, fill.coin@) is Some && dec_ok(fill.px@),
        r matches Ok(p) ==> {
            let rule = find_rule_spec(table.rules@, fill.coin@)->Some_0;
            is_sell_pending(p, fill.coin@, fill.px@, *cfg, rule.token@, rule.sz_decimals)
        },
        r matches Err(e) ==> if find_rule_spec(table.rules@, fill.coin@) is None {
            e is PositionNotFound
        } else {
            e is MalformedInput
        },
{
    let (token, sz_decimals) = match table.resolve(fill.coin.as_str()) {
        Some(t) => t,
        None => {
            return Err(ActionError::PositionNotFound);
        },
    };
    let px = match Dec::parse(fill.px.as_str()) {
        Some(d) => d,
        None => {
            return Err(ActionError::MalformedInput);
        },
    };
    let limit_px = adjust_price(px, cfg.sell_slippage, false);
    Ok(
        PendingSell {
            asset: fill.coin.clone(),
            token,
            limit_px,
            sz_decimals,
        },
    )
}

/// Finishes a spot sell once the wallet balance is known: `None` means no
/// balance record exists and the sell fails as a desynchronization; a
/// balance is truncated down to the token's declared precision.
pub fn complete_spot_sell(pending: PendingSell, balance: Option<&str>) -> (r: Result<
    OrderRequest,
    ActionError,
>)
    ensures
        balance is None ==> (r matches Err(e) && e is PositionNotFound),
        balance is Some && !dec_ok(balance->Some_0@) ==> (r matches Err(e)
            && e is MalformedInput),
        balance is Some && dec_ok(balance->Some_0@) ==> (r matches Ok(req) && intent_is(
            req.intent,
            pending.asset@,
            Side::Sell,
            pending.limit_px.units as nat,
            pending.limit_px.scale as nat,
            truncated_units(
                units_of(balance->Some_0@),
                places_of(balance->Some_0@),
                pending.sz_decimals as nat,
            ),
            truncated_scale(places_of(balance->Some_0@), pending.sz_decimals as nat),
            false,
            TimeInForce::Ioc,
        ) && req.set_leverage is None),
{
    let b = match balance {
        Some(b) => b,
        None => {
            return Err(ActionError::PositionNotFound);
        },
    };
    let bal = match Dec::parse(b) {
        Some(d) => d,
        None => {
            return Err(ActionError::MalformedInput);
        },
    };
    let sz = truncate_quantity(bal, pending.sz_decimals);
    Ok(
        OrderRequest {
            intent: OrderIntent {
                asset: pending.asset,
                side: Side::Sell,
                limit_px: pending.limit_px,
                sz,
                reduce_only: false,
                tif: TimeInForce::Ioc,
            },
            set_leverage: None,
        },
    )
}

/// Starts a derivative close: the observed price is used unchanged, as the
/// close rests on the book. The open position is queried afterwards and
/// handed to [`complete_close`].
pub fn plan_close(fill: &TradeInfo, closing_long: bool) -> (r: Result<PendingClose, ActionError>)
    ensures
        r is Ok <==> dec_ok(fill.px@),
        r matches Ok(p) ==> is_close_pending(p, fill.coin@, fill.px@, closing_long),
        r matches Err(e) ==> e is MalformedInput,
{
    let px = match Dec::parse(fill.px.as_str()) {
        Some(d) => d,
        None => {
            return Err(ActionError::MalformedInput);
        },
    };
    Ok(PendingClose { asset: fill.coin.clone(), limit_px: px, closing_long })
}

/// Finishes a derivative close once the open position is known: `None`
/// means no position exists and the close fails as a desynchronization; an
/// open position is closed reduce-only with the opposite side and its
/// absolute magnitude as quantity.
pub fn complete_close(pending: PendingClose, position_szi: Option<&str>) -> (r: Result<
    OrderRequest,
    ActionError,
>)
    ensures
        position_szi is None ==> (r matches Err(e) && e is PositionNotFound),
        position_szi is Some && !signed_size_ok(position_szi->Some_0@) ==> (r matches Err(e)
            && e is MalformedInput),
        position_szi is Some && signed_size_ok(position_szi->Some_0@) ==> (r matches Ok(req)
            && intent_is(
            req.intent,
            pending.asset@,
            if pending.closing_long {
                Side::Sell
            } else {
                Side::Buy
            },
            pending.limit_px.units as nat,
            pending.limit_px.scale as nat,
            units_of(magnitude_of(position_szi->Some_0@)),
            places_of(magnitude_of(position_szi->Some_0@)),
            true,
            TimeInForce::Gtc,
        ) && req.set_leverage is None),
{
    let s = match position_szi {
        Some(s) => s,
        None => {
            return Err(ActionError::PositionNotFound);
        },
    };
    let sz = match Dec::parse_signed(s) {
        Some((_negative, d)) => d,
        None => {
            return Err(ActionError::MalformedInput);
        },
    };
    Ok(
        OrderRequest {
            intent: OrderIntent {
                asset: pending.asset,
                side: if pending.closing_long {
                    Side::Sell
                } else {
                    Side::Buy
                },
                limit_px: pending.limit_px,
                sz,
                reduce_only: true,
                tif: TimeInForce::Gtc,
            },
            set_leverage: None,
        },
    )
}

/// Reads the execution interface's reply: a filled or resting order is a
/// success carrying the order identifier; a structured rejection and a
/// transport failure fail this action only.
pub fn interpret_response(resp: ExchangeResponse) -> (o: FillOutcome)
    ensures
        resp matches ExchangeResponse::Filled(oid) ==> o matches FillOutcome::Succeeded(i) && i
            == oid,
        resp matches ExchangeResponse::Resting(oid) ==> o matches FillOutcome::Succeeded(i) && i
            == oid,
        resp matches ExchangeResponse::Rejected(reason) ==> o matches FillOutcome::Failed(e)
            && e matches ActionError::Rejected(msg) && msg@ == reason@,
        resp matches ExchangeResponse::Transport(desc) ==> o matches FillOutcome::Failed(e)
            && e matches ActionError::Transport(msg) && msg@ == desc@,
{
    match resp {
        ExchangeResponse::Filled(oid) => FillOutcome::Succeeded(oid),
        ExchangeResponse::Resting(oid) => FillOutcome::Succeeded(oid),
        ExchangeResponse::Rejected(reason) => FillOutcome::Failed(ActionError::Rejected(reason)),
        ExchangeResponse::Transport(desc) => FillOutcome::Failed(ActionError::Transport(desc)),
    }
}

/// What [`plan_fill`] must decide for a fill, case by case over the
/// classified action. A disabled action is gated off before anything is
/// priced, sized, or queried.
pub open spec fn plan_matches_fill(
    p: FillPlan,
    fill: TradeInfo,
    cfg: Config,
    table: AssetMetaTable,
) -> bool {
    let action = classify_spec(fill.dir@);
    &&& (action is Ignore ==> p is Ignore)
    &&& (!(action is Ignore) && !gate_spec(cfg, action) ==> p is GatedOff)
    &&& (gate_spec(cfg, action) ==> match action {
        Action::SpotBuy | Action::OpenLong | Action::OpenShort => if pos_price_ok(fill.px@) {
            p matches FillPlan::Submit(req) && is_open_request(req, fill.coin@, fill.px@, cfg, action)
        } else {
            p matches FillPlan::Reject(e) && e is MalformedInput
        },
        Action::SpotSell => if find_rule_spec(table.rules@, fill.coin@) is None {
            p matches FillPlan::Reject(e) && e is PositionNotFound
        } else if !dec_ok(fill.px@) {
            p matches FillPlan::Reject(e) && e is MalformedInput
        } else {
            p matches FillPlan::NeedBalance(pend) && {
                let rule = find_rule_spec(table.rules@, fill.coin@)->Some_0;
                is_sell_pending(pend, fill.coin@, fill.px@, cfg, rule.token@, rule.sz_decimals)
            }
        },
        Action::CloseLong | Action::CloseShort => if dec_ok(fill.px@) {
            p matches FillPlan::NeedPosition(pend) && is_close_pending(
                pend,
                fill.coin@,
                fill.px@,
                action is CloseLong,
            )
        } else {
            p matches FillPlan::Reject(e) && e is MalformedInput
        },
        Action::Ignore => false,
    })
}

/// Classifies a fill, checks the feature gate, and decides what happens
/// next. No balance or position is named unless the action's switch is on,
/// so a gated-off category incurs no query and no submission.
pub fn plan_fill(fill: &TradeInfo, cfg: &Config, table: &AssetMetaTable) -> (p: FillPlan)
    requires
        cfg.wf(),
    ensures
        plan_matches_fill(p, *fill, *cfg, *table),
{
    let action = classify(fill.dir.as_str());
    if matches!(action, Action::Ignore) {
        return FillPlan::Ignore;
    }
    if !gate_enabled(cfg, action) {
        return FillPlan::GatedOff;
    }
    match action {
        Action::SpotBuy | Action::OpenLong | Action::OpenShort => {
            match plan_open_order(fill, cfg, action) {
                Ok(req) => FillPlan::Submit(req),
                Err(e) => FillPlan::Reject(e),
            }
        },
        Action::SpotSell => {
            match plan_spot_sell(fill, cfg, table) {
                Ok(pend) => FillPlan::NeedBalance(pend),
                Err(e) => FillPlan::Reject(e),
            }
        },
        Action::CloseLong => {
            match plan_close(fill, true) {
                Ok(pend) => FillPlan::NeedPosition(pend),
                Err(e) => FillPlan::Reject(e),
            }
        },
        Action::CloseShort => {
            match plan_close(fill, false) {
                Ok(pend) => FillPlan::NeedPosition(pend),
                Err(e) => FillPlan::Reject(e),
            }
        },
        Action::Ignore => FillPlan::Ignore,
    }
}

/// Plans a whole batch: one plan per fill, each derived from its own fill
/// alone, so that no fill's outcome can depend on a sibling's.
pub fn plan_user_fills(fills: &Vec<TradeInfo>, cfg: &Config, table: &AssetMetaTable) -> (plans:
    Vec<FillPlan>)
    requires
        cfg.wf(),
    ensures
        plans@.len() == fills@.len(),
        forall|i: int|
            0 <= i < fills@.len() ==> plan_matches_fill(#[trigger] plans@[i], fills@[i], *cfg, *table),
{
    let n = fills.len();
    let mut plans: Vec<FillPlan> = Vec::new();
    let mut i: usize = 0;
    while i < n
        invariant
            n == fills@.len(),
            i <= n,
            plans@.len() == i,
            cfg.wf(),
            forall|j: int|
                0 <= j < i ==> plan_matches_fill(#[trigger] plans@[j], fills@[j], *cfg, *table),
        decreases n - i,
    {
        let p = plan_fill(&fills[i], cfg, table);
        plans.push(p);
        i = i + 1;
    }
    plans
}

} // verus!
