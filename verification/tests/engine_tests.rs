use hype_copy_trade::classify::{classify, Action};
use hype_copy_trade::config::{gate_enabled, Config};
use hype_copy_trade::decimal::Dec;
use hype_copy_trade::engine::{
    complete_close, complete_spot_sell, interpret_response, plan_fill, plan_open_order,
    plan_user_fills, ActionError, ExchangeResponse, FillOutcome, FillPlan, PendingClose,
    PendingSell, Side, TimeInForce,
};
use hype_copy_trade::feed::TradeInfo;
use hype_copy_trade::meta::{AssetMetaTable, AssetSizeRule};
use hype_copy_trade::price::format_adjust_price;
use hype_copy_trade::sizing::{notional_quantity, truncate_quantity};

fn fill(coin: &str, px: &str, dir: &str) -> TradeInfo {
    TradeInfo {
        coin: coin.to_string(),
        px: px.to_string(),
        sz: "1".to_string(),
        side: "B".to_string(),
        time: 0,
        start_position: "0".to_string(),
        hash: "0x0".to_string(),
        oid: 1,
        crossed: true,
        fee: "0".to_string(),
        tid: 1,
        cloid: None,
        fee_token: "USDC".to_string(),
        closed_pnl: "0".to_string(),
        dir: dir.to_string(),
    }
}

fn config_all_on() -> Config {
    Config {
        enable_spot_buy: true,
        enable_spot_sell: true,
        enable_derivative_long: true,
        enable_derivative_short: true,
        notional_budget: 100,
        leverage: 5,
        buy_slippage: Dec { units: 5, scale: 2 },
        sell_slippage: Dec { units: 5, scale: 2 },
    }
}

fn table_with(pair: &str, token: &str, sz_decimals: u32) -> AssetMetaTable {
    AssetMetaTable {
        rules: vec![AssetSizeRule {
            pair: pair.to_string(),
            token: token.to_string(),
            sz_decimals,
        }],
    }
}

#[test]
fn classify_known_labels() {
    assert_eq!(classify("Buy"), Action::SpotBuy);
    assert_eq!(classify("Sell"), Action::SpotSell);
    assert_eq!(classify("Open Long"), Action::OpenLong);
    assert_eq!(classify("Close Long"), Action::CloseLong);
    assert_eq!(classify("Open Short"), Action::OpenShort);
    assert_eq!(classify("Close Short"), Action::CloseShort);
}

#[test]
fn classify_unknown_labels() {
    assert_eq!(classify(""), Action::Ignore);
    assert_eq!(classify("buy"), Action::Ignore);
    assert_eq!(classify("Liquidation"), Action::Ignore);
    assert_eq!(classify("Open Longer"), Action::Ignore);
}

#[test]
fn buy_adjustment_rounds_to_input_places() {
    // 123.45 * 1.05 = 129.6225, rounded to the two places of the input
    let slip = Dec { units: 5, scale: 2 };
    assert_eq!(format_adjust_price("123.45", slip, true), Some("129.62".to_string()));
}

#[test]
fn sell_adjustment_keeps_integer_price() {
    // 100 * 0.95 = 95, zero places preserved
    let slip = Dec { units: 5, scale: 2 };
    assert_eq!(format_adjust_price("100", slip, false), Some("95".to_string()));
}

#[test]
fn adjustment_rounds_half_away_from_zero() {
    // 1.5 * 1.5 = 2.25; one input place, so the half rounds up to 2.3
    let slip = Dec { units: 5, scale: 1 };
    assert_eq!(format_adjust_price("1.5", slip, true), Some("2.3".to_string()));
}

#[test]
fn adjustment_rejects_malformed_price() {
    let slip = Dec { units: 5, scale: 2 };
    assert_eq!(format_adjust_price("12x", slip, true), None);
    assert_eq!(format_adjust_price("", slip, true), None);
}

#[test]
fn notional_sizing_divides_budget() {
    // budget 100 at price 50 buys 2.0000
    let q = notional_quantity(100, Dec { units: 50, scale: 0 });
    assert_eq!(q, Dec { units: 20000, scale: 4 });
    assert_eq!(q.to_dec_string(), "2.0000");
}

#[test]
fn balance_sizing_floors_to_integer() {
    // precision 0: 12.7 floors to 12
    let q = truncate_quantity(Dec { units: 127, scale: 1 }, 0);
    assert_eq!(q, Dec { units: 12, scale: 0 });
    assert_eq!(q.to_dec_string(), "12");
}

#[test]
fn balance_sizing_truncates_to_precision() {
    // precision 2: 12.789 truncates to 12.78
    let q = truncate_quantity(Dec { units: 12789, scale: 3 }, 2);
    assert_eq!(q, Dec { units: 1278, scale: 2 });
    assert_eq!(q.to_dec_string(), "12.78");
}

#[test]
fn balance_sizing_keeps_coarser_balance() {
    // a balance with fewer places than the precision is left alone
    let q = truncate_quantity(Dec { units: 127, scale: 1 }, 3);
    assert_eq!(q, Dec { units: 127, scale: 1 });
}

#[test]
fn close_long_sells_position_magnitude() {
    // open position -3.5 on a Close Long: sell 3.5, reduce-only
    let pending = PendingClose {
        asset: "ETH".to_string(),
        limit_px: Dec { units: 2000, scale: 0 },
        closing_long: true,
    };
    let req = complete_close(pending, Some("-3.5")).unwrap();
    assert_eq!(req.intent.side, Side::Sell);
    assert_eq!(req.intent.sz, Dec { units: 35, scale: 1 });
    assert!(req.intent.reduce_only);
    assert_eq!(req.intent.tif, TimeInForce::Gtc);
    assert_eq!(req.intent.limit_px, Dec { units: 2000, scale: 0 });
    assert!(req.set_leverage.is_none());
}

#[test]
fn close_short_buys_back() {
    let pending = PendingClose {
        asset: "ETH".to_string(),
        limit_px: Dec { units: 2000, scale: 0 },
        closing_long: false,
    };
    let req = complete_close(pending, Some("-3.5")).unwrap();
    assert_eq!(req.intent.side, Side::Buy);
    assert_eq!(req.intent.sz, Dec { units: 35, scale: 1 });
    assert!(req.intent.reduce_only);
}

#[test]
fn close_without_position_is_desync() {
    let pending = PendingClose {
        asset: "ETH".to_string(),
        limit_px: Dec { units: 2000, scale: 0 },
        closing_long: true,
    };
    let r = complete_close(pending, None);
    assert!(matches!(r, Err(ActionError::PositionNotFound)));
}

#[test]
fn close_with_malformed_position_fails() {
    let pending = PendingClose {
        asset: "ETH".to_string(),
        limit_px: Dec { units: 2000, scale: 0 },
        closing_long: true,
    };
    let r = complete_close(pending, Some("none"));
    assert!(matches!(r, Err(ActionError::MalformedInput)));
}

#[test]
fn sell_without_balance_is_desync() {
    let pending = PendingSell {
        asset: "PURR/USDC".to_string(),
        token: "PURR".to_string(),
        limit_px: Dec { units: 95, scale: 2 },
        sz_decimals: 0,
    };
    let r = complete_spot_sell(pending, None);
    assert!(matches!(r, Err(ActionError::PositionNotFound)));
}

#[test]
fn sell_truncates_balance() {
    let pending = PendingSell {
        asset: "PURR/USDC".to_string(),
        token: "PURR".to_string(),
        limit_px: Dec { units: 95, scale: 2 },
        sz_decimals: 2,
    };
    let req = complete_spot_sell(pending, Some("12.789")).unwrap();
    assert_eq!(req.intent.side, Side::Sell);
    assert_eq!(req.intent.sz, Dec { units: 1278, scale: 2 });
    assert_eq!(req.intent.tif, TimeInForce::Ioc);
    assert!(!req.intent.reduce_only);
    assert_eq!(req.intent.asset, "PURR/USDC");
}

#[test]
fn gate_blocks_each_category() {
    let mut cfg = config_all_on();
    cfg.enable_spot_buy = false;
    assert!(!gate_enabled(&cfg, Action::SpotBuy));
    assert!(gate_enabled(&cfg, Action::SpotSell));
    cfg.enable_derivative_long = false;
    assert!(!gate_enabled(&cfg, Action::OpenLong));
    assert!(!gate_enabled(&cfg, Action::CloseLong));
    assert!(gate_enabled(&cfg, Action::OpenShort));
    cfg.enable_derivative_short = false;
    assert!(!gate_enabled(&cfg, Action::CloseShort));
    assert!(!gate_enabled(&cfg, Action::Ignore));
}

#[test]
fn gated_off_fill_plans_nothing() {
    let mut cfg = config_all_on();
    cfg.enable_spot_sell = false;
    let table = table_with("PURR/USDC", "PURR", 0);
    let p = plan_fill(&fill("PURR/USDC", "0.95", "Sell"), &cfg, &table);
    assert!(matches!(p, FillPlan::GatedOff));
}

#[test]
fn unknown_direction_is_ignored() {
    let cfg = config_all_on();
    let table = table_with("PURR/USDC", "PURR", 0);
    let p = plan_fill(&fill("ETH", "2000", "Settle"), &cfg, &table);
    assert!(matches!(p, FillPlan::Ignore));
}

#[test]
fn spot_buy_plans_full_order() {
    let cfg = config_all_on();
    let table = table_with("PURR/USDC", "PURR", 0);
    let p = plan_fill(&fill("PURR/USDC", "50", "Buy"), &cfg, &table);
    match p {
        FillPlan::Submit(req) => {
            assert_eq!(req.intent.asset, "PURR/USDC");
            assert_eq!(req.intent.side, Side::Buy);
            // 50 * 1.05 = 52.5, rounded to the zero places of the input: 53
            assert_eq!(req.intent.limit_px, Dec { units: 53, scale: 0 });
            assert_eq!(req.intent.sz, Dec { units: 20000, scale: 4 });
            assert_eq!(req.intent.tif, TimeInForce::Ioc);
            assert!(!req.intent.reduce_only);
            assert!(req.set_leverage.is_none());
        }
        other => panic!("expected an order, got {:?}", other),
    }
}

#[test]
fn open_long_sets_leverage() {
    let cfg = config_all_on();
    let table = table_with("PURR/USDC", "PURR", 0);
    let p = plan_fill(&fill("ETH", "2000", "Open Long"), &cfg, &table);
    match p {
        FillPlan::Submit(req) => {
            assert_eq!(req.intent.side, Side::Buy);
            assert_eq!(req.set_leverage, Some(5));
            // 2000 * 1.05 = 2100
            assert_eq!(req.intent.limit_px, Dec { units: 2100, scale: 0 });
            // 100 / 2000 = 0.0500
            assert_eq!(req.intent.sz, Dec { units: 500, scale: 4 });
        }
        other => panic!("expected an order, got {:?}", other),
    }
}

#[test]
fn open_short_sells_with_lowered_price() {
    let cfg = config_all_on();
    let table = table_with("PURR/USDC", "PURR", 0);
    let p = plan_fill(&fill("ETH", "2000", "Open Short"), &cfg, &table);
    match p {
        FillPlan::Submit(req) => {
            assert_eq!(req.intent.side, Side::Sell);
            assert_eq!(req.set_leverage, Some(5));
            // 2000 * 0.95 = 1900
            assert_eq!(req.intent.limit_px, Dec { units: 1900, scale: 0 });
        }
        other => panic!("expected an order, got {:?}", other),
    }
}

#[test]
fn spot_sell_asks_for_balance() {
    let cfg = config_all_on();
    let table = table_with("PURR/USDC", "PURR", 2);
    let p = plan_fill(&fill("PURR/USDC", "0.96", "Sell"), &cfg, &table);
    match p {
        FillPlan::NeedBalance(pend) => {
            assert_eq!(pend.asset, "PURR/USDC");
            assert_eq!(pend.token, "PURR");
            assert_eq!(pend.sz_decimals, 2);
            // 0.96 * 0.95 = 0.912, rounded to the two places of the input: 0.91
            assert_eq!(pend.limit_px, Dec { units: 91, scale: 2 });
        }
        other => panic!("expected a balance query, got {:?}", other),
    }
}

#[test]
fn spot_sell_of_unlisted_pair_is_desync() {
    let cfg = config_all_on();
    let table = table_with("PURR/USDC", "PURR", 2);
    let p = plan_fill(&fill("HYPE/USDC", "30", "Sell"), &cfg, &table);
    assert!(matches!(p, FillPlan::Reject(ActionError::PositionNotFound)));
}

#[test]
fn close_long_asks_for_position() {
    let cfg = config_all_on();
    let table = table_with("PURR/USDC", "PURR", 2);
    let p = plan_fill(&fill("ETH", "2000.5", "Close Long"), &cfg, &table);
    match p {
        FillPlan::NeedPosition(pend) => {
            assert_eq!(pend.asset, "ETH");
            assert!(pend.closing_long);
            // the close uses the observed price unchanged
            assert_eq!(pend.limit_px, Dec { units: 20005, scale: 1 });
        }
        other => panic!("expected a position query, got {:?}", other),
    }
}

#[test]
fn malformed_price_rejects_fill() {
    let cfg = config_all_on();
    let table = table_with("PURR/USDC", "PURR", 2);
    let p = plan_fill(&fill("ETH", "20,5", "Buy"), &cfg, &table);
    assert!(matches!(p, FillPlan::Reject(ActionError::MalformedInput)));
}

#[test]
fn zero_price_rejects_notional_open() {
    let cfg = config_all_on();
    let r = plan_open_order(&fill("ETH", "0", "Buy"), &cfg, Action::SpotBuy);
    assert!(matches!(r, Err(ActionError::MalformedInput)));
}

#[test]
fn filled_and_resting_responses_succeed() {
    assert!(matches!(
        interpret_response(ExchangeResponse::Filled(77)),
        FillOutcome::Succeeded(77)
    ));
    assert!(matches!(
        interpret_response(ExchangeResponse::Resting(78)),
        FillOutcome::Succeeded(78)
    ));
}

#[test]
fn rejected_response_fails_action() {
    let o = interpret_response(ExchangeResponse::Rejected("margin".to_string()));
    match o {
        FillOutcome::Failed(ActionError::Rejected(msg)) => assert_eq!(msg, "margin"),
        other => panic!("expected a rejection, got {:?}", other),
    }
}

#[test]
fn transport_response_fails_action() {
    let o = interpret_response(ExchangeResponse::Transport("timeout".to_string()));
    match o {
        FillOutcome::Failed(ActionError::Transport(msg)) => assert_eq!(msg, "timeout"),
        other => panic!("expected a transport failure, got {:?}", other),
    }
}

#[test]
fn table_lookup_takes_first_match() {
    let table = AssetMetaTable {
        rules: vec![
            AssetSizeRule { pair: "A/USDC".to_string(), token: "A".to_string(), sz_decimals: 1 },
            AssetSizeRule { pair: "A/USDC".to_string(), token: "B".to_string(), sz_decimals: 9 },
        ],
    };
    assert_eq!(table.resolve("A/USDC"), Some(("A".to_string(), 1)));
    assert_eq!(table.resolve("C/USDC"), None);
}

#[test]
fn batch_fills_are_planned_independently() {
    let mut cfg = config_all_on();
    cfg.enable_derivative_short = false;
    let table = table_with("PURR/USDC", "PURR", 2);
    let batch = vec![
        fill("ETH", "2000", "Settle"),       // unknown label
        fill("ETH", "2000", "Open Short"),   // gated off
        fill("PURR/USDC", "50", "Buy"),      // ready to submit
        fill("ETH", "bad", "Open Long"),     // malformed price
        fill("ETH", "2000", "Close Long"),   // needs the position
    ];
    let plans = plan_user_fills(&batch, &cfg, &table);
    assert_eq!(plans.len(), 5);
    assert!(matches!(plans[0], FillPlan::Ignore));
    assert!(matches!(plans[1], FillPlan::GatedOff));
    assert!(matches!(plans[2], FillPlan::Submit(_)));
    assert!(matches!(plans[3], FillPlan::Reject(ActionError::MalformedInput)));
    assert!(matches!(plans[4], FillPlan::NeedPosition(_)));
}

#[test]
fn empty_table_resolves_nothing() {
    let table = AssetMetaTable { rules: vec![] };
    assert_eq!(table.resolve("A/USDC"), None);
}
