//! Data carried by the realtime feed.
//!
//! These are the message payloads the subscription transport delivers. The
//! engine itself consumes [`TradeInfo`], one observed execution on the
//! watched account; the remaining types describe the other subscription
//! channels of the same feed.

use vstd::prelude::*;
use std::collections::HashMap;

verus! {

/// One public trade printed on the tape.
#[derive(Clone, Debug)]
pub struct Trade {
    pub coin: String,
    pub side: String,
    pub px: String,
    pub sz: String,
    pub time: u64,
    pub hash: String,
    pub tid: u64,
}

/// One price level of an order book snapshot.
#[derive(Clone, Debug)]
pub struct BookLevel {
    pub px: String,
    pub sz: String,
    pub n: u64,
}

/// An order book snapshot: bid levels and ask levels.
#[derive(Clone, Debug)]
pub struct L2BookData {
    pub coin: String,
    pub time: u64,
    pub levels: Vec<Vec<BookLevel>>,
}

/// Mid prices for every traded asset.
#[derive(Clone, Debug)]
pub struct AllMidsData {
    pub mids: HashMap<String, String>,
}

/// One observed execution on the watched account: the fill the engine
/// classifies and mirrors. `px` and `sz` are decimal strings; `dir` is the
/// direction label the classifier reads.
#[derive(Clone, Debug)]
pub struct TradeInfo {
    pub coin: String,
    pub px: String,
    pub sz: String,
    pub side: String,
    pub time: u64,
    pub start_position: String,
    pub hash: String,
    pub oid: u64,
    pub crossed: bool,
    pub fee: String,
    pub tid: u64,
    pub cloid: Option<String>,
    pub fee_token: String,
    pub closed_pnl: String,
    pub dir: String,
}

/// A user-channel event: fills, a funding payment, a liquidation, or
/// cancels not requested by the user.
#[derive(Clone, Debug)]
pub enum UserData {
    Fills(Vec<TradeInfo>),
    Funding(UserFunding),
    Liquidation(Liquidation),
    NonUserCancel(Vec<NonUserCancel>),
}

/// A liquidation event on the watched account.
#[derive(Clone, Debug)]
pub struct Liquidation {
    pub lid: u64,
    pub liquidator: String,
    pub liquidated_user: String,
    pub liquidated_ntl_pos: String,
    pub liquidated_account_value: String,
}

/// An order cancelled by the exchange rather than the user.
#[derive(Clone, Debug)]
pub struct NonUserCancel {
    pub coin: String,
    pub oid: u64,
}

/// One candle of aggregated trades.
#[derive(Clone, Debug)]
pub struct CandleData {
    pub time_close: u64,
    pub close: String,
    pub high: String,
    pub interval: String,
    pub low: String,
    pub num_trades: u64,
    pub open: String,
    pub coin: String,
    pub time_open: u64,
    pub volume: String,
}

/// A status change of one resting order.
#[derive(Clone, Debug)]
pub struct OrderUpdate {
    pub order: BasicOrder,
    pub status: String,
    pub status_timestamp: u64,
}

/// The order a status change refers to.
#[derive(Clone, Debug)]
pub struct BasicOrder {
    pub coin: String,
    pub side: String,
    pub limit_px: String,
    pub sz: String,
    pub oid: u64,
    pub timestamp: u64,
    pub orig_sz: String,
    pub cloid: Option<String>,
}

/// One funding payment on an open position.
#[derive(Clone, Debug)]
pub struct UserFunding {
    pub time: u64,
    pub coin: String,
    pub usdc: String,
    pub szi: String,
    pub funding_rate: String,
}

/// A deposit into the account.
#[derive(Clone, Debug)]
pub struct Deposit {
    pub usdc: String,
}

/// A withdrawal from the account.
#[derive(Clone, Debug)]
pub struct Withdraw {
    pub usdc: String,
    pub nonce: u64,
    pub fee: String,
}

/// A liquidation recorded on the account ledger.
#[derive(Clone, Debug)]
pub struct LedgerLiquidation {
    pub account_value: u64,
    pub leverage_type: String,
    pub liquidated_positions: Vec<LiquidatedPosition>,
}

/// One position closed by a ledger liquidation.
#[derive(Clone, Debug)]
pub struct LiquidatedPosition {
    pub coin: String,
    pub szi: String,
}

/// A transfer between the spot and derivative account classes.
#[derive(Clone, Debug)]
pub struct AccountClassTransfer {
    pub usdc: String,
    pub to_perp: bool,
}

/// A genesis distribution of a spot token.
#[derive(Clone, Debug)]
pub struct SpotGenesis {
    pub token: String,
    pub amount: String,
}

/// A free-form notification from the exchange.
#[derive(Clone, Debug)]
pub struct NotificationData {
    pub notification: String,
}

/// The live market context of one asset.
#[derive(Clone, Debug)]
pub struct ActiveAssetCtxData {
    pub coin: String,
    pub ctx: AssetCtx,
}

/// Market context: derivative or spot.
#[derive(Clone, Debug)]
pub enum AssetCtx {
    Perps(PerpsAssetCtx),
    Spot(SpotAssetCtx),
}

/// Market context fields shared by spot and derivative assets.
#[derive(Clone, Debug)]
pub struct SharedAssetCtx {
    pub day_ntl_vlm: String,
    pub prev_day_px: String,
    pub mark_px: String,
    pub mid_px: Option<String>,
}

/// Market context of a derivative asset.
#[derive(Clone, Debug)]
pub struct PerpsAssetCtx {
    pub shared: SharedAssetCtx,
    pub funding: String,
    pub open_interest: String,
    pub oracle_px: String,
}

/// Market context of a spot asset.
#[derive(Clone, Debug)]
pub struct SpotAssetCtx {
    pub shared: SharedAssetCtx,
    pub circulating_supply: String,
}

} // verus!
