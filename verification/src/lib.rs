//! A copy-trading signal engine.
//!
//! The library classifies observed trade fills, gates them by per-category
//! configuration switches, and computes the concrete limit order to mirror
//! each fill: a protective limit price that preserves the decimal precision
//! of the observed price, and a quantity sized from a fixed notional budget,
//! a wallet balance, or an open position, depending on the trade direction.
//! All arithmetic is exact fixed-point decimal arithmetic.

pub mod classify;
pub mod config;
pub mod decimal;
pub mod engine;
pub mod feed;
pub mod meta;
pub mod price;
pub mod sizing;
pub mod text;
