//! The verified core of a grid trading bot for MEXC, Gate.io and KuCoin.
mod text;
mod crypto;
pub mod exchange;
pub mod jsonl;
pub mod trade_history;
pub mod account_snapshot;
pub mod adjustment;
pub mod config;
pub mod exchanges;
pub mod volume;
pub mod orders;
pub mod mexc_client;
