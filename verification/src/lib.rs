//! Verified core of an adapter for the Alpaca Trading and Market Data APIs (US equities).
//!
//! The library holds the adapter's decisions: environment and feed selection, the venue's order
//! vocabulary and its mapping onto the engine's, SEC Rule 612 price validation, trading-session
//! resolution, pagination, replacement chains and bar watermarks. Transport and the engine glue
//! live outside it.

pub mod common;
pub mod config;
pub mod data;
pub mod execution;
pub mod factories;
pub mod http;
pub mod provider;
pub mod websocket;
