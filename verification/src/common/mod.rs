//! Common definitions shared across the adapter.

pub mod foreign;
pub mod consts;
pub mod credential;
pub mod decimal;
pub mod enums;
pub mod instrument_info;
pub mod model;
pub mod order_enums;
pub mod reg_nms;
pub mod session;
pub mod text;
pub mod urls;
