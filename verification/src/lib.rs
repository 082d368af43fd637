//! Weather lookup core: a validated temperature type, the weather model,
//! per-provider date routing and request planning, response decoding, and a
//! registry that builds providers on first use.
//!
//! The crate performs no I/O. A caller sends the planned request over its own
//! transport and hands the decoded response back.

pub mod builder;
pub mod date;
pub mod decimal;
pub mod error;
pub mod info;
pub mod models;
pub mod open_weather;
pub mod provider;
pub mod request;
pub mod utils;
pub mod weather_api;
