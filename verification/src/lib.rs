//! Exact-decimal metrics and report text for a series of daily price bars.
//!
//! Prices are held as exact decimals, never as binary floating point. The
//! decimal arithmetic, the calendar and the text engines belong to other
//! crates; every call into them goes through a small function whose contract
//! is trusted rather than proved, and each of those says so in its own
//! documentation. Everything built on top of them is proved against those
//! contracts.

pub mod amount;
pub mod bar;
pub mod cash_flow;
pub mod change;
pub mod chart;
pub mod error;
pub mod quote_table;
pub mod range;
pub mod report;
pub mod return_series;
pub mod summary;
pub mod text;
