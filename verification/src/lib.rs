//! Screens publicly traded equities against a fixed set of value-investing
//! rules (price/earnings, price/book, dividend history, debt/equity, working
//! capital, market capitalization) on data fetched from a financial-data API.
//!
//! The crate holds the verified core of the pipeline: the rate-limiter state
//! machine that bounds the aggregate number of API calls per window, the
//! per-symbol fetch plan, the extraction of plain records from upstream
//! responses, the screening rules, and the aggregation and partitioning of
//! per-symbol outcomes. Network transport, configuration files and the
//! asynchronous runtime live outside the crate and hand it plain values.
//!
//! Monetary amounts, prices and ratios are fixed-point integers: a stored
//! value `x` stands for the real quantity `x / SCALE` (see the `amounts`
//! module). A financial field the data source did not report is `None`,
//! never zero: every rule distinguishes "absent" from "failed".

pub mod amounts;
pub mod financial_analysis;
pub mod rate_limiter;
pub mod stock_data_fetching;
