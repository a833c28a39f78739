//! Client logic for a web search-trends query API: query model, widget
//! selection, request payload refinement, rate-limit retry decisions and
//! response guard stripping.

pub mod date;
pub mod error;
pub mod json;
pub mod query;
pub mod series;
pub mod transport;
pub mod types;
pub mod widget;
