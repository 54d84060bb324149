//! Core of a terminal dashboard that samples host and GPU telemetry and
//! presents it as gauges, tables and scrolling history graphs.
//!
//! This crate holds the stateful monitoring core: snapshot aggregation,
//! fixed-window history buffers, the sortable/filterable process-table
//! controller, the kill-confirmation workflow and the layout-sizing policy.
//! Telemetry providers, the render surface and the input source are external
//! collaborators; callers feed their readings in as plain values and consume
//! the derived state.
//!
//! Percentages are carried as integer basis points (hundredths of a percent,
//! `0..=10_000`) so that every derived value stays exact and in range.

use vstd::prelude::*;

pub mod app;
pub mod history;
pub mod layout;
pub mod metrics;
pub mod sort;
pub mod table;
pub mod text;
pub mod types;
pub mod utils;

verus! {

/// Upper bound of a percentage expressed in basis points.
pub const PERCENT_SCALE: u32 = 10000;

} // verus!
