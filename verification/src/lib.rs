//! Warehouse picklist builder: turns recipes fetched from a planning service
//! into CSV picklist rows, one row per recipe item, with integer pick counts
//! derived by ceiling-rounding the fractional serving ratios for each of the
//! six serving tiers.

pub mod decimal;
pub mod pipeline;
pub mod ratio;
pub mod recipe;
pub mod rows;
pub mod runid;
