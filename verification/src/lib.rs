//! Decision core of a hybrid symbolic/neural agent pipeline.
use vstd::prelude::*;

pub mod budget;
pub mod config;
pub mod dispatch;
pub mod error;
pub mod executor;
pub mod formal;
pub mod json;
pub mod telemetry;
pub mod text;
pub mod types;
pub mod memory;
pub mod neural;
pub mod orchestrator;
pub mod repair;
pub mod rule_set;

verus! {
} // verus!
