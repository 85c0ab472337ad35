//! Verified core of a set of cost lints for Soroban smart contracts, together
//! with the configuration and budget-report logic of the tools around them.

pub mod text;
pub mod paths;
pub mod model;
pub mod analysis;
pub mod lints;
pub mod symbols;
pub mod passes;
pub mod fn_passes;
pub mod unbounded;
pub mod names;
pub mod config;
pub mod report;
pub mod budget;
pub mod sdk;
pub mod laws;
pub mod lint_laws;
