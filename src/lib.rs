//! Bridge between the cortex memory store and the drift analysis store:
//! health aggregation, grounding verdicts, feedback calculus, cross-store
//! queries and bridge schema migration.

pub mod cross_db;
pub mod data_source;
pub mod drift_queries;
pub mod errors;
pub mod feedback;
pub mod grounder;
pub mod grounding;
pub mod health;
pub mod migrations;
pub mod sqlite;
pub mod text;
pub mod types;
