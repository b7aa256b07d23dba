//! Release resolution and update orchestration for a self-updating agent.
pub mod error;
pub mod laws;
pub mod list;
pub mod orchestrate;
pub mod plan;
pub mod probe;
pub mod query;
pub mod release;
pub mod text;
