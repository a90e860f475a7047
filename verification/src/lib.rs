//! A typed, composable pipeline engine for multi-stage data-transformation
//! workflows, together with the concrete stages of an SEC-filings ingestion
//! pipeline built on it.
//!
//! Each stage ("state") holds an input, a read-only context and an optional
//! output; stages are chained through explicit transitions, may themselves be
//! built from nested sub-pipelines, and report failures through a typed error
//! hierarchy that supports lossless downcasting.

pub mod cik;
pub mod error;
pub mod machine;
pub mod retrieval;
pub mod sample;
pub mod state;
pub mod state_data;
pub mod super_state;
pub mod transition;
pub mod validate_cik_format;
