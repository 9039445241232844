//! Orchestration core of the asset-ingestion desktop backend: builds the
//! command lines for the ingestion tool, folds the events of the running
//! process into buffers, and classifies how the process ended.

pub mod text;
pub mod command;
pub mod outcome;
pub mod aggregate;
