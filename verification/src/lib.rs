//! The decision core of a telemetry dispatcher: a state machine that batches
//! records, sends them, backs off after failures and stops on request.

pub mod command;
pub mod laws;
pub mod machine;
pub mod model;
pub mod outcome;
pub mod records;
pub mod retry;
pub mod worker;
