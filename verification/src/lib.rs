//! A minimal building block for flow-based execution: a single unit of work
//! that can be chained to a successor and executed with bounded, delayed
//! retries.

pub mod errors;
pub mod node;
