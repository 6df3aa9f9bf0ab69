//! Final stage of a sandbox launcher: given a resolved permission policy and a
//! command line, decide how to confine the process (native kernel enforcement,
//! or a namespace-isolating wrapper as fallback), build the final argument
//! vector, and prepare the irreversible process-replacing execution.
//!
//! The crate holds the decision and construction logic; the thin binary around
//! it performs the kernel calls and the replacing execution itself.

pub mod error;
pub mod policy;
pub mod bwrap;
pub mod replacer;
pub mod strategy;
