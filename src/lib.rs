//! Finds Python functions and parameters that lack type hints.
pub mod detect;
pub mod filter;
pub mod laws;
pub mod provider;
pub mod report;
pub mod syntax;
