//! Trace backends.
pub mod eyre;
pub mod string;
