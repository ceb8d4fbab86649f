//! The decisions of a C-callable bridge that hands an argument vector to the
//! bootc command engine and reports the result as a status code.
//!
//! The bridge itself only touches foreign memory, the engine and the standard
//! error stream. Everything it decides is here, as functions on plain values:
//! whether a call is admitted, in which order the engine is asked to work,
//! which arguments it receives, which status the caller gets back and which
//! line, if any, is written for a human to read.

pub mod call;
pub mod decimal;
pub mod diagnostic;
pub mod outcome;
pub mod run;
