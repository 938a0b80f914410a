//! An interactive installer wizard library: a timed yes/no confirmation core
//! that races a blocking prompt against a deadline, an indexed selection
//! step, and the linear installation session that orchestrates them.
//!
//! The terminal interaction itself (rendering prompts, the async race, the
//! process exit) lives outside this library; here stand the decisions those
//! interactions feed, each with a proved contract.

pub mod backend;
pub mod prompt;
pub mod recorder;
pub mod select;
pub mod session;
