//! Verified state-transition core of a two-asset constant-product market maker.
//!
//! The library owns the pool's reserves, the outstanding ownership shares and
//! the per-account share book, prices swaps with a fixed trading fee, and
//! returns the token-movement instructions that a host is expected to execute.
//! All arithmetic is exact integer arithmetic; every mutating operation either
//! commits a fully validated state change or leaves the state untouched and
//! reports why.

pub mod book;
pub mod contract;
pub mod error;
pub mod laws;
pub mod math;
pub mod msg;
pub mod state;
