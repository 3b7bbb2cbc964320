//! A two-outcome ("Hit"/"Miss") prediction market priced by a logarithmic
//! market scoring rule (LMSR) over fixed-point share quantities.
//!
//! The crate is organised as a pure engine: every operation is a function
//! from the current records (market, position) and a request to either an
//! error or the updated records plus the fund movements the host must
//! perform. The host (chain runtime, test harness) owns custody, identity
//! proofs and the clock; this library owns the arithmetic and the rules.

pub mod errors;
pub mod model;
pub mod tables;
pub mod pricing;
pub mod solver;
pub mod trade;
pub mod lifecycle;
pub mod redeem;
