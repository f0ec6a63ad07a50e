//! A verified stat-computation engine for one game unit: a fixed-shape
//! seventeen-slot status vector over exact fixed-point arithmetic, an
//! immutable per-unit cache built from raw records, a mutable session
//! state edited through fluent setters, pure derivation functions for
//! every aggregate of the power formula, and a memoizing layer whose
//! dirty-bit graph provably never serves a stale value.
#![verifier::loop_isolation(false)]

pub mod limits;
pub mod round;
pub mod status;
pub mod equip;
pub mod model;
pub mod sums;
pub mod skill;
pub mod data;
pub mod state;
pub mod cache;
pub mod calc;
pub mod memo;
pub mod error;
