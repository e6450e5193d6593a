//! Target-profile conditional pruning for a compiler front end.
//!
//! Source declarations may carry `Config` attributes that restrict them to a
//! particular execution profile. This library decides, per declaration,
//! whether it survives under the active profile, removes the non-matching
//! declarations from each namespace in place, and records which symbols were
//! kept or dropped so that later diagnostic passes can explain name-resolution
//! failures caused by profile exclusion.

pub mod ast;
pub mod matcher;
pub mod preprocess;
mod seq_util;
