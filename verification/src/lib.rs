//! Core computation engine for GPS track navigation.
//!
//! The engine works on exact integer measures: angles in millidegrees,
//! distances in millimeters, and order-preserving distance keys supplied
//! by the caller for geometric comparisons. All decision logic — line
//! simplification, nearest-segment selection, turn classification, and
//! instruction synthesis — is verified here; callers measure geometry in
//! whatever arithmetic they use and hand the results in as plain values.

pub mod format;
pub mod instructions;
pub mod project;
pub mod simplify;
pub mod turn;
