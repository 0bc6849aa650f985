//! Lifecycle of the screen-mirroring helper behind a panel toggle.
//!
//! The manager decides when the helper has to be launched or stopped; the
//! caller performs the operating-system work and reports what came of it.

pub mod laws;
pub mod uxplay;
