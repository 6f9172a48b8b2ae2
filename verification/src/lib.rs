//! Verified core of a GPU external-memory sharing harness.
//!
//! The library models the per-case protocol that checks a device's
//! cross-boundary memory sharing: capability query, memory-type selection,
//! resource creation and allocation, payload write, handle export, handle
//! import, read-back, verification, and guaranteed teardown. The decisions
//! are made here and proved; the device calls themselves are performed by an
//! unverified driver loop that feeds their outcomes back as events.

pub mod data;
pub mod laws;
pub mod machine;
pub mod params;
pub mod results;
pub mod select;
