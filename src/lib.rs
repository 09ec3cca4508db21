//! Per-core static storage for a microcontroller with two cores that share one
//! address space.
//!
//! Every per-core variable lives at a fixed offset inside a storage region, and
//! each core owns one region. At reset the populator fills both regions from the
//! link-time templates (initial bytes first, zero-initialised bytes after them);
//! afterwards the thread-pointer resolver hands each core the base address of
//! its own region.
pub mod layout;
pub mod populate;
pub mod resolver;
