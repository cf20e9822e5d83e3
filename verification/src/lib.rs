//! Safety-oriented wrapper types for a hardware-offload SDK reached over a C
//! ABI: status-code translation, device enumeration lists, an exclusively
//! owned device handle, and a type-state-guarded memory-map resource.
//!
//! The native entry points themselves live outside this crate. Every function
//! here is the decision half of one native call: it takes the status code and
//! raw handle values the call produced as plain integers, enforces the
//! invariant that no handle is null after a reported success, and wraps the
//! values in owning types whose contracts pin down exactly what was kept.

pub mod device;
pub mod error;
pub mod mmap;
