//! Typed status handling for an NVML-style GPU management interface.
//!
//! The native driver interface reports success or failure as one value of a
//! closed integer alphabet. This crate models that alphabet as an enum,
//! translates each code into a closed error taxonomy, and provides the small
//! validation helpers (string capacity, bitflag masks, raw tag decoding) that
//! share the same taxonomy.

pub mod error;
pub mod text;
pub mod validate;
