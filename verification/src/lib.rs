//! An ownership-transfer protocol for values crossing a foreign-function
//! boundary.
//!
//! Heap-allocated values (null-terminated text and raw byte buffers) are
//! handed to a foreign caller as opaque handles and reclaimed exactly once
//! through a matching release entry point.  Pointers supplied *by* the
//! caller are turned into validated, read-only views without taking
//! ownership.  This crate holds the verified decision logic of that
//! protocol: nullability dispatch, encoding validation, and the laws that
//! make the handoff memory-safe.  The raw pointer manipulation itself is
//! left to a thin unverified shim around the library.

pub mod borrow;
pub mod encoding;
pub mod release;

pub use borrow::{try_borrow_raw, try_borrow_text, CallerPtr};
pub use encoding::validate_utf8;
pub use release::{release_bytes, release_text, HandleShape, ReleaseAction};
