//! A small filesystem-layout manager: it derives deterministic directory
//! paths from a naming scheme plus an optional numeric partition index, and
//! plans the creation and enumeration of those paths.
//!
//! The path derivation, the handle and catalog types, and the error taxonomy
//! are verified; the actual filesystem calls are performed by a thin shell
//! around this crate, which hands plain values back in.

pub mod errors;
pub mod fsops;
pub mod scheme;
