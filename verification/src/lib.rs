//! Validation of bundles of precompiled grammars.
//!
//! A build step produces, per target platform, one static archive holding many
//! compiled grammars together with a JSON sidecar listing them. This crate
//! holds the logic that checks such a bundle: locating the archive for a
//! target, loading and filtering the sidecar metadata, deriving the foreign
//! entry-point symbol for each grammar, generating the binding source that the
//! validator binary is compiled against, and judging each grammar healthy or
//! broken at run time.

pub mod errors;
pub mod strutil;
pub mod platform;
pub mod metadata;
pub mod sidecar;
pub mod symbols;
pub mod bindings;
pub mod registry;
pub mod engine;
pub mod harness;
