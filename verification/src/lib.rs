//! Compile-time transformation that turns each alternative of a sum-type
//! declaration into a standalone public record type, together with lossless
//! conversions between each record and the sum type.
//!
//! The transformation itself is a pure function from an abstract-syntax
//! description of the declaration (plus its configuration entries) to the
//! replacement declaration set; it is specified and verified here.  Turning
//! host-language token streams into that description and back is left to a
//! thin unverified layer around this library.

pub mod ast;
pub mod paths;
pub mod naming;
pub mod classify;
pub mod synthesize;
pub mod emit;
pub mod semantics;
pub mod laws;
