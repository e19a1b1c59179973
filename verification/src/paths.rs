//! Trusted boundary to the host language's own syntax rules.
//!
//! The transformation must decide whether the text of an `impl_into_parent`
//! directive is a well-formed type path, and whether a configured name is a
//! well-formed identifier.  Both judgements are the host language's, not this
//! library's: they are obtained from `syn` and named here by uninterpreted
//! spec functions, so that every contract downstream can say exactly on which
//! inputs the transformation aborts.

use vstd::prelude::*;

verus! {

/// Whether the host language accepts this text as a type path.
pub uninterp spec fn is_type_path(s: Seq<char>) -> bool;

/// Whether the host language accepts this text as a lone identifier.
pub uninterp spec fn is_ident(s: Seq<char>) -> bool;

/// Relies on `syn::parse_str::<syn::Path>`: whether a string parses as a type
/// path is a deterministic function of its characters alone.
#[verifier::external_body]
pub(crate) fn path_parses(s: &str) -> (r: bool)
    ensures
        r == is_type_path(s@),
{
    syn::parse_str::<syn::Path>(s).is_ok()
}

/// Relies on `syn::parse_str::<syn::Ident>`: whether a string parses as one
/// identifier (keywords excluded) is a deterministic function of its
/// characters alone.
#[verifier::external_body]
pub(crate) fn ident_parses(s: &str) -> (r: bool)
    ensures
        r == is_ident(s@),
{
    syn::parse_str::<syn::Ident>(s).is_ok()
}

} // verus!
