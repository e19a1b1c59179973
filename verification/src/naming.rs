//! The name deriver: computes the identifier of each generated record.
//!
//! With a `module` directive the record keeps the bare alternative name (it
//! lives in its own namespace); without one it is the custom prefix — or,
//! by default, the sum type's own name — concatenated with the alternative
//! name, with no separator.

use vstd::prelude::*;
use vstd::string::StringExecFns;

verus! {

/// The identifier of the record generated for one alternative.
pub open spec fn spec_record_ident(
    sum_name: Seq<char>,
    prefix: Option<Seq<char>>,
    module: Option<Seq<char>>,
    alt_name: Seq<char>,
) -> Seq<char> {
    if module is Some {
        alt_name
    } else {
        (match prefix {
            Some(p) => p,
            None => sum_name,
        }) + alt_name
    }
}

/// Derives the record identifier for one alternative.  Pure and
/// deterministic: the result is exactly [`spec_record_ident`] of the inputs.
pub fn record_ident(
    sum_name: &String,
    prefix: &Option<String>,
    module: &Option<String>,
    alt_name: &String,
) -> (r: String)
    ensures
        r@ == spec_record_ident(sum_name@, prefix.deep_view(), module.deep_view(), alt_name@),
{
    if module.is_some() {
        alt_name.clone()
    } else {
        let base: String = match prefix {
            Some(p) => p.clone(),
            None => sum_name.clone(),
        };
        base.concat(alt_name.as_str())
    }
}

/// The possibly module-qualified path under which a record is reachable.
pub open spec fn spec_record_path(module: Option<Seq<char>>, name: Seq<char>) -> Seq<char> {
    match module {
        Some(m) => m + "::"@ + name,
        None => name,
    }
}

/// Builds the path under which the record named `name` is reachable from the
/// scope of the sum type.
pub fn record_path(module: &Option<String>, name: &String) -> (r: String)
    ensures
        r@ == spec_record_path(module.deep_view(), name@),
{
    match module {
        Some(m) => m.clone().concat("::").concat(name.as_str()),
        None => name.clone(),
    }
}

/// Whether the record declaration for this payload shape needs a trailing
/// terminator (the positional and field-less shapes do; the named-field
/// shape does not).
pub open spec fn spec_needs_terminator(fields: crate::ast::SpecFieldsShape) -> bool {
    !(fields is Named)
}

/// Says whether a generated record of this shape must end in a terminator.
pub fn record_needs_terminator(fields: &crate::ast::FieldsShape) -> (r: bool)
    ensures
        r == spec_needs_terminator(fields.deep_view()),
{
    match fields {
        crate::ast::FieldsShape::Named(_) => false,
        crate::ast::FieldsShape::Unnamed(_) => true,
        crate::ast::FieldsShape::Unit => true,
    }
}

} // verus!
