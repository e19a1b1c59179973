//! Runtime meaning of the generated conversions.
//!
//! The generated code pairs each alternative with a record type and three
//! conversions (record into sum type; sum type into record, by value and by
//! reference), plus an optional one-hop conversion into a parent type.  This
//! module models the values those conversions move: a record value is tagged
//! with the index of the alternative whose record type it inhabits, and a
//! sum-type value is its active alternative's record value.  The conversions
//! are verified against this model, and the round-trip, mismatch and
//! parent-link laws are proved for all values.

use vstd::prelude::*;

verus! {

/// One field's value inside a record: an unsigned integer or a text value.
#[derive(PartialEq, Eq, Debug, Clone)]
pub enum FieldValue {
    UInt(u64),
    Text(String),
}

/// A value of one generated record type, tagged with the index of the
/// alternative the record was generated for.
#[derive(PartialEq, Eq, Debug, Clone)]
pub struct RecordValue {
    pub alt: usize,
    pub fields: Vec<FieldValue>,
}

/// A value of the rebuilt sum type: the record value of its active
/// alternative (the active alternative is `payload.alt`).
#[derive(PartialEq, Eq, Debug, Clone)]
pub struct SumValue {
    pub payload: RecordValue,
}

/// A value of a parent sum type holding the transformed sum type inside the
/// alternative named by the parent link.
#[derive(PartialEq, Eq, Debug, Clone)]
pub struct ParentValue {
    pub variant: String,
    pub payload: SumValue,
}

/// The forward conversion: wrapping a record value into the sum type always
/// succeeds and keeps the value.
pub open spec fn spec_forward(v: RecordValue) -> SumValue {
    SumValue { payload: v }
}

/// The reverse conversion targeting alternative `alt`: it yields the record
/// value exactly when `alt` is the active alternative, else the unit failure.
pub open spec fn spec_reverse(s: SumValue, alt: usize) -> Result<RecordValue, ()> {
    if s.payload.alt == alt {
        Ok(s.payload)
    } else {
        Err(())
    }
}

/// Wrapping a sum-type value into the parent's designated alternative.
pub open spec fn spec_wrap_into_parent(s: SumValue, parent_variant: String) -> ParentValue {
    ParentValue { variant: parent_variant, payload: s }
}

/// The one-hop conversion into the parent type.
pub open spec fn spec_into_parent(v: RecordValue, parent_variant: String) -> ParentValue {
    spec_wrap_into_parent(spec_forward(v), parent_variant)
}

/// Converts a record value into the sum type; this is the conversion the
/// synthesizer emits beside every record, and it never fails.
pub fn record_into_sum(v: RecordValue) -> (s: SumValue)
    ensures
        s == spec_forward(v),
{
    SumValue { payload: v }
}

/// Converts a sum-type value into the record of alternative `alt`, by value:
/// the record comes back exactly when `alt` is the active alternative, else
/// the unit failure, and nothing else ever happens.
pub fn sum_try_into_record(s: SumValue, alt: usize) -> (r: Result<RecordValue, ()>)
    ensures
        r == spec_reverse(s, alt),
{
    if s.payload.alt == alt {
        Ok(s.payload)
    } else {
        Err(())
    }
}

/// Converts by reference: the same semantics as the by-value reverse
/// conversion, returning a reference tied to the input's lifetime.
pub fn sum_try_into_record_ref<'a>(s: &'a SumValue, alt: usize) -> (r: Result<
    &'a RecordValue,
    (),
>)
    ensures
        (r matches Ok(p) ==> s.payload.alt == alt && *p == s.payload),
        (r matches Err(e) ==> s.payload.alt != alt),
{
    if s.payload.alt == alt {
        Ok(&s.payload)
    } else {
        Err(())
    }
}

/// Converts a record value straight into the parent type: the sum-type value
/// made by the forward conversion, wrapped into the parent alternative named
/// by the link.
pub fn record_into_parent(v: RecordValue, parent_variant: &String) -> (p: ParentValue)
    ensures
        p == spec_into_parent(v, *parent_variant),
{
    let s = record_into_sum(v);
    ParentValue { variant: parent_variant.clone(), payload: s }
}

/// Round-trip law: reverse-converting the sum-type value made from any
/// record value, at that value's own alternative, yields the value again.
pub proof fn lemma_round_trip(v: RecordValue)
    ensures
        spec_reverse(spec_forward(v), v.alt) == Ok::<RecordValue, ()>(v),
{
}

/// Mismatch law: the reverse conversion targeting any other alternative than
/// the active one fails with the unit failure.
pub proof fn lemma_mismatch(v: RecordValue, other: usize)
    requires
        other != v.alt,
    ensures
        spec_reverse(spec_forward(v), other) == Err::<RecordValue, ()>(()),
{
}

/// Parent-link law: the direct conversion from a record value into the
/// parent type is exactly the forward conversion into the sum type followed
/// by wrapping that value into the parent's designated alternative.
pub proof fn lemma_parent_link_composes(v: RecordValue, parent_variant: String)
    ensures
        spec_into_parent(v, parent_variant) == spec_wrap_into_parent(
            spec_forward(v),
            parent_variant,
        ),
        spec_reverse(spec_into_parent(v, parent_variant).payload, v.alt) == Ok::<RecordValue, ()>(
            v,
        ),
{
}

} // verus!
