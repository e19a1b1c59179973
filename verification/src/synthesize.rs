//! The record synthesizer: one public record declaration per alternative,
//! with every field's visibility forced to public, the alternative's own
//! annotations kept, and the forwarded opaque directives attached to every
//! record; plus the description of the conversion set each record gets.

use vstd::prelude::*;
use crate::ast::{
    AlternativeDecl, ConfigEntry, ConversionSpec, FieldDecl, FieldsShape, RecordDecl,
    ResolvedParent, SpecAlternativeDecl, SpecConversion, SpecFieldDecl, SpecFieldsShape,
    SpecRecordDecl, SpecResolvedParent, SumTypeDecl, TransformError, Visibility,
};
use crate::classify::{clone_entry, Classified, SpecClassified};
use crate::naming::{record_ident, record_path, spec_record_ident, spec_record_path};
use crate::paths::{ident_parses, is_ident};

verus! {

/// The same fields with every visibility forced to public.
pub open spec fn spec_make_pub(fields: Seq<SpecFieldDecl>) -> Seq<SpecFieldDecl> {
    fields.map(
        |i: int, f: SpecFieldDecl|
            SpecFieldDecl { vis: Visibility::Public, name: f.name, ty: f.ty },
    )
}

/// The same payload shape with every field made public.
pub open spec fn spec_pub_shape(fields: SpecFieldsShape) -> SpecFieldsShape {
    match fields {
        SpecFieldsShape::Named(fs) => SpecFieldsShape::Named(spec_make_pub(fs)),
        SpecFieldsShape::Unnamed(fs) => SpecFieldsShape::Unnamed(spec_make_pub(fs)),
        SpecFieldsShape::Unit => SpecFieldsShape::Unit,
    }
}

/// The record generated for one alternative: the forwarded directives, the
/// alternative's own annotations, the derived identifier, and the field list
/// made public.
pub open spec fn spec_record_for(
    c: SpecClassified,
    sum_name: Seq<char>,
    alt: SpecAlternativeDecl,
) -> SpecRecordDecl {
    SpecRecordDecl {
        forwarded: c.forwarded,
        attrs: alt.attrs,
        name: spec_record_ident(sum_name, c.config.prefix, c.config.module, alt.name),
        fields: spec_pub_shape(alt.fields),
    }
}

/// Record synthesis folded over the alternatives from the given prefix of
/// finished records.  Without a `module` directive a derived identifier that
/// is not a well-formed identifier aborts the synthesis.
pub open spec fn spec_synthesize_from(
    c: SpecClassified,
    sum_name: Seq<char>,
    done: Seq<SpecRecordDecl>,
    alts: Seq<SpecAlternativeDecl>,
) -> Result<Seq<SpecRecordDecl>, TransformError>
    decreases alts.len(),
{
    if alts.len() == 0 {
        Ok(done)
    } else {
        let rec = spec_record_for(c, sum_name, alts[0]);
        if c.config.module is None && !is_ident(rec.name) {
            Err(TransformError::MalformedRecordName)
        } else {
            spec_synthesize_from(c, sum_name, done.push(rec), alts.drop_first())
        }
    }
}

/// Record synthesis for all alternatives, in declaration order.
pub open spec fn spec_synthesize(
    c: SpecClassified,
    sum_name: Seq<char>,
    alts: Seq<SpecAlternativeDecl>,
) -> Result<Seq<SpecRecordDecl>, TransformError> {
    spec_synthesize_from(c, sum_name, Seq::empty(), alts)
}

/// The conversion set generated beside one record: record into sum type,
/// sum type into record by value and by reference, and — when a parent link
/// was configured — record straight into the parent type, wrapped into the
/// explicitly named parent alternative or, by default, into the one named
/// like the sum type itself.
pub open spec fn spec_conversion_for(
    c: SpecClassified,
    sum_name: Seq<char>,
    alt: SpecAlternativeDecl,
) -> SpecConversion {
    let name = spec_record_ident(sum_name, c.config.prefix, c.config.module, alt.name);
    SpecConversion {
        record: name,
        record_path: spec_record_path(c.config.module, name),
        sum_type: sum_name,
        variant: alt.name,
        parent: match c.config.parent {
            Some(p) => Some(
                SpecResolvedParent {
                    path: p.path,
                    variant: match p.variant {
                        Some(v) => v,
                        None => sum_name,
                    },
                },
            ),
            None => None,
        },
    }
}

/// The conversion sets of all alternatives, in declaration order.
pub open spec fn spec_conversions(
    c: SpecClassified,
    sum_name: Seq<char>,
    alts: Seq<SpecAlternativeDecl>,
) -> Seq<SpecConversion> {
    alts.map(|i: int, a: SpecAlternativeDecl| spec_conversion_for(c, sum_name, a))
}

/// A copy of one field declaration, equal to the original.
fn clone_field(f: &FieldDecl) -> (r: FieldDecl)
    ensures
        r == *f,
{
    FieldDecl {
        vis: f.vis,
        name: match &f.name {
            Some(n) => Some(n.clone()),
            None => None,
        },
        ty: f.ty.clone(),
    }
}

/// A copy of a list of annotations, equal to the original.
pub fn clone_strings(v: &Vec<String>) -> (r: Vec<String>)
    ensures
        r@ == v@,
{
    let mut out: Vec<String> = Vec::new();
    let mut i: usize = 0;
    while i < v.len()
        invariant
            i <= v.len(),
            out@ =~= v@.take(i as int),
        decreases v.len() - i,
    {
        out.push(v[i].clone());
        proof {
            assert(out@ =~= v@.take(i + 1));
        }
        i = i + 1;
    }
    proof {
        assert(v@.take(v@.len() as int) =~= v@);
    }
    out
}

/// A copy of the forwarded directives, equal to the original.
pub fn clone_entries(v: &Vec<ConfigEntry>) -> (r: Vec<ConfigEntry>)
    ensures
        r@ == v@,
{
    let mut out: Vec<ConfigEntry> = Vec::new();
    let mut i: usize = 0;
    while i < v.len()
        invariant
            i <= v.len(),
            out@ =~= v@.take(i as int),
        decreases v.len() - i,
    {
        out.push(clone_entry(&v[i]));
        proof {
            assert(out@ =~= v@.take(i + 1));
        }
        i = i + 1;
    }
    proof {
        assert(v@.take(v@.len() as int) =~= v@);
    }
    out
}

/// Copies the field list with every field's visibility forced to public,
/// regardless of its declared visibility.
pub fn make_pub(fields: &Vec<FieldDecl>) -> (r: Vec<FieldDecl>)
    ensures
        r.deep_view() == spec_make_pub(fields.deep_view()),
{
    let mut out: Vec<FieldDecl> = Vec::new();
    let mut i: usize = 0;
    while i < fields.len()
        invariant
            i <= fields.len(),
            out.deep_view() =~= spec_make_pub(fields.deep_view().take(i as int)),
        decreases fields.len() - i,
    {
        let ghost pre = out.deep_view();
        let ghost fv = fields.deep_view();
        let f = clone_field(&fields[i]);
        proof {
            assert(f.deep_view() == fv[i as int]);
        }
        out.push(FieldDecl { vis: Visibility::Public, name: f.name, ty: f.ty });
        proof {
            assert(fv.take(i as int).len() == i);
            assert(pre.len() == i);
            assert(out.deep_view()[i as int] =~~= spec_make_pub(fv.take(i + 1))[i as int]);
            assert forall|j: int| 0 <= j < i implies out.deep_view()[j] == spec_make_pub(
                fv.take(i + 1),
            )[j] by {
                assert(out.deep_view()[j] == pre[j]);
                assert(fv.take(i + 1)[j] == fv.take(i as int)[j]);
                assert(spec_make_pub(fv.take(i + 1))[j] == spec_make_pub(fv.take(i as int))[j]);
            }
            assert(out.deep_view() =~~= spec_make_pub(fv.take(i + 1)));
        }
        i = i + 1;
    }
    proof {
        assert(fields.deep_view().take(fields@.len() as int) =~= fields.deep_view());
    }
    out
}

/// The payload shape of one generated record: the alternative's shape with
/// every field made public.
pub fn pub_shape(fields: &FieldsShape) -> (r: FieldsShape)
    ensures
        r.deep_view() == spec_pub_shape(fields.deep_view()),
{
    match fields {
        FieldsShape::Named(fs) => FieldsShape::Named(make_pub(fs)),
        FieldsShape::Unnamed(fs) => FieldsShape::Unnamed(make_pub(fs)),
        FieldsShape::Unit => FieldsShape::Unit,
    }
}

/// Builds the record declaration for one alternative.
pub fn record_for(c: &Classified, sum_name: &String, alt: &AlternativeDecl) -> (r: RecordDecl)
    ensures
        r.deep_view() == spec_record_for(c.deep_view(), sum_name@, alt.deep_view()),
{
    RecordDecl {
        forwarded: clone_entries(&c.forwarded),
        attrs: clone_strings(&alt.attrs),
        name: record_ident(sum_name, &c.config.prefix, &c.config.module, &alt.name),
        fields: pub_shape(&alt.fields),
    }
}

/// Builds every record, in declaration order; without a `module` directive a
/// derived identifier the host language would not accept aborts the whole
/// synthesis, with no partial output.
pub fn synthesize(c: &Classified, decl: &SumTypeDecl) -> (r: Result<Vec<RecordDecl>, TransformError>)
    ensures
        (r matches Ok(rs) ==> spec_synthesize(c.deep_view(), decl.name@, decl.alternatives.deep_view())
            == Ok::<Seq<SpecRecordDecl>, TransformError>(rs.deep_view())),
        (r matches Err(e) ==> spec_synthesize(c.deep_view(), decl.name@, decl.alternatives.deep_view())
            == Err::<Seq<SpecRecordDecl>, TransformError>(e)),
{
    let ghost alts = decl.alternatives.deep_view();
    let mut out: Vec<RecordDecl> = Vec::new();
    let mut i: usize = 0;
    proof {
        assert(alts.skip(0) =~= alts);
        assert(out.deep_view() =~= Seq::<SpecRecordDecl>::empty());
    }
    while i < decl.alternatives.len()
        invariant
            i <= decl.alternatives.len(),
            alts == decl.alternatives.deep_view(),
            alts.len() == decl.alternatives.len(),
            spec_synthesize(c.deep_view(), decl.name@, alts) == spec_synthesize_from(
                c.deep_view(),
                decl.name@,
                out.deep_view(),
                alts.skip(i as int),
            ),
        decreases decl.alternatives.len() - i,
    {
        let ghost done = out.deep_view();
        let alt = &decl.alternatives[i];
        proof {
            assert(alts.skip(i as int).len() > 0);
            assert(alts.skip(i as int)[0] == alt.deep_view());
            assert(alts.skip(i as int).drop_first() =~= alts.skip(i + 1));
        }
        let rec = record_for(c, &decl.name, alt);
        if c.config.module.is_none() && !ident_parses(rec.name.as_str()) {
            return Err(TransformError::MalformedRecordName);
        }
        out.push(rec);
        proof {
            assert(out.deep_view() =~= done.push(
                spec_record_for(c.deep_view(), decl.name@, alt.deep_view()),
            ));
        }
        i = i + 1;
    }
    proof {
        assert(alts.skip(i as int) =~= Seq::<SpecAlternativeDecl>::empty());
    }
    Ok(out)
}

/// Builds the conversion description for one alternative's record.
pub fn conversion_for(c: &Classified, sum_name: &String, alt: &AlternativeDecl) -> (r:
    ConversionSpec)
    ensures
        r.deep_view() == spec_conversion_for(c.deep_view(), sum_name@, alt.deep_view()),
{
    let name = record_ident(sum_name, &c.config.prefix, &c.config.module, &alt.name);
    let path = record_path(&c.config.module, &name);
    ConversionSpec {
        record: name,
        record_path: path,
        sum_type: sum_name.clone(),
        variant: alt.name.clone(),
        parent: match &c.config.parent {
            Some(p) => Some(
                ResolvedParent {
                    path: p.path.clone(),
                    variant: match &p.variant {
                        Some(v) => v.clone(),
                        None => sum_name.clone(),
                    },
                },
            ),
            None => None,
        },
    }
}

/// Builds the conversion descriptions of all alternatives, in order.
pub fn conversions(c: &Classified, decl: &SumTypeDecl) -> (r: Vec<ConversionSpec>)
    ensures
        r.deep_view() == spec_conversions(c.deep_view(), decl.name@, decl.alternatives.deep_view()),
{
    let ghost alts = decl.alternatives.deep_view();
    let mut out: Vec<ConversionSpec> = Vec::new();
    let mut i: usize = 0;
    while i < decl.alternatives.len()
        invariant
            i <= decl.alternatives.len(),
            alts == decl.alternatives.deep_view(),
            alts.len() == decl.alternatives.len(),
            out.deep_view() =~= spec_conversions(c.deep_view(), decl.name@, alts.take(i as int)),
        decreases decl.alternatives.len() - i,
    {
        let alt = &decl.alternatives[i];
        let ghost pre = out.deep_view();
        out.push(conversion_for(c, &decl.name, alt));
        proof {
            let ghost cv = c.deep_view();
            let ghost nm = decl.name@;
            assert(alts.take(i as int).len() == i);
            assert(pre.len() == i);
            assert(alts.take(i + 1)[i as int] == alt.deep_view());
            assert(spec_conversions(cv, nm, alts.take(i + 1))[i as int] == spec_conversion_for(
                cv,
                nm,
                alt.deep_view(),
            ));
            assert forall|j: int| 0 <= j < i implies out.deep_view()[j] == spec_conversions(
                cv,
                nm,
                alts.take(i + 1),
            )[j] by {
                assert(out.deep_view()[j] == pre[j]);
                assert(alts.take(i + 1)[j] == alts.take(i as int)[j]);
                assert(spec_conversions(cv, nm, alts.take(i + 1))[j] == spec_conversion_for(
                    cv,
                    nm,
                    alts.take(i + 1)[j],
                ));
                assert(spec_conversions(cv, nm, alts.take(i as int))[j] == spec_conversion_for(
                    cv,
                    nm,
                    alts.take(i as int)[j],
                ));
            }
            assert(out.deep_view() =~~= spec_conversions(cv, nm, alts.take(i + 1)));
        }
        i = i + 1;
    }
    proof {
        assert(alts.take(alts.len() as int) =~= alts);
    }
    out
}

} // verus!
