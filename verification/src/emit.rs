//! The assembly emitter: reconstructs the sum type with each alternative's
//! payload replaced by its record type, and assembles the full replacement
//! declaration set — exactly one sum-type declaration and one record (with
//! its conversions) per alternative, or an abort with no partial output.

use vstd::prelude::*;
use crate::ast::{
    AlternativeDecl, ConfigEntry, FieldDecl, FieldsShape, SpecAlternativeDecl, SpecConfigEntry,
    SpecFieldDecl, SpecFieldsShape, SpecSumTypeDecl, SpecTransformOutput, SumTypeDecl,
    TransformError, TransformOutput, Visibility,
};
use crate::classify::{classify, spec_classify, Classified, SpecClassified};
use crate::naming::{record_ident, record_path, spec_record_ident, spec_record_path};
use crate::synthesize::{
    clone_strings, conversions, spec_conversions, spec_synthesize, synthesize,
};

verus! {

/// One alternative as it stands in the rebuilt sum type: the same name, no
/// annotations of its own (those moved onto its record), and a single
/// positional field holding the record type, qualified by the namespace when
/// one was set.
pub open spec fn spec_rebuilt_alternative(
    c: SpecClassified,
    sum_name: Seq<char>,
    alt: SpecAlternativeDecl,
) -> SpecAlternativeDecl {
    SpecAlternativeDecl {
        name: alt.name,
        attrs: Seq::empty(),
        fields: SpecFieldsShape::Unnamed(
            seq![
                SpecFieldDecl {
                    vis: Visibility::Private,
                    name: None,
                    ty: spec_record_path(
                        c.config.module,
                        spec_record_ident(sum_name, c.config.prefix, c.config.module, alt.name),
                    ),
                }
            ],
        ),
    }
}

/// The rebuilt sum type: original visibility, name and top-level annotations,
/// alternatives in their original order, each wrapping its record type.
pub open spec fn spec_rebuilt_sum(c: SpecClassified, decl: SpecSumTypeDecl) -> SpecSumTypeDecl {
    SpecSumTypeDecl {
        vis: decl.vis,
        name: decl.name,
        attrs: decl.attrs,
        alternatives: decl.alternatives.map(
            |i: int, a: SpecAlternativeDecl| spec_rebuilt_alternative(c, decl.name, a),
        ),
    }
}

/// The whole transformation: classify the configuration, synthesize one
/// record per alternative, and assemble the replacement declaration set.
/// The first malformed directive or derived name aborts everything.
pub open spec fn spec_transform(args: Seq<SpecConfigEntry>, decl: SpecSumTypeDecl) -> Result<
    SpecTransformOutput,
    TransformError,
> {
    match spec_classify(args) {
        Err(e) => Err(e),
        Ok(c) => match spec_synthesize(c, decl.name, decl.alternatives) {
            Err(e) => Err(e),
            Ok(records) => Ok(
                SpecTransformOutput {
                    sum_type: spec_rebuilt_sum(c, decl),
                    module: c.config.module,
                    records,
                    conversions: spec_conversions(c, decl.name, decl.alternatives),
                },
            ),
        },
    }
}

/// Builds the rebuilt form of one alternative.
fn rebuilt_alternative(c: &Classified, sum_name: &String, alt: &AlternativeDecl) -> (r:
    AlternativeDecl)
    ensures
        r.deep_view() == spec_rebuilt_alternative(c.deep_view(), sum_name@, alt.deep_view()),
{
    let name = record_ident(sum_name, &c.config.prefix, &c.config.module, &alt.name);
    let ty = record_path(&c.config.module, &name);
    let mut payload: Vec<FieldDecl> = Vec::new();
    payload.push(FieldDecl { vis: Visibility::Private, name: None, ty });
    let r = AlternativeDecl {
        name: alt.name.clone(),
        attrs: Vec::new(),
        fields: FieldsShape::Unnamed(payload),
    };
    proof {
        assert(r.attrs.deep_view() =~= Seq::<Seq<char>>::empty());
        assert(r.fields.deep_view() =~~= spec_rebuilt_alternative(
            c.deep_view(),
            sum_name@,
            alt.deep_view(),
        ).fields);
        assert(r.deep_view() =~~= spec_rebuilt_alternative(c.deep_view(), sum_name@, alt.deep_view()));
    }
    r
}

/// Reconstructs the sum type over the generated records.
pub fn rebuilt_sum(c: &Classified, decl: &SumTypeDecl) -> (r: SumTypeDecl)
    ensures
        r.deep_view() == spec_rebuilt_sum(c.deep_view(), decl.deep_view()),
{
    let ghost alts = decl.alternatives.deep_view();
    let ghost cv = c.deep_view();
    let ghost nm = decl.name@;
    let ghost goal = spec_rebuilt_sum(cv, decl.deep_view()).alternatives;
    let mut out: Vec<AlternativeDecl> = Vec::new();
    let mut i: usize = 0;
    while i < decl.alternatives.len()
        invariant
            i <= decl.alternatives.len(),
            alts == decl.alternatives.deep_view(),
            cv == c.deep_view(),
            nm == decl.name@,
            alts.len() == decl.alternatives.len(),
            goal == spec_rebuilt_sum(cv, decl.deep_view()).alternatives,
            goal.len() == alts.len(),
            out@.len() == i,
            forall|j: int| 0 <= j < i ==> out.deep_view()[j] == goal[j],
        decreases decl.alternatives.len() - i,
    {
        let alt = &decl.alternatives[i];
        let ghost pre = out.deep_view();
        out.push(rebuilt_alternative(c, &decl.name, alt));
        proof {
            assert(out.deep_view()[i as int] == spec_rebuilt_alternative(cv, nm, alt.deep_view()));
            assert(goal[i as int] == spec_rebuilt_alternative(cv, nm, alts[i as int]));
            assert forall|j: int| 0 <= j < i implies out.deep_view()[j] == goal[j] by {
                assert(out.deep_view()[j] == pre[j]);
            }
        }
        i = i + 1;
    }
    let r = SumTypeDecl {
        vis: decl.vis,
        name: decl.name.clone(),
        attrs: clone_strings(&decl.attrs),
        alternatives: out,
    };
    proof {
        assert(r.alternatives.deep_view() =~= goal);
        assert(r.deep_view() =~~= spec_rebuilt_sum(cv, decl.deep_view()));
    }
    r
}

/// Transforms one sum-type declaration under its configuration entries into
/// the replacement declaration set: the rebuilt sum type, one public record
/// per alternative (fields forced public, own annotations kept, opaque
/// directives forwarded identically to each), the conversion set of every
/// record, and the namespace the records live in when a `module` directive
/// was given.  Aborts, with no partial output, exactly on a malformed
/// `impl_into_parent` path or variant, a malformed `module` name, or — with
/// no `module` — a derived record identifier the host language refuses.
pub fn first_class_variants(args: &Vec<ConfigEntry>, decl: &SumTypeDecl) -> (r: Result<
    TransformOutput,
    TransformError,
>)
    ensures
        (r matches Ok(out) ==> spec_transform(args.deep_view(), decl.deep_view()) == Ok::<
            SpecTransformOutput,
            TransformError,
        >(out.deep_view())),
        (r matches Err(e) ==> spec_transform(args.deep_view(), decl.deep_view()) == Err::<
            SpecTransformOutput,
            TransformError,
        >(e)),
{
    let c = match classify(args) {
        Ok(c) => c,
        Err(e) => {
            return Err(e);
        },
    };
    let records = match synthesize(&c, decl) {
        Ok(rs) => rs,
        Err(e) => {
            return Err(e);
        },
    };
    let convs = conversions(&c, decl);
    let sum_type = rebuilt_sum(&c, decl);
    let module = match &c.config.module {
        Some(m) => Some(m.clone()),
        None => None,
    };
    let out = TransformOutput { sum_type, module, records, conversions: convs };
    proof {
        assert(out.deep_view() =~~= spec_transform(args.deep_view(), decl.deep_view())->Ok_0);
    }
    Ok(out)
}

} // verus!
