//! Laws of the transformation, proved for every configuration and every
//! declaration: how each generated record is characterized pointwise, that
//! every record field is public, how records are named with and without a
//! `module` directive, that opaque directives are forwarded identically to
//! every record, and that a configured parent link puts the one-hop parent
//! conversion beside every record.

use vstd::prelude::*;
use crate::ast::{
    SpecAlternativeDecl, SpecConfigEntry, SpecFieldsShape, SpecParentLink, SpecRecordDecl,
    SpecResolvedParent, SpecSumTypeDecl, Visibility,
};
use crate::classify::{spec_classify, spec_classify_from, SpecClassified};
use crate::emit::{spec_rebuilt_sum, spec_transform};
use crate::synthesize::{
    spec_conversion_for, spec_make_pub, spec_record_for, spec_synthesize_from,
};

verus! {

/// Whether classification forwards this entry: every entry that is not a
/// `key = value` pair with one of the three recognized keys.
pub open spec fn spec_entry_forwarded(e: SpecConfigEntry) -> bool {
    match e {
        SpecConfigEntry::NameValue { key, value: _ } => key != "module"@ && key != "prefix"@ && key
            != "impl_into_parent"@,
        SpecConfigEntry::Other(_) => true,
    }
}

/// The subsequence of entries that classification forwards, in their
/// original order.
pub open spec fn spec_forwarded_entries(entries: Seq<SpecConfigEntry>) -> Seq<SpecConfigEntry> {
    entries.filter(|e: SpecConfigEntry| spec_entry_forwarded(e))
}

proof fn lemma_classify_from_forwarded(c: SpecClassified, entries: Seq<SpecConfigEntry>)
    requires
        spec_classify_from(c, entries) is Ok,
    ensures
        spec_classify_from(c, entries)->Ok_0.forwarded == c.forwarded + spec_forwarded_entries(
            entries,
        ),
    decreases entries.len(),
{
    reveal_with_fuel(Seq::<SpecConfigEntry>::filter, 2);
    let pred = |e: SpecConfigEntry| spec_entry_forwarded(e);
    if entries.len() == 0 {
        assert(entries.filter(pred) =~= Seq::<SpecConfigEntry>::empty());
        assert(c.forwarded + Seq::<SpecConfigEntry>::empty() =~= c.forwarded);
    } else {
        let e = entries[0];
        let rest = entries.drop_first();
        let c2 = crate::classify::spec_classify_step(c, e)->Ok_0;
        lemma_classify_from_forwarded(c2, rest);
        assert(entries =~= seq![e] + rest);
        Seq::<SpecConfigEntry>::filter_distributes_over_add(seq![e], rest, pred);
        assert(seq![e].drop_last() =~= Seq::<SpecConfigEntry>::empty());
        if spec_entry_forwarded(e) {
            assert(seq![e].filter(pred) =~= seq![e]);
            assert(c2.forwarded =~= c.forwarded + seq![e]);
        } else {
            assert(seq![e].filter(pred) =~= Seq::<SpecConfigEntry>::empty());
            assert(c2.forwarded == c.forwarded);
        }
        assert(c.forwarded + (seq![e].filter(pred) + rest.filter(pred)) =~= (c.forwarded
            + seq![e].filter(pred)) + rest.filter(pred));
    }
}

/// Partition law: the classifier's forwarded list is exactly the subsequence
/// of configuration entries that no recognized directive consumed, in their
/// original order; no entry is ever both consumed and forwarded.
pub proof fn lemma_classifier_partition(entries: Seq<SpecConfigEntry>)
    requires
        spec_classify(entries) is Ok,
    ensures
        spec_classify(entries)->Ok_0.forwarded == spec_forwarded_entries(entries),
{
    lemma_classify_from_forwarded(crate::classify::spec_empty_classified(), entries);
    assert(Seq::<SpecConfigEntry>::empty() + spec_forwarded_entries(entries)
        =~= spec_forwarded_entries(entries));
}

/// Every field of this payload shape is public.
pub open spec fn spec_all_fields_public(shape: SpecFieldsShape) -> bool {
    match shape {
        SpecFieldsShape::Named(fs) => forall|j: int|
            0 <= j < fs.len() ==> (#[trigger] fs[j].vis) == Visibility::Public,
        SpecFieldsShape::Unnamed(fs) => forall|j: int|
            0 <= j < fs.len() ==> (#[trigger] fs[j].vis) == Visibility::Public,
        SpecFieldsShape::Unit => true,
    }
}

proof fn lemma_synthesize_from_pointwise(
    c: SpecClassified,
    sum_name: Seq<char>,
    done: Seq<SpecRecordDecl>,
    alts: Seq<SpecAlternativeDecl>,
)
    requires
        spec_synthesize_from(c, sum_name, done, alts) is Ok,
    ensures
        ({
            let rs = spec_synthesize_from(c, sum_name, done, alts)->Ok_0;
            &&& rs.len() == done.len() + alts.len()
            &&& forall|j: int| 0 <= j < done.len() ==> rs[j] == done[j]
            &&& forall|j: int|
                0 <= j < alts.len() ==> rs[done.len() + j] == spec_record_for(
                    c,
                    sum_name,
                    #[trigger] alts[j],
                )
        }),
    decreases alts.len(),
{
    if alts.len() == 0 {
    } else {
        let rec = spec_record_for(c, sum_name, alts[0]);
        lemma_synthesize_from_pointwise(c, sum_name, done.push(rec), alts.drop_first());
        let rs = spec_synthesize_from(c, sum_name, done, alts)->Ok_0;
        assert forall|j: int| 0 <= j < alts.len() implies rs[done.len() + j] == spec_record_for(
            c,
            sum_name,
            #[trigger] alts[j],
        ) by {
            if j == 0 {
                assert(rs[done.len() as int] == done.push(rec)[done.len() as int]);
            } else {
                assert(alts.drop_first()[j - 1] == alts[j]);
                assert(rs[done.push(rec).len() + (j - 1)] == spec_record_for(
                    c,
                    sum_name,
                    alts.drop_first()[j - 1],
                ));
            }
        }
    }
}

/// Pointwise characterization of a successful transformation: exactly one
/// record and one conversion set per alternative, in declaration order, each
/// determined by [`spec_record_for`] and [`spec_conversion_for`]; the rebuilt
/// sum type is [`spec_rebuilt_sum`], and the namespace is the classified
/// `module` directive.
pub proof fn lemma_transform_characterized(args: Seq<SpecConfigEntry>, decl: SpecSumTypeDecl)
    requires
        spec_transform(args, decl) is Ok,
    ensures
        ({
            let out = spec_transform(args, decl)->Ok_0;
            let c = spec_classify(args)->Ok_0;
            &&& spec_classify(args) is Ok
            &&& out.records.len() == decl.alternatives.len()
            &&& forall|i: int|
                0 <= i < decl.alternatives.len() ==> out.records[i] == spec_record_for(
                    c,
                    decl.name,
                    #[trigger] decl.alternatives[i],
                )
            &&& out.conversions.len() == decl.alternatives.len()
            &&& forall|i: int|
                0 <= i < decl.alternatives.len() ==> out.conversions[i] == spec_conversion_for(
                    c,
                    decl.name,
                    #[trigger] decl.alternatives[i],
                )
            &&& out.module == c.config.module
            &&& out.sum_type == spec_rebuilt_sum(c, decl)
        }),
{
    let c = spec_classify(args)->Ok_0;
    lemma_synthesize_from_pointwise(c, decl.name, Seq::empty(), decl.alternatives);
}

/// Field-visibility law: every field of every generated record is publicly
/// visible, whatever visibility the originating field declared.
pub proof fn lemma_fields_public(args: Seq<SpecConfigEntry>, decl: SpecSumTypeDecl)
    requires
        spec_transform(args, decl) is Ok,
    ensures
        forall|i: int|
            0 <= i < spec_transform(args, decl)->Ok_0.records.len() ==> spec_all_fields_public(
                (#[trigger] spec_transform(args, decl)->Ok_0.records[i]).fields,
            ),
{
    lemma_transform_characterized(args, decl);
    let out = spec_transform(args, decl)->Ok_0;
    let c = spec_classify(args)->Ok_0;
    assert forall|i: int| 0 <= i < out.records.len() implies spec_all_fields_public(
        (#[trigger] out.records[i]).fields,
    ) by {
        let alt = decl.alternatives[i];
        assert(out.records[i] == spec_record_for(c, decl.name, alt));
        match alt.fields {
            SpecFieldsShape::Named(fs) => {
                assert(out.records[i].fields == SpecFieldsShape::Named(spec_make_pub(fs)));
                assert(forall|j: int|
                    0 <= j < fs.len() ==> (#[trigger] spec_make_pub(fs)[j]).vis
                        == Visibility::Public);
            },
            SpecFieldsShape::Unnamed(fs) => {
                assert(out.records[i].fields == SpecFieldsShape::Unnamed(spec_make_pub(fs)));
                assert(forall|j: int|
                    0 <= j < fs.len() ==> (#[trigger] spec_make_pub(fs)[j]).vis
                        == Visibility::Public);
            },
            SpecFieldsShape::Unit => {},
        }
    }
}

/// Naming law without a module: each record is named by the custom prefix —
/// or, in its absence, the sum type's own name — concatenated with the
/// alternative name, in that order, with no separator.
pub proof fn lemma_naming_no_module(args: Seq<SpecConfigEntry>, decl: SpecSumTypeDecl)
    requires
        spec_transform(args, decl) is Ok,
        spec_classify(args)->Ok_0.config.module is None,
    ensures
        spec_transform(args, decl)->Ok_0.module is None,
        forall|i: int|
            0 <= i < decl.alternatives.len() ==> spec_transform(args, decl)->Ok_0.records[i].name
                == (match spec_classify(args)->Ok_0.config.prefix {
                Some(p) => p,
                None => decl.name,
            }) + (#[trigger] decl.alternatives[i]).name,
{
    lemma_transform_characterized(args, decl);
}

/// Naming law with a module: each record keeps the bare alternative name and
/// is reachable only through the generated namespace, under the
/// module-qualified path.
pub proof fn lemma_naming_with_module(args: Seq<SpecConfigEntry>, decl: SpecSumTypeDecl, m: Seq<char>)
    requires
        spec_transform(args, decl) is Ok,
        spec_classify(args)->Ok_0.config.module == Some(m),
    ensures
        spec_transform(args, decl)->Ok_0.module == Some(m),
        forall|i: int|
            0 <= i < decl.alternatives.len() ==> spec_transform(args, decl)->Ok_0.records[i].name
                == (#[trigger] decl.alternatives[i]).name,
        forall|i: int|
            0 <= i < decl.alternatives.len() ==> spec_transform(
                args,
                decl,
            )->Ok_0.conversions[i].record_path == m + "::"@ + (#[trigger] decl.alternatives[i]).name,
{
    lemma_transform_characterized(args, decl);
}

/// Forwarding law: the opaque directives appear identically, in their
/// original order, on every generated record, and each record also keeps its
/// own alternative's annotations unchanged.
pub proof fn lemma_forwarding(args: Seq<SpecConfigEntry>, decl: SpecSumTypeDecl)
    requires
        spec_transform(args, decl) is Ok,
    ensures
        forall|i: int|
            0 <= i < decl.alternatives.len() ==> spec_transform(args, decl)->Ok_0.records[i].forwarded
                == spec_classify(args)->Ok_0.forwarded && spec_transform(
                args,
                decl,
            )->Ok_0.records[i].attrs == (#[trigger] decl.alternatives[i]).attrs,
{
    lemma_transform_characterized(args, decl);
}

/// Parent-link law: when a parent link was configured, every record's
/// conversion set carries the one-hop conversion into the parent type,
/// wrapped into the explicitly named parent alternative or, when only a bare
/// type path was given, into the alternative named like the sum type itself.
pub proof fn lemma_parent_link(args: Seq<SpecConfigEntry>, decl: SpecSumTypeDecl, p: SpecParentLink)
    requires
        spec_transform(args, decl) is Ok,
        spec_classify(args)->Ok_0.config.parent == Some(p),
    ensures
        forall|i: int|
            0 <= i < decl.alternatives.len() ==> (#[trigger] spec_transform(
                args,
                decl,
            )->Ok_0.conversions[i]).parent == Some(
                SpecResolvedParent {
                    path: p.path,
                    variant: match p.variant {
                        Some(v) => v,
                        None => decl.name,
                    },
                },
            ),
{
    lemma_transform_characterized(args, decl);
}

} // verus!
