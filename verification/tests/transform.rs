use first_class_variants::ast::{
    AlternativeDecl, ConfigEntry, ConfigValue, FieldDecl, FieldsShape, SumTypeDecl,
    TransformError, Visibility,
};
use first_class_variants::emit::first_class_variants;
use first_class_variants::naming::record_needs_terminator;
use first_class_variants::synthesize::make_pub;

fn simple_decl() -> SumTypeDecl {
    SumTypeDecl {
        vis: Visibility::Public,
        name: "Foo".to_string(),
        attrs: vec!["derive(Debug)".to_string()],
        alternatives: vec![
            AlternativeDecl {
                name: "Bar".to_string(),
                attrs: vec!["doc = \"the bar case\"".to_string()],
                fields: FieldsShape::Unnamed(vec![FieldDecl {
                    vis: Visibility::Private,
                    name: None,
                    ty: "u8".to_string(),
                }]),
            },
            AlternativeDecl {
                name: "Spam".to_string(),
                attrs: vec![],
                fields: FieldsShape::Named(vec![
                    FieldDecl {
                        vis: Visibility::Private,
                        name: Some("ham".to_string()),
                        ty: "u16".to_string(),
                    },
                    FieldDecl {
                        vis: Visibility::Public,
                        name: Some("eggs".to_string()),
                        ty: "u32".to_string(),
                    },
                ]),
            },
        ],
    }
}

fn kv(key: &str, value: &str) -> ConfigEntry {
    ConfigEntry::NameValue {
        key: key.to_string(),
        value: ConfigValue::StrLit(value.to_string()),
    }
}

#[test]
fn naming_custom_prefix() {
    let args = vec![kv("prefix", "Alt")];
    let out = first_class_variants(&args, &simple_decl()).unwrap();
    assert_eq!(out.records[0].name, "AltBar");
    assert_eq!(out.records[1].name, "AltSpam");
    assert!(out.module.is_none());
}

#[test]
fn naming_default_prefix_is_sum_type_name() {
    let out = first_class_variants(&vec![], &simple_decl()).unwrap();
    assert_eq!(out.records[0].name, "FooBar");
    assert_eq!(out.records[1].name, "FooSpam");
    assert_eq!(out.conversions[0].record_path, "FooBar");
}

#[test]
fn all_record_fields_made_public() {
    let out = first_class_variants(&vec![], &simple_decl()).unwrap();
    for record in &out.records {
        match &record.fields {
            FieldsShape::Named(fs) | FieldsShape::Unnamed(fs) => {
                for f in fs {
                    assert_eq!(f.vis, Visibility::Public);
                }
            }
            FieldsShape::Unit => {}
        }
    }
    // the names and types of the fields are kept
    match &out.records[1].fields {
        FieldsShape::Named(fs) => {
            assert_eq!(fs[0].name.as_deref(), Some("ham"));
            assert_eq!(fs[0].ty, "u16");
            assert_eq!(fs[1].name.as_deref(), Some("eggs"));
            assert_eq!(fs[1].ty, "u32");
        }
        _ => unreachable!("FooSpam must keep its named fields"),
    }
}

#[test]
fn make_pub_rewrites_every_visibility() {
    let fields = vec![
        FieldDecl { vis: Visibility::Private, name: None, ty: "u8".to_string() },
        FieldDecl { vis: Visibility::Public, name: None, ty: "u16".to_string() },
    ];
    let out = make_pub(&fields);
    assert_eq!(out.len(), 2);
    assert_eq!(out[0].vis, Visibility::Public);
    assert_eq!(out[1].vis, Visibility::Public);
    assert_eq!(out[0].ty, "u8");
}

#[test]
fn forwarded_directives_identical_on_every_record() {
    let args = vec![
        ConfigEntry::Other("derive(PartialEq, Eq)".to_string()),
        kv("unrecognized", "kept"),
    ];
    let out = first_class_variants(&args, &simple_decl()).unwrap();
    for record in &out.records {
        assert_eq!(record.forwarded.len(), 2);
        assert_eq!(record.forwarded[0], ConfigEntry::Other("derive(PartialEq, Eq)".to_string()));
        assert_eq!(record.forwarded[1], kv("unrecognized", "kept"));
    }
    // the per-case annotations stay beside the forwarded ones, unchanged
    assert_eq!(out.records[0].attrs, vec!["doc = \"the bar case\"".to_string()]);
    assert!(out.records[1].attrs.is_empty());
}

#[test]
fn recognized_key_with_non_string_value_is_dropped() {
    let args = vec![
        ConfigEntry::NameValue {
            key: "module".to_string(),
            value: ConfigValue::OtherLit("7".to_string()),
        },
    ];
    let out = first_class_variants(&args, &simple_decl()).unwrap();
    // treated as if the directive were absent: no module, and not forwarded
    assert!(out.module.is_none());
    assert_eq!(out.records[0].name, "FooBar");
    assert!(out.records[0].forwarded.is_empty());
}

#[test]
fn later_directive_replaces_earlier() {
    let args = vec![kv("prefix", "First"), kv("prefix", "Second")];
    let out = first_class_variants(&args, &simple_decl()).unwrap();
    assert_eq!(out.records[0].name, "SecondBar");
}

#[test]
fn rebuilt_sum_type_wraps_records() {
    let out = first_class_variants(&vec![], &simple_decl()).unwrap();
    let sum = &out.sum_type;
    assert_eq!(sum.name, "Foo");
    assert_eq!(sum.vis, Visibility::Public);
    assert_eq!(sum.attrs, vec!["derive(Debug)".to_string()]);
    assert_eq!(sum.alternatives.len(), 2);
    assert_eq!(sum.alternatives[0].name, "Bar");
    // the alternative's own annotations moved onto its record
    assert!(sum.alternatives[0].attrs.is_empty());
    match &sum.alternatives[0].fields {
        FieldsShape::Unnamed(fs) => {
            assert_eq!(fs.len(), 1);
            assert_eq!(fs[0].ty, "FooBar");
        }
        _ => unreachable!("a rebuilt alternative holds one positional field"),
    }
}

#[test]
fn rebuilt_sum_type_qualifies_by_module() {
    let args = vec![kv("module", "variants")];
    let out = first_class_variants(&args, &simple_decl()).unwrap();
    match &out.sum_type.alternatives[0].fields {
        FieldsShape::Unnamed(fs) => assert_eq!(fs[0].ty, "variants::Bar"),
        _ => unreachable!("a rebuilt alternative holds one positional field"),
    }
}

#[test]
fn conversions_pair_each_record_with_its_alternative() {
    let out = first_class_variants(&vec![], &simple_decl()).unwrap();
    assert_eq!(out.conversions.len(), 2);
    assert_eq!(out.conversions[0].record, "FooBar");
    assert_eq!(out.conversions[0].sum_type, "Foo");
    assert_eq!(out.conversions[0].variant, "Bar");
    assert!(out.conversions[0].parent.is_none());
    assert_eq!(out.conversions[1].variant, "Spam");
}

#[test]
fn parent_link_splits_on_last_separator() {
    let args = vec![kv("impl_into_parent", "outer::Message::User")];
    let out = first_class_variants(&args, &simple_decl()).unwrap();
    let parent = out.conversions[0].parent.as_ref().unwrap();
    assert_eq!(parent.path, "outer::Message");
    assert_eq!(parent.variant, "User");
}

#[test]
fn malformed_parent_path_aborts() {
    let args = vec![kv("impl_into_parent", "::User")];
    let r = first_class_variants(&args, &simple_decl());
    assert_eq!(r, Err(TransformError::MalformedParentPath));
}

#[test]
fn malformed_parent_variant_aborts() {
    let args = vec![kv("impl_into_parent", "Message::123")];
    let r = first_class_variants(&args, &simple_decl());
    assert_eq!(r, Err(TransformError::MalformedParentVariant));
}

#[test]
fn malformed_module_name_aborts() {
    let args = vec![kv("module", "not a module")];
    let r = first_class_variants(&args, &simple_decl());
    assert_eq!(r, Err(TransformError::MalformedModuleName));
}

#[test]
fn malformed_record_name_aborts() {
    let args = vec![kv("prefix", "123")];
    let r = first_class_variants(&args, &simple_decl());
    assert_eq!(r, Err(TransformError::MalformedRecordName));
}

#[test]
fn module_makes_bad_prefix_harmless() {
    // with a module the record keeps the bare alternative name, so the
    // prefix never reaches a derived identifier
    let args = vec![kv("prefix", "123"), kv("module", "variants")];
    let out = first_class_variants(&args, &simple_decl()).unwrap();
    assert_eq!(out.records[0].name, "Bar");
}

#[test]
fn empty_sum_type_gives_no_records() {
    let empty = SumTypeDecl {
        vis: Visibility::Public,
        name: "Never".to_string(),
        attrs: vec![],
        alternatives: vec![],
    };
    let out = first_class_variants(&vec![], &empty).unwrap();
    assert!(out.records.is_empty());
    assert!(out.conversions.is_empty());
    assert_eq!(out.sum_type.name, "Never");
}

#[test]
fn terminator_by_shape() {
    assert!(!record_needs_terminator(&FieldsShape::Named(vec![])));
    assert!(record_needs_terminator(&FieldsShape::Unnamed(vec![])));
    assert!(record_needs_terminator(&FieldsShape::Unit));
}
