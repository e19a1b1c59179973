use first_class_variants::ast::{
    AlternativeDecl, ConfigEntry, ConfigValue, FieldDecl, FieldsShape, SumTypeDecl, Visibility,
};
use first_class_variants::emit::first_class_variants;
use first_class_variants::semantics::{
    record_into_parent, record_into_sum, sum_try_into_record, sum_try_into_record_ref, FieldValue,
    RecordValue,
};

fn unnamed(tys: &[&str]) -> FieldsShape {
    FieldsShape::Unnamed(
        tys.iter()
            .map(|t| FieldDecl { vis: Visibility::Private, name: None, ty: t.to_string() })
            .collect(),
    )
}

fn named(fields: &[(&str, &str)]) -> FieldsShape {
    FieldsShape::Named(
        fields
            .iter()
            .map(|(n, t)| FieldDecl {
                vis: Visibility::Private,
                name: Some(n.to_string()),
                ty: t.to_string(),
            })
            .collect(),
    )
}

fn alt(name: &str, attrs: &[&str], fields: FieldsShape) -> AlternativeDecl {
    AlternativeDecl {
        name: name.to_string(),
        attrs: attrs.iter().map(|a| a.to_string()).collect(),
        fields,
    }
}

fn decl(name: &str, attrs: &[&str], alternatives: Vec<AlternativeDecl>) -> SumTypeDecl {
    SumTypeDecl {
        vis: Visibility::Public,
        name: name.to_string(),
        attrs: attrs.iter().map(|a| a.to_string()).collect(),
        alternatives,
    }
}

fn module_arg(name: &str) -> ConfigEntry {
    ConfigEntry::NameValue {
        key: "module".to_string(),
        value: ConfigValue::StrLit(name.to_string()),
    }
}

fn parent_arg(target: &str) -> ConfigEntry {
    ConfigEntry::NameValue {
        key: "impl_into_parent".to_string(),
        value: ConfigValue::StrLit(target.to_string()),
    }
}

fn derive_arg(list: &str) -> ConfigEntry {
    ConfigEntry::Other(list.to_string())
}

#[test]
fn works() {
    // enum Foo { Bar(u8), Spam { ham: u16, eggs: u32 } }, no module, no prefix
    let foo = decl(
        "Foo",
        &["derive(Debug)"],
        vec![
            alt("Bar", &["derive(Debug)"], unnamed(&["u8"])),
            alt("Spam", &["derive(Debug)"], named(&[("ham", "u16"), ("eggs", "u32")])),
        ],
    );
    let args = vec![derive_arg("derive(PartialEq, Eq, Copy, Clone)")];
    let out = first_class_variants(&args, &foo).unwrap();
    assert_eq!(out.records[0].name, "FooBar");
    assert_eq!(out.records[1].name, "FooSpam");

    // FooBar(1) and FooSpam { ham: 2, eggs: 3 } as values of the generated records
    let bar = RecordValue { alt: 0, fields: vec![FieldValue::UInt(1)] };
    let spam = RecordValue { alt: 1, fields: vec![FieldValue::UInt(2), FieldValue::UInt(3)] };

    let bar_foo = record_into_sum(bar.clone());
    match bar_foo.payload.alt {
        0 => assert_eq!(bar_foo.payload, bar),
        _ => unreachable!("bar_foo isn't a Foo::Bar"),
    }
    let spam_foo = record_into_sum(spam.clone());
    match spam_foo.payload.alt {
        1 => assert_eq!(spam_foo.payload, spam),
        _ => unreachable!("spam_foo isn't a Foo::Spam"),
    }

    let maybe_bar: Result<RecordValue, ()> = sum_try_into_record(bar_foo, 0);
    assert_eq!(maybe_bar, Ok(bar));

    // A useful pattern for pulling things out of a Foo
    assert!(if let Ok(RecordValue { fields, .. }) = maybe_bar {
        println!("{:?}", fields[0]);
        true
    } else {
        false
    });

    // or, do it by ref!
    let foo123 = record_into_sum(RecordValue { alt: 0, fields: vec![FieldValue::UInt(123)] });
    assert!(if let Ok(RecordValue { fields, .. }) = sum_try_into_record_ref(&foo123, 0) {
        println!("{:?}", fields[0]);
        true
    } else {
        false
    });
}

#[test]
fn works_with_module() {
    // enum Baz { Qux(u8), Corge { grault: u16, garply: u32 } }, module = "variants"
    let baz = decl(
        "Baz",
        &["derive(Debug)"],
        vec![
            alt("Qux", &["derive(Debug)"], unnamed(&["u8"])),
            alt("Corge", &["derive(Debug)"], named(&[("grault", "u16"), ("garply", "u32")])),
        ],
    );
    let args = vec![module_arg("variants"), derive_arg("derive(PartialEq, Eq, Copy, Clone)")];
    let out = first_class_variants(&args, &baz).unwrap();
    assert_eq!(out.module.as_deref(), Some("variants"));
    assert_eq!(out.records[0].name, "Qux");
    assert_eq!(out.records[1].name, "Corge");
    assert_eq!(out.conversions[0].record_path, "variants::Qux");
    assert_eq!(out.conversions[1].record_path, "variants::Corge");

    let qux = RecordValue { alt: 0, fields: vec![FieldValue::UInt(1)] };
    let corge = RecordValue { alt: 1, fields: vec![FieldValue::UInt(2), FieldValue::UInt(3)] };

    let qux_baz = record_into_sum(qux.clone());
    match qux_baz.payload.alt {
        0 => assert_eq!(qux_baz.payload, qux),
        _ => unreachable!("qux_baz isn't a Baz::Qux"),
    }
    let corge_baz = record_into_sum(corge.clone());
    match corge_baz.payload.alt {
        1 => assert_eq!(corge_baz.payload, corge),
        _ => unreachable!("corge_baz isn't a Baz::Corge"),
    }

    let maybe_qux: Result<RecordValue, ()> = sum_try_into_record(qux_baz, 0);
    assert_eq!(maybe_qux, Ok(qux));

    assert!(if let Ok(RecordValue { fields, .. }) = maybe_qux {
        println!("{:?}", fields[0]);
        true
    } else {
        false
    });

    let baz123 = record_into_sum(RecordValue { alt: 0, fields: vec![FieldValue::UInt(123)] });
    assert!(if let Ok(RecordValue { fields, .. }) = sum_try_into_record_ref(&baz123, 0) {
        println!("{:?}", fields[0]);
        true
    } else {
        false
    });
}

#[test]
fn works_with_parent() {
    // enum Client { StateChanged { old_state, new_state }, ErrorOccurred { message } },
    // module = "client", impl_into_parent = "EventData" (bare path: the parent's
    // alternative defaults to the sum type's own name, Client)
    let client = decl(
        "Client",
        &["derive(Debug, PartialEq, Eq, Clone)"],
        vec![
            alt("StateChanged", &[], named(&[("old_state", "String"), ("new_state", "String")])),
            alt("ErrorOccurred", &[], named(&[("message", "String")])),
        ],
    );
    let args = vec![
        module_arg("client"),
        derive_arg("derive(Debug, PartialEq, Eq, Clone)"),
        parent_arg("EventData"),
    ];
    let out = first_class_variants(&args, &client).unwrap();
    let parent = out.conversions[0].parent.as_ref().unwrap();
    assert_eq!(parent.path, "EventData");
    assert_eq!(parent.variant, "Client");

    let state_changed = RecordValue {
        alt: 0,
        fields: vec![
            FieldValue::Text("running".to_string()),
            FieldValue::Text("stopped".to_string()),
        ],
    };
    let event = record_into_parent(state_changed.clone(), &"Client".to_string());
    match (event.variant.as_str(), event.payload.payload.alt) {
        ("Client", 0) => {
            assert_eq!(event.payload.payload.fields[0], FieldValue::Text("running".to_string()));
            assert_eq!(event.payload.payload.fields[1], FieldValue::Text("stopped".to_string()));
        }
        _ => unreachable!("event isn't an EventData::Client::StateChanged"),
    }

    let error = RecordValue {
        alt: 1,
        fields: vec![FieldValue::Text("connection failed".to_string())],
    };
    let event = record_into_parent(error, &"Client".to_string());
    match (event.variant.as_str(), event.payload.payload.alt) {
        ("Client", 1) => {
            assert_eq!(
                event.payload.payload.fields[0],
                FieldValue::Text("connection failed".to_string())
            );
        }
        _ => unreachable!("event isn't an EventData::Client::ErrorOccurred"),
    }
}

#[test]
fn works_with_parent_no_module() {
    // enum UserEvent { LoggedIn { user_id: String }, LoggedOut },
    // impl_into_parent = "Message::User"
    let user_event = decl(
        "UserEvent",
        &["derive(Debug, PartialEq, Eq, Clone)"],
        vec![
            alt("LoggedIn", &[], named(&[("user_id", "String")])),
            alt("LoggedOut", &[], FieldsShape::Unit),
        ],
    );
    let args = vec![derive_arg("derive(Debug, PartialEq, Eq, Clone)"), parent_arg("Message::User")];
    let out = first_class_variants(&args, &user_event).unwrap();
    assert_eq!(out.records[0].name, "UserEventLoggedIn");
    assert_eq!(out.records[1].name, "UserEventLoggedOut");
    let parent = out.conversions[0].parent.as_ref().unwrap();
    assert_eq!(parent.path, "Message");
    assert_eq!(parent.variant, "User");

    let logged_in = RecordValue {
        alt: 0,
        fields: vec![FieldValue::Text("alice".to_string())],
    };
    let msg = record_into_parent(logged_in, &"User".to_string());
    match (msg.variant.as_str(), msg.payload.payload.alt) {
        ("User", 0) => {
            assert_eq!(msg.payload.payload.fields[0], FieldValue::Text("alice".to_string()));
        }
        _ => unreachable!("msg isn't a Message::User::LoggedIn"),
    }

    let logged_out = RecordValue { alt: 1, fields: vec![] };
    let msg = record_into_parent(logged_out, &"User".to_string());
    match (msg.variant.as_str(), msg.payload.payload.alt) {
        ("User", 1) => {}
        _ => unreachable!("msg isn't a Message::User::LoggedOut"),
    }
}
