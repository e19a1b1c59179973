use first_class_variants::semantics::{
    record_into_parent, record_into_sum, sum_try_into_record, sum_try_into_record_ref, FieldValue,
    RecordValue,
};

#[test]
fn round_trip_returns_the_same_record() {
    let v = RecordValue {
        alt: 3,
        fields: vec![FieldValue::UInt(7), FieldValue::Text("x".to_string())],
    };
    let s = record_into_sum(v.clone());
    assert_eq!(sum_try_into_record(s, 3), Ok(v));
}

#[test]
fn round_trip_with_no_fields() {
    let v = RecordValue { alt: 0, fields: vec![] };
    let s = record_into_sum(v.clone());
    assert_eq!(sum_try_into_record(s, 0), Ok(v));
}

#[test]
fn mismatch_gives_unit_failure() {
    let v = RecordValue { alt: 0, fields: vec![FieldValue::UInt(1)] };
    let s = record_into_sum(v);
    assert_eq!(sum_try_into_record(s, 1), Err(()));
}

#[test]
fn mismatch_by_reference_gives_unit_failure() {
    let v = RecordValue { alt: 2, fields: vec![FieldValue::UInt(9)] };
    let s = record_into_sum(v.clone());
    assert_eq!(sum_try_into_record_ref(&s, 5), Err(()));
    assert_eq!(sum_try_into_record_ref(&s, 2), Ok(&v));
}

#[test]
fn parent_conversion_is_the_composition() {
    let v = RecordValue { alt: 1, fields: vec![FieldValue::Text("alice".to_string())] };
    let direct = record_into_parent(v.clone(), &"User".to_string());
    let composed_payload = record_into_sum(v);
    assert_eq!(direct.variant, "User");
    assert_eq!(direct.payload, composed_payload);
}
