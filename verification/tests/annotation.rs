use code_insights::{
    Annotation, AnnotationBuilder, Annotations, Error, Severity, Type, EXTERNAL_ID_LIMIT,
    MESSAGE_LIMIT,
};
use serde_json::Value;

fn object(members: Vec<(&str, Value)>) -> Value {
    let mut map = serde_json::Map::new();
    for (name, value) in members {
        map.insert(name.to_owned(), value);
    }
    Value::Object(map)
}

fn too_long(built: Result<Annotation, Error>) -> (String, usize, usize) {
    match built {
        Err(Error::FieldTooLong { name, len, limit }) => (name, len, limit),
        other => panic!("expected FieldTooLong, got {:?}", other),
    }
}

#[test]
fn message() {
    let invalid_message = "X".repeat(MESSAGE_LIMIT + 1);
    assert!(AnnotationBuilder::new(&invalid_message, Severity::Low)
        .build()
        .is_err());
}

#[test]
fn external_id() {
    let invalid_external_id = "X".repeat(EXTERNAL_ID_LIMIT + 1);
    assert!(AnnotationBuilder::new("Message", Severity::Low)
        .external_id(&invalid_external_id)
        .build()
        .is_err());
}

#[test]
fn annotation_limits_have_their_documented_values() {
    assert_eq!(MESSAGE_LIMIT, 2000);
    assert_eq!(EXTERNAL_ID_LIMIT, 450);
}

#[test]
fn message_over_limit_is_reported_with_name_length_and_limit() {
    let built = AnnotationBuilder::new(&"X".repeat(2001), Severity::Low).build();
    assert_eq!(too_long(built), ("message".to_owned(), 2001, 2000));
}

#[test]
fn message_at_limit_builds_and_serializes() {
    let message = "X".repeat(2000);
    let annotation = AnnotationBuilder::new(&message, Severity::High)
        .build()
        .unwrap();
    let text = annotation.to_json_string().unwrap();
    assert_eq!(
        text,
        format!("{{\"message\":\"{}\",\"severity\":\"HIGH\"}}", message)
    );
}

#[test]
fn external_id_at_limit_builds_and_one_more_fails() {
    let at_limit = "X".repeat(450);
    assert!(AnnotationBuilder::new("Message", Severity::Low)
        .external_id(&at_limit)
        .build()
        .is_ok());
    let over = "X".repeat(451);
    let built = AnnotationBuilder::new("Message", Severity::Low)
        .external_id(&over)
        .build();
    assert_eq!(too_long(built), ("external_id".to_owned(), 451, 450));
}

#[test]
fn annotation_message_is_checked_before_external_id() {
    let built = AnnotationBuilder::new(&"X".repeat(2001), Severity::Low)
        .external_id(&"X".repeat(451))
        .build();
    assert_eq!(too_long(built), ("message".to_owned(), 2001, 2000));
}

#[test]
fn annotation_length_is_counted_in_characters() {
    let message = "é".repeat(2000);
    assert!(message.len() > 2000);
    assert!(AnnotationBuilder::new(&message, Severity::Low)
        .build()
        .is_ok());
    let message = "é".repeat(2001);
    let built = AnnotationBuilder::new(&message, Severity::Low).build();
    assert_eq!(too_long(built), ("message".to_owned(), 2001, 2000));
}

#[test]
fn annotation_with_required_fields_only_has_two_members() {
    let annotation = AnnotationBuilder::new("Message", Severity::Low)
        .build()
        .unwrap();
    let text = annotation.to_json_string().unwrap();
    assert_eq!(text, "{\"message\":\"Message\",\"severity\":\"LOW\"}");
    let value: Value = serde_json::from_str(&text).unwrap();
    let object = value.as_object().unwrap();
    assert_eq!(object.len(), 2);
    assert!(object.contains_key("message"));
    assert!(object.contains_key("severity"));
}

#[test]
fn annotation_with_every_field_serializes_in_order() {
    let annotation = AnnotationBuilder::new("Unused \"import\"", Severity::Medium)
        .annotation_type(Type::CodeSmell)
        .path("src/main.rs")
        .line(0)
        .link("https://tool.test/1")
        .external_id("id-1")
        .build()
        .unwrap();
    let text = annotation.to_json_string().unwrap();
    assert_eq!(
        text,
        "{\"message\":\"Unused \\\"import\\\"\",\"severity\":\"MEDIUM\",\"type\":\"CODE_SMELL\",\
         \"path\":\"src/main.rs\",\"line\":0,\"link\":\"https://tool.test/1\",\
         \"externalId\":\"id-1\"}"
    );
}

#[test]
fn annotation_enums_have_their_wire_names() {
    assert_eq!(Severity::Low.as_str(), "LOW");
    assert_eq!(Severity::Medium.as_str(), "MEDIUM");
    assert_eq!(Severity::High.as_str(), "HIGH");
    assert_eq!(Type::Vulnerability.as_str(), "VULNERABILITY");
    assert_eq!(Type::CodeSmell.as_str(), "CODE_SMELL");
    assert_eq!(Type::Bug.as_str(), "BUG");
}

#[test]
fn annotation_line_is_written_in_decimal() {
    let annotation = AnnotationBuilder::new("M", Severity::Low)
        .line(4294967295)
        .build()
        .unwrap();
    assert_eq!(
        annotation.to_json_string().unwrap(),
        "{\"message\":\"M\",\"severity\":\"LOW\",\"line\":4294967295}"
    );
}

#[test]
fn unchecked_annotation_is_validated_when_serialized() {
    let value = object(vec![
        ("message", Value::from("X".repeat(2001))),
        ("severity", Value::from("LOW")),
    ]);
    let annotation = Annotation::from_json_value(&value).unwrap();
    match annotation.to_json_string() {
        Err(Error::FieldTooLong { name, len, limit }) => {
            assert_eq!(name, "message");
            assert_eq!(len, 2001);
            assert_eq!(limit, 2000);
        }
        other => panic!("expected FieldTooLong, got {:?}", other),
    }
    assert!(annotation.validate_fields().is_err());
    assert!(annotation.write_json().is_ok());
}

#[test]
fn builder_validation_does_not_change_the_builder() {
    let builder = AnnotationBuilder::new("Message", Severity::Low).external_id("id");
    assert!(builder.validate_fields().is_ok());
    assert!(builder.validate_fields().is_ok());
    let annotation = builder.build().unwrap();
    assert_eq!(
        annotation.to_json_string().unwrap(),
        "{\"message\":\"Message\",\"severity\":\"LOW\",\"externalId\":\"id\"}"
    );
}

#[test]
fn annotations_serialize_as_an_object_with_an_array() {
    let first = AnnotationBuilder::new("First", Severity::Low)
        .build()
        .unwrap();
    let second = AnnotationBuilder::new("Second", Severity::High)
        .line(7)
        .build()
        .unwrap();
    let annotations = Annotations::new(vec![first, second]);
    assert_eq!(
        annotations.to_json_string().unwrap(),
        "{\"annotations\":[{\"message\":\"First\",\"severity\":\"LOW\"},\
         {\"message\":\"Second\",\"severity\":\"HIGH\",\"line\":7}]}"
    );
}

#[test]
fn empty_annotations_serialize_as_an_empty_array() {
    let annotations = Annotations::new(Vec::new());
    assert_eq!(
        annotations.to_json_string().unwrap(),
        "{\"annotations\":[]}"
    );
}

#[test]
fn annotations_do_not_validate() {
    let long = object(vec![
        ("message", Value::from("X".repeat(2001))),
        ("severity", Value::from("LOW")),
    ]);
    let long = Annotation::from_json_value(&long).unwrap();
    let annotations = Annotations::new(vec![long]);
    assert!(annotations.to_json_string().is_ok());
}

#[test]
fn equal_annotations_compare_equal() {
    let one = AnnotationBuilder::new("Message", Severity::Low)
        .line(3)
        .build()
        .unwrap();
    let other = AnnotationBuilder::new("Message", Severity::Low)
        .line(3)
        .build()
        .unwrap();
    let different = AnnotationBuilder::new("Message", Severity::Low)
        .line(4)
        .build()
        .unwrap();
    assert_eq!(one, other);
    assert_ne!(one, different);
}

#[test]
fn annotation_value_with_every_field() {
    let annotation = AnnotationBuilder::new("Message", Severity::High)
        .annotation_type(Type::Vulnerability)
        .path("src/lib.rs")
        .line(12)
        .link("https://tool.test/12")
        .external_id("id-12")
        .build()
        .unwrap();
    let expected = object(vec![
        ("message", Value::from("Message")),
        ("severity", Value::from("HIGH")),
        ("type", Value::from("VULNERABILITY")),
        ("path", Value::from("src/lib.rs")),
        ("line", Value::from(12)),
        ("link", Value::from("https://tool.test/12")),
        ("externalId", Value::from("id-12")),
    ]);
    assert_eq!(annotation.to_json_value().unwrap(), expected);
    let text = annotation.to_json_string().unwrap();
    let parsed: Value = serde_json::from_str(&text).unwrap();
    assert_eq!(parsed, expected);
}

#[test]
fn annotation_value_with_required_fields_only() {
    let annotation = AnnotationBuilder::new("Message", Severity::Low)
        .build()
        .unwrap();
    assert_eq!(
        annotation.to_json_value().unwrap(),
        object(vec![
            ("message", Value::from("Message")),
            ("severity", Value::from("LOW")),
        ])
    );
}

#[test]
fn annotations_value_is_an_object_with_an_array() {
    let first = AnnotationBuilder::new("First", Severity::Low)
        .build()
        .unwrap();
    let annotations = Annotations::new(vec![first]);
    let expected = object(vec![(
        "annotations",
        Value::Array(vec![object(vec![
            ("message", Value::from("First")),
            ("severity", Value::from("LOW")),
        ])]),
    )]);
    assert_eq!(annotations.to_json_value(), expected);
    let parsed: Value = serde_json::from_str(&annotations.to_json_string().unwrap()).unwrap();
    assert_eq!(parsed, expected);
}

#[test]
fn annotation_converts_into_text_and_value() {
    let annotation = AnnotationBuilder::new("Message", Severity::Low)
        .build()
        .unwrap();
    assert_eq!(
        String::try_from(annotation).unwrap(),
        "{\"message\":\"Message\",\"severity\":\"LOW\"}"
    );
    let annotation = AnnotationBuilder::new("Message", Severity::Low)
        .line(1)
        .build()
        .unwrap();
    assert_eq!(
        Value::try_from(annotation).unwrap(),
        object(vec![
            ("message", Value::from("Message")),
            ("severity", Value::from("LOW")),
            ("line", Value::from(1)),
        ])
    );
    let long = object(vec![
        ("message", Value::from("X".repeat(2001))),
        ("severity", Value::from("LOW")),
    ]);
    let long = Annotation::from_json_value(&long).unwrap();
    match Value::try_from(long) {
        Err(Error::FieldTooLong { name, len, limit }) => {
            assert_eq!(name, "message");
            assert_eq!(len, 2001);
            assert_eq!(limit, 2000);
        }
        other => panic!("expected FieldTooLong, got {:?}", other),
    }
}

fn full_annotation() -> Annotation {
    AnnotationBuilder::new("Unused \"import\"", Severity::Medium)
        .annotation_type(Type::CodeSmell)
        .path("src/main.rs")
        .line(42)
        .link("https://tool.test/42")
        .external_id("id-42")
        .build()
        .unwrap()
}

#[test]
fn annotation_survives_a_round_trip_through_text() {
    let annotation = full_annotation();
    let text = annotation.to_json_string().unwrap();
    let read = Annotation::from_json_str(&text).unwrap();
    assert_eq!(read, annotation);
    assert_eq!(read.to_json_string().unwrap(), text);
}

#[test]
fn annotation_survives_a_round_trip_through_a_value() {
    let annotation = full_annotation();
    let value = annotation.to_json_value().unwrap();
    let read = Annotation::from_json_value(&value).unwrap();
    assert_eq!(read, annotation);
    assert_eq!(read.to_json_value().unwrap(), value);
}

#[test]
fn annotations_survive_a_round_trip() {
    let minimal = AnnotationBuilder::new("Message", Severity::Low)
        .build()
        .unwrap();
    let annotations = Annotations::new(vec![full_annotation(), minimal]);
    let text = annotations.to_json_string().unwrap();
    let read = Annotations::from_json_str(&text).unwrap();
    assert_eq!(read, annotations);
    assert_eq!(read.to_json_string().unwrap(), text);
    let value = annotations.to_json_value();
    assert_eq!(Annotations::from_json_value(&value).unwrap(), annotations);
}

#[test]
fn reading_an_annotation_ignores_other_members_and_takes_null_as_absent() {
    let text = "{\"severity\":\"HIGH\",\"message\":\"M\",\"path\":null,\"more\":1,\"line\":0}";
    let read = Annotation::from_json_str(text).unwrap();
    let expected = AnnotationBuilder::new("M", Severity::High)
        .line(0)
        .build()
        .unwrap();
    assert_eq!(read, expected);
}

#[test]
fn reading_what_is_no_annotation_fails_with_a_serde_error() {
    let texts = [
        "",
        "null",
        "{\"message\":\"M\"}",
        "{\"severity\":\"LOW\"}",
        "{\"message\":\"M\",\"severity\":\"low\"}",
        "{\"message\":\"M\",\"severity\":null}",
        "{\"message\":\"M\",\"severity\":\"LOW\",\"type\":\"SMELL\"}",
        "{\"message\":\"M\",\"severity\":\"LOW\",\"path\":7}",
        "{\"message\":\"M\",\"severity\":\"LOW\",\"line\":\"7\"}",
        "{\"message\":\"M\",\"severity\":\"LOW\",\"line\":-7}",
        "{\"message\":\"M\",\"severity\":\"LOW\",\"line\":4294967296}",
        "{\"message\":\"M\",\"severity\":\"LOW\",\"link\":[]}",
        "{\"message\":\"M\",\"severity\":\"LOW\",\"externalId\":false}",
    ];
    for text in texts {
        assert!(
            matches!(Annotation::from_json_str(text), Err(Error::SerdeError(_))),
            "{}",
            text
        );
    }
    assert!(Annotation::from_json_str(
        "{\"message\":\"M\",\"severity\":\"LOW\",\"line\":4294967295}"
    )
    .is_ok());
}

#[test]
fn reading_what_are_no_annotations_fails_with_a_serde_error() {
    let texts = [
        "{}",
        "[]",
        "{\"annotations\":{}}",
        "{\"annotations\":null}",
        "{\"annotations\":[{\"message\":\"M\"}]}",
        "{\"annotations\":[7]}",
    ];
    for text in texts {
        assert!(
            matches!(Annotations::from_json_str(text), Err(Error::SerdeError(_))),
            "{}",
            text
        );
    }
    let empty = Annotations::from_json_str("{\"annotations\":[]}").unwrap();
    assert_eq!(empty, Annotations::new(Vec::new()));
}

#[test]
fn annotation_wire_names_are_read_back() {
    assert_eq!(Severity::parse("LOW"), Some(Severity::Low));
    assert_eq!(Severity::parse("MEDIUM"), Some(Severity::Medium));
    assert_eq!(Severity::parse("HIGH"), Some(Severity::High));
    assert_eq!(Severity::parse("low"), None);
    assert_eq!(Type::parse("VULNERABILITY"), Some(Type::Vulnerability));
    assert_eq!(Type::parse("CODE_SMELL"), Some(Type::CodeSmell));
    assert_eq!(Type::parse("BUG"), Some(Type::Bug));
    assert_eq!(Type::parse("CodeSmell"), None);
}
