use code_insights::{
    Data, Error, Parameter, Report, ReportBuilder, ReportResult, ReportType, DATA_LIMIT,
    DETAILS_LIMIT, REPORTER_LIMIT, TITLE_LIMIT,
};
use serde_json::Value;

fn violation(built: Result<Report, Error>) -> (String, usize, usize) {
    match built {
        Err(Error::FieldTooLong { name, len, limit }) => (name, len, limit),
        other => panic!("expected FieldTooLong, got {:?}", other),
    }
}

fn object(members: Vec<(&str, Value)>) -> Value {
    let mut map = serde_json::Map::new();
    for (name, value) in members {
        map.insert(name.to_owned(), value);
    }
    Value::Object(map)
}

fn quoted(text: &str) -> String {
    serde_json::to_string(text).unwrap()
}

fn flag_items(count: usize) -> String {
    let item = "{\"title\":\"Title\",\"type\":\"BOOLEAN\",\"value\":true}";
    vec![item; count].join(",")
}

fn flags(count: usize) -> Vec<Data> {
    let mut data = Vec::new();
    for _ in 0..count {
        data.push(Data {
            title: "Title".to_owned(),
            parameter: Parameter::Boolean(true),
        });
    }
    data
}

#[test]
fn title() {
    let invalid_title = "X".repeat(TITLE_LIMIT + 1);
    assert!(ReportBuilder::new(&invalid_title).build().is_err());
}

#[test]
fn details() {
    let invalid_detail = "X".repeat(DETAILS_LIMIT + 1);
    assert!(ReportBuilder::new("Title")
        .details(&invalid_detail)
        .build()
        .is_err());
}

#[test]
fn reporter() {
    let invalid_reporter = "X".repeat(REPORTER_LIMIT + 1);
    assert!(ReportBuilder::new("Title")
        .reporter(&invalid_reporter)
        .build()
        .is_err());
}

#[test]
fn data() {
    let mut data = Vec::new();

    for _ in 0..=DATA_LIMIT {
        data.push(Data {
            title: "Title".to_owned(),
            parameter: Parameter::Boolean(true),
        });
    }
    assert!(ReportBuilder::new("Title").data(data).build().is_err());
}

#[test]
fn report_limits_have_their_documented_values() {
    assert_eq!(TITLE_LIMIT, 450);
    assert_eq!(DETAILS_LIMIT, 2000);
    assert_eq!(DATA_LIMIT, 6);
    assert_eq!(REPORTER_LIMIT, 450);
}

#[test]
fn title_at_limit_serializes_and_one_more_fails() {
    let at_limit = "X".repeat(450);
    let report = ReportBuilder::new(&at_limit).build().unwrap();
    assert_eq!(
        report.to_json_string().unwrap(),
        format!("{{\"title\":\"{}\"}}", at_limit)
    );
    let built = ReportBuilder::new(&"X".repeat(451)).build();
    assert_eq!(violation(built), ("title".to_owned(), 451, 450));
}

#[test]
fn details_at_limit_serializes_and_one_more_fails() {
    let at_limit = "X".repeat(2000);
    let report = ReportBuilder::new("Title")
        .details(&at_limit)
        .build()
        .unwrap();
    assert!(report.to_json_string().is_ok());
    let built = ReportBuilder::new("Title")
        .details(&"X".repeat(2001))
        .build();
    assert_eq!(violation(built), ("details".to_owned(), 2001, 2000));
}

#[test]
fn reporter_at_limit_serializes_and_one_more_fails() {
    let at_limit = "X".repeat(450);
    let report = ReportBuilder::new("Title")
        .reporter(&at_limit)
        .build()
        .unwrap();
    assert!(report.to_json_string().is_ok());
    let built = ReportBuilder::new("Title")
        .reporter(&"X".repeat(451))
        .build();
    assert_eq!(violation(built), ("reporter".to_owned(), 451, 450));
}

#[test]
fn six_data_fields_build_and_seven_fail() {
    assert!(ReportBuilder::new("Title").data(flags(6)).build().is_ok());
    let built = ReportBuilder::new("Title").data(flags(7)).build();
    assert_eq!(violation(built), ("data".to_owned(), 7, 6));
}

#[test]
fn empty_data_builds_and_serializes_as_an_empty_array() {
    let report = ReportBuilder::new("Title")
        .data(Vec::new())
        .build()
        .unwrap();
    assert_eq!(
        report.to_json_string().unwrap(),
        "{\"title\":\"Title\",\"data\":[]}"
    );
}

#[test]
fn title_violation_comes_before_data_violation() {
    let built = ReportBuilder::new(&"X".repeat(451))
        .data(flags(7))
        .build();
    assert_eq!(violation(built), ("title".to_owned(), 451, 450));
}

#[test]
fn violations_come_in_the_order_title_details_reporter_data() {
    let long = "X".repeat(2001);
    let built = ReportBuilder::new("Title")
        .data(flags(7))
        .reporter(&long)
        .details(&long)
        .build();
    assert_eq!(violation(built), ("details".to_owned(), 2001, 2000));
    let built = ReportBuilder::new("Title")
        .data(flags(7))
        .reporter(&long)
        .build();
    assert_eq!(violation(built), ("reporter".to_owned(), 2001, 450));
}

#[test]
fn link_and_logo_url_have_no_limit() {
    let long = "X".repeat(5000);
    assert!(ReportBuilder::new("Title")
        .link(&long)
        .logo_url(&long)
        .build()
        .is_ok());
}

#[test]
fn report_length_is_counted_in_characters() {
    let title = "ü".repeat(450);
    assert!(title.len() > 450);
    assert!(ReportBuilder::new(&title).build().is_ok());
    let built = ReportBuilder::new(&"ü".repeat(451)).build();
    assert_eq!(violation(built), ("title".to_owned(), 451, 450));
}

#[test]
fn report_with_title_only_has_one_member() {
    let report = ReportBuilder::new("Title").build().unwrap();
    let text = report.to_json_string().unwrap();
    assert_eq!(text, "{\"title\":\"Title\"}");
    let value: Value = serde_json::from_str(&text).unwrap();
    let object = value.as_object().unwrap();
    assert_eq!(object.len(), 1);
    assert!(object.contains_key("title"));
}

#[test]
fn report_with_result_serializes_title_then_result() {
    let report = ReportBuilder::new("Title")
        .result(ReportResult::Pass)
        .build()
        .unwrap();
    assert_eq!(
        report.to_json_string().unwrap(),
        "{\"title\":\"Title\",\"result\":\"PASS\"}"
    );
}

#[test]
fn report_with_every_field_serializes_in_order() {
    let data = vec![
        Data {
            title: "Coverage".to_owned(),
            parameter: Parameter::Percentage(87),
        },
        Data {
            title: "Docs".to_owned(),
            parameter: Parameter::Link {
                linktext: "Read".to_owned(),
                href: "https://docs.test".to_owned(),
            },
        },
    ];
    let report = ReportBuilder::new("Title")
        .details("Line one\nLine two")
        .result(ReportResult::Fail)
        .data(data)
        .reporter("Tool")
        .link("https://tool.test")
        .logo_url("https://tool.test/logo.svg")
        .report_type(ReportType::Coverage)
        .build()
        .unwrap();
    assert_eq!(
        report.to_json_string().unwrap(),
        "{\"title\":\"Title\",\"details\":\"Line one\\nLine two\",\"result\":\"FAIL\",\
         \"data\":[{\"title\":\"Coverage\",\"type\":\"PERCENTAGE\",\"value\":87},\
         {\"title\":\"Docs\",\"type\":\"LINK\",\"value\":{\"linktext\":\"Read\",\
         \"href\":\"https://docs.test\"}}],\"reporter\":\"Tool\",\
         \"link\":\"https://tool.test\",\"logoUrl\":\"https://tool.test/logo.svg\",\
         \"reportType\":\"COVERAGE\"}"
    );
}

#[test]
fn report_enums_have_their_wire_names() {
    assert_eq!(ReportResult::Pass.as_str(), "PASS");
    assert_eq!(ReportResult::Fail.as_str(), "FAIL");
    assert_eq!(ReportType::Security.as_str(), "SECURITY");
    assert_eq!(ReportType::Coverage.as_str(), "COVERAGE");
    assert_eq!(ReportType::Test.as_str(), "TEST");
    assert_eq!(ReportType::Bug.as_str(), "BUG");
}

#[test]
fn later_setter_replaces_earlier_value() {
    let report = ReportBuilder::new("Title")
        .reporter("First")
        .reporter("Second")
        .build()
        .unwrap();
    assert_eq!(
        report.to_json_string().unwrap(),
        "{\"title\":\"Title\",\"reporter\":\"Second\"}"
    );
}

#[test]
fn unchecked_report_is_validated_when_serialized() {
    let text = format!("{{\"title\":\"Title\",\"data\":[{}]}}", flag_items(7));
    let report = Report::from_json_str(&text).unwrap();
    match report.to_json_string() {
        Err(Error::FieldTooLong { name, len, limit }) => {
            assert_eq!(name, "data");
            assert_eq!(len, 7);
            assert_eq!(limit, 6);
        }
        other => panic!("expected FieldTooLong, got {:?}", other),
    }
    assert!(report.validate_fields().is_err());
}

#[test]
fn unchecked_report_with_title_and_data_too_long_reports_the_title() {
    let text = format!(
        "{{\"title\":{},\"data\":[{}]}}",
        quoted(&"X".repeat(451)),
        flag_items(7)
    );
    let report = Report::from_json_str(&text).unwrap();
    match report.to_json_string() {
        Err(Error::FieldTooLong { name, len, limit }) => {
            assert_eq!(name, "title");
            assert_eq!(len, 451);
            assert_eq!(limit, 450);
        }
        other => panic!("expected FieldTooLong, got {:?}", other),
    }
}

#[test]
fn serialized_report_parses_back_to_the_same_members() {
    let report = ReportBuilder::new("Tab\there, quote \" and backslash \\")
        .result(ReportResult::Pass)
        .build()
        .unwrap();
    let text = report.to_json_string().unwrap();
    let value: Value = serde_json::from_str(&text).unwrap();
    assert_eq!(
        value["title"],
        Value::from("Tab\there, quote \" and backslash \\")
    );
    assert_eq!(value["result"], Value::from("PASS"));
    assert_eq!(serde_json::to_string(&value["title"]).unwrap(), "\"Tab\\there, quote \\\" and backslash \\\\\"");
}

#[test]
fn equal_reports_compare_equal() {
    let one = ReportBuilder::new("Title").reporter("Tool").build().unwrap();
    let other = ReportBuilder::new("Title").reporter("Tool").build().unwrap();
    let different = ReportBuilder::new("Title").build().unwrap();
    assert_eq!(one, other);
    assert_ne!(one, different);
}

#[test]
fn report_value_with_title_only_has_one_member() {
    let report = ReportBuilder::new("Title").build().unwrap();
    let value = report.to_json_value().unwrap();
    assert_eq!(value, object(vec![("title", Value::from("Title"))]));
}

#[test]
fn report_value_with_every_field() {
    let data = vec![Data {
        title: "Coverage".to_owned(),
        parameter: Parameter::Percentage(87),
    }];
    let report = ReportBuilder::new("Title")
        .details("Details")
        .result(ReportResult::Pass)
        .data(data)
        .reporter("Tool")
        .link("https://tool.test")
        .logo_url("https://tool.test/logo.svg")
        .report_type(ReportType::Security)
        .build()
        .unwrap();
    let expected = object(vec![
        ("title", Value::from("Title")),
        ("details", Value::from("Details")),
        ("result", Value::from("PASS")),
        (
            "data",
            Value::Array(vec![object(vec![
                ("title", Value::from("Coverage")),
                ("type", Value::from("PERCENTAGE")),
                ("value", Value::from(87)),
            ])]),
        ),
        ("reporter", Value::from("Tool")),
        ("link", Value::from("https://tool.test")),
        ("logoUrl", Value::from("https://tool.test/logo.svg")),
        ("reportType", Value::from("SECURITY")),
    ]);
    assert_eq!(report.to_json_value().unwrap(), expected);
    let text = report.to_json_string().unwrap();
    let parsed: Value = serde_json::from_str(&text).unwrap();
    assert_eq!(parsed, expected);
}

#[test]
fn unchecked_report_value_is_validated() {
    let value = object(vec![("title", Value::from("X".repeat(451)))]);
    let report = Report::from_json_value(&value).unwrap();
    match report.to_json_value() {
        Err(Error::FieldTooLong { name, len, limit }) => {
            assert_eq!(name, "title");
            assert_eq!(len, 451);
            assert_eq!(limit, 450);
        }
        other => panic!("expected FieldTooLong, got {:?}", other),
    }
}

#[test]
fn report_converts_into_text_and_value() {
    let report = ReportBuilder::new("Title")
        .result(ReportResult::Pass)
        .build()
        .unwrap();
    assert_eq!(
        String::try_from(report).unwrap(),
        "{\"title\":\"Title\",\"result\":\"PASS\"}"
    );
    let report = ReportBuilder::new("Title")
        .result(ReportResult::Pass)
        .build()
        .unwrap();
    assert_eq!(
        Value::try_from(report).unwrap(),
        object(vec![
            ("title", Value::from("Title")),
            ("result", Value::from("PASS")),
        ])
    );
    let long = object(vec![("title", Value::from("X".repeat(451)))]);
    let long = Report::from_json_value(&long).unwrap();
    assert!(String::try_from(long).is_err());
}

#[test]
fn error_messages_name_field_length_and_limit() {
    let error = ReportBuilder::new(&"X".repeat(451)).build().unwrap_err();
    assert_eq!(
        error.message(),
        "field 'title' too long, its length 451 is longer than the allowed limit 450"
    );
    let error = ReportBuilder::new("Title")
        .data(flags(7))
        .build()
        .unwrap_err();
    assert_eq!(
        error.message(),
        "field 'data' too long, its length 7 is longer than the allowed limit 6"
    );
}

#[test]
fn encoder_errors_become_serde_errors() {
    let cause = serde_json::from_str::<Value>("{").unwrap_err();
    let error = Error::from(cause);
    assert!(matches!(error, Error::SerdeError(_)));
    assert_eq!(error.message(), "serialization error");
    let cause = serde_json::from_str::<Value>("{").unwrap_err();
    assert!(matches!(
        code_insights::json::text::encoded(Err(cause)),
        Err(Error::SerdeError(_))
    ));
    assert_eq!(
        code_insights::json::text::encoded(Ok("\"a\"".to_owned())).unwrap(),
        "\"a\""
    );
}

fn full_report() -> Report {
    let data = vec![
        Data {
            title: "Passed".to_owned(),
            parameter: Parameter::Boolean(true),
        },
        Data {
            title: "When".to_owned(),
            parameter: Parameter::Date(1582841968),
        },
        Data {
            title: "Took".to_owned(),
            parameter: Parameter::Duration(3600),
        },
        Data {
            title: "Docs".to_owned(),
            parameter: Parameter::Link {
                linktext: "Link text".to_owned(),
                href: "https://link.test".to_owned(),
            },
        },
        Data {
            title: "Issues".to_owned(),
            parameter: Parameter::Number((-3).into()),
        },
        Data {
            title: "Coverage".to_owned(),
            parameter: Parameter::Percentage(50),
        },
    ];
    ReportBuilder::new("Title \"quoted\"")
        .details("Some\ndetails")
        .result(ReportResult::Fail)
        .data(data)
        .reporter("Tool")
        .link("https://tool.test")
        .logo_url("https://tool.test/logo.svg")
        .report_type(ReportType::Bug)
        .build()
        .unwrap()
}

#[test]
fn report_survives_a_round_trip_through_text() {
    let report = full_report();
    let text = report.to_json_string().unwrap();
    let read = Report::from_json_str(&text).unwrap();
    assert_eq!(read, report);
    assert_eq!(read.to_json_string().unwrap(), text);
}

#[test]
fn report_survives_a_round_trip_through_a_value() {
    let report = full_report();
    let value = report.to_json_value().unwrap();
    let read = Report::from_json_value(&value).unwrap();
    assert_eq!(read, report);
    assert_eq!(read.to_json_value().unwrap(), value);
}

#[test]
fn minimal_report_survives_a_round_trip() {
    let report = ReportBuilder::new("Title").build().unwrap();
    let text = report.to_json_string().unwrap();
    let read = Report::from_json_str(&text).unwrap();
    assert_eq!(read, report);
    assert_eq!(read.to_json_string().unwrap(), "{\"title\":\"Title\"}");
}

#[test]
fn report_with_a_text_parameter_and_a_fraction_survives_a_round_trip() {
    let data = vec![
        Data {
            title: "Note".to_owned(),
            parameter: Parameter::Text("Some string".to_owned()),
        },
        Data {
            title: "Ratio".to_owned(),
            parameter: Parameter::Number(serde_json::Number::from_f64(0.25).unwrap()),
        },
    ];
    let report = ReportBuilder::new("Title").data(data).build().unwrap();
    let text = report.to_json_string().unwrap();
    assert_eq!(
        text,
        "{\"title\":\"Title\",\"data\":[{\"title\":\"Note\",\"type\":\"TEXT\",\
         \"value\":\"Some string\"},{\"title\":\"Ratio\",\"type\":\"NUMBER\",\"value\":0.25}]}"
    );
    let read = Report::from_json_str(&text).unwrap();
    assert_eq!(read, report);
    assert_eq!(read.to_json_string().unwrap(), text);
}

#[test]
fn reading_a_report_ignores_other_members_and_takes_null_as_absent() {
    let text = "{\"extra\":[1,2],\"title\":\"Title\",\"details\":null,\"result\":\"PASS\"}";
    let read = Report::from_json_str(text).unwrap();
    let expected = ReportBuilder::new("Title")
        .result(ReportResult::Pass)
        .build()
        .unwrap();
    assert_eq!(read, expected);
}

#[test]
fn reading_a_report_does_not_check_limits() {
    let text = format!("{{\"title\":{}}}", quoted(&"X".repeat(451)));
    let read = Report::from_json_str(&text).unwrap();
    assert!(read.validate_fields().is_err());
}

#[test]
fn reading_what_is_no_report_fails_with_a_serde_error() {
    let texts = [
        "{",
        "[]",
        "\"Title\"",
        "{}",
        "{\"title\":null}",
        "{\"title\":7}",
        "{\"title\":\"T\",\"details\":7}",
        "{\"title\":\"T\",\"result\":\"pass\"}",
        "{\"title\":\"T\",\"result\":true}",
        "{\"title\":\"T\",\"reportType\":\"OTHER\"}",
        "{\"title\":\"T\",\"data\":{}}",
        "{\"title\":\"T\",\"data\":[7]}",
        "{\"title\":\"T\",\"data\":[{\"type\":\"BOOLEAN\",\"value\":true}]}",
        "{\"title\":\"T\",\"data\":[{\"title\":\"D\",\"type\":\"BOOLEAN\",\"value\":1}]}",
        "{\"title\":\"T\",\"data\":[{\"title\":\"D\",\"type\":\"BOOLEAN\"}]}",
        "{\"title\":\"T\",\"data\":[{\"title\":\"D\",\"type\":\"DATE\",\"value\":-1}]}",
        "{\"title\":\"T\",\"data\":[{\"title\":\"D\",\"type\":\"DURATION\",\"value\":1.5}]}",
        "{\"title\":\"T\",\"data\":[{\"title\":\"D\",\"type\":\"LINK\",\"value\":\"x\"}]}",
        "{\"title\":\"T\",\"data\":[{\"title\":\"D\",\"type\":\"LINK\",\"value\":{\"href\":\"x\"}}]}",
        "{\"title\":\"T\",\"data\":[{\"title\":\"D\",\"type\":\"NUMBER\",\"value\":\"1\"}]}",
        "{\"title\":\"T\",\"data\":[{\"title\":\"D\",\"type\":\"PERCENTAGE\",\"value\":256}]}",
        "{\"title\":\"T\",\"data\":[{\"title\":\"D\",\"type\":\"TEXT\",\"value\":7}]}",
        "{\"title\":\"T\",\"data\":[{\"title\":\"D\",\"type\":\"OTHER\",\"value\":7}]}",
    ];
    for text in texts {
        assert!(
            matches!(Report::from_json_str(text), Err(Error::SerdeError(_))),
            "{}",
            text
        );
    }
}

#[test]
fn reading_each_kind_of_parameter() {
    let members = object(vec![
        ("type", Value::from("PERCENTAGE")),
        ("value", Value::from(255)),
    ]);
    let parameter = Parameter::from_members(members.as_object().unwrap()).unwrap();
    assert_eq!(parameter, Parameter::Percentage(255));
    let field = object(vec![
        ("title", Value::from("Big")),
        ("type", Value::from("DATE")),
        ("value", Value::from(u64::MAX)),
    ]);
    assert_eq!(
        Data::from_json_value(&field).unwrap(),
        Data {
            title: "Big".to_owned(),
            parameter: Parameter::Date(u64::MAX),
        }
    );
    for parameter in [
        Parameter::Boolean(false),
        Parameter::Date(0),
        Parameter::Duration(7),
        Parameter::Link {
            linktext: "a".to_owned(),
            href: "b".to_owned(),
        },
        Parameter::Number(9.into()),
        Parameter::Number((-9).into()),
        Parameter::Percentage(0),
        Parameter::Text(String::new()),
    ] {
        let value = parameter.to_json_value();
        let read = Parameter::from_members(value.as_object().unwrap()).unwrap();
        assert_eq!(read, parameter);
    }
}

#[test]
fn wire_names_are_read_back() {
    assert_eq!(ReportResult::parse("PASS"), Some(ReportResult::Pass));
    assert_eq!(ReportResult::parse("FAIL"), Some(ReportResult::Fail));
    assert_eq!(ReportResult::parse("Pass"), None);
    assert_eq!(ReportType::parse("SECURITY"), Some(ReportType::Security));
    assert_eq!(ReportType::parse("COVERAGE"), Some(ReportType::Coverage));
    assert_eq!(ReportType::parse("TEST"), Some(ReportType::Test));
    assert_eq!(ReportType::parse("BUG"), Some(ReportType::Bug));
    assert_eq!(ReportType::parse(""), None);
}
