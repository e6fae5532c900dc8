use code_insights::json::text::{write_boolean, write_decimal, write_joined, write_member, write_tag};
use code_insights::{Data, Parameter};
use serde_json::Value;

fn object(members: Vec<(&str, Value)>) -> Value {
    let mut map = serde_json::Map::new();
    for (name, value) in members {
        map.insert(name.to_owned(), value);
    }
    Value::Object(map)
}

fn to_value(parameter: Parameter) -> Value {
    parameter.to_json_value()
}

fn parsed(text: &str) -> Value {
    serde_json::from_str(text).unwrap()
}

#[test]
fn boolean() {
    let expected = object(vec![
        ("type", Value::from("BOOLEAN")),
        ("value", Value::from(false)),
    ]);
    let actual = to_value(Parameter::Boolean(false));
    assert_eq!(expected, actual);
}

#[test]
fn date() {
    let expected = object(vec![
        ("type", Value::from("DATE")),
        ("value", Value::from(1582841968)),
    ]);
    let actual = to_value(Parameter::Date(1582841968));
    assert_eq!(expected, actual);
}

#[test]
fn duration() {
    let expected = object(vec![
        ("type", Value::from("DURATION")),
        ("value", Value::from(3600)),
    ]);
    let actual = to_value(Parameter::Duration(3600));
    assert_eq!(expected, actual);
}

#[test]
fn link() {
    let expected = object(vec![
        ("type", Value::from("LINK")),
        (
            "value",
            object(vec![
                ("linktext", Value::from("Link text")),
                ("href", Value::from("https://link.test")),
            ]),
        ),
    ]);
    let actual = to_value(Parameter::Link {
        linktext: "Link text".to_owned(),
        href: "https://link.test".to_owned(),
    });
    assert_eq!(expected, actual);
}

#[test]
fn number() {
    let expected = object(vec![
        ("type", Value::from("NUMBER")),
        ("value", Value::from(1234)),
    ]);
    let actual = to_value(Parameter::Number(1234.into()));
    assert_eq!(expected, actual);
}

#[test]
fn percentage() {
    let expected = object(vec![
        ("type", Value::from("PERCENTAGE")),
        ("value", Value::from(50)),
    ]);
    let actual = to_value(Parameter::Percentage(50));
    assert_eq!(expected, actual);
}

#[test]
fn text() {
    let expected = object(vec![
        ("type", Value::from("TEXT")),
        ("value", Value::from("Some string")),
    ]);
    let actual = to_value(Parameter::Text("Some string".to_owned()));
    assert_eq!(expected, actual);
}

#[test]
fn boolean_parameter_text() {
    assert_eq!(
        Parameter::Boolean(false).to_json_string().unwrap(),
        "{\"type\":\"BOOLEAN\",\"value\":false}"
    );
    assert_eq!(
        Parameter::Boolean(true).to_json_string().unwrap(),
        "{\"type\":\"BOOLEAN\",\"value\":true}"
    );
}

#[test]
fn link_parameter_text() {
    let parameter = Parameter::Link {
        linktext: "Link text".to_owned(),
        href: "https://link.test".to_owned(),
    };
    assert_eq!(
        parameter.to_json_string().unwrap(),
        "{\"type\":\"LINK\",\"value\":{\"linktext\":\"Link text\",\"href\":\"https://link.test\"}}"
    );
}

#[test]
fn scalar_parameter_texts() {
    assert_eq!(
        Parameter::Date(1582841968).to_json_string().unwrap(),
        "{\"type\":\"DATE\",\"value\":1582841968}"
    );
    assert_eq!(
        Parameter::Duration(3600).to_json_string().unwrap(),
        "{\"type\":\"DURATION\",\"value\":3600}"
    );
    assert_eq!(
        Parameter::Number(1234.into()).to_json_string().unwrap(),
        "{\"type\":\"NUMBER\",\"value\":1234}"
    );
    assert_eq!(
        Parameter::Percentage(50).to_json_string().unwrap(),
        "{\"type\":\"PERCENTAGE\",\"value\":50}"
    );
    assert_eq!(
        Parameter::Text("Some string".to_owned())
            .to_json_string()
            .unwrap(),
        "{\"type\":\"TEXT\",\"value\":\"Some string\"}"
    );
}

#[test]
fn number_parameter_keeps_sign_and_fraction() {
    assert_eq!(
        Parameter::Number((-17).into()).value_json().unwrap(),
        "-17"
    );
    let fraction = serde_json::Number::from_f64(14.25).unwrap();
    assert_eq!(Parameter::Number(fraction).value_json().unwrap(), "14.25");
    assert_eq!(
        Parameter::Number(u64::MAX.into()).value_json().unwrap(),
        "18446744073709551615"
    );
}

#[test]
fn text_parameter_is_escaped() {
    assert_eq!(
        Parameter::Text("say \"hi\"\n".to_owned())
            .value_json()
            .unwrap(),
        "\"say \\\"hi\\\"\\n\""
    );
    assert_eq!(
        Parameter::Text(String::new()).value_json().unwrap(),
        "\"\""
    );
}

#[test]
fn parameter_kind_names() {
    assert_eq!(Parameter::Boolean(true).kind_name(), "BOOLEAN");
    assert_eq!(Parameter::Date(0).kind_name(), "DATE");
    assert_eq!(Parameter::Duration(0).kind_name(), "DURATION");
    assert_eq!(
        Parameter::Link {
            linktext: String::new(),
            href: String::new()
        }
        .kind_name(),
        "LINK"
    );
    assert_eq!(Parameter::Number(0.into()).kind_name(), "NUMBER");
    assert_eq!(Parameter::Percentage(0).kind_name(), "PERCENTAGE");
    assert_eq!(Parameter::Text(String::new()).kind_name(), "TEXT");
}

#[test]
fn data_field_puts_the_parameter_beside_the_title() {
    let field = Data {
        title: "Passed".to_owned(),
        parameter: Parameter::Boolean(true),
    };
    assert_eq!(
        field.to_json_string().unwrap(),
        "{\"title\":\"Passed\",\"type\":\"BOOLEAN\",\"value\":true}"
    );
}

#[test]
fn decimal_of_unsigned_integers() {
    assert_eq!(write_decimal(0), "0");
    assert_eq!(write_decimal(9), "9");
    assert_eq!(write_decimal(10), "10");
    assert_eq!(write_decimal(1582841968), "1582841968");
    assert_eq!(write_decimal(u64::MAX), "18446744073709551615");
    for value in [0u64, 7, 42, 100, 1009, 65535, 4294967296] {
        assert_eq!(write_decimal(value), serde_json::to_string(&value).unwrap());
    }
}

#[test]
fn json_pieces() {
    assert_eq!(write_boolean(true), "true");
    assert_eq!(write_boolean(false), "false");
    assert_eq!(write_tag("PASS"), "\"PASS\"");
    assert_eq!(write_member("line", "7"), "\"line\":7");
    assert_eq!(write_joined(&Vec::new()), "");
    assert_eq!(write_joined(&vec!["a".to_owned()]), "a");
    assert_eq!(
        write_joined(&vec!["a".to_owned(), "b".to_owned(), "c".to_owned()]),
        "a,b,c"
    );
}

#[test]
fn parameter_text_parses_to_parameter_value() {
    let parameters = vec![
        Parameter::Boolean(true),
        Parameter::Date(1582841968),
        Parameter::Duration(0),
        Parameter::Link {
            linktext: "a \"quoted\" text".to_owned(),
            href: "https://link.test/?q=1&r=2".to_owned(),
        },
        Parameter::Number(42.into()),
        Parameter::Number((-42).into()),
        Parameter::Percentage(100),
        Parameter::Text("line\nbreak and \u{e9}".to_owned()),
    ];
    for parameter in parameters {
        let text = parameter.to_json_string().unwrap();
        assert_eq!(parsed(&text), parameter.to_json_value());
    }
}

#[test]
fn data_field_value_puts_the_parameter_beside_the_title() {
    let field = Data {
        title: "Passed".to_owned(),
        parameter: Parameter::Boolean(true),
    };
    let expected = object(vec![
        ("title", Value::from("Passed")),
        ("type", Value::from("BOOLEAN")),
        ("value", Value::from(true)),
    ]);
    assert_eq!(field.to_json_value(), expected);
    assert_eq!(parsed(&field.to_json_string().unwrap()), expected);
}

#[test]
fn parameter_value_of_a_fraction_keeps_the_number() {
    let fraction = serde_json::Number::from_f64(14.25).unwrap();
    let value = Parameter::Number(fraction.clone()).value_to_json();
    assert_eq!(value, Value::Number(fraction));
}
