//! Reading a report back from its JSON value or text.

use vstd::prelude::*;

use crate::error::Error;
use crate::json::encoder::{as_items, as_members, members_of, parsed, tree};
use crate::json::reading::{
    find, flag_member, number_member, object_member, optional_text_member, present, read_flag,
    read_json, read_number, read_object, read_optional_text, read_text, read_unsigned, same_text,
    text_member, unsigned_member, wrong_shape,
};
use crate::json::tree::{optional_text_tree, with_optional, JsonTree};
use crate::report::text::{optional_result_name, optional_type_name};
use crate::report::value::{data_trees, optional_data_tree};
use crate::report::{
    data_views, optional_data, Data, DataView, Parameter, ParameterView, Report, ReportResult,
    ReportType, ReportView,
};

verus! {

/// The parameter that the members `type` and `value` of an object stand for,
/// if they stand for one: the tag has to be that of a kind of parameter, and the
/// value has to be of the JSON type that the kind takes.
pub open spec fn parameter_of(members: Map<Seq<char>, JsonTree>) -> Option<ParameterView> {
    match text_member(members, "type"@) {
        Some(kind) => if kind == "BOOLEAN"@ {
            match flag_member(members, "value"@) {
                Some(value) => Some(ParameterView::Boolean(value)),
                None => None,
            }
        } else if kind == "DATE"@ {
            match unsigned_member(members, "value"@, u64::MAX) {
                Some(value) => Some(ParameterView::Date(value)),
                None => None,
            }
        } else if kind == "DURATION"@ {
            match unsigned_member(members, "value"@, u64::MAX) {
                Some(value) => Some(ParameterView::Duration(value)),
                None => None,
            }
        } else if kind == "LINK"@ {
            match object_member(members, "value"@) {
                Some(link) => match (text_member(link, "linktext"@), text_member(link, "href"@)) {
                    (Some(linktext), Some(href)) => Some(ParameterView::Link { linktext, href }),
                    _ => None,
                },
                None => None,
            }
        } else if kind == "NUMBER"@ {
            match number_member(members, "value"@) {
                Some(value) => Some(ParameterView::Number(value)),
                None => None,
            }
        } else if kind == "PERCENTAGE"@ {
            match unsigned_member(members, "value"@, u8::MAX as u64) {
                Some(value) => Some(ParameterView::Percentage(value as u8)),
                None => None,
            }
        } else if kind == "TEXT"@ {
            match text_member(members, "value"@) {
                Some(value) => Some(ParameterView::Text(value)),
                None => None,
            }
        } else {
            None
        },
        None => None,
    }
}

/// The data field that the members of an object stand for, if they stand
/// for one.
pub open spec fn data_of_members(members: Map<Seq<char>, JsonTree>) -> Option<DataView> {
    match (text_member(members, "title"@), parameter_of(members)) {
        (Some(title), Some(parameter)) => Some(DataView { title, parameter }),
        _ => None,
    }
}

/// The data field that a JSON value stands for, if it stands for one.
pub open spec fn data_of(tree: JsonTree) -> Option<DataView> {
    match tree {
        JsonTree::Object(members) => data_of_members(members),
        _ => None,
    }
}

/// The data fields that the items of an array stand for, if each stands for
/// one.
pub open spec fn all_data_of(items: Seq<JsonTree>) -> Option<Seq<DataView>> {
    if forall|at: int| 0 <= at < items.len() ==> (#[trigger] data_of(items[at])) is Some {
        Some(items.map_values(|item: JsonTree| data_of(item)->0))
    } else {
        None
    }
}

/// The data fields of a member that may be absent; where it is there it has
/// to be an array of data fields. `None` stands for a member that is none.
pub open spec fn optional_data_member(
    members: Map<Seq<char>, JsonTree>,
    name: Seq<char>,
) -> Option<Option<Seq<DataView>>> {
    match present(members, name) {
        Some(JsonTree::Array(items)) => match all_data_of(items) {
            Some(data) => Some(Some(data)),
            None => None,
        },
        Some(_) => None,
        None => Some(None),
    }
}

/// The result of a member that may be absent; where it is there it has to
/// be the wire name of a result.
pub open spec fn optional_result_member(
    members: Map<Seq<char>, JsonTree>,
    name: Seq<char>,
) -> Option<Option<ReportResult>> {
    match optional_text_member(members, name) {
        Some(Some(text)) => match ReportResult::from_wire_name(text) {
            Some(result) => Some(Some(result)),
            None => None,
        },
        Some(None) => Some(None),
        None => None,
    }
}

/// The report type of a member that may be absent; where it is there it has
/// to be the wire name of a report type.
pub open spec fn optional_type_member(
    members: Map<Seq<char>, JsonTree>,
    name: Seq<char>,
) -> Option<Option<ReportType>> {
    match optional_text_member(members, name) {
        Some(Some(text)) => match ReportType::from_wire_name(text) {
            Some(report_type) => Some(Some(report_type)),
            None => None,
        },
        Some(None) => Some(None),
        None => None,
    }
}

/// The report that the members of an object stand for, if they stand for
/// one: the title has to be there, each other field may be absent, and each
/// field that is there has to be of its JSON type. Other members are not
/// looked at, and no limit is checked.
pub open spec fn report_of_members(members: Map<Seq<char>, JsonTree>) -> Option<ReportView> {
    match (
        text_member(members, "title"@),
        optional_text_member(members, "details"@),
        optional_result_member(members, "result"@),
        optional_data_member(members, "data"@),
        optional_text_member(members, "reporter"@),
        optional_text_member(members, "link"@),
        optional_text_member(members, "logoUrl"@),
        optional_type_member(members, "reportType"@),
    ) {
        (
            Some(title),
            Some(details),
            Some(result),
            Some(data),
            Some(reporter),
            Some(link),
            Some(logo_url),
            Some(report_type),
        ) => Some(
            ReportView { title, details, result, data, reporter, link, logo_url, report_type },
        ),
        _ => None,
    }
}

/// The report that a JSON value stands for, if it stands for one.
pub open spec fn report_of(tree: JsonTree) -> Option<ReportView> {
    match tree {
        JsonTree::Object(members) => report_of_members(members),
        _ => None,
    }
}

impl Parameter {
    /// Reads the parameter that the members `type` and `value` of an object
    /// stand for.
    pub fn from_members(members: &serde_json::Map<String, serde_json::Value>) -> (parameter:
        Result<Parameter, Error>)
        ensures
            match parameter_of(members_of(*members)) {
                Some(expected) => parameter matches Ok(parameter) && parameter@ == expected,
                None => parameter matches Err(error) && error is SerdeError,
            },
    {
        let kind = read_text(members, "type")?;
        let kind = kind.as_str();
        if same_text(kind, "BOOLEAN") {
            Ok(Parameter::Boolean(read_flag(members, "value")?))
        } else if same_text(kind, "DATE") {
            Ok(Parameter::Date(read_unsigned(members, "value", u64::MAX)?))
        } else if same_text(kind, "DURATION") {
            Ok(Parameter::Duration(read_unsigned(members, "value", u64::MAX)?))
        } else if same_text(kind, "LINK") {
            let link = read_object(members, "value")?;
            let linktext = read_text(link, "linktext")?;
            let href = read_text(link, "href")?;
            Ok(Parameter::Link { linktext, href })
        } else if same_text(kind, "NUMBER") {
            Ok(Parameter::Number(read_number(members, "value")?))
        } else if same_text(kind, "PERCENTAGE") {
            let value = read_unsigned(members, "value", 255)?;
            Ok(Parameter::Percentage(value as u8))
        } else if same_text(kind, "TEXT") {
            Ok(Parameter::Text(read_text(members, "value")?))
        } else {
            Err(wrong_shape("unknown kind of parameter"))
        }
    }
}

impl Data {
    /// Reads the data field that a JSON value stands for.
    pub fn from_json_value(value: &serde_json::Value) -> (field: Result<Data, Error>)
        ensures
            match data_of(tree(*value)) {
                Some(expected) => field matches Ok(field) && field@ == expected,
                None => field matches Err(error) && error is SerdeError,
            },
    {
        match as_members(value) {
            Some(members) => {
                let title = read_text(members, "title")?;
                let parameter = Parameter::from_members(members)?;
                Ok(Data { title, parameter })
            },
            None => Err(wrong_shape("expected an object")),
        }
    }
}

/// The report that a text stands for, if it is the JSON of one.
pub open spec fn report_of_text(text: Seq<char>) -> Option<ReportView> {
    match parsed(text) {
        Some(tree) => report_of(tree),
        None => None,
    }
}

/// Reads the data fields of a member that may be absent and otherwise has to
/// be an array of data fields.
pub fn read_optional_data(
    members: &serde_json::Map<String, serde_json::Value>,
    name: &str,
) -> (data: Result<Option<Vec<Data>>, Error>)
    ensures
        match optional_data_member(members_of(*members), name@) {
            Some(expected) => data matches Ok(data) && optional_data(data)
                == expected,
            None => data matches Err(error) && error is SerdeError,
        },
{
    let value = match find(members, name) {
        Some(value) => value,
        None => {
            return Ok(None);
        },
    };
    let items = match as_items(value) {
        Some(items) => items,
        None => {
            return Err(wrong_shape("expected an array"));
        },
    };
    let ghost trees = items@.map_values(|item: serde_json::Value| tree(item));
    let mut data: Vec<Data> = Vec::new();
    let mut index: usize = 0;
    while index < items.len()
        invariant
            index <= items.len(),
            data@.len() == index,
            trees == items@.map_values(|item: serde_json::Value| tree(item)),
            present(members_of(*members), name@) == Some(JsonTree::Array(trees)),
            forall|at: int|
                0 <= at < index ==> data_of(#[trigger] trees[at]) == Some(data@[at]@),
        decreases items.len() - index,
    {
        match Data::from_json_value(&items[index]) {
            Ok(field) => {
                data.push(field);
            },
            Err(error) => {
                assert(data_of(trees[index as int]) is None);
                assert(all_data_of(trees) is None);
                return Err(error);
            },
        }
        index += 1;
    }
    assert(data_views(data@) =~= trees.map_values(|item: JsonTree| data_of(item)->0));
    Ok(Some(data))
}

impl Report {
    /// Reads the report that a JSON text stands for. No limit is checked;
    /// serialization checks them.
    pub fn from_json_str(text: &str) -> (report: Result<Report, Error>)
        ensures
            match report_of_text(text@) {
                Some(expected) => report matches Ok(report) && report@ == expected,
                None => report matches Err(error) && error is SerdeError,
            },
    {
        let value = read_json(text)?;
        Report::from_json_value(&value)
    }

    /// Reads the report that a JSON value stands for. No limit is checked;
    /// serialization checks them.
    pub fn from_json_value(value: &serde_json::Value) -> (report: Result<Report, Error>)
        ensures
            match report_of(tree(*value)) {
                Some(expected) => report matches Ok(report) && report@ == expected,
                None => report matches Err(error) && error is SerdeError,
            },
    {
        let members = match as_members(value) {
            Some(members) => members,
            None => {
                return Err(wrong_shape("expected an object"));
            },
        };
        let title = read_text(members, "title")?;
        let details = read_optional_text(members, "details")?;
        let result = match read_optional_text(members, "result")? {
            Some(name) => match ReportResult::parse(name.as_str()) {
                Some(result) => Some(result),
                None => {
                    return Err(wrong_shape("unknown result"));
                },
            },
            None => None,
        };
        let data = read_optional_data(members, "data")?;
        let reporter = read_optional_text(members, "reporter")?;
        let link = read_optional_text(members, "link")?;
        let logo_url = read_optional_text(members, "logoUrl")?;
        let report_type = match read_optional_text(members, "reportType")? {
            Some(name) => match ReportType::parse(name.as_str()) {
                Some(report_type) => Some(report_type),
                None => {
                    return Err(wrong_shape("unknown report type"));
                },
            },
            None => None,
        };
        Ok(Report { title, details, result, data, reporter, link, logo_url, report_type })
    }
}

/// The names of the members of a parameter, a link and a data field differ
/// from each other, and so do the tags of the kinds.
proof fn lemma_parameter_names_differ()
    ensures
        "type"@ != "value"@,
        "type"@ != "title"@,
        "value"@ != "title"@,
        "linktext"@ != "href"@,
        "BOOLEAN"@ != "DATE"@,
        "BOOLEAN"@ != "DURATION"@,
        "BOOLEAN"@ != "LINK"@,
        "BOOLEAN"@ != "NUMBER"@,
        "BOOLEAN"@ != "PERCENTAGE"@,
        "BOOLEAN"@ != "TEXT"@,
        "DATE"@ != "DURATION"@,
        "DATE"@ != "LINK"@,
        "DATE"@ != "NUMBER"@,
        "DATE"@ != "PERCENTAGE"@,
        "DATE"@ != "TEXT"@,
        "DURATION"@ != "LINK"@,
        "DURATION"@ != "NUMBER"@,
        "DURATION"@ != "PERCENTAGE"@,
        "DURATION"@ != "TEXT"@,
        "LINK"@ != "NUMBER"@,
        "LINK"@ != "PERCENTAGE"@,
        "LINK"@ != "TEXT"@,
        "NUMBER"@ != "PERCENTAGE"@,
        "NUMBER"@ != "TEXT"@,
        "PERCENTAGE"@ != "TEXT"@,
{
    reveal_strlit("type");
    reveal_strlit("value");
    reveal_strlit("title");
    reveal_strlit("linktext");
    reveal_strlit("href");
    reveal_strlit("BOOLEAN");
    reveal_strlit("DATE");
    reveal_strlit("DURATION");
    reveal_strlit("LINK");
    reveal_strlit("NUMBER");
    reveal_strlit("PERCENTAGE");
    reveal_strlit("TEXT");
    assert("type"@.len() != "value"@.len());
    assert("type"@.len() != "title"@.len());
    assert("value"@[0] != "title"@[0]);
    assert("linktext"@.len() != "href"@.len());
    assert("BOOLEAN"@.len() != "DATE"@.len());
    assert("BOOLEAN"@.len() != "DURATION"@.len());
    assert("BOOLEAN"@.len() != "LINK"@.len());
    assert("BOOLEAN"@.len() != "NUMBER"@.len());
    assert("BOOLEAN"@.len() != "PERCENTAGE"@.len());
    assert("BOOLEAN"@.len() != "TEXT"@.len());
    assert("DATE"@.len() != "DURATION"@.len());
    assert("DATE"@[0] != "LINK"@[0]);
    assert("DATE"@.len() != "NUMBER"@.len());
    assert("DATE"@.len() != "PERCENTAGE"@.len());
    assert("DATE"@[0] != "TEXT"@[0]);
    assert("DURATION"@.len() != "LINK"@.len());
    assert("DURATION"@.len() != "NUMBER"@.len());
    assert("DURATION"@.len() != "PERCENTAGE"@.len());
    assert("DURATION"@.len() != "TEXT"@.len());
    assert("LINK"@.len() != "NUMBER"@.len());
    assert("LINK"@.len() != "PERCENTAGE"@.len());
    assert("LINK"@[0] != "TEXT"@[0]);
    assert("NUMBER"@.len() != "PERCENTAGE"@.len());
    assert("NUMBER"@.len() != "TEXT"@.len());
    assert("PERCENTAGE"@.len() != "TEXT"@.len());
}

/// Reading the members of a parameter beside any others gives the parameter
/// back.
pub proof fn law_parameter_round_trip(parameter: ParameterView, members: Map<Seq<char>, JsonTree>)
    ensures
        parameter_of(parameter.beside(members)) == Some(parameter),
{
    lemma_parameter_names_differ();
    let written = parameter.beside(members);
    assert(present(written, "type"@) == Some(JsonTree::Text(parameter.kind_name())));
    assert(present(written, "value"@) == Some(parameter.value_tree()));
    match parameter {
        ParameterView::Link { linktext, href } => {
            let link = Map::<Seq<char>, JsonTree>::empty().insert(
                "linktext"@,
                JsonTree::Text(linktext),
            ).insert("href"@, JsonTree::Text(href));
            assert(present(link, "linktext"@) == Some(JsonTree::Text(linktext)));
            assert(present(link, "href"@) == Some(JsonTree::Text(href)));
        },
        _ => {},
    }
}

/// Reading a data field back from its JSON value gives the data field.
pub proof fn law_data_round_trip(field: DataView)
    ensures
        data_of(field.tree()) == Some(field),
{
    lemma_parameter_names_differ();
    let titled = Map::<Seq<char>, JsonTree>::empty().insert(
        "title"@,
        JsonTree::Text(field.title),
    );
    law_parameter_round_trip(field.parameter, titled);
    assert(present(field.parameter.beside(titled), "title"@) == Some(
        JsonTree::Text(field.title),
    ));
}

/// Reading data fields back from their JSON values gives the data fields.
pub proof fn law_all_data_round_trip(data: Seq<DataView>)
    ensures
        all_data_of(data_trees(data)) == Some(data),
{
    let trees = data_trees(data);
    assert forall|at: int| 0 <= at < trees.len() implies (#[trigger] data_of(trees[at])) == Some(
        data[at],
    ) by {
        law_data_round_trip(data[at]);
    }
    assert(trees.map_values(|item: JsonTree| data_of(item)->0) =~= data);
}

/// The names of the members of a report differ from each other.
proof fn lemma_report_names_differ()
    ensures
        "title"@ != "details"@,
        "title"@ != "result"@,
        "title"@ != "data"@,
        "title"@ != "reporter"@,
        "title"@ != "link"@,
        "title"@ != "logoUrl"@,
        "title"@ != "reportType"@,
        "details"@ != "result"@,
        "details"@ != "data"@,
        "details"@ != "reporter"@,
        "details"@ != "link"@,
        "details"@ != "logoUrl"@,
        "details"@ != "reportType"@,
        "result"@ != "data"@,
        "result"@ != "reporter"@,
        "result"@ != "link"@,
        "result"@ != "logoUrl"@,
        "result"@ != "reportType"@,
        "data"@ != "reporter"@,
        "data"@ != "link"@,
        "data"@ != "logoUrl"@,
        "data"@ != "reportType"@,
        "reporter"@ != "link"@,
        "reporter"@ != "logoUrl"@,
        "reporter"@ != "reportType"@,
        "link"@ != "logoUrl"@,
        "link"@ != "reportType"@,
        "logoUrl"@ != "reportType"@,
{
    reveal_strlit("title");
    reveal_strlit("details");
    reveal_strlit("result");
    reveal_strlit("data");
    reveal_strlit("reporter");
    reveal_strlit("link");
    reveal_strlit("logoUrl");
    reveal_strlit("reportType");
    assert("title"@.len() != "details"@.len());
    assert("title"@.len() != "result"@.len());
    assert("title"@.len() != "data"@.len());
    assert("title"@.len() != "reporter"@.len());
    assert("title"@.len() != "link"@.len());
    assert("title"@.len() != "logoUrl"@.len());
    assert("title"@.len() != "reportType"@.len());
    assert("details"@.len() != "result"@.len());
    assert("details"@.len() != "data"@.len());
    assert("details"@.len() != "reporter"@.len());
    assert("details"@.len() != "link"@.len());
    assert("details"@[0] != "logoUrl"@[0]);
    assert("details"@.len() != "reportType"@.len());
    assert("result"@.len() != "data"@.len());
    assert("result"@.len() != "reporter"@.len());
    assert("result"@.len() != "link"@.len());
    assert("result"@.len() != "logoUrl"@.len());
    assert("result"@.len() != "reportType"@.len());
    assert("data"@.len() != "reporter"@.len());
    assert("data"@[0] != "link"@[0]);
    assert("data"@.len() != "logoUrl"@.len());
    assert("data"@.len() != "reportType"@.len());
    assert("reporter"@.len() != "link"@.len());
    assert("reporter"@.len() != "logoUrl"@.len());
    assert("reporter"@.len() != "reportType"@.len());
    assert("link"@.len() != "logoUrl"@.len());
    assert("link"@.len() != "reportType"@.len());
    assert("logoUrl"@.len() != "reportType"@.len());
}

/// Reading a report back from its JSON value gives the report, so that
/// serializing what was read gives the same value and the same text again.
pub proof fn law_report_round_trip(report: ReportView)
    ensures
        report_of(report.tree()) == Some(report),
        report_of(report.tree()) matches Some(read) && read.tree() == report.tree() && read.json()
            == report.json(),
{
    lemma_report_names_differ();
    let m0 = Map::<Seq<char>, JsonTree>::empty().insert("title"@, JsonTree::Text(report.title));
    let v1 = optional_text_tree(report.details);
    let m1 = with_optional(m0, "details"@, v1);
    let v2 = optional_text_tree(optional_result_name(report.result));
    let m2 = with_optional(m1, "result"@, v2);
    let v3 = optional_data_tree(report.data);
    let m3 = with_optional(m2, "data"@, v3);
    let v4 = optional_text_tree(report.reporter);
    let m4 = with_optional(m3, "reporter"@, v4);
    let v5 = optional_text_tree(report.link);
    let m5 = with_optional(m4, "link"@, v5);
    let v6 = optional_text_tree(report.logo_url);
    let m6 = with_optional(m5, "logoUrl"@, v6);
    let v7 = optional_text_tree(optional_type_name(report.report_type));
    let m7 = with_optional(m6, "reportType"@, v7);
    assert(report.member_trees() == m7);
    assert(present(m7, "title"@) == Some(JsonTree::Text(report.title)));
    assert(present(m7, "details"@) == v1);
    assert(present(m7, "result"@) == v2);
    assert(present(m7, "data"@) == v3);
    assert(present(m7, "reporter"@) == v4);
    assert(present(m7, "link"@) == v5);
    assert(present(m7, "logoUrl"@) == v6);
    assert(present(m7, "reportType"@) == v7);
    if let Some(result) = report.result {
        result.law_wire_name_round_trip();
    }
    if let Some(report_type) = report.report_type {
        report_type.law_wire_name_round_trip();
    }
    if let Some(data) = report.data {
        law_all_data_round_trip(data);
    }
    assert(optional_text_member(m7, "details"@) == Some(report.details));
    assert(optional_result_member(m7, "result"@) == Some(report.result));
    assert(optional_data_member(m7, "data"@) == Some(report.data));
    assert(optional_text_member(m7, "reporter"@) == Some(report.reporter));
    assert(optional_text_member(m7, "link"@) == Some(report.link));
    assert(optional_text_member(m7, "logoUrl"@) == Some(report.logo_url));
    assert(optional_type_member(m7, "reportType"@) == Some(report.report_type));
}

/// Where the parser reads the text of a report as the value of that report,
/// reading the text gives the report back.
pub proof fn law_report_text_round_trip(report: ReportView)
    ensures
        parsed(report.json()) == Some(report.tree()) ==> report_of_text(report.json()) == Some(
            report,
        ),
{
    law_report_round_trip(report);
}

} // verus!
