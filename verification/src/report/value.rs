//! The report as a JSON value.

use vstd::prelude::*;

use crate::error::Error;
use crate::json::encoder::{
    json_array, json_bool, json_number, json_object, json_text, json_unsigned, members_of,
    no_members, put_member, tree,
};
use crate::json::tree::{
    optional_text_tree, put_optional_text, unsigned, with_optional, JsonTree,
};
use crate::report::text::{optional_result_name, optional_type_name};
use crate::report::{
    data_views, report_violation, Data, DataView, Parameter, ParameterView, Report, ReportView,
};
use crate::validation::borrowed_text;

verus! {

impl ParameterView {
    /// The value as a JSON value: an object for a link, else a scalar.
    pub open spec fn value_tree(self) -> JsonTree {
        match self {
            ParameterView::Boolean(value) => JsonTree::Bool(value),
            ParameterView::Date(value) => unsigned(value as nat),
            ParameterView::Duration(value) => unsigned(value as nat),
            ParameterView::Link { linktext, href } => JsonTree::Object(
                Map::empty().insert("linktext"@, JsonTree::Text(linktext)).insert(
                    "href"@,
                    JsonTree::Text(href),
                ),
            ),
            ParameterView::Number(value) => JsonTree::Number(value),
            ParameterView::Percentage(value) => unsigned(value as nat),
            ParameterView::Text(value) => JsonTree::Text(value),
        }
    }

    /// The members of an object with those of the parameter beside them:
    /// its tag under `type` and its value under `value`.
    pub open spec fn beside(self, members: Map<Seq<char>, JsonTree>) -> Map<
        Seq<char>,
        JsonTree,
    > {
        members.insert("type"@, JsonTree::Text(self.kind_name())).insert(
            "value"@,
            self.value_tree(),
        )
    }

    /// A parameter on its own, as a JSON value.
    pub open spec fn tree(self) -> JsonTree {
        JsonTree::Object(self.beside(Map::empty()))
    }
}

impl DataView {
    /// A data field as a JSON value: an object with its title and, beside
    /// it, the members of its parameter.
    pub open spec fn tree(self) -> JsonTree {
        JsonTree::Object(
            self.parameter.beside(Map::empty().insert("title"@, JsonTree::Text(self.title))),
        )
    }
}

/// The JSON values of a sequence of data fields.
pub open spec fn data_trees(data: Seq<DataView>) -> Seq<JsonTree> {
    data.map_values(|field: DataView| field.tree())
}

/// The JSON array of an optional sequence of data fields, as a value.
pub open spec fn optional_data_tree(data: Option<Seq<DataView>>) -> Option<JsonTree> {
    match data {
        Some(data) => Some(JsonTree::Array(data_trees(data))),
        None => None,
    }
}

impl ReportView {
    /// The members of a report as JSON values, by name: the title, and each
    /// optional field that is present. An absent field has no member.
    pub open spec fn member_trees(self) -> Map<Seq<char>, JsonTree> {
        let members = Map::empty().insert("title"@, JsonTree::Text(self.title));
        let members = with_optional(members, "details"@, optional_text_tree(self.details));
        let members = with_optional(
            members,
            "result"@,
            optional_text_tree(optional_result_name(self.result)),
        );
        let members = with_optional(members, "data"@, optional_data_tree(self.data));
        let members = with_optional(members, "reporter"@, optional_text_tree(self.reporter));
        let members = with_optional(members, "link"@, optional_text_tree(self.link));
        let members = with_optional(members, "logoUrl"@, optional_text_tree(self.logo_url));
        with_optional(
            members,
            "reportType"@,
            optional_text_tree(optional_type_name(self.report_type)),
        )
    }

    /// A report as a JSON value.
    pub open spec fn tree(self) -> JsonTree {
        JsonTree::Object(self.member_trees())
    }
}

/// A report with no optional field is an object with the one member
/// `title`.
pub proof fn law_absent_fields_have_no_member(report: ReportView)
    requires
        report.details is None,
        report.result is None,
        report.data is None,
        report.reporter is None,
        report.link is None,
        report.logo_url is None,
        report.report_type is None,
    ensures
        report.member_trees().dom() == set!["title"@],
        report.member_trees()["title"@] == JsonTree::Text(report.title),
{
    assert(report.member_trees().dom() =~= set!["title"@]);
}

impl Parameter {
    /// The value as a JSON value.
    pub fn value_to_json(&self) -> (json: serde_json::Value)
        ensures
            tree(json) == self@.value_tree(),
    {
        match self {
            Parameter::Boolean(value) => json_bool(*value),
            Parameter::Date(value) => json_unsigned(*value),
            Parameter::Duration(value) => json_unsigned(*value),
            Parameter::Link { linktext, href } => {
                let mut members = no_members();
                put_member(&mut members, "linktext", json_text(linktext.as_str()));
                put_member(&mut members, "href", json_text(href.as_str()));
                json_object(members)
            },
            Parameter::Number(value) => json_number(value),
            Parameter::Percentage(value) => json_unsigned(*value as u64),
            Parameter::Text(value) => json_text(value.as_str()),
        }
    }

    /// Puts the two members of the parameter beside those of an object.
    pub fn put_beside(&self, members: &mut serde_json::Map<String, serde_json::Value>)
        ensures
            members_of(*final(members)) == self@.beside(members_of(*old(members))),
    {
        put_member(members, "type", json_text(self.kind_name()));
        put_member(members, "value", self.value_to_json());
    }

    /// The parameter on its own, as a JSON value.
    pub fn to_json_value(&self) -> (json: serde_json::Value)
        ensures
            tree(json) == self@.tree(),
    {
        let mut members = no_members();
        self.put_beside(&mut members);
        json_object(members)
    }
}

impl Data {
    /// The data field as a JSON value.
    pub fn to_json_value(&self) -> (json: serde_json::Value)
        ensures
            tree(json) == self@.tree(),
    {
        let mut members = no_members();
        put_member(&mut members, "title", json_text(self.title.as_str()));
        self.parameter.put_beside(&mut members);
        json_object(members)
    }
}

/// A sequence of data fields as a JSON array.
pub fn data_to_json(data: &Vec<Data>) -> (json: serde_json::Value)
    ensures
        tree(json) == JsonTree::Array(data_trees(data_views(data@))),
{
    let mut items: Vec<serde_json::Value> = Vec::new();
    let mut index: usize = 0;
    while index < data.len()
        invariant
            index <= data.len(),
            items@.len() == index,
            forall|at: int| 0 <= at < index ==> tree(#[trigger] items@[at]) == data@[at]@.tree(),
        decreases data.len() - index,
    {
        items.push(data[index].to_json_value());
        index += 1;
    }
    assert(items@.map_values(|item: serde_json::Value| tree(item)) =~= data_trees(
        data_views(data@),
    ));
    json_array(items)
}

impl Report {
    /// The report as a JSON value, without looking at its limits.
    fn json_value(&self) -> (json: serde_json::Value)
        ensures
            tree(json) == self@.tree(),
    {
        let mut members = no_members();
        put_member(&mut members, "title", json_text(self.title.as_str()));
        put_optional_text(&mut members, "details", borrowed_text(&self.details));
        let result = match &self.result {
            Some(result) => Some(result.as_str()),
            None => None,
        };
        put_optional_text(&mut members, "result", result);
        match &self.data {
            Some(data) => put_member(&mut members, "data", data_to_json(data)),
            None => {},
        }
        put_optional_text(&mut members, "reporter", borrowed_text(&self.reporter));
        put_optional_text(&mut members, "link", borrowed_text(&self.link));
        put_optional_text(&mut members, "logoUrl", borrowed_text(&self.logo_url));
        let report_type = match &self.report_type {
            Some(report_type) => Some(report_type.as_str()),
            None => None,
        };
        put_optional_text(&mut members, "reportType", report_type);
        json_object(members)
    }

    /// Serializes the report as a JSON value, after validating it once more.
    ///
    /// A report that exceeds a limit gives the error of the first limit
    /// exceeded. Otherwise the value is the report's JSON object.
    pub fn to_json_value(&self) -> (json: Result<serde_json::Value, Error>)
        ensures
            match report_violation(self@) {
                Some(violation) => json matches Err(error) && error.reports(violation),
                None => json matches Ok(value) && tree(value) == self@.tree(),
            },
    {
        match self.validate_fields() {
            Err(error) => Err(error),
            Ok(()) => Ok(self.json_value()),
        }
    }
}

impl TryFrom<Report> for serde_json::Value {
    type Error = Error;

    /// Serializes the report as a JSON value, as `Report::to_json_value`
    /// does.
    fn try_from(value: Report) -> (json: Result<serde_json::Value, Error>)
        ensures
            match report_violation(value@) {
                Some(violation) => json matches Err(error) && error.reports(violation),
                None => json matches Ok(written) && tree(written) == value@.tree(),
            },
    {
        value.to_json_value()
    }
}

/// The contract of `try_from` states what the value holds; no spec function
/// gives the value itself.
impl vstd::std_specs::convert::TryFromSpecImpl<Report> for serde_json::Value {
    open spec fn obeys_try_from_spec() -> bool {
        false
    }

    open spec fn try_from_spec(value: Report) -> Result<serde_json::Value, Error> {
        arbitrary()
    }
}

} // verus!
