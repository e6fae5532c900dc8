//! The report as JSON text.

use vstd::prelude::*;

use crate::error::Error;
use crate::json::encoder::render_number;
use crate::json::text::{
    are_written, array, boolean, decimal, is_written, member, number, object, optional_member,
    optional_quotable, optional_quoted, optional_tag, quotable, quoted, tag, texts, with_member,
    with_quoted_member, with_tag_member, write_array, write_boolean, write_decimal,
    write_member, write_object, write_quoted, write_tag,
};
use crate::report::{
    data_views, report_violation, Data, DataView, Parameter, ParameterView, Report, ReportResult,
    ReportType, ReportView,
};

verus! {

impl ParameterView {
    /// Whether the encoder writes every text of the parameter.
    pub open spec fn quotable(self) -> bool {
        match self {
            ParameterView::Link { linktext, href } => quotable(linktext) && quotable(href),
            ParameterView::Text(value) => quotable(value),
            _ => true,
        }
    }

    /// The JSON text of the value: an object for a link, else a scalar.
    pub open spec fn value_json(self) -> Seq<char> {
        match self {
            ParameterView::Boolean(value) => boolean(value),
            ParameterView::Date(value) => decimal(value as nat),
            ParameterView::Duration(value) => decimal(value as nat),
            ParameterView::Link { linktext, href } => object(
                seq![member("linktext"@, quoted(linktext)), member("href"@, quoted(href))],
            ),
            ParameterView::Number(value) => number(value),
            ParameterView::Percentage(value) => decimal(value as nat),
            ParameterView::Text(value) => quoted(value),
        }
    }

    /// The two members of a parameter: its tag under `type` and its value
    /// under `value`.
    pub open spec fn members(self) -> Seq<Seq<char>> {
        seq![member("type"@, tag(self.kind_name())), member("value"@, self.value_json())]
    }

    /// A parameter on its own, as a JSON object.
    pub open spec fn json(self) -> Seq<char> {
        object(self.members())
    }
}

impl DataView {
    /// Whether the encoder writes every text of the data field.
    pub open spec fn quotable(self) -> bool {
        quotable(self.title) && self.parameter.quotable()
    }

    /// A data field as a JSON object: its title, then the members of its
    /// parameter beside it.
    pub open spec fn json(self) -> Seq<char> {
        object(seq![member("title"@, quoted(self.title))] + self.parameter.members())
    }
}

/// Whether the encoder writes every text of every data field.
pub open spec fn all_quotable(data: Seq<DataView>) -> bool {
    forall|at: int| 0 <= at < data.len() ==> (#[trigger] data[at]).quotable()
}

/// Whether the data fields are absent or the encoder writes every text of
/// them.
pub open spec fn optional_data_quotable(data: Option<Seq<DataView>>) -> bool {
    data matches Some(data) ==> all_quotable(data)
}

/// The JSON texts of a sequence of data fields.
pub open spec fn data_items(data: Seq<DataView>) -> Seq<Seq<char>> {
    data.map_values(|field: DataView| field.json())
}

/// The JSON array of an optional sequence of data fields.
pub open spec fn optional_data_json(data: Option<Seq<DataView>>) -> Option<Seq<char>> {
    match data {
        Some(data) => Some(array(data_items(data))),
        None => None,
    }
}

/// The wire name of an optional result.
pub open spec fn optional_result_name(result: Option<ReportResult>) -> Option<Seq<char>> {
    match result {
        Some(result) => Some(result.wire_name()),
        None => None,
    }
}

/// The wire name of an optional report type.
pub open spec fn optional_type_name(report_type: Option<ReportType>) -> Option<Seq<char>> {
    match report_type {
        Some(report_type) => Some(report_type.wire_name()),
        None => None,
    }
}

impl ReportView {
    /// Whether the encoder writes every text of the report.
    pub open spec fn quotable(self) -> bool {
        &&& quotable(self.title)
        &&& optional_quotable(self.details)
        &&& optional_data_quotable(self.data)
        &&& optional_quotable(self.reporter)
        &&& optional_quotable(self.link)
        &&& optional_quotable(self.logo_url)
    }

    /// The members of a report on the wire: the title, then each optional
    /// field that is present, in this order. An absent field has no member.
    pub open spec fn members(self) -> Seq<Seq<char>> {
        seq![member("title"@, quoted(self.title))] + optional_member(
            "details"@,
            optional_quoted(self.details),
        ) + optional_member("result"@, optional_tag(optional_result_name(self.result)))
            + optional_member("data"@, optional_data_json(self.data)) + optional_member(
            "reporter"@,
            optional_quoted(self.reporter),
        ) + optional_member("link"@, optional_quoted(self.link)) + optional_member(
            "logoUrl"@,
            optional_quoted(self.logo_url),
        ) + optional_member("reportType"@, optional_tag(optional_type_name(self.report_type)))
    }

    /// A report as a JSON object.
    pub open spec fn json(self) -> Seq<char> {
        object(self.members())
    }
}

/// A report with no optional field is written as an object with the one
/// member `title`.
pub proof fn law_absent_fields_are_omitted(report: ReportView)
    requires
        report.details is None,
        report.result is None,
        report.data is None,
        report.reporter is None,
        report.link is None,
        report.logo_url is None,
        report.report_type is None,
    ensures
        report.json() == object(seq![member("title"@, quoted(report.title))]),
{
    assert(report.members() =~= seq![member("title"@, quoted(report.title))]);
}

impl Parameter {
    /// Writes the value as JSON. Only a text or a link goes through the
    /// encoder's escaping, so only they can fail.
    pub fn value_json(&self) -> (text: Result<String, Error>)
        ensures
            is_written(text, self@.quotable(), self@.value_json()),
    {
        match self {
            Parameter::Boolean(value) => Ok(write_boolean(*value)),
            Parameter::Date(value) => Ok(write_decimal(*value)),
            Parameter::Duration(value) => Ok(write_decimal(*value)),
            Parameter::Link { linktext, href } => {
                let linktext = write_quoted(linktext.as_str())?;
                let href = write_quoted(href.as_str())?;
                let mut members: Vec<String> = Vec::new();
                members.push(write_member("linktext", linktext.as_str()));
                members.push(write_member("href", href.as_str()));
                assert(texts(members@) =~= seq![
                    member("linktext"@, linktext@),
                    member("href"@, href@),
                ]);
                Ok(write_object(&members))
            },
            Parameter::Number(value) => Ok(render_number(value)),
            Parameter::Percentage(value) => Ok(write_decimal(*value as u64)),
            Parameter::Text(value) => write_quoted(value.as_str()),
        }
    }

    /// Adds the two members of the parameter to those of an object.
    pub fn with_members(&self, members: Vec<String>) -> (extended: Result<Vec<String>, Error>)
        ensures
            are_written(extended, self@.quotable(), texts(members@) + self@.members()),
    {
        let value = self.value_json()?;
        let mut extended = members;
        extended.push(write_member("type", write_tag(self.kind_name()).as_str()));
        extended.push(write_member("value", value.as_str()));
        assert(texts(extended@) =~= texts(members@) + self@.members());
        Ok(extended)
    }

    /// Writes the parameter on its own, as a JSON object.
    pub fn to_json_string(&self) -> (text: Result<String, Error>)
        ensures
            is_written(text, self@.quotable(), self@.json()),
    {
        let members = self.with_members(Vec::new())?;
        assert(texts(members@) =~= self@.members());
        Ok(write_object(&members))
    }
}

impl Data {
    /// Writes the data field as a JSON object.
    pub fn to_json_string(&self) -> (text: Result<String, Error>)
        ensures
            is_written(text, self@.quotable(), self@.json()),
    {
        let title = write_quoted(self.title.as_str())?;
        let mut members: Vec<String> = Vec::new();
        members.push(write_member("title", title.as_str()));
        let members = self.parameter.with_members(members)?;
        assert(texts(members@) =~= seq![member("title"@, quoted(self.title@))]
            + self.parameter@.members());
        Ok(write_object(&members))
    }
}

/// Writes a sequence of data fields as a JSON array.
pub fn write_data(data: &Vec<Data>) -> (text: Result<String, Error>)
    ensures
        is_written(
            text,
            all_quotable(data_views(data@)),
            array(data_items(data_views(data@))),
        ),
{
    let mut items: Vec<String> = Vec::new();
    let mut index: usize = 0;
    while index < data.len()
        invariant
            index <= data.len(),
            items@.len() == index,
            forall|at: int|
                0 <= at < index ==> (#[trigger] data_views(data@)[at]).quotable() && items@[at]@
                    == data@[at]@.json(),
        decreases data.len() - index,
    {
        match data[index].to_json_string() {
            Ok(item) => {
                items.push(item);
            },
            Err(error) => {
                assert(!data_views(data@)[index as int].quotable());
                return Err(error);
            },
        }
        index += 1;
    }
    assert(texts(items@) =~= data_items(data_views(data@)));
    Ok(write_array(&items))
}

impl Report {
    /// Writes the report as a JSON object, without looking at its limits.
    fn write_json(&self) -> (text: Result<String, Error>)
        ensures
            is_written(text, self@.quotable(), self@.json()),
    {
        let title = write_quoted(self.title.as_str())?;
        let mut members: Vec<String> = Vec::new();
        members.push(write_member("title", title.as_str()));
        assert(texts(members@) =~= seq![member("title"@, quoted(self.title@))]);
        let members = with_quoted_member(members, "details", &self.details)?;
        let result = match &self.result {
            Some(result) => Some(result.as_str()),
            None => None,
        };
        let members = with_tag_member(members, "result", result);
        let data = match &self.data {
            Some(data) => Some(write_data(data)?),
            None => None,
        };
        let members = with_member(members, "data", data);
        let members = with_quoted_member(members, "reporter", &self.reporter)?;
        let members = with_quoted_member(members, "link", &self.link)?;
        let members = with_quoted_member(members, "logoUrl", &self.logo_url)?;
        let report_type = match &self.report_type {
            Some(report_type) => Some(report_type.as_str()),
            None => None,
        };
        let members = with_tag_member(members, "reportType", report_type);
        Ok(write_object(&members))
    }

    /// Serializes the report as JSON text, after validating it once more.
    ///
    /// A report that exceeds a limit gives the error of the first limit
    /// exceeded. Otherwise the text is the report's JSON object, or an error
    /// of the encoder where it fails on one of the report's texts.
    pub fn to_json_string(&self) -> (text: Result<String, Error>)
        ensures
            match report_violation(self@) {
                Some(violation) => text matches Err(error) && error.reports(violation),
                None => is_written(text, self@.quotable(), self@.json()),
            },
    {
        match self.validate_fields() {
            Err(error) => Err(error),
            Ok(()) => self.write_json(),
        }
    }
}

impl TryFrom<Report> for String {
    type Error = Error;

    /// Serializes the report as JSON text, as `Report::to_json_string` does.
    fn try_from(value: Report) -> (text: Result<String, Error>)
        ensures
            match report_violation(value@) {
                Some(violation) => text matches Err(error) && error.reports(violation),
                None => is_written(text, value@.quotable(), value@.json()),
            },
    {
        value.to_json_string()
    }
}

/// No spec function gives the error that comes where the encoder fails; the
/// contract of `try_from` states what holds.
impl vstd::std_specs::convert::TryFromSpecImpl<Report> for String {
    open spec fn obeys_try_from_spec() -> bool {
        false
    }

    open spec fn try_from_spec(value: Report) -> Result<String, Error> {
        arbitrary()
    }
}

} // verus!
