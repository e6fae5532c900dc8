//! The report: its fields, its limits, and its builder.

use vstd::prelude::*;

use crate::error::{Error, Violation};
use crate::json::encoder::number_view;
use crate::json::reading::same_text;
use crate::json::tree::NumberView;
use crate::validation::{
    check_length, check_optional_text, check_text, earliest, is_outcome, length_violation,
    optional_len, optional_text, optional_violation,
};

pub mod decode;
pub mod text;
pub mod value;

verus! {

/// Maximum length of a report title, in characters.
pub const TITLE_LIMIT: usize = 450;

/// Maximum length of a report's details, in characters.
pub const DETAILS_LIMIT: usize = 2000;

/// Maximum number of data fields.
pub const DATA_LIMIT: usize = 6;

/// Maximum length of a reporter, in characters.
pub const REPORTER_LIMIT: usize = 450;

/// Indicates whether a `Report` is in a passed or failed state.
#[derive(Debug, PartialEq, Eq)]
pub enum ReportResult {
    Pass,
    Fail,
}

/// The kind of analysis that a report comes from.
#[derive(Debug, PartialEq)]
pub enum ReportType {
    Security,
    Coverage,
    Test,
    Bug,
}

/// Describes the value of a `Data` field in a `Report`.
#[derive(Debug, PartialEq)]
pub enum Parameter {
    /// The value will be displayed as 'Yes' or 'No'.
    Boolean(bool),
    /// A Unix timestamp in milliseconds, displayed as a date.
    Date(u64),
    /// A duration in milliseconds, displayed in a human readable format.
    Duration(u64),
    /// A clickable link with the text `linktext`.
    Link { linktext: String, href: String },
    /// A JSON number; large numbers are displayed in a human readable format.
    Number(serde_json::Number),
    /// A number between 0 and 100, displayed with a percentage sign.
    Percentage(u8),
    /// Text that is displayed as it is.
    Text(String),
}

/// A data field: a labelled value in a report's summary.
#[derive(Debug, PartialEq)]
pub struct Data {
    /// A string describing what this data field represents.
    pub title: String,
    /// The value of the data field.
    pub parameter: Parameter,
}

/// What a `Parameter` holds, with its texts as sequences of characters.
pub enum ParameterView {
    Boolean(bool),
    Date(u64),
    Duration(u64),
    Link { linktext: Seq<char>, href: Seq<char> },
    Number(NumberView),
    Percentage(u8),
    Text(Seq<char>),
}

/// What a `Data` field holds.
pub struct DataView {
    pub title: Seq<char>,
    pub parameter: ParameterView,
}

/// What a report holds, in a `Report` as in a `ReportBuilder`.
pub struct ReportView {
    pub title: Seq<char>,
    pub details: Option<Seq<char>>,
    pub result: Option<ReportResult>,
    pub data: Option<Seq<DataView>>,
    pub reporter: Option<Seq<char>>,
    pub link: Option<Seq<char>>,
    pub logo_url: Option<Seq<char>>,
    pub report_type: Option<ReportType>,
}

impl View for Parameter {
    type V = ParameterView;

    open spec fn view(&self) -> ParameterView {
        match *self {
            Parameter::Boolean(value) => ParameterView::Boolean(value),
            Parameter::Date(value) => ParameterView::Date(value),
            Parameter::Duration(value) => ParameterView::Duration(value),
            Parameter::Link { linktext, href } => ParameterView::Link {
                linktext: linktext@,
                href: href@,
            },
            Parameter::Number(value) => ParameterView::Number(number_view(value)),
            Parameter::Percentage(value) => ParameterView::Percentage(value),
            Parameter::Text(value) => ParameterView::Text(value@),
        }
    }
}

impl View for Data {
    type V = DataView;

    open spec fn view(&self) -> DataView {
        DataView { title: self.title@, parameter: self.parameter@ }
    }
}

/// The views of a sequence of data fields.
pub open spec fn data_views(data: Seq<Data>) -> Seq<DataView> {
    data.map_values(|field: Data| field@)
}

/// The views of an optional sequence of data fields.
pub open spec fn optional_data(data: Option<Vec<Data>>) -> Option<Seq<DataView>> {
    match data {
        Some(data) => Some(data_views(data@)),
        None => None,
    }
}

/// The number of entries of an optional sequence of data fields.
pub open spec fn optional_count(data: Option<Seq<DataView>>) -> Option<nat> {
    match data {
        Some(data) => Some(data.len()),
        None => None,
    }
}

impl ReportResult {
    /// The name of the result on the wire.
    pub open spec fn wire_name(self) -> Seq<char> {
        match self {
            ReportResult::Pass => "PASS"@,
            ReportResult::Fail => "FAIL"@,
        }
    }

    /// The result that a name on the wire stands for.
    pub open spec fn from_wire_name(name: Seq<char>) -> Option<ReportResult> {
        if name == "PASS"@ {
            Some(ReportResult::Pass)
        } else if name == "FAIL"@ {
            Some(ReportResult::Fail)
        } else {
            None
        }
    }

    /// The name of the result on the wire.
    pub fn as_str(&self) -> (name: &'static str)
        ensures
            name@ == self.wire_name(),
    {
        match self {
            ReportResult::Pass => "PASS",
            ReportResult::Fail => "FAIL",
        }
    }

    /// The result that a name on the wire stands for.
    pub fn parse(name: &str) -> (result: Option<ReportResult>)
        ensures
            result == Self::from_wire_name(name@),
    {
        if same_text(name, "PASS") {
            Some(ReportResult::Pass)
        } else if same_text(name, "FAIL") {
            Some(ReportResult::Fail)
        } else {
            None
        }
    }

    /// Every result is the one that its own wire name stands for.
    pub proof fn law_wire_name_round_trip(self)
        ensures
            Self::from_wire_name(self.wire_name()) == Some(self),
    {
        reveal_strlit("PASS");
        reveal_strlit("FAIL");
        assert("PASS"@[0] != "FAIL"@[0]);
    }
}

impl ReportType {
    /// The name of the report type on the wire.
    pub open spec fn wire_name(self) -> Seq<char> {
        match self {
            ReportType::Security => "SECURITY"@,
            ReportType::Coverage => "COVERAGE"@,
            ReportType::Test => "TEST"@,
            ReportType::Bug => "BUG"@,
        }
    }

    /// The report type that a name on the wire stands for.
    pub open spec fn from_wire_name(name: Seq<char>) -> Option<ReportType> {
        if name == "SECURITY"@ {
            Some(ReportType::Security)
        } else if name == "COVERAGE"@ {
            Some(ReportType::Coverage)
        } else if name == "TEST"@ {
            Some(ReportType::Test)
        } else if name == "BUG"@ {
            Some(ReportType::Bug)
        } else {
            None
        }
    }

    /// The name of the report type on the wire.
    pub fn as_str(&self) -> (name: &'static str)
        ensures
            name@ == self.wire_name(),
    {
        match self {
            ReportType::Security => "SECURITY",
            ReportType::Coverage => "COVERAGE",
            ReportType::Test => "TEST",
            ReportType::Bug => "BUG",
        }
    }

    /// The report type that a name on the wire stands for.
    pub fn parse(name: &str) -> (report_type: Option<ReportType>)
        ensures
            report_type == Self::from_wire_name(name@),
    {
        if same_text(name, "SECURITY") {
            Some(ReportType::Security)
        } else if same_text(name, "COVERAGE") {
            Some(ReportType::Coverage)
        } else if same_text(name, "TEST") {
            Some(ReportType::Test)
        } else if same_text(name, "BUG") {
            Some(ReportType::Bug)
        } else {
            None
        }
    }

    /// Every report type is the one that its own wire name stands for.
    pub proof fn law_wire_name_round_trip(self)
        ensures
            Self::from_wire_name(self.wire_name()) == Some(self),
    {
        reveal_strlit("SECURITY");
        reveal_strlit("COVERAGE");
        reveal_strlit("TEST");
        reveal_strlit("BUG");
        assert("SECURITY"@[0] != "COVERAGE"@[0]);
        assert("SECURITY"@[0] != "TEST"@[0]);
        assert("SECURITY"@[0] != "BUG"@[0]);
        assert("COVERAGE"@[0] != "TEST"@[0]);
        assert("COVERAGE"@[0] != "BUG"@[0]);
        assert("TEST"@[0] != "BUG"@[0]);
    }
}

impl ParameterView {
    /// The tag that tells the kind of the value.
    pub open spec fn kind_name(self) -> Seq<char> {
        match self {
            ParameterView::Boolean(_) => "BOOLEAN"@,
            ParameterView::Date(_) => "DATE"@,
            ParameterView::Duration(_) => "DURATION"@,
            ParameterView::Link { .. } => "LINK"@,
            ParameterView::Number(_) => "NUMBER"@,
            ParameterView::Percentage(_) => "PERCENTAGE"@,
            ParameterView::Text(_) => "TEXT"@,
        }
    }
}

impl Parameter {
    /// The tag that tells the kind of the value.
    pub fn kind_name(&self) -> (name: &'static str)
        ensures
            name@ == self@.kind_name(),
    {
        match self {
            Parameter::Boolean(_) => "BOOLEAN",
            Parameter::Date(_) => "DATE",
            Parameter::Duration(_) => "DURATION",
            Parameter::Link { .. } => "LINK",
            Parameter::Number(_) => "NUMBER",
            Parameter::Percentage(_) => "PERCENTAGE",
            Parameter::Text(_) => "TEXT",
        }
    }
}

/// The first limit that a report exceeds, if any. The fields are looked at
/// in a fixed order: title, details, reporter, data.
pub open spec fn report_violation(report: ReportView) -> Option<Violation> {
    earliest(
        length_violation("title"@, report.title.len(), TITLE_LIMIT as nat),
        earliest(
            optional_violation("details"@, optional_len(report.details), DETAILS_LIMIT as nat),
            earliest(
                optional_violation(
                    "reporter"@,
                    optional_len(report.reporter),
                    REPORTER_LIMIT as nat,
                ),
                optional_violation("data"@, optional_count(report.data), DATA_LIMIT as nat),
            ),
        ),
    )
}

/// Whether an optional text is absent or no longer than `limit` characters.
pub open spec fn text_within(text: Option<Seq<char>>, limit: nat) -> bool {
    text matches Some(text) ==> text.len() <= limit
}

/// Whether the data fields are absent or at most `DATA_LIMIT` in number.
pub open spec fn data_within(data: Option<Seq<DataView>>) -> bool {
    data matches Some(data) ==> data.len() <= DATA_LIMIT
}

/// A report passes validation exactly when its title, its details, its
/// reporter and the number of its data fields are each within their limit.
pub proof fn law_report_passes_within_limits(report: ReportView)
    ensures
        report_violation(report) is None <==> {
            &&& report.title.len() <= TITLE_LIMIT
            &&& text_within(report.details, DETAILS_LIMIT as nat)
            &&& text_within(report.reporter, REPORTER_LIMIT as nat)
            &&& data_within(report.data)
        },
{
}

/// A title of exactly `TITLE_LIMIT` characters passes; one character more is a
/// violation of the title with that limit, whatever the other fields hold.
pub proof fn law_title_limit(report: ReportView)
    ensures
        report.title.len() == TITLE_LIMIT && text_within(report.details, DETAILS_LIMIT as nat)
            && text_within(report.reporter, REPORTER_LIMIT as nat) && data_within(report.data)
            ==> report_violation(report) is None,
        report.title.len() == TITLE_LIMIT + 1 ==> report_violation(report) == Some(
            Violation { name: "title"@, len: (TITLE_LIMIT + 1) as nat, limit: TITLE_LIMIT as nat },
        ),
{
}

/// Details of exactly `DETAILS_LIMIT` characters pass; one character more is
/// a violation of the details with that limit, where the title passes.
pub proof fn law_details_limit(report: ReportView, details: Seq<char>)
    requires
        report.details == Some(details),
        report.title.len() <= TITLE_LIMIT,
    ensures
        details.len() == DETAILS_LIMIT && text_within(report.reporter, REPORTER_LIMIT as nat)
            && data_within(report.data) ==> report_violation(report) is None,
        details.len() == DETAILS_LIMIT + 1 ==> report_violation(report) == Some(
            Violation {
                name: "details"@,
                len: (DETAILS_LIMIT + 1) as nat,
                limit: DETAILS_LIMIT as nat,
            },
        ),
{
}

/// A reporter of exactly `REPORTER_LIMIT` characters passes; one character
/// more is a violation of the reporter with that limit, where title and
/// details pass.
pub proof fn law_reporter_limit(report: ReportView, reporter: Seq<char>)
    requires
        report.reporter == Some(reporter),
        report.title.len() <= TITLE_LIMIT,
        text_within(report.details, DETAILS_LIMIT as nat),
    ensures
        reporter.len() == REPORTER_LIMIT && data_within(report.data) ==> report_violation(report)
            is None,
        reporter.len() == REPORTER_LIMIT + 1 ==> report_violation(report) == Some(
            Violation {
                name: "reporter"@,
                len: (REPORTER_LIMIT + 1) as nat,
                limit: REPORTER_LIMIT as nat,
            },
        ),
{
}

/// Exactly `DATA_LIMIT` data fields pass; one more is a violation of `data`
/// with that limit, where the texts pass.
pub proof fn law_data_limit(report: ReportView, data: Seq<DataView>)
    requires
        report.data == Some(data),
        report.title.len() <= TITLE_LIMIT,
        text_within(report.details, DETAILS_LIMIT as nat),
        text_within(report.reporter, REPORTER_LIMIT as nat),
    ensures
        data.len() == DATA_LIMIT ==> report_violation(report) is None,
        data.len() == DATA_LIMIT + 1 ==> report_violation(report) == Some(
            Violation { name: "data"@, len: (DATA_LIMIT + 1) as nat, limit: DATA_LIMIT as nat },
        ),
{
}

/// The order of the checks is fixed: a report whose title is too long is
/// reported for its title, also where it has too many data fields or another
/// field is too long as well.
pub proof fn law_title_is_reported_first(report: ReportView)
    requires
        report.title.len() > TITLE_LIMIT,
    ensures
        report_violation(report) == Some(
            Violation { name: "title"@, len: report.title.len(), limit: TITLE_LIMIT as nat },
        ),
{
}

/// Checks the limited fields of a report in their fixed order.
fn validate(
    title: &String,
    details: &Option<String>,
    reporter: &Option<String>,
    data: &Option<Vec<Data>>,
) -> (outcome: Result<(), Error>)
    ensures
        is_outcome(
            outcome,
            earliest(
                length_violation("title"@, title@.len(), TITLE_LIMIT as nat),
                earliest(
                    optional_violation(
                        "details"@,
                        optional_len(optional_text(*details)),
                        DETAILS_LIMIT as nat,
                    ),
                    earliest(
                        optional_violation(
                            "reporter"@,
                            optional_len(optional_text(*reporter)),
                            REPORTER_LIMIT as nat,
                        ),
                        optional_violation(
                            "data"@,
                            optional_count(optional_data(*data)),
                            DATA_LIMIT as nat,
                        ),
                    ),
                ),
            ),
        ),
{
    let found = check_text("title", title.as_str(), TITLE_LIMIT);
    if found.is_err() {
        return found;
    }
    let found = check_optional_text("details", details, DETAILS_LIMIT);
    if found.is_err() {
        return found;
    }
    let found = check_optional_text("reporter", reporter, REPORTER_LIMIT);
    if found.is_err() {
        return found;
    }
    match data {
        Some(data) => check_length("data", data.len(), DATA_LIMIT),
        None => Ok(()),
    }
}

/// A report: a high-level overview of the results of an analysis. A value
/// comes out of a `ReportBuilder`, or is read from a document, and does not
/// change afterwards.
#[derive(Debug, PartialEq)]
pub struct Report {
    title: String,
    details: Option<String>,
    result: Option<ReportResult>,
    data: Option<Vec<Data>>,
    reporter: Option<String>,
    link: Option<String>,
    logo_url: Option<String>,
    report_type: Option<ReportType>,
}

impl View for Report {
    type V = ReportView;

    closed spec fn view(&self) -> ReportView {
        ReportView {
            title: self.title@,
            details: optional_text(self.details),
            result: self.result,
            data: optional_data(self.data),
            reporter: optional_text(self.reporter),
            link: optional_text(self.link),
            logo_url: optional_text(self.logo_url),
            report_type: self.report_type,
        }
    }
}

impl Report {
    /// Validates the fields that the server limits.
    pub fn validate_fields(&self) -> (outcome: Result<(), Error>)
        ensures
            is_outcome(outcome, report_violation(self@)),
    {
        validate(&self.title, &self.details, &self.reporter, &self.data)
    }
}

/// Collects the fields of a report; `build` validates them.
pub struct ReportBuilder {
    title: String,
    details: Option<String>,
    result: Option<ReportResult>,
    data: Option<Vec<Data>>,
    reporter: Option<String>,
    link: Option<String>,
    logo_url: Option<String>,
    report_type: Option<ReportType>,
}

impl View for ReportBuilder {
    type V = ReportView;

    closed spec fn view(&self) -> ReportView {
        ReportView {
            title: self.title@,
            details: optional_text(self.details),
            result: self.result,
            data: optional_data(self.data),
            reporter: optional_text(self.reporter),
            link: optional_text(self.link),
            logo_url: optional_text(self.logo_url),
            report_type: self.report_type,
        }
    }
}

impl ReportBuilder {
    /// Starts a report with the title `title` and no other field.
    pub fn new(title: &str) -> (builder: Self)
        ensures
            builder@ == (ReportView {
                title: title@,
                details: None,
                result: None,
                data: None,
                reporter: None,
                link: None,
                logo_url: None,
                report_type: None,
            }),
    {
        ReportBuilder {
            title: title.to_owned(),
            details: None,
            result: None,
            data: None,
            reporter: None,
            link: None,
            logo_url: None,
            report_type: None,
        }
    }

    /// Sets the report's details, which describe the purpose of the report.
    pub fn details(self, details: &str) -> (builder: Self)
        ensures
            builder@ == (ReportView { details: Some(details@), ..self@ }),
    {
        let mut builder = self;
        builder.details = Some(details.to_owned());
        builder
    }

    /// Sets the result: whether the report is in a passed or failed state.
    pub fn result(self, result: ReportResult) -> (builder: Self)
        ensures
            builder@ == (ReportView { result: Some(result), ..self@ }),
    {
        let mut builder = self;
        builder.result = Some(result);
        builder
    }

    /// Sets the data fields, in the order in which they are displayed.
    pub fn data(self, data: Vec<Data>) -> (builder: Self)
        ensures
            builder@ == (ReportView { data: Some(data_views(data@)), ..self@ }),
    {
        let mut builder = self;
        builder.data = Some(data);
        builder
    }

    /// Sets the reporter: the tool or company that created the report.
    pub fn reporter(self, reporter: &str) -> (builder: Self)
        ensures
            builder@ == (ReportView { reporter: Some(reporter@), ..self@ }),
    {
        let mut builder = self;
        builder.reporter = Some(reporter.to_owned());
        builder
    }

    /// Sets the link to the results of the report in an external tool.
    pub fn link(self, link: &str) -> (builder: Self)
        ensures
            builder@ == (ReportView { link: Some(link@), ..self@ }),
    {
        let mut builder = self;
        builder.link = Some(link.to_owned());
        builder
    }

    /// Sets the URL of the report's logo.
    pub fn logo_url(self, logo_url: &str) -> (builder: Self)
        ensures
            builder@ == (ReportView { logo_url: Some(logo_url@), ..self@ }),
    {
        let mut builder = self;
        builder.logo_url = Some(logo_url.to_owned());
        builder
    }

    /// Sets the kind of analysis that the report comes from.
    pub fn report_type(self, report_type: ReportType) -> (builder: Self)
        ensures
            builder@ == (ReportView { report_type: Some(report_type), ..self@ }),
    {
        let mut builder = self;
        builder.report_type = Some(report_type);
        builder
    }

    /// Validates the fields that the server limits.
    pub fn validate_fields(&self) -> (outcome: Result<(), Error>)
        ensures
            is_outcome(outcome, report_violation(self@)),
    {
        validate(&self.title, &self.details, &self.reporter, &self.data)
    }

    /// Creates the report: the fields as they are where every limit is kept,
    /// else the error of the first limit that is exceeded.
    pub fn build(self) -> (built: Result<Report, Error>)
        ensures
            match report_violation(self@) {
                Some(violation) => built matches Err(error) && error.reports(violation),
                None => built matches Ok(report) && report@ == self@,
            },
    {
        match self.validate_fields() {
            Err(error) => Err(error),
            Ok(()) => {
                let ReportBuilder {
                    title,
                    details,
                    result,
                    data,
                    reporter,
                    link,
                    logo_url,
                    report_type,
                } = self;
                Ok(
                    Report {
                        title,
                        details,
                        result,
                        data,
                        reporter,
                        link,
                        logo_url,
                        report_type,
                    },
                )
            },
        }
    }
}

} // verus!
