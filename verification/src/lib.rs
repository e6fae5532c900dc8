//! Validated documents for a code-review server's insight reports: a report,
//! its annotations, the limits the server puts on their fields, and their
//! JSON wire form.
//!
//! A builder collects the fields; `build` checks the limits once and hands
//! out a value that no longer changes; serialization checks them again and
//! writes the JSON text or builds the JSON value. A document can be read
//! back from either.

pub mod annotation;
pub mod error;
pub mod json;
pub mod report;
pub mod validation;

pub use crate::annotation::{
    Annotation, AnnotationBuilder, AnnotationView, Annotations, Severity, Type, EXTERNAL_ID_LIMIT,
    MESSAGE_LIMIT,
};
pub use crate::error::{Error, Result, Violation};
pub use crate::report::{
    Data, DataView, Parameter, ParameterView, Report, ReportBuilder, ReportResult, ReportType,
    ReportView, DATA_LIMIT, DETAILS_LIMIT, REPORTER_LIMIT, TITLE_LIMIT,
};
