//! Annotations: findings on a line or a file of a report, and their builder.

use vstd::prelude::*;

use crate::error::{Error, Violation};
use crate::json::reading::same_text;
use crate::validation::{
    check_optional_text, check_text, earliest, is_outcome, length_violation, optional_len,
    optional_text, optional_violation,
};

pub mod decode;
pub mod text;
pub mod value;

verus! {

/// Maximum length of an annotation's message, in characters.
pub const MESSAGE_LIMIT: usize = 2000;

/// Maximum length of an annotation's external ID, in characters.
pub const EXTERNAL_ID_LIMIT: usize = 450;

/// Represents the severity of an `Annotation`.
#[derive(Debug, PartialEq, Eq)]
pub enum Severity {
    Low,
    Medium,
    High,
}

/// Represents the type of an `Annotation`.
#[derive(Debug, PartialEq, Eq)]
pub enum Type {
    Vulnerability,
    CodeSmell,
    Bug,
}

/// What an annotation holds, in an `Annotation` as in an `AnnotationBuilder`.
pub struct AnnotationView {
    pub message: Seq<char>,
    pub severity: Severity,
    pub annotation_type: Option<Type>,
    pub path: Option<Seq<char>>,
    pub line: Option<u32>,
    pub link: Option<Seq<char>>,
    pub external_id: Option<Seq<char>>,
}

impl Severity {
    /// The name of the severity on the wire.
    pub open spec fn wire_name(self) -> Seq<char> {
        match self {
            Severity::Low => "LOW"@,
            Severity::Medium => "MEDIUM"@,
            Severity::High => "HIGH"@,
        }
    }

    /// The severity that a name on the wire stands for.
    pub open spec fn from_wire_name(name: Seq<char>) -> Option<Severity> {
        if name == "LOW"@ {
            Some(Severity::Low)
        } else if name == "MEDIUM"@ {
            Some(Severity::Medium)
        } else if name == "HIGH"@ {
            Some(Severity::High)
        } else {
            None
        }
    }

    /// The name of the severity on the wire.
    pub fn as_str(&self) -> (name: &'static str)
        ensures
            name@ == self.wire_name(),
    {
        match self {
            Severity::Low => "LOW",
            Severity::Medium => "MEDIUM",
            Severity::High => "HIGH",
        }
    }

    /// The severity that a name on the wire stands for.
    pub fn parse(name: &str) -> (severity: Option<Severity>)
        ensures
            severity == Self::from_wire_name(name@),
    {
        if same_text(name, "LOW") {
            Some(Severity::Low)
        } else if same_text(name, "MEDIUM") {
            Some(Severity::Medium)
        } else if same_text(name, "HIGH") {
            Some(Severity::High)
        } else {
            None
        }
    }

    /// Every severity is the one that its own wire name stands for.
    pub proof fn law_wire_name_round_trip(self)
        ensures
            Self::from_wire_name(self.wire_name()) == Some(self),
    {
        reveal_strlit("LOW");
        reveal_strlit("MEDIUM");
        reveal_strlit("HIGH");
        assert("LOW"@.len() != "MEDIUM"@.len());
        assert("LOW"@.len() != "HIGH"@.len());
        assert("MEDIUM"@.len() != "HIGH"@.len());
    }
}

impl Type {
    /// The name of the annotation type on the wire.
    pub open spec fn wire_name(self) -> Seq<char> {
        match self {
            Type::Vulnerability => "VULNERABILITY"@,
            Type::CodeSmell => "CODE_SMELL"@,
            Type::Bug => "BUG"@,
        }
    }

    /// The annotation type that a name on the wire stands for.
    pub open spec fn from_wire_name(name: Seq<char>) -> Option<Type> {
        if name == "VULNERABILITY"@ {
            Some(Type::Vulnerability)
        } else if name == "CODE_SMELL"@ {
            Some(Type::CodeSmell)
        } else if name == "BUG"@ {
            Some(Type::Bug)
        } else {
            None
        }
    }

    /// The name of the annotation type on the wire.
    pub fn as_str(&self) -> (name: &'static str)
        ensures
            name@ == self.wire_name(),
    {
        match self {
            Type::Vulnerability => "VULNERABILITY",
            Type::CodeSmell => "CODE_SMELL",
            Type::Bug => "BUG",
        }
    }

    /// The annotation type that a name on the wire stands for.
    pub fn parse(name: &str) -> (annotation_type: Option<Type>)
        ensures
            annotation_type == Self::from_wire_name(name@),
    {
        if same_text(name, "VULNERABILITY") {
            Some(Type::Vulnerability)
        } else if same_text(name, "CODE_SMELL") {
            Some(Type::CodeSmell)
        } else if same_text(name, "BUG") {
            Some(Type::Bug)
        } else {
            None
        }
    }

    /// Every annotation type is the one that its own wire name stands for.
    pub proof fn law_wire_name_round_trip(self)
        ensures
            Self::from_wire_name(self.wire_name()) == Some(self),
    {
        reveal_strlit("VULNERABILITY");
        reveal_strlit("CODE_SMELL");
        reveal_strlit("BUG");
        assert("VULNERABILITY"@.len() != "CODE_SMELL"@.len());
        assert("VULNERABILITY"@.len() != "BUG"@.len());
        assert("CODE_SMELL"@.len() != "BUG"@.len());
    }
}

/// The first limit that an annotation exceeds, if any. The fields are looked
/// at in a fixed order: message, external ID.
pub open spec fn annotation_violation(annotation: AnnotationView) -> Option<Violation> {
    earliest(
        length_violation("message"@, annotation.message.len(), MESSAGE_LIMIT as nat),
        optional_violation(
            "external_id"@,
            optional_len(annotation.external_id),
            EXTERNAL_ID_LIMIT as nat,
        ),
    )
}

/// An annotation passes validation exactly when its message and its external
/// ID are each within their limit.
pub proof fn law_annotation_passes_within_limits(annotation: AnnotationView)
    ensures
        annotation_violation(annotation) is None <==> {
            &&& annotation.message.len() <= MESSAGE_LIMIT
            &&& (annotation.external_id matches Some(external_id) ==> external_id.len()
                <= EXTERNAL_ID_LIMIT)
        },
{
}

/// A message of exactly `MESSAGE_LIMIT` characters passes; one character more
/// is a violation of the message with that limit, whatever the external ID.
pub proof fn law_message_limit(annotation: AnnotationView)
    ensures
        annotation.message.len() == MESSAGE_LIMIT && (annotation.external_id matches Some(
            external_id,
        ) ==> external_id.len() <= EXTERNAL_ID_LIMIT) ==> annotation_violation(annotation)
            is None,
        annotation.message.len() == MESSAGE_LIMIT + 1 ==> annotation_violation(annotation)
            == Some(
            Violation {
                name: "message"@,
                len: (MESSAGE_LIMIT + 1) as nat,
                limit: MESSAGE_LIMIT as nat,
            },
        ),
{
}

/// An external ID of exactly `EXTERNAL_ID_LIMIT` characters passes; one
/// character more is a violation of the external ID with that limit, where
/// the message passes.
pub proof fn law_external_id_limit(annotation: AnnotationView, external_id: Seq<char>)
    requires
        annotation.external_id == Some(external_id),
        annotation.message.len() <= MESSAGE_LIMIT,
    ensures
        external_id.len() == EXTERNAL_ID_LIMIT ==> annotation_violation(annotation) is None,
        external_id.len() == EXTERNAL_ID_LIMIT + 1 ==> annotation_violation(annotation) == Some(
            Violation {
                name: "external_id"@,
                len: (EXTERNAL_ID_LIMIT + 1) as nat,
                limit: EXTERNAL_ID_LIMIT as nat,
            },
        ),
{
}

/// The order of the checks is fixed: an annotation whose message is too long
/// is reported for its message, also where its external ID is too long.
pub proof fn law_message_is_reported_first(annotation: AnnotationView)
    requires
        annotation.message.len() > MESSAGE_LIMIT,
    ensures
        annotation_violation(annotation) == Some(
            Violation {
                name: "message"@,
                len: annotation.message.len(),
                limit: MESSAGE_LIMIT as nat,
            },
        ),
{
}

/// Checks the limited fields of an annotation in their fixed order.
fn validate(message: &String, external_id: &Option<String>) -> (outcome: Result<(), Error>)
    ensures
        is_outcome(
            outcome,
            earliest(
                length_violation("message"@, message@.len(), MESSAGE_LIMIT as nat),
                optional_violation(
                    "external_id"@,
                    optional_len(optional_text(*external_id)),
                    EXTERNAL_ID_LIMIT as nat,
                ),
            ),
        ),
{
    let found = check_text("message", message.as_str(), MESSAGE_LIMIT);
    if found.is_err() {
        return found;
    }
    check_optional_text("external_id", external_id, EXTERNAL_ID_LIMIT)
}

/// An annotation: a finding on a line of a file, or on a file as a whole. A
/// value comes out of an `AnnotationBuilder`, or is read from a document,
/// and does not change afterwards.
#[derive(Debug, PartialEq)]
pub struct Annotation {
    message: String,
    severity: Severity,
    annotation_type: Option<Type>,
    path: Option<String>,
    line: Option<u32>,
    link: Option<String>,
    external_id: Option<String>,
}

impl View for Annotation {
    type V = AnnotationView;

    closed spec fn view(&self) -> AnnotationView {
        AnnotationView {
            message: self.message@,
            severity: self.severity,
            annotation_type: self.annotation_type,
            path: optional_text(self.path),
            line: self.line,
            link: optional_text(self.link),
            external_id: optional_text(self.external_id),
        }
    }
}

impl Annotation {
    /// Validates the fields that the server limits.
    pub fn validate_fields(&self) -> (outcome: Result<(), Error>)
        ensures
            is_outcome(outcome, annotation_violation(self@)),
    {
        validate(&self.message, &self.external_id)
    }
}

/// Collects the fields of an annotation; `build` validates them.
pub struct AnnotationBuilder {
    message: String,
    severity: Severity,
    annotation_type: Option<Type>,
    path: Option<String>,
    line: Option<u32>,
    link: Option<String>,
    external_id: Option<String>,
}

impl View for AnnotationBuilder {
    type V = AnnotationView;

    closed spec fn view(&self) -> AnnotationView {
        AnnotationView {
            message: self.message@,
            severity: self.severity,
            annotation_type: self.annotation_type,
            path: optional_text(self.path),
            line: self.line,
            link: optional_text(self.link),
            external_id: optional_text(self.external_id),
        }
    }
}

impl AnnotationBuilder {
    /// Starts an annotation with a message and a severity and no other field.
    pub fn new(message: &str, severity: Severity) -> (builder: Self)
        ensures
            builder@ == (AnnotationView {
                message: message@,
                severity,
                annotation_type: None,
                path: None,
                line: None,
                link: None,
                external_id: None,
            }),
    {
        AnnotationBuilder {
            message: message.to_owned(),
            severity,
            annotation_type: None,
            path: None,
            line: None,
            link: None,
            external_id: None,
        }
    }

    /// Sets the annotation type.
    pub fn annotation_type(self, annotation_type: Type) -> (builder: Self)
        ensures
            builder@ == (AnnotationView { annotation_type: Some(annotation_type), ..self@ }),
    {
        let mut builder = self;
        builder.annotation_type = Some(annotation_type);
        builder
    }

    /// Sets the path of the annotated file, relative to the repository's root.
    pub fn path(self, path: &str) -> (builder: Self)
        ensures
            builder@ == (AnnotationView { path: Some(path@), ..self@ }),
    {
        let mut builder = self;
        builder.path = Some(path.to_owned());
        builder
    }

    /// Sets the annotated line; line 0 stands for the file as a whole.
    pub fn line(self, line: u32) -> (builder: Self)
        ensures
            builder@ == (AnnotationView { line: Some(line), ..self@ }),
    {
        let mut builder = self;
        builder.line = Some(line);
        builder
    }

    /// Sets the link to the annotation in an external tool.
    pub fn link(self, link: &str) -> (builder: Self)
        ensures
            builder@ == (AnnotationView { link: Some(link@), ..self@ }),
    {
        let mut builder = self;
        builder.link = Some(link.to_owned());
        builder
    }

    /// Sets the ID under which the annotation's creator finds it again.
    pub fn external_id(self, external_id: &str) -> (builder: Self)
        ensures
            builder@ == (AnnotationView { external_id: Some(external_id@), ..self@ }),
    {
        let mut builder = self;
        builder.external_id = Some(external_id.to_owned());
        builder
    }

    /// Validates the fields that the server limits.
    pub fn validate_fields(&self) -> (outcome: Result<(), Error>)
        ensures
            is_outcome(outcome, annotation_violation(self@)),
    {
        validate(&self.message, &self.external_id)
    }

    /// Creates the annotation: the fields as they are where every limit is
    /// kept, else the error of the first limit that is exceeded.
    pub fn build(self) -> (built: Result<Annotation, Error>)
        ensures
            match annotation_violation(self@) {
                Some(violation) => built matches Err(error) && error.reports(violation),
                None => built matches Ok(annotation) && annotation@ == self@,
            },
    {
        match self.validate_fields() {
            Err(error) => Err(error),
            Ok(()) => {
                let AnnotationBuilder {
                    message,
                    severity,
                    annotation_type,
                    path,
                    line,
                    link,
                    external_id,
                } = self;
                Ok(
                    Annotation {
                        message,
                        severity,
                        annotation_type,
                        path,
                        line,
                        link,
                        external_id,
                    },
                )
            },
        }
    }
}

/// The annotations of a report, in their order. Nothing limits their number
/// here; the server has a limit of its own.
#[derive(Debug, PartialEq)]
pub struct Annotations {
    annotations: Vec<Annotation>,
}

/// The views of a sequence of annotations.
pub open spec fn annotation_views(annotations: Seq<Annotation>) -> Seq<AnnotationView> {
    annotations.map_values(|annotation: Annotation| annotation@)
}

impl View for Annotations {
    type V = Seq<AnnotationView>;

    closed spec fn view(&self) -> Seq<AnnotationView> {
        annotation_views(self.annotations@)
    }
}

impl Annotations {
    /// Holds the given annotations, in their order.
    pub fn new(annotations: Vec<Annotation>) -> (container: Self)
        ensures
            container@ == annotation_views(annotations@),
    {
        Annotations { annotations }
    }
}

} // verus!
