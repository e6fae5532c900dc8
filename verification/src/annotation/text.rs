//! Annotations as JSON text.

use vstd::prelude::*;

use crate::annotation::{
    annotation_violation, Annotation, AnnotationView, Annotations, Type,
};
use crate::error::Error;
use crate::json::text::{
    array, decimal, is_written, member, object, optional_member, optional_quotable,
    optional_quoted, optional_tag, quotable, quoted, tag, texts, with_member, with_quoted_member,
    with_tag_member, write_array, write_decimal, write_member, write_object, write_quoted,
    write_tag,
};

verus! {

/// The wire name of an optional annotation type.
pub open spec fn optional_type_name(annotation_type: Option<Type>) -> Option<Seq<char>> {
    match annotation_type {
        Some(annotation_type) => Some(annotation_type.wire_name()),
        None => None,
    }
}

/// The JSON text of an optional line number.
pub open spec fn optional_line_json(line: Option<u32>) -> Option<Seq<char>> {
    match line {
        Some(line) => Some(decimal(line as nat)),
        None => None,
    }
}

impl AnnotationView {
    /// Whether the encoder writes every text of the annotation.
    pub open spec fn quotable(self) -> bool {
        &&& quotable(self.message)
        &&& optional_quotable(self.path)
        &&& optional_quotable(self.link)
        &&& optional_quotable(self.external_id)
    }

    /// The members of an annotation on the wire: message and severity, then
    /// each optional field that is present, in this order. An absent field
    /// has no member.
    pub open spec fn members(self) -> Seq<Seq<char>> {
        seq![
            member("message"@, quoted(self.message)),
            member("severity"@, tag(self.severity.wire_name())),
        ] + optional_member("type"@, optional_tag(optional_type_name(self.annotation_type)))
            + optional_member("path"@, optional_quoted(self.path)) + optional_member(
            "line"@,
            optional_line_json(self.line),
        ) + optional_member("link"@, optional_quoted(self.link)) + optional_member(
            "externalId"@,
            optional_quoted(self.external_id),
        )
    }

    /// An annotation as a JSON object.
    pub open spec fn json(self) -> Seq<char> {
        object(self.members())
    }
}

/// Whether the encoder writes every text of every annotation.
pub open spec fn all_quotable(annotations: Seq<AnnotationView>) -> bool {
    forall|at: int| 0 <= at < annotations.len() ==> (#[trigger] annotations[at]).quotable()
}

/// The JSON texts of a sequence of annotations.
pub open spec fn annotation_items(annotations: Seq<AnnotationView>) -> Seq<Seq<char>> {
    annotations.map_values(|annotation: AnnotationView| annotation.json())
}

/// The annotations of a report as a JSON object with the one member
/// `annotations`, an array.
pub open spec fn annotations_json(annotations: Seq<AnnotationView>) -> Seq<char> {
    object(seq![member("annotations"@, array(annotation_items(annotations)))])
}

/// An annotation with no optional field is written as an object with the two
/// members `message` and `severity`.
pub proof fn law_absent_fields_are_omitted(annotation: AnnotationView)
    requires
        annotation.annotation_type is None,
        annotation.path is None,
        annotation.line is None,
        annotation.link is None,
        annotation.external_id is None,
    ensures
        annotation.json() == object(
            seq![
                member("message"@, quoted(annotation.message)),
                member("severity"@, tag(annotation.severity.wire_name())),
            ],
        ),
{
    assert(annotation.members() =~= seq![
        member("message"@, quoted(annotation.message)),
        member("severity"@, tag(annotation.severity.wire_name())),
    ]);
}

impl Annotation {
    /// Writes the annotation as a JSON object, without looking at its limits.
    pub fn write_json(&self) -> (text: Result<String, Error>)
        ensures
            is_written(text, self@.quotable(), self@.json()),
    {
        let message = write_quoted(self.message.as_str())?;
        let mut members: Vec<String> = Vec::new();
        members.push(write_member("message", message.as_str()));
        members.push(write_member("severity", write_tag(self.severity.as_str()).as_str()));
        assert(texts(members@) =~= seq![
            member("message"@, quoted(self.message@)),
            member("severity"@, tag(self.severity.wire_name())),
        ]);
        let annotation_type = match &self.annotation_type {
            Some(annotation_type) => Some(annotation_type.as_str()),
            None => None,
        };
        let members = with_tag_member(members, "type", annotation_type);
        let members = with_quoted_member(members, "path", &self.path)?;
        let line = match self.line {
            Some(line) => Some(write_decimal(line as u64)),
            None => None,
        };
        let members = with_member(members, "line", line);
        let members = with_quoted_member(members, "link", &self.link)?;
        let members = with_quoted_member(members, "externalId", &self.external_id)?;
        Ok(write_object(&members))
    }

    /// Serializes the annotation as JSON text, after validating it once more.
    ///
    /// An annotation that exceeds a limit gives the error of the first limit
    /// exceeded. Otherwise the text is the annotation's JSON object, or an
    /// error of the encoder where it fails on one of the annotation's texts.
    pub fn to_json_string(&self) -> (text: Result<String, Error>)
        ensures
            match annotation_violation(self@) {
                Some(violation) => text matches Err(error) && error.reports(violation),
                None => is_written(text, self@.quotable(), self@.json()),
            },
    {
        match self.validate_fields() {
            Err(error) => Err(error),
            Ok(()) => self.write_json(),
        }
    }
}

impl Annotations {
    /// Serializes the annotations as JSON text. Nothing is validated; the
    /// text is the JSON object, or an error of the encoder where it fails on
    /// one of the texts.
    pub fn to_json_string(&self) -> (text: Result<String, Error>)
        ensures
            is_written(text, all_quotable(self@), annotations_json(self@)),
    {
        let mut items: Vec<String> = Vec::new();
        let mut index: usize = 0;
        while index < self.annotations.len()
            invariant
                index <= self.annotations.len(),
                items@.len() == index,
                forall|at: int|
                    0 <= at < index ==> (#[trigger] self@[at]).quotable() && items@[at]@
                        == self.annotations@[at]@.json(),
            decreases self.annotations.len() - index,
        {
            match self.annotations[index].write_json() {
                Ok(item) => {
                    items.push(item);
                },
                Err(error) => {
                    assert(!self@[index as int].quotable());
                    return Err(error);
                },
            }
            index += 1;
        }
        assert(texts(items@) =~= annotation_items(self@));
        let list = write_array(&items);
        let mut members: Vec<String> = Vec::new();
        members.push(write_member("annotations", list.as_str()));
        assert(texts(members@) =~= seq![member("annotations"@, array(annotation_items(self@)))]);
        Ok(write_object(&members))
    }
}

impl TryFrom<Annotation> for String {
    type Error = Error;

    /// Serializes the annotation as JSON text, as
    /// `Annotation::to_json_string` does.
    fn try_from(value: Annotation) -> (text: Result<String, Error>)
        ensures
            match annotation_violation(value@) {
                Some(violation) => text matches Err(error) && error.reports(violation),
                None => is_written(text, value@.quotable(), value@.json()),
            },
    {
        value.to_json_string()
    }
}

/// No spec function gives the error that comes where the encoder fails; the
/// contract of `try_from` states what holds.
impl vstd::std_specs::convert::TryFromSpecImpl<Annotation> for String {
    open spec fn obeys_try_from_spec() -> bool {
        false
    }

    open spec fn try_from_spec(value: Annotation) -> Result<String, Error> {
        arbitrary()
    }
}

} // verus!
