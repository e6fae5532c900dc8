//! Annotations as JSON values.

use vstd::prelude::*;

use crate::annotation::text::optional_type_name;
use crate::annotation::{annotation_violation, Annotation, AnnotationView, Annotations};
use crate::error::Error;
use crate::json::encoder::{
    json_array, json_object, json_text, json_unsigned, no_members, put_member, tree,
};
use crate::json::tree::{
    optional_text_tree, put_optional_text, unsigned, with_optional, JsonTree,
};
use crate::validation::borrowed_text;

verus! {

/// An optional line number as a JSON number.
pub open spec fn optional_line_tree(line: Option<u32>) -> Option<JsonTree> {
    match line {
        Some(line) => Some(unsigned(line as nat)),
        None => None,
    }
}

impl AnnotationView {
    /// The members of an annotation as JSON values, by name: message and
    /// severity, and each optional field that is present. An absent field
    /// has no member.
    pub open spec fn member_trees(self) -> Map<Seq<char>, JsonTree> {
        let members = Map::empty().insert("message"@, JsonTree::Text(self.message)).insert(
            "severity"@,
            JsonTree::Text(self.severity.wire_name()),
        );
        let members = with_optional(
            members,
            "type"@,
            optional_text_tree(optional_type_name(self.annotation_type)),
        );
        let members = with_optional(members, "path"@, optional_text_tree(self.path));
        let members = with_optional(members, "line"@, optional_line_tree(self.line));
        let members = with_optional(members, "link"@, optional_text_tree(self.link));
        with_optional(members, "externalId"@, optional_text_tree(self.external_id))
    }

    /// An annotation as a JSON value.
    pub open spec fn tree(self) -> JsonTree {
        JsonTree::Object(self.member_trees())
    }
}

/// The JSON values of a sequence of annotations.
pub open spec fn annotation_trees(annotations: Seq<AnnotationView>) -> Seq<JsonTree> {
    annotations.map_values(|annotation: AnnotationView| annotation.tree())
}

/// The annotations of a report as a JSON value: an object with the one
/// member `annotations`, an array.
pub open spec fn annotations_tree(annotations: Seq<AnnotationView>) -> JsonTree {
    JsonTree::Object(
        Map::empty().insert("annotations"@, JsonTree::Array(annotation_trees(annotations))),
    )
}

/// An annotation with no optional field is an object with the two members
/// `message` and `severity`.
pub proof fn law_absent_fields_have_no_member(annotation: AnnotationView)
    requires
        annotation.annotation_type is None,
        annotation.path is None,
        annotation.line is None,
        annotation.link is None,
        annotation.external_id is None,
    ensures
        annotation.member_trees().dom() == set!["message"@, "severity"@],
{
    assert(annotation.member_trees().dom() =~= set!["message"@, "severity"@]);
}

impl Annotation {
    /// The annotation as a JSON value, without looking at its limits.
    pub fn json_value(&self) -> (json: serde_json::Value)
        ensures
            tree(json) == self@.tree(),
    {
        let mut members = no_members();
        put_member(&mut members, "message", json_text(self.message.as_str()));
        put_member(&mut members, "severity", json_text(self.severity.as_str()));
        let annotation_type = match &self.annotation_type {
            Some(annotation_type) => Some(annotation_type.as_str()),
            None => None,
        };
        put_optional_text(&mut members, "type", annotation_type);
        put_optional_text(&mut members, "path", borrowed_text(&self.path));
        match self.line {
            Some(line) => put_member(&mut members, "line", json_unsigned(line as u64)),
            None => {},
        }
        put_optional_text(&mut members, "link", borrowed_text(&self.link));
        put_optional_text(&mut members, "externalId", borrowed_text(&self.external_id));
        json_object(members)
    }

    /// Serializes the annotation as a JSON value, after validating it once
    /// more.
    ///
    /// An annotation that exceeds a limit gives the error of the first limit
    /// exceeded. Otherwise the value is the annotation's JSON object.
    pub fn to_json_value(&self) -> (json: Result<serde_json::Value, Error>)
        ensures
            match annotation_violation(self@) {
                Some(violation) => json matches Err(error) && error.reports(violation),
                None => json matches Ok(value) && tree(value) == self@.tree(),
            },
    {
        match self.validate_fields() {
            Err(error) => Err(error),
            Ok(()) => Ok(self.json_value()),
        }
    }
}

impl Annotations {
    /// The annotations as a JSON value. Nothing is validated.
    pub fn to_json_value(&self) -> (json: serde_json::Value)
        ensures
            tree(json) == annotations_tree(self@),
    {
        let mut items: Vec<serde_json::Value> = Vec::new();
        let mut index: usize = 0;
        while index < self.annotations.len()
            invariant
                index <= self.annotations.len(),
                items@.len() == index,
                forall|at: int|
                    0 <= at < index ==> tree(#[trigger] items@[at])
                        == self.annotations@[at]@.tree(),
            decreases self.annotations.len() - index,
        {
            items.push(self.annotations[index].json_value());
            index += 1;
        }
        assert(items@.map_values(|item: serde_json::Value| tree(item)) =~= annotation_trees(
            self@,
        ));
        let mut members = no_members();
        put_member(&mut members, "annotations", json_array(items));
        json_object(members)
    }
}

impl TryFrom<Annotation> for serde_json::Value {
    type Error = Error;

    /// Serializes the annotation as a JSON value, as
    /// `Annotation::to_json_value` does.
    fn try_from(value: Annotation) -> (json: Result<serde_json::Value, Error>)
        ensures
            match annotation_violation(value@) {
                Some(violation) => json matches Err(error) && error.reports(violation),
                None => json matches Ok(written) && tree(written) == value@.tree(),
            },
    {
        value.to_json_value()
    }
}

/// The contract of `try_from` states what the value holds; no spec function
/// gives the value itself.
impl vstd::std_specs::convert::TryFromSpecImpl<Annotation> for serde_json::Value {
    open spec fn obeys_try_from_spec() -> bool {
        false
    }

    open spec fn try_from_spec(value: Annotation) -> Result<serde_json::Value, Error> {
        arbitrary()
    }
}

} // verus!
