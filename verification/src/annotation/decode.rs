//! Reading annotations back from their JSON value or text.

use vstd::prelude::*;

use crate::annotation::text::optional_type_name;
use crate::annotation::value::{annotation_trees, annotations_tree, optional_line_tree};
use crate::annotation::{
    annotation_views, Annotation, AnnotationView, Annotations, Severity, Type,
};
use crate::error::Error;
use crate::json::encoder::{as_items, as_members, as_unsigned, members_of, parsed, tree};
use crate::json::reading::{
    find, optional_text_member, present, read_json, read_optional_text, read_text, text_member,
    wrong_shape,
};
use crate::json::tree::{optional_text_tree, with_optional, JsonTree, NumberView};

verus! {

/// The severity of a member that has to be there and to be the wire name of
/// a severity.
pub open spec fn severity_member(members: Map<Seq<char>, JsonTree>, name: Seq<char>) -> Option<
    Severity,
> {
    match text_member(members, name) {
        Some(text) => Severity::from_wire_name(text),
        None => None,
    }
}

/// The annotation type of a member that may be absent; where it is there it
/// has to be the wire name of an annotation type.
pub open spec fn optional_type_member(
    members: Map<Seq<char>, JsonTree>,
    name: Seq<char>,
) -> Option<Option<Type>> {
    match optional_text_member(members, name) {
        Some(Some(text)) => match Type::from_wire_name(text) {
            Some(annotation_type) => Some(Some(annotation_type)),
            None => None,
        },
        Some(None) => Some(None),
        None => None,
    }
}

/// The line of a member that may be absent; where it is there it has to be
/// an unsigned integer of 32 bits.
pub open spec fn optional_line_member(
    members: Map<Seq<char>, JsonTree>,
    name: Seq<char>,
) -> Option<Option<u32>> {
    match present(members, name) {
        Some(JsonTree::Number(NumberView::Unsigned(line))) => if line <= u32::MAX {
            Some(Some(line as u32))
        } else {
            None
        },
        Some(_) => None,
        None => Some(None),
    }
}

/// The annotation that the members of an object stand for, if they stand
/// for one: message and severity have to be there, each other field may be
/// absent, and each field that is there has to be of its JSON type. Other
/// members are not looked at, and no limit is checked.
pub open spec fn annotation_of_members(members: Map<Seq<char>, JsonTree>) -> Option<
    AnnotationView,
> {
    match (
        text_member(members, "message"@),
        severity_member(members, "severity"@),
        optional_type_member(members, "type"@),
        optional_text_member(members, "path"@),
        optional_line_member(members, "line"@),
        optional_text_member(members, "link"@),
        optional_text_member(members, "externalId"@),
    ) {
        (
            Some(message),
            Some(severity),
            Some(annotation_type),
            Some(path),
            Some(line),
            Some(link),
            Some(external_id),
        ) => Some(
            AnnotationView { message, severity, annotation_type, path, line, link, external_id },
        ),
        _ => None,
    }
}

/// The annotation that a JSON value stands for, if it stands for one.
pub open spec fn annotation_of(tree: JsonTree) -> Option<AnnotationView> {
    match tree {
        JsonTree::Object(members) => annotation_of_members(members),
        _ => None,
    }
}

/// The annotations that the items of an array stand for, if each stands for
/// one.
pub open spec fn all_annotations_of(items: Seq<JsonTree>) -> Option<Seq<AnnotationView>> {
    if forall|at: int| 0 <= at < items.len() ==> (#[trigger] annotation_of(items[at])) is Some {
        Some(items.map_values(|item: JsonTree| annotation_of(item)->0))
    } else {
        None
    }
}

/// The annotations that a JSON value stands for, if it stands for some: an
/// object whose member `annotations` is an array of annotations.
pub open spec fn annotations_of(tree: JsonTree) -> Option<Seq<AnnotationView>> {
    match tree {
        JsonTree::Object(members) => match present(members, "annotations"@) {
            Some(JsonTree::Array(items)) => all_annotations_of(items),
            _ => None,
        },
        _ => None,
    }
}

/// The annotation that a text stands for, if it is the JSON of one.
pub open spec fn annotation_of_text(text: Seq<char>) -> Option<AnnotationView> {
    match parsed(text) {
        Some(tree) => annotation_of(tree),
        None => None,
    }
}

/// The annotations that a text stands for, if it is the JSON of some.
pub open spec fn annotations_of_text(text: Seq<char>) -> Option<Seq<AnnotationView>> {
    match parsed(text) {
        Some(tree) => annotations_of(tree),
        None => None,
    }
}

/// Reads the line of a member that may be absent and otherwise has to be an
/// unsigned integer of 32 bits.
pub fn read_optional_line(
    members: &serde_json::Map<String, serde_json::Value>,
    name: &str,
) -> (line: Result<Option<u32>, Error>)
    ensures
        match optional_line_member(members_of(*members), name@) {
            Some(expected) => line matches Ok(line) && line == expected,
            None => line matches Err(error) && error is SerdeError,
        },
{
    match find(members, name) {
        Some(value) => match as_unsigned(value) {
            Some(line) => if line <= 0xffff_ffff {
                Ok(Some(line as u32))
            } else {
                Err(wrong_shape("line out of range"))
            },
            None => Err(wrong_shape("expected an unsigned integer")),
        },
        None => Ok(None),
    }
}

impl Annotation {
    /// Reads the annotation that a JSON text stands for. No limit is
    /// checked; serialization checks them.
    pub fn from_json_str(text: &str) -> (annotation: Result<Annotation, Error>)
        ensures
            match annotation_of_text(text@) {
                Some(expected) => annotation matches Ok(annotation) && annotation@ == expected,
                None => annotation matches Err(error) && error is SerdeError,
            },
    {
        let value = read_json(text)?;
        Annotation::from_json_value(&value)
    }

    /// Reads the annotation that a JSON value stands for. No limit is
    /// checked; serialization checks them.
    pub fn from_json_value(value: &serde_json::Value) -> (annotation: Result<Annotation, Error>)
        ensures
            match annotation_of(tree(*value)) {
                Some(expected) => annotation matches Ok(annotation) && annotation@ == expected,
                None => annotation matches Err(error) && error is SerdeError,
            },
    {
        let members = match as_members(value) {
            Some(members) => members,
            None => {
                return Err(wrong_shape("expected an object"));
            },
        };
        let message = read_text(members, "message")?;
        let severity = read_text(members, "severity")?;
        let severity = match Severity::parse(severity.as_str()) {
            Some(severity) => severity,
            None => {
                return Err(wrong_shape("unknown severity"));
            },
        };
        let annotation_type = match read_optional_text(members, "type")? {
            Some(name) => match Type::parse(name.as_str()) {
                Some(annotation_type) => Some(annotation_type),
                None => {
                    return Err(wrong_shape("unknown annotation type"));
                },
            },
            None => None,
        };
        let path = read_optional_text(members, "path")?;
        let line = read_optional_line(members, "line")?;
        let link = read_optional_text(members, "link")?;
        let external_id = read_optional_text(members, "externalId")?;
        Ok(Annotation { message, severity, annotation_type, path, line, link, external_id })
    }
}

impl Annotations {
    /// Reads the annotations that a JSON text stands for.
    pub fn from_json_str(text: &str) -> (annotations: Result<Annotations, Error>)
        ensures
            match annotations_of_text(text@) {
                Some(expected) => annotations matches Ok(annotations) && annotations@ == expected,
                None => annotations matches Err(error) && error is SerdeError,
            },
    {
        let value = read_json(text)?;
        Annotations::from_json_value(&value)
    }

    /// Reads the annotations that a JSON value stands for.
    pub fn from_json_value(value: &serde_json::Value) -> (annotations: Result<Annotations, Error>)
        ensures
            match annotations_of(tree(*value)) {
                Some(expected) => annotations matches Ok(annotations) && annotations@ == expected,
                None => annotations matches Err(error) && error is SerdeError,
            },
    {
        let members = match as_members(value) {
            Some(members) => members,
            None => {
                return Err(wrong_shape("expected an object"));
            },
        };
        let list = match find(members, "annotations") {
            Some(list) => list,
            None => {
                return Err(wrong_shape("missing member"));
            },
        };
        let items = match as_items(list) {
            Some(items) => items,
            None => {
                return Err(wrong_shape("expected an array"));
            },
        };
        let ghost trees = items@.map_values(|item: serde_json::Value| tree(item));
        let mut annotations: Vec<Annotation> = Vec::new();
        let mut index: usize = 0;
        while index < items.len()
            invariant
                index <= items.len(),
                annotations@.len() == index,
                trees == items@.map_values(|item: serde_json::Value| tree(item)),
                annotations_of(tree(*value)) == all_annotations_of(trees),
                forall|at: int|
                    0 <= at < index ==> annotation_of(#[trigger] trees[at]) == Some(
                        annotations@[at]@,
                    ),
            decreases items.len() - index,
        {
            match Annotation::from_json_value(&items[index]) {
                Ok(annotation) => {
                    annotations.push(annotation);
                },
                Err(error) => {
                    assert(annotation_of(trees[index as int]) is None);
                    assert(all_annotations_of(trees) is None);
                    return Err(error);
                },
            }
            index += 1;
        }
        assert(annotation_views(annotations@) =~= trees.map_values(
            |item: JsonTree| annotation_of(item)->0,
        ));
        Ok(Annotations { annotations })
    }
}

/// The names of the members of an annotation differ from each other.
proof fn lemma_annotation_names_differ()
    ensures
        "message"@ != "severity"@,
        "message"@ != "type"@,
        "message"@ != "path"@,
        "message"@ != "line"@,
        "message"@ != "link"@,
        "message"@ != "externalId"@,
        "severity"@ != "type"@,
        "severity"@ != "path"@,
        "severity"@ != "line"@,
        "severity"@ != "link"@,
        "severity"@ != "externalId"@,
        "type"@ != "path"@,
        "type"@ != "line"@,
        "type"@ != "link"@,
        "type"@ != "externalId"@,
        "path"@ != "line"@,
        "path"@ != "link"@,
        "path"@ != "externalId"@,
        "line"@ != "link"@,
        "line"@ != "externalId"@,
        "link"@ != "externalId"@,
{
    reveal_strlit("message");
    reveal_strlit("severity");
    reveal_strlit("type");
    reveal_strlit("path");
    reveal_strlit("line");
    reveal_strlit("link");
    reveal_strlit("externalId");
    assert("message"@.len() != "severity"@.len());
    assert("message"@.len() != "type"@.len());
    assert("message"@.len() != "path"@.len());
    assert("message"@.len() != "line"@.len());
    assert("message"@.len() != "link"@.len());
    assert("message"@.len() != "externalId"@.len());
    assert("severity"@.len() != "type"@.len());
    assert("severity"@.len() != "path"@.len());
    assert("severity"@.len() != "line"@.len());
    assert("severity"@.len() != "link"@.len());
    assert("severity"@.len() != "externalId"@.len());
    assert("type"@[0] != "path"@[0]);
    assert("type"@[0] != "line"@[0]);
    assert("type"@[0] != "link"@[0]);
    assert("type"@.len() != "externalId"@.len());
    assert("path"@[0] != "line"@[0]);
    assert("path"@[0] != "link"@[0]);
    assert("path"@.len() != "externalId"@.len());
    assert("line"@[3] != "link"@[3]);
    assert("line"@.len() != "externalId"@.len());
    assert("link"@.len() != "externalId"@.len());
}

/// Reading an annotation back from its JSON value gives the annotation, so
/// that serializing what was read gives the same value and the same text
/// again.
pub proof fn law_annotation_round_trip(annotation: AnnotationView)
    ensures
        annotation_of(annotation.tree()) == Some(annotation),
        annotation_of(annotation.tree()) matches Some(read) && read.tree() == annotation.tree()
            && read.json() == annotation.json(),
{
    lemma_annotation_names_differ();
    let m0 = Map::<Seq<char>, JsonTree>::empty().insert(
        "message"@,
        JsonTree::Text(annotation.message),
    ).insert("severity"@, JsonTree::Text(annotation.severity.wire_name()));
    let v1 = optional_text_tree(optional_type_name(annotation.annotation_type));
    let m1 = with_optional(m0, "type"@, v1);
    let v2 = optional_text_tree(annotation.path);
    let m2 = with_optional(m1, "path"@, v2);
    let v3 = optional_line_tree(annotation.line);
    let m3 = with_optional(m2, "line"@, v3);
    let v4 = optional_text_tree(annotation.link);
    let m4 = with_optional(m3, "link"@, v4);
    let v5 = optional_text_tree(annotation.external_id);
    let m5 = with_optional(m4, "externalId"@, v5);
    assert(annotation.member_trees() == m5);
    assert(present(m5, "message"@) == Some(JsonTree::Text(annotation.message)));
    assert(present(m5, "severity"@) == Some(JsonTree::Text(annotation.severity.wire_name())));
    assert(present(m5, "type"@) == v1);
    assert(present(m5, "path"@) == v2);
    assert(present(m5, "line"@) == v3);
    assert(present(m5, "link"@) == v4);
    assert(present(m5, "externalId"@) == v5);
    annotation.severity.law_wire_name_round_trip();
    if let Some(annotation_type) = annotation.annotation_type {
        annotation_type.law_wire_name_round_trip();
    }
    assert(severity_member(m5, "severity"@) == Some(annotation.severity));
    assert(optional_type_member(m5, "type"@) == Some(annotation.annotation_type));
    assert(optional_text_member(m5, "path"@) == Some(annotation.path));
    assert(optional_line_member(m5, "line"@) == Some(annotation.line));
    assert(optional_text_member(m5, "link"@) == Some(annotation.link));
    assert(optional_text_member(m5, "externalId"@) == Some(annotation.external_id));
}

/// Reading annotations back from their JSON value gives the annotations.
pub proof fn law_annotations_round_trip(annotations: Seq<AnnotationView>)
    ensures
        annotations_of(annotations_tree(annotations)) == Some(annotations),
{
    let trees = annotation_trees(annotations);
    assert forall|at: int| 0 <= at < trees.len() implies (#[trigger] annotation_of(trees[at]))
        == Some(annotations[at]) by {
        law_annotation_round_trip(annotations[at]);
    }
    assert(trees.map_values(|item: JsonTree| annotation_of(item)->0) =~= annotations);
    let members = Map::<Seq<char>, JsonTree>::empty().insert(
        "annotations"@,
        JsonTree::Array(trees),
    );
    assert(present(members, "annotations"@) == Some(JsonTree::Array(trees)));
}

/// Where the parser reads the text of an annotation as the value of that
/// annotation, reading the text gives the annotation back.
pub proof fn law_annotation_text_round_trip(annotation: AnnotationView)
    ensures
        parsed(annotation.json()) == Some(annotation.tree()) ==> annotation_of_text(
            annotation.json(),
        ) == Some(annotation),
{
    law_annotation_round_trip(annotation);
}

} // verus!
