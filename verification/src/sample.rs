//! What inference reads from a document: its members, each with the shape of
//! its sample value.

use vstd::prelude::*;
use crate::json::{
    JsonRef, is_i64, json_form, json_parse, json_text, members, number_is_i64, object_members,
    open_value, parse_value, value_text,
};
use crate::model::{KindView, TypeKind, kind_option_view};

verus! {

/// Why a document could not be read.
#[derive(Debug, PartialEq, Eq, Clone, Copy, Structural)]
pub enum ParseError {
    /// The text is not JSON.
    InvalidJson,
    /// The text is JSON, but its top-level value is not an object.
    NotAnObject,
}

impl ParseError {
    /// Says in words why the document could not be read.
    pub fn message(&self) -> (text: String)
        ensures
            text@ == match self {
                ParseError::InvalidJson => "the document is not valid JSON"@,
                ParseError::NotAnObject => "the top-level value of the document is not an object"@,
            },
    {
        match self {
            ParseError::InvalidJson => String::from_str("the document is not valid JSON"),
            ParseError::NotAnObject => String::from_str(
                "the top-level value of the document is not an object",
            ),
        }
    }
}

/// What inference reads from one sample value.
#[derive(Debug, Clone, PartialEq, Eq)]
pub struct Sample {
    /// The type that the value's shape alone gives it.
    pub kind: TypeKind,
    /// The JSON text of the value.
    pub text: String,
    /// What a string value holds.
    pub content: Option<String>,
    /// For an array with at least one element, the type that the shape of
    /// its first element gives.
    pub first: Option<TypeKind>,
}

/// The mathematical value of a [`Sample`].
pub struct SampleView {
    pub kind: KindView,
    pub text: Seq<char>,
    pub content: Option<Seq<char>>,
    pub first: Option<KindView>,
}

impl SampleView {
    /// A shape never gives a model reference, only strings have content and
    /// only arrays have a first element.
    pub open spec fn wf(self) -> bool {
        &&& !(self.kind is ModelReference)
        &&& !(self.first matches Some(kind) && kind is ModelReference)
        &&& self.content is Some <==> self.kind is String
        &&& self.first is Some ==> self.kind is Array
    }
}

impl View for Sample {
    type V = SampleView;

    open spec fn view(&self) -> SampleView {
        SampleView {
            kind: self.kind@,
            text: self.text@,
            content: match self.content {
                Some(content) => Some(content@),
                None => None,
            },
            first: kind_option_view(self.first),
        }
    }
}

/// One member of a document: its key as written, and its sample value.
#[derive(Debug, Clone, PartialEq, Eq)]
pub struct Member {
    pub key: String,
    pub sample: Sample,
}

/// The mathematical value of a [`Member`].
pub struct MemberView {
    pub key: Seq<char>,
    pub sample: SampleView,
}

impl View for Member {
    type V = MemberView;

    open spec fn view(&self) -> MemberView {
        MemberView { key: self.key@, sample: self.sample@ }
    }
}

/// The views of a sequence of members, in order.
pub open spec fn member_views(members: Seq<Member>) -> Seq<MemberView> {
    members.map_values(|m: Member| m@)
}

/// The type that the shape of a JSON value gives: a string is a string, a
/// number is an integer where it fits `i64` and a double otherwise, an array
/// is a collection, an object is dynamic, and `null` and booleans have none.
pub open spec fn shape_kind(value: serde_json::Value) -> KindView {
    match json_form(&value) {
        JsonRef::String(_) => KindView::String,
        JsonRef::Number(number) => if number_is_i64(*number) {
            KindView::Integer
        } else {
            KindView::Double
        },
        JsonRef::Array(_) => KindView::Array,
        JsonRef::Object(_) => KindView::DynamicObject,
        _ => KindView::Other,
    }
}

/// What inference reads from a JSON value.
pub open spec fn sample_view(value: serde_json::Value) -> SampleView {
    SampleView {
        kind: shape_kind(value),
        text: json_text(value),
        content: match json_form(&value) {
            JsonRef::String(content) => Some(content@),
            _ => None,
        },
        first: match json_form(&value) {
            JsonRef::Array(items) => if items@.len() > 0 {
                Some(shape_kind(items@[0]))
            } else {
                None
            },
            _ => None,
        },
    }
}

/// The member that a key and a JSON value make.
pub open spec fn member_view(entry: (String, serde_json::Value)) -> MemberView {
    MemberView { key: entry.0@, sample: sample_view(entry.1) }
}

/// What reading a document gives: its members in order where the text is a
/// JSON object, the reason for the failure where it is not.
pub open spec fn document_members(text: Seq<char>) -> Result<Seq<MemberView>, ParseError> {
    match json_parse(text) {
        Some(value) => match json_form(&value) {
            JsonRef::Object(object) => Ok(
                object_members(*object).map_values(
                    |entry: (String, serde_json::Value)| member_view(entry),
                ),
            ),
            _ => Err(ParseError::NotAnObject),
        },
        None => Err(ParseError::InvalidJson),
    }
}

/// Classifies a JSON value by its shape.
pub fn get_type(value: &serde_json::Value) -> (kind: TypeKind)
    ensures
        kind@ == shape_kind(*value),
{
    match open_value(value) {
        JsonRef::String(_) => TypeKind::String,
        JsonRef::Number(number) => {
            if is_i64(number) {
                TypeKind::Integer
            } else {
                TypeKind::Double
            }
        },
        JsonRef::Array(_) => TypeKind::Array,
        JsonRef::Object(_) => TypeKind::DynamicObject,
        _ => TypeKind::Other,
    }
}

/// Takes from a JSON value what inference reads.
pub fn sample_of(value: &serde_json::Value) -> (sample: Sample)
    ensures
        sample@ == sample_view(*value),
        sample@.wf(),
{
    let kind = get_type(value);
    let text = value_text(value);
    match open_value(value) {
        JsonRef::String(content) => Sample { kind, text, content: Some(content.clone()), first: None },
        JsonRef::Array(items) => {
            let first = if items.len() > 0 {
                Some(get_type(&items[0]))
            } else {
                None
            };
            Sample { kind, text, content: None, first }
        },
        _ => Sample { kind, text, content: None, first: None },
    }
}

/// Reads a document: parses the text, and lists the members of the object
/// that it holds.
pub fn read_members(content: &str) -> (read: Result<Vec<Member>, ParseError>)
    ensures
        match read {
            Ok(list) => document_members(content@) == Ok::<Seq<MemberView>, ParseError>(
                member_views(list@),
            ),
            Err(error) => document_members(content@) == Err::<Seq<MemberView>, ParseError>(error),
        },
        read matches Ok(list) ==> forall|i: int|
            0 <= i < list@.len() ==> (#[trigger] list@[i])@.sample.wf(),
{
    match parse_value(content) {
        Err(_) => Err(ParseError::InvalidJson),
        Ok(value) => {
            match open_value(&value) {
                JsonRef::Object(object) => {
                    let entries = members(object);
                    let ghost wanted = object_members(*object).map_values(
                        |entry: (String, serde_json::Value)| member_view(entry),
                    );
                    let mut list: Vec<Member> = Vec::new();
                    let mut i: usize = 0;
                    while i < entries.len()
                        invariant
                            i <= entries.len(),
                            entries@.len() == object_members(*object).len(),
                            forall|j: int|
                                0 <= j < entries@.len() ==> *(#[trigger] entries@[j]).0
                                    == object_members(*object)[j].0 && *entries@[j].1
                                    == object_members(*object)[j].1,
                            wanted == object_members(*object).map_values(
                                |entry: (String, serde_json::Value)| member_view(entry),
                            ),
                            list@.len() == i,
                            forall|j: int| 0 <= j < i ==> (#[trigger] list@[j])@ == wanted[j],
                            forall|j: int| 0 <= j < i ==> (#[trigger] list@[j])@.sample.wf(),
                        decreases entries.len() - i,
                    {
                        let key = entries[i].0.clone();
                        let sample = sample_of(entries[i].1);
                        list.push(Member { key, sample });
                        i += 1;
                    }
                    assert(member_views(list@) =~= wanted);
                    Ok(list)
                },
                _ => Err(ParseError::NotAnObject),
            }
        },
    }
}

} // verus!
