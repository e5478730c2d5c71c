//! The data that flows from a sample document to the generated source.

use vstd::prelude::*;

verus! {

/// The type of a field, or of the elements of a collection field.
#[derive(Debug, PartialEq, Eq)]
pub enum TypeKind {
    /// A JSON string.
    String,
    /// A JSON number that is an integer in the range of `i64`.
    Integer,
    /// Any other JSON number.
    Double,
    /// A JSON array.
    Array,
    /// A JSON object; it is kept as a dynamic value and never expanded.
    DynamicObject,
    /// The class generated for another document, by its class name.
    ModelReference(String),
    /// `null` or a boolean: a value that has no type name.
    Other,
}

/// The mathematical value of a [`TypeKind`].
pub enum KindView {
    String,
    Integer,
    Double,
    Array,
    DynamicObject,
    ModelReference(Seq<char>),
    Other,
}

impl View for TypeKind {
    type V = KindView;

    open spec fn view(&self) -> KindView {
        match self {
            TypeKind::String => KindView::String,
            TypeKind::Integer => KindView::Integer,
            TypeKind::Double => KindView::Double,
            TypeKind::Array => KindView::Array,
            TypeKind::DynamicObject => KindView::DynamicObject,
            TypeKind::ModelReference(name) => KindView::ModelReference(name@),
            TypeKind::Other => KindView::Other,
        }
    }
}

impl Clone for TypeKind {
    fn clone(&self) -> (copy: TypeKind)
        ensures
            copy@ == self@,
    {
        match self {
            TypeKind::String => TypeKind::String,
            TypeKind::Integer => TypeKind::Integer,
            TypeKind::Double => TypeKind::Double,
            TypeKind::Array => TypeKind::Array,
            TypeKind::DynamicObject => TypeKind::DynamicObject,
            TypeKind::ModelReference(name) => TypeKind::ModelReference(name.clone()),
            TypeKind::Other => TypeKind::Other,
        }
    }
}

impl TypeKind {
    /// Whether this is the type of a collection.
    pub fn is_array(&self) -> (yes: bool)
        ensures
            yes == (self@ is Array),
    {
        match self {
            TypeKind::Array => true,
            _ => false,
        }
    }

    /// Whether this is the type of a dynamic value.
    pub fn is_dynamic(&self) -> (yes: bool)
        ensures
            yes == (self@ is DynamicObject),
    {
        match self {
            TypeKind::DynamicObject => true,
            _ => false,
        }
    }
}

/// The view of an optional kind.
pub open spec fn kind_option_view(kind: Option<TypeKind>) -> Option<KindView> {
    match kind {
        Some(k) => Some(k@),
        None => None,
    }
}

/// One input document: the base name of its file and the text it holds.
#[derive(Debug, Clone, PartialEq, Eq)]
pub struct FileInfo {
    pub name: String,
    pub content: String,
}

/// What was inferred for one member of a document.
#[derive(Debug, Clone, PartialEq, Eq)]
pub struct FieldInfo {
    /// The member's key without its annotation prefix.
    pub name: String,
    /// The field's own type.
    pub types: TypeKind,
    /// The JSON text of the sample value; the default of a field that has one.
    pub value: String,
    /// For a collection, the type of its elements where that is known.
    pub sub_type: Option<TypeKind>,
    /// The key carried the required marker.
    pub required: bool,
    /// The key carried the default marker.
    pub default: bool,
}

/// The mathematical value of a [`FieldInfo`].
pub struct FieldView {
    pub name: Seq<char>,
    pub types: KindView,
    pub value: Seq<char>,
    pub sub_type: Option<KindView>,
    pub required: bool,
    pub default: bool,
}

impl FieldView {
    /// The two markers exclude each other, only a collection has an element
    /// type, a field is never itself a model reference, and an element type
    /// that is recorded has a name.
    pub open spec fn wf(self) -> bool {
        &&& !(self.required && self.default)
        &&& self.sub_type is Some ==> self.types is Array
        &&& !(self.types is ModelReference)
        &&& self.sub_type != Some(KindView::Other)
    }
}

impl View for FieldInfo {
    type V = FieldView;

    open spec fn view(&self) -> FieldView {
        FieldView {
            name: self.name@,
            types: self.types@,
            value: self.value@,
            sub_type: kind_option_view(self.sub_type),
            required: self.required,
            default: self.default,
        }
    }
}

/// The views of a sequence of fields, in order.
pub open spec fn field_views(fields: Seq<FieldInfo>) -> Seq<FieldView> {
    fields.map_values(|f: FieldInfo| f@)
}

/// The views of a sequence of strings, in order.
pub open spec fn string_views(strings: Seq<String>) -> Seq<Seq<char>> {
    strings.map_values(|s: String| s@)
}

/// What was inferred for one document.
#[derive(Debug, Clone, PartialEq, Eq)]
pub struct DartInfo {
    /// The base names of the documents that the fields refer to, each once,
    /// in the order in which they were first met.
    pub imports: Vec<String>,
    /// One field for each member, in the order of the document.
    pub fields: Vec<FieldInfo>,
}

/// The mathematical value of a [`DartInfo`].
pub struct DartView {
    pub imports: Seq<Seq<char>>,
    pub fields: Seq<FieldView>,
}

impl DartView {
    /// Every field is well formed and no import occurs twice.
    pub open spec fn wf(self) -> bool {
        &&& forall|i: int| 0 <= i < self.fields.len() ==> (#[trigger] self.fields[i]).wf()
        &&& self.imports.no_duplicates()
    }
}

impl View for DartInfo {
    type V = DartView;

    open spec fn view(&self) -> DartView {
        DartView { imports: string_views(self.imports@), fields: field_views(self.fields@) }
    }
}

} // verus!
