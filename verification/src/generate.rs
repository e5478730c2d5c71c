//! The five fragments of a model class, each rendered from the fields of a
//! document.
//!
//! Every fragment is the concatenation, in field order, of one piece per
//! field (per import for the import list). The spec functions of this module
//! give each piece as text; the executable functions build exactly that.

use vstd::prelude::*;
use crate::model::{FieldInfo, FieldView, KindView, TypeKind, field_views, kind_option_view, string_views};
use crate::text::{concat, lemma_concat_step};

verus! {

/// The name under which a type is written in generated source.
pub open spec fn dart_name(kind: KindView) -> Seq<char> {
    match kind {
        KindView::String => "String"@,
        KindView::Integer => "int"@,
        KindView::Double => "double"@,
        KindView::Array => "array"@,
        KindView::DynamicObject => "dynamic"@,
        KindView::ModelReference(name) => name,
        KindView::Other => Seq::empty(),
    }
}

/// The name of a collection's element type; empty where none is known.
pub open spec fn element_name(sub_type: Option<KindView>) -> Seq<char> {
    match sub_type {
        Some(kind) => dart_name(kind),
        None => Seq::empty(),
    }
}

/// Whether elements of this type are read by a cast alone.
pub open spec fn is_primitive(sub_type: Option<KindView>) -> bool {
    sub_type == Some(KindView::Integer) || sub_type == Some(KindView::String) || sub_type == Some(
        KindView::Double,
    )
}

/// Whether a field that is no collection is declared with a nullable type.
pub open spec fn is_nullable(f: FieldView) -> bool {
    !(f.types is DynamicObject) && !f.default && !f.required
}

/// The type arguments of a collection: its element type in angle brackets,
/// or nothing where the element type has no name.
pub open spec fn type_arguments(f: FieldView) -> Seq<char> {
    if element_name(f.sub_type).len() == 0 {
        Seq::empty()
    } else {
        "<"@ + element_name(f.sub_type) + ">"@
    }
}

/// The type of a field that is no collection, as it is declared.
pub open spec fn declared_type(f: FieldView) -> Seq<char> {
    if is_nullable(f) {
        dart_name(f.types) + "?"@
    } else {
        dart_name(f.types)
    }
}

/// The declaration of one field.
pub open spec fn declaration(f: FieldView) -> Seq<char> {
    if f.types is Array {
        "final List"@ + type_arguments(f) + " "@ + f.name + ";\n"@
    } else {
        "final "@ + declared_type(f) + " "@ + f.name + ";\n"@
    }
}

/// What a declaration holds before the name of the field.
pub open spec fn declaration_head(f: FieldView) -> Seq<char> {
    if f.types is Array {
        "final List"@ + type_arguments(f) + " "@
    } else {
        "final "@ + declared_type(f) + " "@
    }
}

/// What a constructor parameter holds before the name of the field.
pub open spec fn ctor_head(f: FieldView) -> Seq<char> {
    if !(f.types is Array) && !f.default && f.required {
        "required this."@
    } else {
        "this."@
    }
}

/// What a constructor parameter holds behind the name of the field.
pub open spec fn ctor_tail(f: FieldView) -> Seq<char> {
    if f.types is Array {
        " = const [],"@
    } else if f.default {
        " = "@ + f.value + ","@
    } else {
        ","@
    }
}

/// The constructor parameter of one field. A collection starts out empty,
/// whatever its sample held.
pub open spec fn ctor_parameter(f: FieldView) -> Seq<char> {
    if f.types is Array {
        "this."@ + f.name + " = const [],"@
    } else if f.default {
        "this."@ + f.name + " = "@ + f.value + ","@
    } else if f.required {
        "required this."@ + f.name + ","@
    } else {
        "this."@ + f.name + ","@
    }
}

/// The function that reads one element of a typed collection.
pub open spec fn map_expression(f: FieldView) -> Seq<char> {
    if is_primitive(f.sub_type) {
        "(e) => e as "@ + element_name(f.sub_type)
    } else {
        "(e) => "@ + element_name(f.sub_type) + ".fromJson(e)"@
    }
}

/// The cast behind the raw value of a field that is no collection.
pub open spec fn cast(f: FieldView) -> Seq<char> {
    if f.types is DynamicObject || f.required {
        Seq::empty()
    } else if f.default {
        "as "@ + dart_name(f.types) + "? ?? "@ + f.value
    } else {
        "as "@ + dart_name(f.types) + "?"@
    }
}

/// The expression that reads one field from the decoded JSON map.
pub open spec fn from_json_entry(f: FieldView) -> Seq<char> {
    if f.types is Array {
        if element_name(f.sub_type).len() == 0 {
            f.name + ": json['"@ + f.name + "'] as List? ?? [],\n"@
        } else {
            f.name + ": (json['"@ + f.name + "'] as List? ?? []).map("@ + map_expression(f)
                + ").toList(),\n"@
        }
    } else {
        f.name + ": json['"@ + f.name + "'] "@ + cast(f) + ",\n"@
    }
}

/// The map entry that writes one field: its name as key, itself as value.
pub open spec fn to_json_entry(f: FieldView) -> Seq<char> {
    "'"@ + f.name + "': "@ + f.name + ",\n"@
}

/// The statement that imports the file generated for one document.
pub open spec fn import_line(name: Seq<char>) -> Seq<char> {
    "import \""@ + name + ".g.dart\";\n"@
}

/// The field declarations: one per field, in order.
pub open spec fn fields_text(fields: Seq<FieldView>) -> Seq<char> {
    concat(fields.map_values(|f: FieldView| declaration(f)))
}

/// The constructor parameters: one per field, in order.
pub open spec fn ctor_text(fields: Seq<FieldView>) -> Seq<char> {
    concat(fields.map_values(|f: FieldView| ctor_parameter(f)))
}

/// The body of the `fromJson` factory: one entry per field, in order.
pub open spec fn from_json_text(fields: Seq<FieldView>) -> Seq<char> {
    concat(fields.map_values(|f: FieldView| from_json_entry(f)))
}

/// The body of the `toJson` map: one entry per field, in order.
pub open spec fn to_json_text(fields: Seq<FieldView>) -> Seq<char> {
    concat(fields.map_values(|f: FieldView| to_json_entry(f)))
}

/// The import statements: one per name, in order.
pub open spec fn imports_text(names: Seq<Seq<char>>) -> Seq<char> {
    concat(names.map_values(|name: Seq<char>| import_line(name)))
}

/// The name of a type as it is written in generated source.
fn name_of<'a>(kind: &'a TypeKind) -> (name: &'a str)
    ensures
        name@ == dart_name(kind@),
{
    proof {
        reveal_strlit("");
    }
    assert(""@ =~= Seq::<char>::empty());
    match kind {
        TypeKind::String => "String",
        TypeKind::Integer => "int",
        TypeKind::Double => "double",
        TypeKind::Array => "array",
        TypeKind::DynamicObject => "dynamic",
        TypeKind::ModelReference(name) => name.as_str(),
        TypeKind::Other => "",
    }
}

/// The name of the element type of a collection, empty where none is known.
fn element_name_of<'a>(sub_type: &'a Option<TypeKind>) -> (name: &'a str)
    ensures
        name@ == element_name(kind_option_view(*sub_type)),
{
    proof {
        reveal_strlit("");
    }
    assert(""@ =~= Seq::<char>::empty());
    match sub_type {
        Some(kind) => name_of(kind),
        None => "",
    }
}

fn primitive(sub_type: &Option<TypeKind>) -> (yes: bool)
    ensures
        yes == is_primitive(kind_option_view(*sub_type)),
{
    match sub_type {
        Some(TypeKind::Integer) => true,
        Some(TypeKind::String) => true,
        Some(TypeKind::Double) => true,
        _ => false,
    }
}

fn declaration_of(field: &FieldInfo) -> (text: String)
    ensures
        text@ == declaration(field@),
{
    if field.types.is_array() {
        let element = element_name_of(&field.sub_type);
        let mut arguments = String::new();
        if !element.is_empty() {
            arguments.append("<");
            arguments.append(element);
            arguments.append(">");
            assert(arguments@ =~= "<"@ + element@ + ">"@);
        }
        let mut text = String::from_str("final List");
        text.append(arguments.as_str());
        text.append(" ");
        text.append(field.name.as_str());
        text.append(";\n");
        text
    } else {
        let mut shown = String::from_str(name_of(&field.types));
        if !(field.types.is_dynamic() || field.default || field.required) {
            shown.append("?");
        }
        let mut text = String::from_str("final ");
        text.append(shown.as_str());
        text.append(" ");
        text.append(field.name.as_str());
        text.append(";\n");
        text
    }
}

fn ctor_parameter_of(field: &FieldInfo) -> (text: String)
    ensures
        text@ == ctor_parameter(field@),
{
    if field.types.is_array() {
        let mut text = String::from_str("this.");
        text.append(field.name.as_str());
        text.append(" = const [],");
        text
    } else if field.default {
        let mut text = String::from_str("this.");
        text.append(field.name.as_str());
        text.append(" = ");
        text.append(field.value.as_str());
        text.append(",");
        text
    } else if field.required {
        let mut text = String::from_str("required this.");
        text.append(field.name.as_str());
        text.append(",");
        text
    } else {
        let mut text = String::from_str("this.");
        text.append(field.name.as_str());
        text.append(",");
        text
    }
}

fn map_expression_of(field: &FieldInfo) -> (text: String)
    ensures
        text@ == map_expression(field@),
{
    let element = element_name_of(&field.sub_type);
    if primitive(&field.sub_type) {
        let mut text = String::from_str("(e) => e as ");
        text.append(element);
        text
    } else {
        let mut text = String::from_str("(e) => ");
        text.append(element);
        text.append(".fromJson(e)");
        text
    }
}

fn cast_of(field: &FieldInfo) -> (text: String)
    ensures
        text@ == cast(field@),
{
    if field.types.is_dynamic() || field.required {
        String::new()
    } else if field.default {
        let mut text = String::from_str("as ");
        text.append(name_of(&field.types));
        text.append("? ?? ");
        text.append(field.value.as_str());
        text
    } else {
        let mut text = String::from_str("as ");
        text.append(name_of(&field.types));
        text.append("?");
        text
    }
}

fn from_json_entry_of(field: &FieldInfo) -> (text: String)
    ensures
        text@ == from_json_entry(field@),
{
    let mut text = field.name.clone();
    if field.types.is_array() {
        if element_name_of(&field.sub_type).is_empty() {
            text.append(": json['");
            text.append(field.name.as_str());
            text.append("'] as List? ?? [],\n");
        } else {
            let expression = map_expression_of(field);
            text.append(": (json['");
            text.append(field.name.as_str());
            text.append("'] as List? ?? []).map(");
            text.append(expression.as_str());
            text.append(").toList(),\n");
        }
    } else {
        let shown = cast_of(field);
        text.append(": json['");
        text.append(field.name.as_str());
        text.append("'] ");
        text.append(shown.as_str());
        text.append(",\n");
    }
    text
}

fn to_json_entry_of(field: &FieldInfo) -> (text: String)
    ensures
        text@ == to_json_entry(field@),
{
    let mut text = String::from_str("'");
    text.append(field.name.as_str());
    text.append("': ");
    text.append(field.name.as_str());
    text.append(",\n");
    text
}

fn import_line_of(name: &String) -> (text: String)
    ensures
        text@ == import_line(name@),
{
    let mut text = String::from_str("import \"");
    text.append(name.as_str());
    text.append(".g.dart\";\n");
    text
}

/// Renders the field declarations of the class.
pub fn generate_fields(fields: &Vec<FieldInfo>) -> (result: String)
    ensures
        result@ == fields_text(field_views(fields@)),
{
    let mut result = String::new();
    let ghost views = field_views(fields@);
    let mut i: usize = 0;
    while i < fields.len()
        invariant
            i <= fields.len(),
            views == field_views(fields@),
            result@ == fields_text(views.take(i as int)),
        decreases fields.len() - i,
    {
        let piece = declaration_of(&fields[i]);
        proof {
            lemma_concat_step(views, |f: FieldView| declaration(f), i as int);
        }
        result.append(piece.as_str());
        i += 1;
    }
    assert(views.take(i as int) =~= views);
    result
}

/// Renders the parameter list of the constructor.
pub fn generate_ctor(fields: &Vec<FieldInfo>) -> (result: String)
    ensures
        result@ == ctor_text(field_views(fields@)),
{
    let mut result = String::new();
    let ghost views = field_views(fields@);
    let mut i: usize = 0;
    while i < fields.len()
        invariant
            i <= fields.len(),
            views == field_views(fields@),
            result@ == ctor_text(views.take(i as int)),
        decreases fields.len() - i,
    {
        let piece = ctor_parameter_of(&fields[i]);
        proof {
            lemma_concat_step(views, |f: FieldView| ctor_parameter(f), i as int);
        }
        result.append(piece.as_str());
        i += 1;
    }
    assert(views.take(i as int) =~= views);
    result
}

/// Renders the body of the `fromJson` factory.
pub fn generate_from_json(fields: &Vec<FieldInfo>) -> (result: String)
    ensures
        result@ == from_json_text(field_views(fields@)),
{
    let mut result = String::new();
    let ghost views = field_views(fields@);
    let mut i: usize = 0;
    while i < fields.len()
        invariant
            i <= fields.len(),
            views == field_views(fields@),
            result@ == from_json_text(views.take(i as int)),
        decreases fields.len() - i,
    {
        let piece = from_json_entry_of(&fields[i]);
        proof {
            lemma_concat_step(views, |f: FieldView| from_json_entry(f), i as int);
        }
        result.append(piece.as_str());
        i += 1;
    }
    assert(views.take(i as int) =~= views);
    result
}

/// Renders the body of the `toJson` map.
pub fn generate_to_json(fields: &Vec<FieldInfo>) -> (result: String)
    ensures
        result@ == to_json_text(field_views(fields@)),
{
    let mut result = String::new();
    let ghost views = field_views(fields@);
    let mut i: usize = 0;
    while i < fields.len()
        invariant
            i <= fields.len(),
            views == field_views(fields@),
            result@ == to_json_text(views.take(i as int)),
        decreases fields.len() - i,
    {
        let piece = to_json_entry_of(&fields[i]);
        proof {
            lemma_concat_step(views, |f: FieldView| to_json_entry(f), i as int);
        }
        result.append(piece.as_str());
        i += 1;
    }
    assert(views.take(i as int) =~= views);
    result
}

/// Renders the import statements, one per name.
pub fn generate_imports(imports: Vec<String>) -> (result: String)
    ensures
        result@ == imports_text(string_views(imports@)),
{
    let mut result = String::new();
    let ghost names = string_views(imports@);
    let mut i: usize = 0;
    while i < imports.len()
        invariant
            i <= imports.len(),
            names == string_views(imports@),
            result@ == imports_text(names.take(i as int)),
        decreases imports.len() - i,
    {
        let piece = import_line_of(&imports[i]);
        proof {
            lemma_concat_step(names, |name: Seq<char>| import_line(name), i as int);
        }
        result.append(piece.as_str());
        i += 1;
    }
    assert(names.take(i as int) =~= names);
    result
}

} // verus!
