//! What holds of every document and of every field.

use vstd::prelude::*;
use crate::generate::{
    cast, ctor_head, ctor_parameter, ctor_tail, ctor_text, dart_name, declaration,
    declaration_head, declared_type, element_name, fields_text, from_json_entry, map_expression,
    to_json_entry, to_json_text, type_arguments,
};
use crate::infer::{
    field_name, has_default, inferred_field, inferred_fields, is_reference, referenced_name,
    reference_marker,
};
use crate::json::{JsonRef, json_form};
use crate::model::{FieldView, KindView};
use crate::naming::class_name;
use crate::sample::{MemberView, sample_view};
use crate::text::{lemma_offsets_ordered, lemma_word_in_piece, offset, stands_at};

verus! {

/// Where the name of field `i` stands in the declarations.
pub open spec fn declared_at(fields: Seq<FieldView>, i: int) -> int {
    offset(fields.map_values(|f: FieldView| declaration(f)), i) + declaration_head(fields[i]).len()
}

/// Where the name of field `i` stands in the constructor parameters.
pub open spec fn ctor_at(fields: Seq<FieldView>, i: int) -> int {
    offset(fields.map_values(|f: FieldView| ctor_parameter(f)), i) + ctor_head(fields[i]).len()
}

/// Where the name of field `i` stands, as a key, in the `toJson` map.
pub open spec fn to_json_at(fields: Seq<FieldView>, i: int) -> int {
    offset(fields.map_values(|f: FieldView| to_json_entry(f)), i) + "'"@.len()
}

/// Every member of a document has one field, named by its key without the
/// marker, and that name stands in the declarations, in the constructor
/// parameters and in the `toJson` map, in the piece of that field.
pub proof fn lemma_every_key_is_rendered(members: Seq<MemberView>, i: int)
    requires
        0 <= i < members.len(),
    ensures
        inferred_fields(members).len() == members.len(),
        inferred_fields(members)[i].name == field_name(members[i].key),
        stands_at(
            fields_text(inferred_fields(members)),
            field_name(members[i].key),
            declared_at(inferred_fields(members), i),
        ),
        stands_at(
            ctor_text(inferred_fields(members)),
            field_name(members[i].key),
            ctor_at(inferred_fields(members), i),
        ),
        stands_at(
            to_json_text(inferred_fields(members)),
            field_name(members[i].key),
            to_json_at(inferred_fields(members), i),
        ),
{
    let fields = inferred_fields(members);
    let f = fields[i];
    lemma_name_in_pieces(f);
    lemma_word_in_piece(
        fields.map_values(|f: FieldView| declaration(f)),
        i,
        declaration_head(f),
        f.name,
        ";\n"@,
    );
    lemma_word_in_piece(
        fields.map_values(|f: FieldView| ctor_parameter(f)),
        i,
        ctor_head(f),
        f.name,
        ctor_tail(f),
    );
    lemma_word_in_piece(
        fields.map_values(|f: FieldView| to_json_entry(f)),
        i,
        "'"@,
        f.name,
        "': "@ + f.name + ",\n"@,
    );
}

/// The names stand in the three fragments in the order of the members: the
/// name of an earlier member ends before the name of a later one begins.
pub proof fn lemma_keys_keep_their_order(members: Seq<MemberView>, i: int, j: int)
    requires
        0 <= i < j < members.len(),
    ensures
        declared_at(inferred_fields(members), i) + field_name(members[i].key).len() <= declared_at(
            inferred_fields(members),
            j,
        ),
        ctor_at(inferred_fields(members), i) + field_name(members[i].key).len() <= ctor_at(
            inferred_fields(members),
            j,
        ),
        to_json_at(inferred_fields(members), i) + field_name(members[i].key).len() <= to_json_at(
            inferred_fields(members),
            j,
        ),
{
    let fields = inferred_fields(members);
    let f = fields[i];
    lemma_name_in_pieces(f);
    let declarations = fields.map_values(|f: FieldView| declaration(f));
    lemma_word_in_piece(declarations, i, declaration_head(f), f.name, ";\n"@);
    lemma_offsets_ordered(declarations, i + 1, j);
    let parameters = fields.map_values(|f: FieldView| ctor_parameter(f));
    lemma_word_in_piece(parameters, i, ctor_head(f), f.name, ctor_tail(f));
    lemma_offsets_ordered(parameters, i + 1, j);
    let entries = fields.map_values(|f: FieldView| to_json_entry(f));
    lemma_word_in_piece(entries, i, "'"@, f.name, "': "@ + f.name + ",\n"@);
    lemma_offsets_ordered(entries, i + 1, j);
}

/// Each of the three pieces of a field holds the field's name between a head
/// and a tail.
pub proof fn lemma_name_in_pieces(f: FieldView)
    ensures
        declaration(f) == declaration_head(f) + f.name + ";\n"@,
        ctor_parameter(f) == ctor_head(f) + f.name + ctor_tail(f),
        to_json_entry(f) == "'"@ + f.name + ("': "@ + f.name + ",\n"@),
{
    assert(declaration(f) =~= declaration_head(f) + f.name + ";\n"@);
    assert(ctor_parameter(f) =~= ctor_head(f) + f.name + ctor_tail(f));
    assert(to_json_entry(f) =~= "'"@ + f.name + ("': "@ + f.name + ",\n"@));
}

/// A member whose value is a string that starts with the reference marker
/// becomes a collection of the class of the document it names: by its type,
/// in its declaration, and in the way its elements are read.
pub proof fn lemma_reference_is_typed_collection(member: MemberView)
    requires
        is_reference(member.sample),
    ensures
        inferred_field(member).types == KindView::Array,
        inferred_field(member).sub_type == Some(
            KindView::ModelReference(class_name(referenced_name(member.sample))),
        ),
        declaration(inferred_field(member)) == "final List"@ + ("<"@ + class_name(
            referenced_name(member.sample),
        ) + ">"@) + " "@ + field_name(member.key) + ";\n"@,
        from_json_entry(inferred_field(member)) == field_name(member.key) + ": (json['"@
            + field_name(member.key) + "'] as List? ?? []).map("@ + ("(e) => "@ + class_name(
            referenced_name(member.sample),
        ) + ".fromJson(e)"@) + ").toList(),\n"@,
{
    reveal_strlit("Model");
    let class = class_name(referenced_name(member.sample));
    assert(class.len() > 0);
}

/// A JSON string that starts with the reference marker is a reference, and
/// names what stands behind the marker.
pub proof fn lemma_marked_string_is_reference(value: serde_json::Value)
    requires
        json_form(&value) matches JsonRef::String(content) && reference_marker().is_prefix_of(
            content@,
        ),
    ensures
        is_reference(sample_view(value)),
        json_form(&value) matches JsonRef::String(content) && referenced_name(sample_view(value))
            == content@.skip(reference_marker().len() as int),
{
}

/// The declaration of such a member is not the declaration of a string of
/// the same name, nullable or not.
pub proof fn lemma_reference_is_no_string(member: MemberView)
    requires
        is_reference(member.sample),
    ensures
        declaration(inferred_field(member)) != "final "@ + ("String"@ + "?"@) + " "@ + field_name(
            member.key,
        ) + ";\n"@,
        declaration(inferred_field(member)) != "final "@ + "String"@ + " "@ + field_name(
            member.key,
        ) + ";\n"@,
{
    reveal_strlit("final List");
    reveal_strlit("final ");
    reveal_strlit("String");
    let found = declaration(inferred_field(member));
    assert(found[6] == 'L');
    let nullable = "final "@ + ("String"@ + "?"@) + " "@ + field_name(member.key) + ";\n"@;
    assert(nullable[6] == 'S');
    let bare = "final "@ + "String"@ + " "@ + field_name(member.key) + ";\n"@;
    assert(bare[6] == 'S');
}

/// What the expression that reads a field holds before the key.
pub open spec fn read_head(f: FieldView) -> Seq<char> {
    if f.types is Array && element_name(f.sub_type).len() > 0 {
        f.name + ": (json['"@
    } else {
        f.name + ": json['"@
    }
}

/// What the expression that reads a field holds behind the key.
pub open spec fn read_tail(f: FieldView) -> Seq<char> {
    if f.types is Array {
        if element_name(f.sub_type).len() == 0 {
            "'] as List? ?? [],\n"@
        } else {
            "'] as List? ?? []).map("@ + map_expression(f) + ").toList(),\n"@
        }
    } else {
        "'] "@ + cast(f) + ",\n"@
    }
}

/// A field is written to the map and read from it under one key, its name:
/// the entry that writes it opens with the name in quotes, and the
/// expression that reads it indexes the map by the name in quotes.
pub proof fn lemma_written_and_read_under_one_key(f: FieldView)
    ensures
        to_json_entry(f) == "'"@ + f.name + ("': "@ + f.name + ",\n"@),
        from_json_entry(f) == read_head(f) + f.name + read_tail(f),
{
    assert(to_json_entry(f) =~= "'"@ + f.name + ("': "@ + f.name + ",\n"@));
    assert(from_json_entry(f) =~= read_head(f) + f.name + read_tail(f));
}

/// A required field that is no collection is declared with its bare type,
/// is a required constructor parameter, and is read from JSON as it comes.
pub proof fn lemma_required_has_no_null_and_no_default(f: FieldView)
    requires
        f.wf(),
        f.required,
        !(f.types is Array),
    ensures
        declared_type(f) == dart_name(f.types),
        declaration(f) == "final "@ + dart_name(f.types) + " "@ + f.name + ";\n"@,
        ctor_parameter(f) == "required this."@ + f.name + ","@,
        cast(f) == Seq::<char>::empty(),
        from_json_entry(f) == f.name + ": json['"@ + f.name + "'] "@ + ",\n"@,
{
    assert(from_json_entry(f) =~= f.name + ": json['"@ + f.name + "'] "@ + ",\n"@);
}

/// A required collection is declared without a nullable type as well.
pub proof fn lemma_required_collection_is_not_nullable(f: FieldView)
    requires
        f.required,
        f.types is Array,
    ensures
        declaration(f) == "final List"@ + type_arguments(f) + " "@ + f.name + ";\n"@,
{
}

/// The field of a member whose key has the default marker, and whose value
/// is neither a collection nor a reference, takes the JSON text of the
/// sample for its constructor default.
pub proof fn lemma_default_is_sample_text(member: MemberView)
    requires
        has_default(member.key),
        !(member.sample.kind is Array),
        !is_reference(member.sample),
    ensures
        inferred_field(member).default,
        !inferred_field(member).required,
        inferred_field(member).value == member.sample.text,
        ctor_parameter(inferred_field(member)) == "this."@ + field_name(member.key) + " = "@
            + member.sample.text + ","@,
{
}

/// Where the value is not an object either, the same text is the fallback
/// when the field is read from JSON.
pub proof fn lemma_default_is_fallback(member: MemberView)
    requires
        has_default(member.key),
        !(member.sample.kind is Array),
        !(member.sample.kind is DynamicObject),
        !is_reference(member.sample),
    ensures
        from_json_entry(inferred_field(member)) == field_name(member.key) + ": json['"@
            + field_name(member.key) + "'] "@ + ("as "@ + dart_name(member.sample.kind) + "? ?? "@
            + member.sample.text) + ",\n"@,
{
}

/// A JSON array without elements is a collection of which no first element
/// is known.
pub proof fn lemma_empty_array_has_no_first(value: serde_json::Value)
    requires
        json_form(&value) matches JsonRef::Array(items) && items@.len() == 0,
    ensures
        sample_view(value).kind is Array,
        sample_view(value).first is None,
        !is_reference(sample_view(value)),
{
}

/// An empty array becomes a collection without an element type: it is
/// declared as a bare list, starts out empty, and is read without a change
/// to its elements.
pub proof fn lemma_empty_array_is_untyped(member: MemberView)
    requires
        member.sample.kind is Array,
        member.sample.first is None,
    ensures
        inferred_field(member).types == KindView::Array,
        inferred_field(member).sub_type is None,
        declaration(inferred_field(member)) == "final List"@ + Seq::<char>::empty() + " "@
            + field_name(member.key) + ";\n"@,
        ctor_parameter(inferred_field(member)) == "this."@ + field_name(member.key)
            + " = const [],"@,
        from_json_entry(inferred_field(member)) == field_name(member.key) + ": json['"@
            + field_name(member.key) + "'] as List? ?? [],\n"@,
{
}

} // verus!
