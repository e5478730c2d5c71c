//! From the members of a document to the fields and imports of its model.

use vstd::prelude::*;
use crate::model::{
    DartInfo, DartView, FieldInfo, FieldView, FileInfo, KindView, TypeKind, field_views,
    kind_option_view, string_views,
};
use crate::naming::{class_name, class_name_of};
use crate::sample::{
    Member, MemberView, ParseError, Sample, SampleView, document_members, member_views,
    read_members,
};
use crate::text::{skip_chars, starts_with};

verus! {

/// The prefix of a key that marks its field as required.
pub open spec fn required_marker() -> Seq<char> {
    "r@"@
}

/// The prefix of a key that gives its field the sample value as default.
pub open spec fn default_marker() -> Seq<char> {
    "d@"@
}

/// The prefix of a string value that refers to the model of another document.
pub open spec fn reference_marker() -> Seq<char> {
    "[]"@
}

/// Whether the key marks its field as required.
pub open spec fn is_required(key: Seq<char>) -> bool {
    required_marker().is_prefix_of(key)
}

/// Whether the key gives its field a default. The required marker is looked
/// for first.
pub open spec fn has_default(key: Seq<char>) -> bool {
    !is_required(key) && default_marker().is_prefix_of(key)
}

/// The name of the field of a key: the key without the marker it starts
/// with, if it starts with one. No more than that one marker is taken off.
pub open spec fn field_name(key: Seq<char>) -> Seq<char> {
    if is_required(key) {
        key.skip(required_marker().len() as int)
    } else if has_default(key) {
        key.skip(default_marker().len() as int)
    } else {
        key
    }
}

/// Whether a sample refers to the model of another document: it is a string
/// that starts with the reference marker.
pub open spec fn is_reference(sample: SampleView) -> bool {
    sample.kind is String && sample.content is Some && reference_marker().is_prefix_of(
        sample.content->0,
    )
}

/// The base name of the document that a reference names: what follows the
/// marker.
pub open spec fn referenced_name(sample: SampleView) -> Seq<char> {
    sample.content->0.skip(reference_marker().len() as int)
}

/// The element type that a first element gives: none where the element has
/// no type name.
pub open spec fn known_element(first: Option<KindView>) -> Option<KindView> {
    if first == Some(KindView::Other) {
        None
    } else {
        first
    }
}

/// The field inferred for one member.
pub open spec fn inferred_field(member: MemberView) -> FieldView {
    FieldView {
        name: field_name(member.key),
        types: if is_reference(member.sample) {
            KindView::Array
        } else {
            member.sample.kind
        },
        value: member.sample.text,
        sub_type: if is_reference(member.sample) {
            Some(KindView::ModelReference(class_name(referenced_name(member.sample))))
        } else if member.sample.kind is Array {
            known_element(member.sample.first)
        } else {
            None
        },
        required: is_required(member.key),
        default: has_default(member.key),
    }
}

/// The fields inferred for the members of a document: one per member, in
/// the same order.
pub open spec fn inferred_fields(members: Seq<MemberView>) -> Seq<FieldView> {
    members.map_values(|m: MemberView| inferred_field(m))
}

/// The names that the members of a document refer to, each once, in the
/// order in which they are first met.
pub open spec fn inferred_imports(members: Seq<MemberView>) -> Seq<Seq<char>>
    decreases members.len(),
{
    if members.len() == 0 {
        Seq::empty()
    } else {
        let before = inferred_imports(members.drop_last());
        let sample = members.last().sample;
        if is_reference(sample) && !before.contains(referenced_name(sample)) {
            before.push(referenced_name(sample))
        } else {
            before
        }
    }
}

/// The model inferred for the members of a document.
pub open spec fn inferred(members: Seq<MemberView>) -> DartView {
    DartView { imports: inferred_imports(members), fields: inferred_fields(members) }
}

/// The name that a sample refers to, if it is a reference.
pub fn reference_of(sample: &Sample) -> (name: Option<String>)
    ensures
        name is Some <==> is_reference(sample@),
        name matches Some(n) ==> n@ == referenced_name(sample@),
{
    proof {
        reveal_strlit("[]");
    }
    match (&sample.kind, &sample.content) {
        (TypeKind::String, Some(content)) => {
            if starts_with(content.as_str(), "[]") {
                Some(skip_chars(content.as_str(), 2))
            } else {
                None
            }
        },
        _ => None,
    }
}

fn known_element_of(first: &Option<TypeKind>) -> (element: Option<TypeKind>)
    ensures
        kind_option_view(element) == known_element(kind_option_view(*first)),
{
    match first {
        Some(TypeKind::Other) => None,
        Some(kind) => Some(kind.clone()),
        None => None,
    }
}

/// Infers the field of one member.
pub fn infer_field(member: &Member) -> (field: FieldInfo)
    ensures
        field@ == inferred_field(member@),
        member@.sample.wf() ==> field@.wf(),
{
    proof {
        reveal_strlit("r@");
        reveal_strlit("d@");
    }
    let key = member.key.as_str();
    let required = starts_with(key, "r@");
    let default = !required && starts_with(key, "d@");
    let name = if required || default {
        skip_chars(key, 2)
    } else {
        member.key.clone()
    };
    let (types, sub_type) = match reference_of(&member.sample) {
        Some(base) => (
            TypeKind::Array,
            Some(TypeKind::ModelReference(class_name_of(base.as_str()))),
        ),
        None => {
            let sub_type = if member.sample.kind.is_array() {
                known_element_of(&member.sample.first)
            } else {
                None
            };
            (member.sample.kind.clone(), sub_type)
        },
    };
    FieldInfo { name, types, value: member.sample.text.clone(), sub_type, required, default }
}

/// Whether the list holds the name.
fn holds(list: &Vec<String>, name: &String) -> (found: bool)
    ensures
        found == string_views(list@).contains(name@),
{
    let mut i: usize = 0;
    while i < list.len()
        invariant
            i <= list.len(),
            forall|j: int| 0 <= j < i ==> string_views(list@)[j] != name@,
        decreases list.len() - i,
    {
        if list[i] == *name {
            assert(string_views(list@)[i as int] == name@);
            return true;
        }
        i += 1;
    }
    false
}

/// Infers the model of a document from its members.
pub fn infer_fields(members: &Vec<Member>) -> (info: DartInfo)
    ensures
        info@ == inferred(member_views(members@)),
        (forall|i: int| 0 <= i < members@.len() ==> (#[trigger] members@[i])@.sample.wf())
            ==> info@.wf(),
{
    let ghost views = member_views(members@);
    let mut imports: Vec<String> = Vec::new();
    let mut fields: Vec<FieldInfo> = Vec::new();
    let mut i: usize = 0;
    while i < members.len()
        invariant
            i <= members.len(),
            views == member_views(members@),
            fields@.len() == i,
            field_views(fields@) == inferred_fields(views.take(i as int)),
            string_views(imports@) == inferred_imports(views.take(i as int)),
        decreases members.len() - i,
    {
        let member = &members[i];
        let ghost before = views.take(i as int);
        let ghost after = views.take(i + 1);
        assert(after.drop_last() =~= before);
        assert(after.last() == member@);
        let field = infer_field(member);
        let ghost old_fields = fields@;
        fields.push(field);
        assert(field_views(fields@) =~= inferred_fields(after)) by {
            assert forall|j: int| 0 <= j < i implies field_views(fields@)[j] == inferred_fields(
                after,
            )[j] by {
                assert(field_views(old_fields)[j] == inferred_fields(before)[j]);
            }
        }
        match reference_of(&member.sample) {
            Some(base) => {
                if !holds(&imports, &base) {
                    let ghost old_imports = imports@;
                    imports.push(base);
                    assert(string_views(imports@) =~= string_views(old_imports).push(base@));
                }
            },
            None => {},
        }
        i += 1;
    }
    assert(views.take(i as int) =~= views);
    proof {
        if forall|i: int| 0 <= i < members@.len() ==> (#[trigger] members@[i])@.sample.wf() {
            assert forall|i: int| 0 <= i < views.len() implies (#[trigger] views[i]).sample.wf() by {
                assert(members@[i]@.sample.wf());
            }
            lemma_inferred_wf(views);
        }
    }
    DartInfo { imports, fields }
}

/// Reads a document and infers its model. Fails where the document is not
/// a JSON object.
pub fn parse_to_dart(file: &FileInfo) -> (parsed: Result<DartInfo, ParseError>)
    ensures
        match parsed {
            Ok(info) => document_members(file.content@) matches Ok(members) && info@ == inferred(
                members,
            ) && info@.wf(),
            Err(error) => document_members(file.content@) == Err::<Seq<MemberView>, ParseError>(
                error,
            ),
        },
{
    match read_members(file.content.as_str()) {
        Ok(members) => Ok(infer_fields(&members)),
        Err(error) => Err(error),
    }
}

/// No name occurs twice among the imports.
pub proof fn lemma_imports_distinct(members: Seq<MemberView>)
    ensures
        inferred_imports(members).no_duplicates(),
    decreases members.len(),
{
    if members.len() > 0 {
        lemma_imports_distinct(members.drop_last());
    }
}

/// A name is imported exactly if some member refers to it.
pub proof fn lemma_imports_are_the_references(members: Seq<MemberView>, name: Seq<char>)
    ensures
        inferred_imports(members).contains(name) <==> exists|i: int|
            0 <= i < members.len() && is_reference((#[trigger] members[i]).sample)
                && referenced_name(members[i].sample) == name,
    decreases members.len(),
{
    if members.len() > 0 {
        let before = members.drop_last();
        let last = members.last();
        lemma_imports_are_the_references(before, name);
        if inferred_imports(members).contains(name) {
            if inferred_imports(before).contains(name) {
                let i = choose|i: int|
                    0 <= i < before.len() && is_reference((#[trigger] before[i]).sample)
                        && referenced_name(before[i].sample) == name;
                assert(members[i] == before[i]);
            } else {
                let at = choose|k: int|
                    0 <= k < inferred_imports(members).len() && inferred_imports(members)[k]
                        == name;
                assert(inferred_imports(members) == inferred_imports(before).push(
                    referenced_name(last.sample),
                ));
                if at < inferred_imports(before).len() {
                    assert(inferred_imports(before)[at] == name);
                }
                assert(members[members.len() - 1] == last);
            }
        }
        if exists|i: int|
            0 <= i < members.len() && is_reference((#[trigger] members[i]).sample)
                && referenced_name(members[i].sample) == name {
            let i = choose|i: int|
                0 <= i < members.len() && is_reference((#[trigger] members[i]).sample)
                    && referenced_name(members[i].sample) == name;
            if i < before.len() {
                assert(before[i] == members[i]);
                assert(inferred_imports(before).contains(name));
                let at = choose|k: int|
                    0 <= k < inferred_imports(before).len() && inferred_imports(before)[k] == name;
                assert(inferred_imports(members)[at] == name);
            } else {
                if inferred_imports(before).contains(name) {
                    let at = choose|k: int|
                        0 <= k < inferred_imports(before).len() && inferred_imports(before)[k]
                            == name;
                    assert(inferred_imports(members)[at] == name);
                } else {
                    assert(inferred_imports(members)[inferred_imports(before).len() as int]
                        == name);
                }
            }
        }
    }
}

/// Names are imported in the order in which they are first met: what the
/// first members of a document import opens what the whole document imports.
pub proof fn lemma_imports_in_first_seen_order(members: Seq<MemberView>, count: int)
    requires
        0 <= count <= members.len(),
    ensures
        inferred_imports(members.take(count)).is_prefix_of(inferred_imports(members)),
    decreases members.len(),
{
    if count == members.len() {
        assert(members.take(count) =~= members);
        let all = inferred_imports(members);
        assert(all.subrange(0, all.len() as int) =~= all);
    } else {
        let before = members.drop_last();
        lemma_imports_in_first_seen_order(before, count);
        assert(before.take(count) =~= members.take(count));
        let part = inferred_imports(members.take(count));
        assert(part =~= inferred_imports(before).subrange(0, part.len() as int));
        assert(part =~= inferred_imports(members).subrange(0, part.len() as int));
    }
}

/// The model inferred from well-formed samples is well formed.
pub proof fn lemma_inferred_wf(members: Seq<MemberView>)
    requires
        forall|i: int| 0 <= i < members.len() ==> (#[trigger] members[i]).sample.wf(),
    ensures
        inferred(members).wf(),
{
    lemma_imports_distinct(members);
    assert forall|i: int| 0 <= i < inferred(members).fields.len() implies (
    #[trigger] inferred(members).fields[i]).wf() by {
        assert(members[i].sample.wf());
    }
}

} // verus!
