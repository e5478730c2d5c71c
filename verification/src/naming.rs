//! Names in generated source: the case forms of a text, as `convert_case`
//! gives them.

use vstd::prelude::*;
use convert_case::{Case, Casing};

verus! {

/// The case forms that generated names take.
#[derive(Debug, PartialEq, Eq, Clone, Copy, Structural)]
pub enum WordCase {
    /// Words capitalised and joined: `UserProfile`.
    Pascal,
    /// Words in lower case, joined by underscores: `user_profile`.
    Snake,
}

/// The form of a text in a case, as `convert_case` gives it.
pub uninterp spec fn case_form(text: Seq<char>, case: WordCase) -> Seq<char>;

/// The Pascal-case form of a text.
pub open spec fn pascal_case(text: Seq<char>) -> Seq<char> {
    case_form(text, WordCase::Pascal)
}

/// The snake-case form of a text.
pub open spec fn snake_case(text: Seq<char>) -> Seq<char> {
    case_form(text, WordCase::Snake)
}

/// The name of the class generated for the document of the given base name.
pub open spec fn class_name(name: Seq<char>) -> Seq<char> {
    pascal_case(name) + "Model"@
}

/// `convert_case::Casing::to_case`: the text is split into words at the
/// crate's default boundaries, and the words are written and joined as the
/// case asks. The result depends on the text and the case alone.
#[verifier::external_body]
pub(crate) fn to_case(text: &str, case: WordCase) -> (converted: String)
    ensures
        converted@ == case_form(text@, case),
{
    match case {
        WordCase::Pascal => text.to_case(Case::Pascal),
        WordCase::Snake => text.to_case(Case::Snake),
    }
}

/// The name of the class generated for the document of the given base name.
pub fn class_name_of(name: &str) -> (class: String)
    ensures
        class@ == class_name(name@),
{
    let mut class = to_case(name, WordCase::Pascal);
    class.append("Model");
    class
}

} // verus!
