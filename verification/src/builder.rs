//! From a document to the source of its model class.

use vstd::prelude::*;
use crate::generate::{
    ctor_text, fields_text, from_json_text, generate_ctor, generate_fields, generate_from_json,
    generate_imports, generate_to_json, imports_text, to_json_text,
};
use crate::infer::{inferred, parse_to_dart};
use crate::model::{DartInfo, DartView, FileInfo};
use crate::naming::{class_name, class_name_of};
use crate::sample::{ParseError, document_members};
use crate::tmpl::{render, rendered};

verus! {

/// The source of the class of a model: the skeleton filled with the class
/// name of the document and the fragments of the model.
pub open spec fn model_text(name: Seq<char>, info: DartView) -> Seq<char> {
    rendered(
        class_name(name),
        imports_text(info.imports),
        fields_text(info.fields),
        ctor_text(info.fields),
        from_json_text(info.fields),
        to_json_text(info.fields),
    )
}

/// What building a document gives: the source of its class where the
/// content is a JSON object, the reason for the failure where it is not.
pub open spec fn built(name: Seq<char>, content: Seq<char>) -> Result<Seq<char>, ParseError> {
    match document_members(content) {
        Ok(members) => Ok(model_text(name, inferred(members))),
        Err(error) => Err(error),
    }
}

/// The view of what building a document gave.
pub open spec fn outcome_view(outcome: Result<String, ParseError>) -> Result<
    Seq<char>,
    ParseError,
> {
    match outcome {
        Ok(source) => Ok(source@),
        Err(error) => Err(error),
    }
}

/// The file that holds the class of a document: in the output directory,
/// under the document's base name and the suffix of model files.
pub open spec fn model_path(out_dir: Seq<char>, name: Seq<char>) -> Seq<char> {
    out_dir + "/"@ + name + ".g.dart"@
}

/// Renders the class of a model that was inferred for the document of the
/// given base name.
pub fn render_model(name: &str, info: DartInfo) -> (source: String)
    ensures
        source@ == model_text(name@, info@),
{
    let class = class_name_of(name);
    let fields = generate_fields(&info.fields);
    let ctor = generate_ctor(&info.fields);
    let from_json = generate_from_json(&info.fields);
    let to_json = generate_to_json(&info.fields);
    let imports = generate_imports(info.imports);
    render(
        class.as_str(),
        imports.as_str(),
        fields.as_str(),
        ctor.as_str(),
        from_json.as_str(),
        to_json.as_str(),
    )
}

/// Builds the source of the class of one document.
pub fn build_json_model(file: &FileInfo) -> (outcome: Result<String, ParseError>)
    ensures
        outcome_view(outcome) == built(file.name@, file.content@),
{
    match parse_to_dart(file) {
        Ok(info) => Ok(render_model(file.name.as_str(), info)),
        Err(error) => Err(error),
    }
}

/// Builds every document of a batch. A document that cannot be read fails
/// alone: each outcome is that of its own document, whatever the others hold.
pub fn build_json_models(files: &Vec<FileInfo>) -> (outcomes: Vec<Result<String, ParseError>>)
    ensures
        outcomes@.len() == files@.len(),
        forall|i: int|
            0 <= i < files@.len() ==> outcome_view(#[trigger] outcomes@[i]) == built(
                files@[i].name@,
                files@[i].content@,
            ),
{
    let mut outcomes: Vec<Result<String, ParseError>> = Vec::new();
    let mut i: usize = 0;
    while i < files.len()
        invariant
            i <= files.len(),
            outcomes@.len() == i,
            forall|j: int|
                0 <= j < i ==> outcome_view(#[trigger] outcomes@[j]) == built(
                    files@[j].name@,
                    files@[j].content@,
                ),
        decreases files.len() - i,
    {
        let outcome = build_json_model(&files[i]);
        outcomes.push(outcome);
        i += 1;
    }
    outcomes
}

/// The path of the file that holds the class of a document.
pub fn model_file_path(out_dir: &str, name: &str) -> (path: String)
    ensures
        path@ == model_path(out_dir@, name@),
{
    let mut path = String::from_str(out_dir);
    path.append("/");
    path.append(name);
    path.append(".g.dart");
    path
}

} // verus!
