//! The skeleton of a model class and the renderer that fills it.
//!
//! The skeleton is a fixed text with six kinds of gaps. The renderer writes
//! the text once from start to end and puts each value into its gaps as it
//! comes to them, so nothing that a value holds is ever taken for a gap.

use vstd::prelude::*;

verus! {

/// The banner and the library directive that open every file.
pub const HEADER: &'static str =
    "\n////////////////////////////////////////////////////////////\n////           ____             __ \n////          / __ \\____ ______/ /_\n////         / / / / __ `/ ___/ __/\n////        / /_/ / /_/ / /  / /_  \n////       /_____/\\__,_/_/   \\__/  \n////                             \n////   GENERATED CODE - DO NOT MODIFY BY HAND\n//// \n////////////////////////////////////////////////////////////\nlibrary;\n\n";

/// The source of a model class: the skeleton with the class name and the
/// five fragments in place.
pub open spec fn rendered(
    class_name: Seq<char>,
    imports: Seq<char>,
    fields: Seq<char>,
    ctor: Seq<char>,
    from_json: Seq<char>,
    to_json: Seq<char>,
) -> Seq<char> {
    HEADER@ + imports + "\n\nclass "@ + class_name + " {\n  "@ + fields + "\n\n  "@ + class_name
        + "({"@ + ctor + "});\n\n  factory "@ + class_name
        + ".fromJson(Map<String, dynamic> json) {\n    return "@ + class_name + "(\n      "@
        + from_json + "\n    );\n  }\n\n  Map<String, dynamic> toJson() {\n    return {\n      "@
        + to_json + "\n    };\n  }\n}\n"@
}

/// Renders the source of a model class.
pub fn render(
    class_name: &str,
    imports: &str,
    fields: &str,
    ctor: &str,
    from_json: &str,
    to_json: &str,
) -> (source: String)
    ensures
        source@ == rendered(class_name@, imports@, fields@, ctor@, from_json@, to_json@),
{
    let mut source = String::from_str(HEADER);
    source.append(imports);
    source.append("\n\nclass ");
    source.append(class_name);
    source.append(" {\n  ");
    source.append(fields);
    source.append("\n\n  ");
    source.append(class_name);
    source.append("({");
    source.append(ctor);
    source.append("});\n\n  factory ");
    source.append(class_name);
    source.append(".fromJson(Map<String, dynamic> json) {\n    return ");
    source.append(class_name);
    source.append("(\n      ");
    source.append(from_json);
    source.append("\n    );\n  }\n\n  Map<String, dynamic> toJson() {\n    return {\n      ");
    source.append(to_json);
    source.append("\n    };\n  }\n}\n");
    source
}

} // verus!
