use xtools::builder::{build_json_model, build_json_models, model_file_path, render_model};
use xtools::infer::parse_to_dart;
use xtools::model::{DartInfo, FieldInfo, FileInfo, TypeKind};
use xtools::naming::class_name_of;
use xtools::sample::ParseError;
use xtools::tmpl::{render, HEADER};

const SKELETON: &str = r#"
////////////////////////////////////////////////////////////
////           ____             __ 
////          / __ \____ ______/ /_
////         / / / / __ `/ ___/ __/
////        / /_/ / /_/ / /  / /_  
////       /_____/\__,_/_/   \__/  
////                             
////   GENERATED CODE - DO NOT MODIFY BY HAND
//// 
////////////////////////////////////////////////////////////
library;

{imports}

class {className} {
  {fields}

  {className}({{ctor}});

  factory {className}.fromJson(Map<String, dynamic> json) {
    return {className}(
      {fromJson}
    );
  }

  Map<String, dynamic> toJson() {
    return {
      {toJson}
    };
  }
}
"#;

fn filled(
    class_name: &str,
    imports: &str,
    fields: &str,
    ctor: &str,
    from_json: &str,
    to_json: &str,
) -> String {
    SKELETON
        .replace("{imports}", imports)
        .replace("{className}", class_name)
        .replace("{fields}", fields)
        .replace("{ctor}", ctor)
        .replace("{fromJson}", from_json)
        .replace("{toJson}", to_json)
}

fn document(name: &str, content: &str) -> FileInfo {
    FileInfo { name: name.to_string(), content: content.to_string() }
}

#[test]
fn header_opens_the_skeleton() {
    assert!(SKELETON.starts_with(HEADER));
    assert!(HEADER.ends_with("library;\n\n"));
    assert_eq!(HEADER.len(), SKELETON.find("{imports}").unwrap());
}

#[test]
fn render_fills_every_gap() {
    let source = render("UserModel", "I", "F", "C", "R", "W");
    assert_eq!(source, filled("UserModel", "I", "F", "C", "R", "W"));
    assert_eq!(source.matches("UserModel").count(), 4);
}

#[test]
fn render_with_nothing_to_fill_in() {
    let source = render("", "", "", "", "", "");
    assert_eq!(source, filled("", "", "", "", "", ""));
    assert!(source.ends_with("\n\nclass  {\n  \n\n  ({});\n\n  factory .fromJson(Map<String, dynamic> json) {\n    return (\n      \n    );\n  }\n\n  Map<String, dynamic> toJson() {\n    return {\n      \n    };\n  }\n}\n"));
}

#[test]
fn values_are_never_taken_for_gaps() {
    let source = render("{fields}", "{className}", "{ctor}", "{fromJson}", "{toJson}", "{imports}");
    let expected = format!(
        "{}{}\n\nclass {} {{\n  {}\n\n  {}({{{}}});\n\n  factory {}.fromJson(Map<String, dynamic> json) {{\n    return {}(\n      {}\n    );\n  }}\n\n  Map<String, dynamic> toJson() {{\n    return {{\n      {}\n    }};\n  }}\n}}\n",
        HEADER,
        "{className}",
        "{fields}",
        "{ctor}",
        "{fields}",
        "{fromJson}",
        "{fields}",
        "{fields}",
        "{toJson}",
        "{imports}"
    );
    assert_eq!(source, expected);
}

#[test]
fn a_key_that_looks_like_a_gap_stays_as_it_is() {
    let source = build_json_model(&document("odd", r#"{"{toJson}": "x"}"#)).unwrap();
    assert!(source.contains("  final String? {toJson};\n"));
    assert!(source.contains("      '{toJson}': {toJson},\n"));
    assert!(source.contains("      {toJson}: json['{toJson}'] as String?,\n"));
}

#[test]
fn user_model_source() {
    let file = document("user", r#"{"r@id": 1, "d@active": true, "tags": "[]Tag"}"#);
    let source = build_json_model(&file).unwrap();
    let expected = filled(
        "UserModel",
        "import \"Tag.g.dart\";\n",
        "final int id;\nfinal  active;\nfinal List<TagModel> tags;\n",
        "required this.id,this.active = true,this.tags = const [],",
        "id: json['id'] ,\nactive: json['active'] as ? ?? true,\ntags: (json['tags'] as List? ?? []).map((e) => TagModel.fromJson(e)).toList(),\n",
        "'id': id,\n'active': active,\n'tags': tags,\n",
    );
    assert_eq!(source, expected);
}

#[test]
fn empty_model_source() {
    let source = build_json_model(&document("empty", "{}")).unwrap();
    assert_eq!(source, filled("EmptyModel", "", "", "", "", ""));
}

#[test]
fn render_model_from_fields() {
    let info = DartInfo {
        imports: vec!["tag".to_string()],
        fields: vec![FieldInfo {
            name: "tags".to_string(),
            types: TypeKind::Array,
            value: "\"[]tag\"".to_string(),
            sub_type: Some(TypeKind::ModelReference("TagModel".to_string())),
            required: false,
            default: false,
        }],
    };
    let source = render_model("blog_post", info);
    let expected = filled(
        "BlogPostModel",
        "import \"tag.g.dart\";\n",
        "final List<TagModel> tags;\n",
        "this.tags = const [],",
        "tags: (json['tags'] as List? ?? []).map((e) => TagModel.fromJson(e)).toList(),\n",
        "'tags': tags,\n",
    );
    assert_eq!(source, expected);
}

#[test]
fn building_is_the_same_every_time() {
    let file = document("user", r#"{"r@id": 1, "d@active": true, "tags": "[]Tag", "l": [1]}"#);
    assert_eq!(build_json_model(&file), build_json_model(&file));
    assert_eq!(parse_to_dart(&file), parse_to_dart(&file));
}

#[test]
fn class_names() {
    assert_eq!(class_name_of("user"), "UserModel");
    assert_eq!(class_name_of("user_profile"), "UserProfileModel");
    assert_eq!(class_name_of("blog-post"), "BlogPostModel");
    assert_eq!(class_name_of("orderItem"), "OrderItemModel");
    assert_eq!(class_name_of("HTTPRequest"), "HttpRequestModel");
    assert_eq!(class_name_of(""), "Model");
}

#[test]
fn a_bad_document_fails_alone() {
    let files = vec![
        document("first", r#"{"r@id": 1}"#),
        document("broken", r#"{"id": "#),
        document("list", r#"[1, 2]"#),
        document("last", r#"{}"#),
    ];
    let outcomes = build_json_models(&files);
    assert_eq!(outcomes.len(), 4);
    assert_eq!(outcomes[0], build_json_model(&files[0]));
    assert!(outcomes[0].as_ref().unwrap().contains("class FirstModel {"));
    assert_eq!(outcomes[1], Err(ParseError::InvalidJson));
    assert_eq!(outcomes[2], Err(ParseError::NotAnObject));
    assert_eq!(outcomes[3], Ok(filled("LastModel", "", "", "", "", "")));
    assert!(build_json_models(&Vec::new()).is_empty());
}

#[test]
fn model_file_paths() {
    assert_eq!(model_file_path("./lib/models", "user"), "./lib/models/user.g.dart");
    assert_eq!(model_file_path("out", "user_profile"), "out/user_profile.g.dart");
    assert_eq!(model_file_path("", ""), "/.g.dart");
}
