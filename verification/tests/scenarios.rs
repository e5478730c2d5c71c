use xtools::builder::build_json_model;
use xtools::generate::{
    generate_ctor, generate_fields, generate_from_json, generate_imports, generate_to_json,
};
use xtools::infer::parse_to_dart;
use xtools::model::{FileInfo, TypeKind};
use xtools::naming::class_name_of;

fn document(name: &str, content: &str) -> FileInfo {
    FileInfo { name: name.to_string(), content: content.to_string() }
}

#[test]
fn user_document_gives_three_fields() {
    let file = document("user", r#"{"r@id": 1, "d@active": true, "tags": "[]Tag"}"#);
    let info = parse_to_dart(&file).unwrap();
    assert_eq!(class_name_of(&file.name), "UserModel");
    assert_eq!(info.fields.len(), 3);

    let id = &info.fields[0];
    assert_eq!(id.name, "id");
    assert!(matches!(id.types, TypeKind::Integer));
    assert!(id.required);
    assert!(!id.default);
    assert!(id.sub_type.is_none());

    let active = &info.fields[1];
    assert_eq!(active.name, "active");
    assert!(matches!(active.types, TypeKind::Other));
    assert!(!active.required);
    assert!(active.default);
    assert_eq!(active.value, "true");

    let tags = &info.fields[2];
    assert_eq!(tags.name, "tags");
    assert!(matches!(tags.types, TypeKind::Array));
    assert!(matches!(&tags.sub_type, Some(TypeKind::ModelReference(class)) if class == "TagModel"));
    assert!(!tags.required);
    assert!(!tags.default);

    assert_eq!(info.imports, vec!["Tag".to_string()]);

    assert_eq!(
        generate_fields(&info.fields),
        "final int id;\nfinal  active;\nfinal List<TagModel> tags;\n"
    );
    assert_eq!(
        generate_ctor(&info.fields),
        "required this.id,this.active = true,this.tags = const [],"
    );
    assert_eq!(
        generate_from_json(&info.fields),
        "id: json['id'] ,\nactive: json['active'] as ? ?? true,\ntags: (json['tags'] as List? ?? []).map((e) => TagModel.fromJson(e)).toList(),\n"
    );
    assert_eq!(
        generate_to_json(&info.fields),
        "'id': id,\n'active': active,\n'tags': tags,\n"
    );
    assert_eq!(generate_imports(info.imports), "import \"Tag.g.dart\";\n");
}

#[test]
fn empty_document_gives_empty_model() {
    let file = document("empty", "{}");
    let info = parse_to_dart(&file).unwrap();
    assert_eq!(class_name_of(&file.name), "EmptyModel");
    assert!(info.fields.is_empty());
    assert!(info.imports.is_empty());
    assert_eq!(generate_fields(&info.fields), "");
    assert_eq!(generate_ctor(&info.fields), "");
    assert_eq!(generate_from_json(&info.fields), "");
    assert_eq!(generate_to_json(&info.fields), "");
    assert_eq!(generate_imports(info.imports), "");

    let source = build_json_model(&file).unwrap();
    assert!(source.contains("class EmptyModel {\n  \n\n  EmptyModel({});\n"));
    assert!(source.contains("    return EmptyModel(\n      \n    );\n"));
    assert!(source.contains("    return {\n      \n    };\n"));
}
