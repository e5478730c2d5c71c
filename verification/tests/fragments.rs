use xtools::generate::{
    generate_ctor, generate_fields, generate_from_json, generate_imports, generate_to_json,
};
use xtools::infer::parse_to_dart;
use xtools::model::{FieldInfo, FileInfo, TypeKind};

fn fields_of(content: &str) -> Vec<FieldInfo> {
    let file = FileInfo { name: "sample".to_string(), content: content.to_string() };
    parse_to_dart(&file).unwrap().fields
}

fn field(name: &str, types: TypeKind, sub_type: Option<TypeKind>) -> FieldInfo {
    FieldInfo {
        name: name.to_string(),
        types,
        value: "null".to_string(),
        sub_type,
        required: false,
        default: false,
    }
}

#[test]
fn every_key_once_and_in_order() {
    let fields = fields_of(r#"{"b": 1, "r@a": "x", "d@c": 2.5}"#);
    assert_eq!(generate_fields(&fields), "final int? b;\nfinal String a;\nfinal double c;\n");
    assert_eq!(generate_ctor(&fields), "this.b,required this.a,this.c = 2.5,");
    assert_eq!(generate_to_json(&fields), "'b': b,\n'a': a,\n'c': c,\n");
    assert_eq!(
        generate_from_json(&fields),
        "b: json['b'] as int?,\na: json['a'] ,\nc: json['c'] as double? ?? 2.5,\n"
    );
}

#[test]
fn plain_fields_are_nullable() {
    let fields = fields_of(r#"{"s": "x", "i": 1, "d": 0.5}"#);
    assert_eq!(generate_fields(&fields), "final String? s;\nfinal int? i;\nfinal double? d;\n");
    assert_eq!(generate_ctor(&fields), "this.s,this.i,this.d,");
    assert_eq!(
        generate_from_json(&fields),
        "s: json['s'] as String?,\ni: json['i'] as int?,\nd: json['d'] as double?,\n"
    );
}

#[test]
fn required_fields_have_no_null_and_no_default() {
    let fields = fields_of(r#"{"r@s": "x", "r@i": 1, "r@d": 0.5, "r@o": {}}"#);
    assert_eq!(
        generate_fields(&fields),
        "final String s;\nfinal int i;\nfinal double d;\nfinal dynamic o;\n"
    );
    assert_eq!(
        generate_ctor(&fields),
        "required this.s,required this.i,required this.d,required this.o,"
    );
    assert_eq!(
        generate_from_json(&fields),
        "s: json['s'] ,\ni: json['i'] ,\nd: json['d'] ,\no: json['o'] ,\n"
    );
}

#[test]
fn default_fields_carry_the_sample_text() {
    let fields = fields_of(r#"{"d@s": "a b", "d@i": -4, "d@f": 2.50, "d@t": true}"#);
    assert_eq!(
        generate_fields(&fields),
        "final String s;\nfinal int i;\nfinal double f;\nfinal  t;\n"
    );
    assert_eq!(
        generate_ctor(&fields),
        "this.s = \"a b\",this.i = -4,this.f = 2.5,this.t = true,"
    );
    assert_eq!(
        generate_from_json(&fields),
        "s: json['s'] as String? ?? \"a b\",\ni: json['i'] as int? ?? -4,\nf: json['f'] as double? ?? 2.5,\nt: json['t'] as ? ?? true,\n"
    );
}

#[test]
fn objects_are_dynamic() {
    let fields = fields_of(r#"{"o": {"k": 1}, "d@p": {}}"#);
    assert_eq!(generate_fields(&fields), "final dynamic o;\nfinal dynamic p;\n");
    assert_eq!(generate_ctor(&fields), "this.o,this.p = {},");
    assert_eq!(generate_from_json(&fields), "o: json['o'] ,\np: json['p'] ,\n");
}

#[test]
fn null_and_booleans_have_no_type_name() {
    let fields = fields_of(r#"{"n": null, "r@b": false}"#);
    assert_eq!(generate_fields(&fields), "final ? n;\nfinal  b;\n");
    assert_eq!(generate_ctor(&fields), "this.n,required this.b,");
    assert_eq!(generate_from_json(&fields), "n: json['n'] as ?,\nb: json['b'] ,\n");
}

#[test]
fn empty_array_is_an_untyped_collection() {
    let fields = fields_of(r#"{"es": []}"#);
    assert_eq!(generate_fields(&fields), "final List es;\n");
    assert_eq!(generate_ctor(&fields), "this.es = const [],");
    assert_eq!(generate_from_json(&fields), "es: json['es'] as List? ?? [],\n");
    assert_eq!(generate_to_json(&fields), "'es': es,\n");
}

#[test]
fn collections_ignore_their_markers() {
    let fields = fields_of(r#"{"d@xs": [1, 2], "r@ys": ["a"], "d@es": []}"#);
    assert_eq!(
        generate_fields(&fields),
        "final List<int> xs;\nfinal List<String> ys;\nfinal List es;\n"
    );
    assert_eq!(
        generate_ctor(&fields),
        "this.xs = const [],this.ys = const [],this.es = const [],"
    );
    assert_eq!(
        generate_from_json(&fields),
        "xs: (json['xs'] as List? ?? []).map((e) => e as int).toList(),\nys: (json['ys'] as List? ?? []).map((e) => e as String).toList(),\nes: json['es'] as List? ?? [],\n"
    );
}

#[test]
fn typed_collections_by_element() {
    let fields = fields_of(r#"{"ds": [0.5], "os": [{}], "ls": [[1]], "bs": [true]}"#);
    assert_eq!(
        generate_fields(&fields),
        "final List<double> ds;\nfinal List<dynamic> os;\nfinal List<array> ls;\nfinal List bs;\n"
    );
    assert_eq!(
        generate_from_json(&fields),
        "ds: (json['ds'] as List? ?? []).map((e) => e as double).toList(),\nos: (json['os'] as List? ?? []).map((e) => dynamic.fromJson(e)).toList(),\nls: (json['ls'] as List? ?? []).map((e) => array.fromJson(e)).toList(),\nbs: json['bs'] as List? ?? [],\n"
    );
}

#[test]
fn references_are_typed_collections_of_models() {
    let fields = fields_of(r#"{"tags": "[]tag", "d@more": "[]user_profile"}"#);
    assert_eq!(
        generate_fields(&fields),
        "final List<TagModel> tags;\nfinal List<UserProfileModel> more;\n"
    );
    assert_eq!(generate_ctor(&fields), "this.tags = const [],this.more = const [],");
    assert_eq!(
        generate_from_json(&fields),
        "tags: (json['tags'] as List? ?? []).map((e) => TagModel.fromJson(e)).toList(),\nmore: (json['more'] as List? ?? []).map((e) => UserProfileModel.fromJson(e)).toList(),\n"
    );
}

#[test]
fn fields_written_by_hand() {
    let mut both = field("x", TypeKind::Integer, None);
    both.required = true;
    both.default = true;
    both.value = "7".to_string();
    let fields = vec![
        both,
        field("m", TypeKind::ModelReference("TagModel".to_string()), None),
        field("e", TypeKind::Array, Some(TypeKind::ModelReference(String::new()))),
        field("o", TypeKind::Array, Some(TypeKind::Other)),
        field("s", TypeKind::String, Some(TypeKind::Integer)),
    ];
    assert_eq!(
        generate_fields(&fields),
        "final int x;\nfinal TagModel? m;\nfinal List e;\nfinal List o;\nfinal String? s;\n"
    );
    assert_eq!(generate_ctor(&fields), "this.x = 7,this.m,this.e = const [],this.o = const [],this.s,");
    assert_eq!(
        generate_from_json(&fields),
        "x: json['x'] ,\nm: json['m'] as TagModel?,\ne: json['e'] as List? ?? [],\no: json['o'] as List? ?? [],\ns: json['s'] as String?,\n"
    );
}

#[test]
fn no_fields_no_text() {
    let fields: Vec<FieldInfo> = Vec::new();
    assert_eq!(generate_fields(&fields), "");
    assert_eq!(generate_ctor(&fields), "");
    assert_eq!(generate_from_json(&fields), "");
    assert_eq!(generate_to_json(&fields), "");
}

#[test]
fn imports_one_line_each() {
    assert_eq!(generate_imports(Vec::new()), "");
    assert_eq!(
        generate_imports(vec!["tag".to_string(), "user_profile".to_string()]),
        "import \"tag.g.dart\";\nimport \"user_profile.g.dart\";\n"
    );
    assert_eq!(
        generate_imports(vec!["a".to_string(), "a".to_string()]),
        "import \"a.g.dart\";\nimport \"a.g.dart\";\n"
    );
}

#[test]
fn serialization_key_is_the_key_that_is_read() {
    let fields = fields_of(r#"{"r@id": 1, "d@n": "x", "l": [1], "o": {}}"#);
    for field in &fields {
        let one = vec![field.clone()];
        let written = generate_to_json(&one);
        let read = generate_from_json(&one);
        assert!(written.starts_with(&format!("'{}': {},", field.name, field.name)));
        assert!(read.starts_with(&format!("{}: ", field.name)));
        assert!(read.contains(&format!("json['{}']", field.name)));
    }
}
