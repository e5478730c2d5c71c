use xtools::sync::{column_of, merge_rows, tables_from_sheet, translate_items};
use xtools::translation::{generate_translation, TransItem};

fn row(fields: &[&str]) -> Vec<String> {
    fields.iter().map(|f| f.to_string()).collect()
}

fn items() -> Vec<TransItem> {
    vec![
        TransItem {
            tips: "Login page".to_string(),
            prefix: "login".to_string(),
            class: None,
            content: vec![
                ("userName".to_string(), "User/name".to_string()),
                ("ok".to_string(), "OK".to_string()),
            ],
        },
        TransItem {
            tips: "Home".to_string(),
            prefix: "home".to_string(),
            class: Some("Home".to_string()),
            content: vec![("title".to_string(), "a/nb/n".to_string())],
        },
    ]
}

fn sheet() -> Vec<Vec<String>> {
    vec![
        row(&["login_ok", "hao", "OK!"]),
        row(&["login_userName", "", "User name"]),
        row(&["login_ok", "later", "ignored"]),
        row(&["other_key", "x", "y"]),
    ]
}

#[test]
fn column_is_the_first_with_the_name() {
    let header = row(&["key", "zh", "en", "zh"]);
    assert_eq!(column_of(&header, &"key".to_string()), Some(0));
    assert_eq!(column_of(&header, &"zh".to_string()), Some(1));
    assert_eq!(column_of(&header, &"en".to_string()), Some(2));
    assert_eq!(column_of(&header, &"fr".to_string()), None);
    assert_eq!(column_of(&Vec::new(), &"en".to_string()), None);
}

#[test]
fn texts_take_the_wording_of_a_column() {
    let worded = translate_items(&items(), &sheet(), 2);
    assert_eq!(worded.len(), 2);
    assert_eq!(
        worded[0].content,
        vec![
            ("userName".to_string(), "User name".to_string()),
            ("ok".to_string(), "OK!".to_string()),
        ]
    );
    assert_eq!(worded[1], items()[1]);
    assert_eq!(worded[0].tips, "Login page");
    assert_eq!(worded[0].prefix, "login");
}

#[test]
fn an_empty_field_changes_nothing() {
    let worded = translate_items(&items(), &sheet(), 1);
    assert_eq!(
        worded[0].content,
        vec![
            ("userName".to_string(), "User/name".to_string()),
            ("ok".to_string(), "hao".to_string()),
        ]
    );
}

#[test]
fn a_short_row_is_passed_over() {
    let rows = vec![row(&["login_ok"]), row(&[]), row(&["login_ok", "a", "b", "c"])];
    let worded = translate_items(&items(), &rows, 3);
    assert_eq!(worded[0].content[1], ("ok".to_string(), "c".to_string()));
    let worded = translate_items(&items(), &rows, 4);
    assert_eq!(worded, items());
    let worded = translate_items(&items(), &Vec::new(), 0);
    assert_eq!(worded, items());
}

#[test]
fn the_key_column_gives_the_key() {
    let worded = translate_items(&items(), &sheet(), 0);
    assert_eq!(worded[0].content[1], ("ok".to_string(), "login_ok".to_string()));
    assert_eq!(worded[1].content[0], ("title".to_string(), "a/nb/n".to_string()));
}

#[test]
fn rows_from_texts() {
    let rows = merge_rows(&items(), &sheet(), 3);
    assert_eq!(
        rows,
        vec![
            row(&["login_userName", "User//name", "User name"]),
            row(&["login_ok", "OK", "OK!"]),
            row(&["home_title", "a//nb//n", ""]),
        ]
    );
}

#[test]
fn rows_of_two_columns() {
    let narrow = vec![row(&["login_ok", "hao"])];
    assert_eq!(
        merge_rows(&items(), &narrow, 2),
        vec![
            row(&["login_userName", "User//name"]),
            row(&["login_ok", "OK"]),
            row(&["home_title", "a//nb//n"]),
        ]
    );
    assert_eq!(merge_rows(&items(), &Vec::new(), 0).len(), 3);
    assert_eq!(merge_rows(&items(), &Vec::new(), 0)[1], row(&["login_ok", "OK"]));
    assert!(merge_rows(&Vec::new(), &narrow, 2).is_empty());
}

#[test]
fn rows_of_a_wide_sheet() {
    let wide = vec![row(&["home_title", "1", "2", "3", "4"])];
    assert_eq!(
        merge_rows(&items(), &wide, 5),
        vec![
            row(&["login_userName", "User//name", "", "", ""]),
            row(&["login_ok", "OK", "", "", ""]),
            row(&["home_title", "a//nb//n", "2", "3", "4"]),
        ]
    );
}

#[test]
fn one_table_per_language() {
    let header = row(&["key", "zh", "en"]);
    let tables = tables_from_sheet(&items(), &header, &sheet());
    assert_eq!(tables.len(), 2);
    assert_eq!(tables[0].0, "zh");
    assert_eq!(tables[1].0, "en");
    assert_eq!(tables[0].1, generate_translation(&translate_items(&items(), &sheet(), 1), "zh"));
    assert_eq!(
        tables[1].1,
        "part of 'index.dart';\nfinal enMessage = <String,String>{\n\t// Login page\n\"login_userName\": \"User name\",\n\"login_ok\": \"OK!\",\n\t// Home\n\"home_title\": \"a/nb/n\",\n};"
    );
}

#[test]
fn a_repeated_language_reads_its_first_column() {
    let header = row(&["key", "zh", "zh"]);
    let tables = tables_from_sheet(&items(), &header, &sheet());
    assert_eq!(tables.len(), 2);
    assert_eq!(tables[0], tables[1]);
    assert!(tables_from_sheet(&items(), &row(&["key"]), &sheet()).is_empty());
}
