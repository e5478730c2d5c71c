use xtools::naming::class_name_of;
use xtools::translation::{
    gen_ikey_class, gen_trans_class, generate_ikeys, generate_translation, TransItem,
};

fn login() -> TransItem {
    TransItem {
        tips: "Login page".to_string(),
        prefix: "login".to_string(),
        class: None,
        content: vec![
            ("userName".to_string(), "User\nname".to_string()),
            ("ok".to_string(), "OK".to_string()),
        ],
    }
}

fn home() -> TransItem {
    TransItem {
        tips: "Home".to_string(),
        prefix: "home_page".to_string(),
        class: Some("Home".to_string()),
        content: vec![("title".to_string(), "Welcome".to_string())],
    }
}

#[test]
fn case_forms() {
    let item = TransItem {
        tips: "t".to_string(),
        prefix: "blog post".to_string(),
        class: None,
        content: vec![
            ("user_profile".to_string(), String::new()),
            ("HTTPRequest".to_string(), String::new()),
            ("Blog Post".to_string(), String::new()),
        ],
    };
    assert_eq!(
        gen_trans_class(&item),
        "///t\n class AutoBlogPost {\nfinal kUserProfile = 'blog post_user_profile';\nfinal kHttpRequest = 'blog post_http_request';\nfinal kBlogPost = 'blog post_blog_post';\n}\n"
    );
    assert_eq!(class_name_of("user_name"), "UserNameModel");
}

#[test]
fn class_of_one_group() {
    assert_eq!(
        gen_trans_class(&login()),
        "///Login page\n class AutoLogin {\nfinal kUserName = 'login_user_name';\nfinal kOk = 'login_ok';\n}\n"
    );
}

#[test]
fn class_of_a_group_without_texts() {
    let item = TransItem {
        tips: String::new(),
        prefix: "x".to_string(),
        class: None,
        content: Vec::new(),
    };
    assert_eq!(gen_trans_class(&item), "///\n class AutoX {\n}\n");
}

#[test]
fn index_class() {
    assert_eq!(
        gen_ikey_class(&vec![login(), home()]),
        "/// \u{56fd}\u{9645}\u{5316}\u{6587}\u{672c}\u{5e38}\u{91cf}\nclass Ikey {\nIkey._();\n///Login page\nstatic final login = AutoLogin();\n///Home\nstatic final home_page = AutoHomePage();\n}"
    );
    assert_eq!(
        gen_ikey_class(&Vec::new()),
        "/// \u{56fd}\u{9645}\u{5316}\u{6587}\u{672c}\u{5e38}\u{91cf}\nclass Ikey {\nIkey._();\n}"
    );
}

#[test]
fn key_constants_file() {
    let items = vec![login(), home()];
    let expected = format!(
        "library;\n{}{}{}",
        gen_trans_class(&items[0]),
        "///Home\n class AutoHomePage {\nfinal kTitle = 'home_page_title';\n}\n",
        gen_ikey_class(&items)
    );
    assert_eq!(generate_ikeys(&items), expected);
    assert_eq!(
        generate_ikeys(&Vec::new()),
        "library;\n/// \u{56fd}\u{9645}\u{5316}\u{6587}\u{672c}\u{5e38}\u{91cf}\nclass Ikey {\nIkey._();\n}"
    );
}

#[test]
fn table_of_a_language() {
    assert_eq!(
        generate_translation(&vec![login(), home()], "en"),
        "part of 'index.dart';\nfinal enMessage = <String,String>{\n\t// Login page\n\"login_userName\": \"User\\nname\",\n\"login_ok\": \"OK\",\n\t// Home\n\"home_page_title\": \"Welcome\",\n};"
    );
}

#[test]
fn table_without_groups() {
    assert_eq!(
        generate_translation(&Vec::new(), "zh"),
        "part of 'index.dart';\nfinal zhMessage = <String,String>{\n};"
    );
}

#[test]
fn every_line_break_is_escaped() {
    let item = TransItem {
        tips: "t".to_string(),
        prefix: "p".to_string(),
        class: None,
        content: vec![("k".to_string(), "\na\n\nb\n".to_string())],
    };
    assert_eq!(
        generate_translation(&vec![item], "en"),
        "part of 'index.dart';\nfinal enMessage = <String,String>{\n\t// t\n\"p_k\": \"\\na\\n\\nb\\n\",\n};"
    );
}
