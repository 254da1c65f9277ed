use crates_llms_txt::{
    CrateDocs, DocCrate, DocsError, FullSessionItem, Item, LLMsConfig, LLMsConfigByCrate,
    SessionItem,
};

fn item(id: u32, name: Option<&str>, file: Option<&str>, public: bool, docs: Option<&str>) -> Item {
    Item {
        id,
        name: name.map(String::from),
        filename: file.map(String::from),
        is_public: public,
        docs: docs.map(String::from),
    }
}

fn sample(version: Option<&str>) -> DocCrate {
    DocCrate {
        root: 1,
        crate_version: version.map(String::from),
        index: vec![
            item(1, Some("mylib"), Some("src/lib.rs"), true, Some("Crate docs.")),
            item(2, Some("Hidden"), Some("src/hidden.rs"), false, Some("Private.")),
            item(3, Some("Bare"), Some("src/bare.rs"), true, None),
            item(4, None, Some("src/imp.rs"), true, Some("Impl docs.")),
        ],
    }
}

#[test]
fn new_docs_are_empty() {
    let docs = CrateDocs::new("my_crate", "1.0.0");
    assert_eq!(docs.lib_name, "my_crate");
    assert_eq!(docs.version, "1.0.0");
    assert!(docs.sessions.is_empty());
    assert!(docs.full_sessions.is_empty());
}

#[test]
fn process_docs_lists_public_documented_items() {
    let docs = CrateDocs::process_docs("mylib", sample(Some("0.9.1")), Some("1.2.3".to_string()))
        .unwrap();
    assert_eq!(docs.lib_name, "mylib");
    assert_eq!(docs.version, "1.2.3");
    let titles: Vec<&str> = docs.sessions.iter().map(|s| s.title.as_str()).collect();
    assert_eq!(titles, vec!["mylib", "mylib", "src/imp.rs"]);
    let links: Vec<&str> = docs.sessions.iter().map(|s| s.link.as_str()).collect();
    assert_eq!(
        links,
        vec![
            "https://docs.rs/mylib/1.2.3",
            "https://docs.rs/crate/mylib/1.2.3/source/src/lib.rs",
            "https://docs.rs/crate/mylib/1.2.3/source/src/imp.rs",
        ]
    );
    assert!(docs.sessions.iter().all(|s| s.description.is_empty()));
    assert_eq!(docs.full_sessions.len(), 2);
    assert_eq!(docs.full_sessions[0].content, "Crate docs.");
    assert_eq!(docs.full_sessions[1].content, "Impl docs.");
    assert_eq!(docs.full_sessions[1].link, docs.sessions[2].link);
}

#[test]
fn process_docs_takes_the_recorded_version() {
    let docs = CrateDocs::process_docs("mylib", sample(Some("0.9.1")), None).unwrap();
    assert_eq!(docs.version, "0.9.1");
    assert_eq!(docs.sessions[0].link, "https://docs.rs/mylib/0.9.1");
}

#[test]
fn process_docs_falls_back_to_latest() {
    let docs = CrateDocs::process_docs("mylib", sample(None), None).unwrap();
    assert_eq!(docs.version, "latest");
    assert_eq!(
        docs.sessions[1].link,
        "https://docs.rs/crate/mylib/latest/source/src/lib.rs"
    );
}

#[test]
fn process_docs_on_an_empty_index_has_only_the_crate() {
    let empty = DocCrate { root: 0, crate_version: None, index: vec![] };
    let docs = CrateDocs::process_docs("solo", empty, None).unwrap();
    assert_eq!(docs.sessions.len(), 1);
    assert_eq!(docs.sessions[0].title, "solo");
    assert!(docs.full_sessions.is_empty());
}

#[test]
fn process_docs_rejects_a_listed_item_without_source() {
    let mut c = sample(None);
    c.index.push(item(5, Some("Gen"), None, true, Some("Generated.")));
    let r = CrateDocs::process_docs("mylib", c, None);
    match r {
        Err(DocsError::Config(m)) => assert_eq!(m, "a public documented item has no source file"),
        other => panic!("unexpected {:?}", other),
    }
}

#[test]
fn process_docs_ignores_unlisted_items_without_source() {
    let mut c = sample(None);
    c.index.push(item(5, Some("Priv"), None, false, Some("Private.")));
    c.index.push(item(6, Some("Undoc"), None, true, None));
    let docs = CrateDocs::process_docs("mylib", c, None).unwrap();
    assert_eq!(docs.sessions.len(), 3);
}

#[test]
fn root_item_names_the_crate() {
    let docs = CrateDocs::from_root_item(sample(Some("2.0.0"))).unwrap();
    assert_eq!(docs.lib_name, "mylib");
    assert_eq!(docs.version, "2.0.0");
    assert_eq!(docs.sessions[0].link, "https://docs.rs/mylib/2.0.0");
}

#[test]
fn anonymous_root_is_unknown() {
    let mut c = sample(None);
    c.root = 4;
    let docs = CrateDocs::from_root_item(c).unwrap();
    assert_eq!(docs.lib_name, "unknown");
    assert_eq!(docs.version, "latest");
}

#[test]
fn missing_root_is_config_error() {
    let mut c = sample(None);
    c.root = 42;
    let r = CrateDocs::from_root_item(c);
    match r {
        Err(DocsError::Config(m)) => assert_eq!(m, "Failed to extract crate name from root item"),
        other => panic!("unexpected {:?}", other),
    }
}

#[test]
fn config_carries_the_docs_over() {
    let docs = CrateDocs::process_docs("mylib", sample(None), None).unwrap();
    let config = LLMsConfig::from_crate_docs(docs.clone());
    assert_eq!(config.lib_name, "mylib");
    assert_eq!(config.version, "latest");
    assert_eq!(config.sessions.len(), docs.sessions.len());
    assert_eq!(config.full_sessions[1].content, "Impl docs.");
}

#[test]
fn crate_request_url() {
    let by = LLMsConfigByCrate { lib_name: "clap".to_string(), version: Some("4.5.39".to_string()) };
    assert_eq!(by.json_url(), "https://docs.rs/crate/clap/4.5.39/json");
    let by = LLMsConfigByCrate { lib_name: "serde".to_string(), version: None };
    assert_eq!(by.json_url(), "https://docs.rs/crate/serde/latest/json");
}

#[test]
fn session_records_are_plain_values() {
    let s = SessionItem {
        title: "t".to_string(),
        description: String::new(),
        link: "l".to_string(),
    };
    let f = FullSessionItem { content: "c".to_string(), link: s.link.clone() };
    assert_eq!(f.link, "l");
}
