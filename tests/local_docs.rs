use std::collections::HashMap;
use std::path::PathBuf;

use rustdoc_types::{Crate, Id, Item, ItemEnum, Module, Span, Target, Visibility};

use crates_llms_txt::gen_docs::NO_STEM_MESSAGE;
use crates_llms_txt::{BuildOptions, CrateDocs, DocCrate, DocsError, GenDocs};

#[test]
fn test_from_local_invalid_path() {
    let invalid_path = PathBuf::from("/invalid/path/Cargo.toml");
    let result = CrateDocs::from_local(invalid_path, None);
    assert!(result.is_err());
}

#[test]
fn from_local_with_features_invalid_path_is_build_error() {
    let invalid_path = PathBuf::from("/invalid/path/Cargo.toml");
    let result = CrateDocs::from_local_with_features(invalid_path, false, None, None);
    assert!(matches!(result, Err(DocsError::Build(_))));
}

#[test]
fn options_for_nightly_use_the_nightly_builder() {
    let o = BuildOptions::for_toolchain("nightly", true, false, None);
    assert!(!o.use_stable);
    assert_eq!(o.toolchain, "nightly");
    assert!(o.all_features);
    assert!(!o.no_default_features);
    assert!(o.features.is_empty());
    assert!(o.quiet);
}

#[test]
fn options_for_other_toolchains_use_stable_mode() {
    let o = BuildOptions::for_toolchain(
        "stable",
        false,
        true,
        Some(vec!["rustdoc".to_string(), "json".to_string()]),
    );
    assert!(o.use_stable);
    assert_eq!(o.toolchain, "stable");
    assert!(!o.all_features);
    assert!(o.no_default_features);
    assert_eq!(o.features, vec!["rustdoc".to_string(), "json".to_string()]);
    let o = BuildOptions::for_toolchain("Nightly", true, false, None);
    assert!(o.use_stable);
}

#[test]
fn all_features_options() {
    let o = BuildOptions::all_features_on("stable");
    assert!(o.use_stable);
    assert_eq!(o.toolchain, "stable");
    assert!(o.all_features);
    assert!(!o.no_default_features);
    assert!(o.features.is_empty());
    assert!(o.quiet);
    assert!(!BuildOptions::all_features_on("nightly").use_stable);
}

#[test]
fn feature_options() {
    let o = BuildOptions::features_on("nightly", true, Some(vec!["rustdoc".to_string()]));
    assert!(!o.use_stable);
    assert_eq!(o.toolchain, "nightly");
    assert!(!o.all_features);
    assert!(o.no_default_features);
    assert_eq!(o.features, vec!["rustdoc".to_string()]);
    assert!(o.quiet);
    let o = BuildOptions::features_on("stable", false, None);
    assert!(o.use_stable);
    assert!(!o.no_default_features);
    assert!(o.features.is_empty());
}

#[test]
fn generated_docs_are_named_after_the_stem() {
    let docs = DocCrate::from_json(&sample_json());
    let out = CrateDocs::from_generated(Some("/w/target/doc/demo_lib.json"), docs).unwrap();
    assert_eq!(out.lib_name, "demo_lib");
    assert_eq!(out.version, "0.3.0");
    assert_eq!(out.sessions.len(), 2);
    assert_eq!(out.sessions[1].link, "https://docs.rs/crate/demo_lib/0.3.0/source/src/lib.rs");
}

#[test]
fn generated_docs_without_stem_fail_first() {
    let r = CrateDocs::from_generated(None, Err(DocsError::Config("unread".to_string())));
    match r {
        Err(DocsError::Config(m)) => assert_eq!(m, NO_STEM_MESSAGE),
        other => panic!("unexpected {:?}", other),
    }
    let r = CrateDocs::from_generated(Some(""), DocCrate::from_json(&sample_json()));
    match r {
        Err(DocsError::Config(m)) => assert_eq!(m, "Failed to extract library name from generated JSON path"),
        other => panic!("unexpected {:?}", other),
    }
}

#[test]
fn generated_docs_pass_on_the_read_error() {
    let r = CrateDocs::from_generated(Some("doc/x.json"), Err(DocsError::Config("unread".to_string())));
    match r {
        Err(DocsError::Config(m)) => assert_eq!(m, "unread"),
        other => panic!("unexpected {:?}", other),
    }
    let r = CrateDocs::from_generated(Some("doc/x.json"), DocCrate::from_json(b"[]"));
    assert!(matches!(r, Err(DocsError::Json(_))));
}

#[test]
fn gen_docs_are_named_after_the_json_file() {
    let json = sample_json();
    let g = GenDocs::from_json("/work/target/doc/my_crate.json", &json).unwrap();
    assert_eq!(g.lib_name, "my_crate");
    assert_eq!(g.docs.root, 0);
    assert_eq!(g.docs.crate_version.as_deref(), Some("0.3.0"));
    assert_eq!(g.docs.index.len(), 2);
}

#[test]
fn gen_docs_without_a_file_name_is_config_error() {
    let json = sample_json();
    let r = GenDocs::from_json("", &json);
    match r {
        Err(DocsError::Config(m)) => assert_eq!(m, NO_STEM_MESSAGE),
        other => panic!("unexpected {:?}", other),
    }
}

#[test]
fn gen_docs_with_bad_json_is_json_error() {
    let r = GenDocs::from_json("/work/target/doc/my_crate.json", b"{\"root\": 0");
    assert!(matches!(r, Err(DocsError::Json(_))));
}

#[test]
fn generated_json_flattens_under_the_file_name() {
    let json = sample_json();
    let g = GenDocs::from_json("target/doc/demo_lib.json", &json).unwrap();
    let docs = CrateDocs::process_docs(&g.lib_name, g.docs, None).unwrap();
    assert_eq!(docs.lib_name, "demo_lib");
    assert_eq!(docs.version, "0.3.0");
    assert_eq!(docs.sessions.len(), 2);
    assert_eq!(docs.sessions[0].link, "https://docs.rs/demo_lib/0.3.0");
    assert_eq!(docs.sessions[1].title, "demo");
    assert_eq!(
        docs.sessions[1].link,
        "https://docs.rs/crate/demo_lib/0.3.0/source/src/lib.rs"
    );
    assert_eq!(docs.full_sessions[0].content, "A demo crate.");
}

#[test]
fn rustdoc_json_is_read_into_the_index() {
    let c = DocCrate::from_json(&sample_json()).unwrap();
    assert_eq!(c.root, 0);
    assert_eq!(c.crate_version.as_deref(), Some("0.3.0"));
    assert_eq!(c.index.len(), 2);
    let root = c.index.iter().find(|i| i.id == 0).unwrap();
    assert_eq!(root.name.as_deref(), Some("demo"));
    assert_eq!(root.filename.as_deref(), Some("src/lib.rs"));
    assert!(root.is_public);
    assert_eq!(root.docs.as_deref(), Some("A demo crate."));
    let hidden = c.index.iter().find(|i| i.id == 7).unwrap();
    assert_eq!(hidden.name, None);
    assert_eq!(hidden.filename, None);
    assert!(!hidden.is_public);
}

fn sample_json() -> Vec<u8> {
    let root = Item {
        id: Id(0),
        crate_id: 0,
        name: Some("demo".to_string()),
        span: Some(Span {
            filename: PathBuf::from("src/lib.rs"),
            begin: (1, 1),
            end: (9, 1),
        }),
        visibility: Visibility::Public,
        docs: Some("A demo crate.".to_string()),
        links: HashMap::new(),
        attrs: vec![],
        deprecation: None,
        stability: None,
        const_stability: None,
        inner: ItemEnum::Module(Module {
            is_crate: true,
            items: vec![],
            is_stripped: false,
        }),
    };
    let hidden = Item {
        id: Id(7),
        name: None,
        span: None,
        visibility: Visibility::Crate,
        docs: Some("Internal.".to_string()),
        ..root.clone()
    };
    let mut index = HashMap::new();
    index.insert(Id(0), root);
    index.insert(Id(7), hidden);
    let c = Crate {
        root: Id(0),
        crate_version: Some("0.3.0".to_string()),
        includes_private: false,
        index,
        paths: HashMap::new(),
        external_crates: HashMap::new(),
        target: Target {
            triple: "x86_64-unknown-linux-gnu".to_string(),
            target_features: vec![],
        },
        format_version: rustdoc_types::FORMAT_VERSION,
    };
    serde_json::to_vec(&c).unwrap()
}
