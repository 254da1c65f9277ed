//! Turns rustdoc JSON documentation of a Rust crate into flat lists of
//! documentation sessions (title, description, link) and full sessions
//! (markdown content, link), ready for language-model ingestion.
//!
//! The documentation comes from docs.rs (`fetch_docs`) or from running
//! `cargo rustdoc` on a local crate (`gen_docs`); `crate_docs` flattens it.

pub mod config;
pub mod crate_docs;
pub mod error;
pub mod fetch_docs;
pub mod gen_docs;
pub mod model;
pub mod text;

pub use config::{
    LLMsConfig, LLMsConfigByCrate, LLMsConfigByUrl, LLMsConfigRustdocByAllFeatures,
    LLMsConfigRustdocByFeatures,
};
pub use crate_docs::{CrateDocs, FullSessionItem, SessionItem};
pub use error::DocsError;
pub use fetch_docs::OnlineDocs;
pub use gen_docs::{BuildOptions, GenDocs};
pub use model::{DocCrate, Item};
pub use text::{eq_ignore_ascii_case, text_eq};
