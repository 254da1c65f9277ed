//! Plain configuration and result records exchanged with host bindings.

use vstd::prelude::*;

use crate::crate_docs::{CrateDocs, FullSessionItem, SessionItem};
use crate::fetch_docs::{json_url, OnlineDocs};

verus! {

/// All documentation of a crate, in the shape host bindings hand out.
#[derive(Debug, Clone)]
pub struct LLMsConfig {
    /// Name of the crate.
    pub lib_name: String,
    /// Version of the crate.
    pub version: String,
    /// Summaries, the crate itself first.
    pub sessions: Vec<SessionItem>,
    /// Full documentation of each listed item.
    pub full_sessions: Vec<FullSessionItem>,
}

/// A request for a crate's documentation on docs.rs.
#[derive(Debug, Clone)]
pub struct LLMsConfigByCrate {
    /// Name of the crate.
    pub lib_name: String,
    /// Version wanted; the latest when absent.
    pub version: Option<String>,
}

/// A request for rustdoc JSON at a given URL.
#[derive(Debug, Clone)]
pub struct LLMsConfigByUrl {
    /// Where the rustdoc JSON is served.
    pub url: String,
}

/// A request to document a local crate with all features.
#[derive(Debug, Clone)]
pub struct LLMsConfigRustdocByAllFeatures {
    /// Toolchain to build with; the stable one when absent.
    pub toolchain: Option<String>,
    /// Path of the crate's `Cargo.toml`.
    pub manifest_path: String,
}

/// A request to document a local crate with chosen features.
#[derive(Debug, Clone)]
pub struct LLMsConfigRustdocByFeatures {
    /// Toolchain to build with; the stable one when absent.
    pub toolchain: Option<String>,
    /// Path of the crate's `Cargo.toml`.
    pub manifest_path: String,
    /// Leave the default features out.
    pub no_default_features: bool,
    /// Features to turn on.
    pub features: Option<Vec<String>>,
}

impl LLMsConfig {
    /// The same documentation as a binding record.
    pub fn from_crate_docs(docs: CrateDocs) -> (r: LLMsConfig)
        ensures
            r.lib_name == docs.lib_name,
            r.version == docs.version,
            r.sessions == docs.sessions,
            r.full_sessions == docs.full_sessions,
    {
        LLMsConfig {
            lib_name: docs.lib_name,
            version: docs.version,
            sessions: docs.sessions,
            full_sessions: docs.full_sessions,
        }
    }
}

impl LLMsConfigByCrate {
    /// The docs.rs endpoint this request reads.
    pub fn json_url(&self) -> (r: String)
        ensures
            r@ == json_url(self.lib_name@, self.version),
    {
        let version = match &self.version {
            Some(v) => Some(v.clone()),
            None => None,
        };
        OnlineDocs::docs_json_url(self.lib_name.as_str(), version)
    }
}

} // verus!
