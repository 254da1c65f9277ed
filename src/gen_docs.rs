//! Generating rustdoc JSON for a local crate with `cargo rustdoc`.

use vstd::prelude::*;

use crate::crate_docs::{is_flattening, spans_present, CrateDocs, NO_SOURCE_MESSAGE};
use crate::error::{is_config_error, DocsError};
use crate::fetch_docs::{is_read_from, is_rustdoc_json};
use crate::model::{version_or_latest, DocCrate};
use crate::text::text_eq;

verus! {

#[verifier::external_type_specification]
#[verifier::external_body]
pub struct ExPathBuf(std::path::PathBuf);

/// What `Path::file_stem` gives for a path: its final component without
/// the extension, or nothing (no final component, or `..`).
pub uninterp spec fn path_file_stem(p: Seq<char>) -> Option<Seq<char>>;

/// Relies on `std::path::Path::file_stem`; the stem of a path given as
/// `&str` is itself valid UTF-8.
#[verifier::external_body]
fn file_stem(p: &str) -> (r: Option<String>)
    ensures
        match r {
            Some(s) => path_file_stem(p@) == Some(s@),
            None => path_file_stem(p@) is None,
        },
{
    std::path::Path::new(p).file_stem().and_then(|s| s.to_str()).map(String::from)
}

/// Why generated documentation cannot be named: the JSON path has no
/// UTF-8 file stem.
pub const NO_STEM_MESSAGE: &'static str = "Failed to extract library name from generated JSON path";

/// The stem of a path given as text; nothing when there is no such text.
pub open spec fn stem_of(json_path: Option<&str>) -> Option<Seq<char>> {
    match json_path {
        Some(p) => path_file_stem(p@),
        None => None,
    }
}

/// How `cargo rustdoc` is asked to produce JSON documentation.
#[derive(Debug, Clone)]
pub struct BuildOptions {
    /// Run on a stable toolchain with unstable options unlocked (rather than
    /// on a nightly one).
    pub use_stable: bool,
    /// The rustup toolchain to run.
    pub toolchain: String,
    /// Pass `--all-features`.
    pub all_features: bool,
    /// Pass `--no-default-features`.
    pub no_default_features: bool,
    /// Features passed with `--features`.
    pub features: Vec<String>,
    /// Pass `--quiet`.
    pub quiet: bool,
}

/// Whether the toolchain named is the nightly one.
pub open spec fn is_nightly(toolchain: Seq<char>) -> bool {
    toolchain == "nightly"@
}

/// The features a list gives; none when there is no list.
pub open spec fn features_of(features: Option<Vec<String>>) -> Seq<String> {
    match features {
        Some(f) => f@,
        None => Seq::empty(),
    }
}

impl BuildOptions {
    /// Quiet options for `toolchain`: stable mode unless it is `nightly`.
    pub fn for_toolchain(
        toolchain: &str,
        all_features: bool,
        no_default_features: bool,
        features: Option<Vec<String>>,
    ) -> (r: BuildOptions)
        ensures
            r.use_stable == !is_nightly(toolchain@),
            r.toolchain@ == toolchain@,
            r.all_features == all_features,
            r.no_default_features == no_default_features,
            r.features@ == features_of(features),
            r.quiet,
    {
        BuildOptions {
            use_stable: !text_eq(toolchain, "nightly"),
            toolchain: String::from_str(toolchain),
            all_features,
            no_default_features,
            features: match features {
                Some(f) => f,
                None => Vec::new(),
            },
            quiet: true,
        }
    }

    /// Quiet options for `toolchain` with `--all-features` and nothing else.
    pub fn all_features_on(toolchain: &str) -> (r: BuildOptions)
        ensures
            r.use_stable == !is_nightly(toolchain@),
            r.toolchain@ == toolchain@,
            r.all_features,
            !r.no_default_features,
            r.features@.len() == 0,
            r.quiet,
    {
        BuildOptions::for_toolchain(toolchain, true, false, None)
    }

    /// Quiet options for `toolchain` with the features given, without
    /// `--all-features`.
    pub fn features_on(toolchain: &str, no_default_features: bool, features: Option<Vec<String>>) -> (r:
        BuildOptions)
        ensures
            r.use_stable == !is_nightly(toolchain@),
            r.toolchain@ == toolchain@,
            !r.all_features,
            r.no_default_features == no_default_features,
            r.features@ == features_of(features),
            r.quiet,
    {
        BuildOptions::for_toolchain(toolchain, false, no_default_features, features)
    }
}

/// Relies on rustdoc_json_stable's `Builder::stable()` (rustdoc runs with
/// `RUSTC_BOOTSTRAP=1`), its option setters, and `build()`, which runs
/// `cargo rustdoc` and returns the path of the JSON file it wrote.
#[verifier::external_body]
fn build_on_stable(
    o: &BuildOptions,
    manifest_path: std::path::PathBuf,
) -> (r: Result<std::path::PathBuf, rustdoc_json_stable::BuildError>) {
    rustdoc_json_stable::Builder::stable().toolchain(o.toolchain.as_str()).manifest_path(
        manifest_path,
    ).all_features(o.all_features).no_default_features(o.no_default_features).features(
        o.features.iter(),
    ).quiet(o.quiet).build()
}

/// Relies on rustdoc_json_stable's `Builder::default()` (plain nightly
/// rustdoc), its option setters, and `build()`, which runs `cargo rustdoc`
/// and returns the path of the JSON file it wrote.
#[verifier::external_body]
fn build_on_nightly(
    o: &BuildOptions,
    manifest_path: std::path::PathBuf,
) -> (r: Result<std::path::PathBuf, rustdoc_json_stable::BuildError>) {
    rustdoc_json_stable::Builder::default().toolchain(o.toolchain.as_str()).manifest_path(
        manifest_path,
    ).all_features(o.all_features).no_default_features(o.no_default_features).features(
        o.features.iter(),
    ).quiet(o.quiet).build()
}

/// Runs `cargo rustdoc` on the crate of `manifest_path` as `options` say and
/// returns the path of the JSON it wrote. What the build gives depends on
/// the machine; every failure is a `DocsError::Build`.
pub fn run_build(options: &BuildOptions, manifest_path: std::path::PathBuf) -> (r: Result<
    std::path::PathBuf,
    DocsError,
>)
    ensures
        r is Err ==> r->Err_0 is Build,
{
    let built = if options.use_stable {
        build_on_stable(options, manifest_path)
    } else {
        build_on_nightly(options, manifest_path)
    };
    match built {
        Ok(p) => Ok(p),
        Err(e) => Err(DocsError::Build(e)),
    }
}

/// Builds JSON documentation on `toolchain` with the options of
/// `BuildOptions::all_features_on`.
pub fn gen_docs_with_all_features(toolchain: &str, manifest_path: std::path::PathBuf) -> (r: Result<
    std::path::PathBuf,
    DocsError,
>)
    ensures
        r is Err ==> r->Err_0 is Build,
{
    let options = BuildOptions::all_features_on(toolchain);
    run_build(&options, manifest_path)
}

/// Builds JSON documentation with the options of
/// `BuildOptions::all_features_on("stable")`: the stable toolchain, the one
/// this library is built with.
pub fn gen_docs_with_all_features_auto_toolchain(manifest_path: std::path::PathBuf) -> (r: Result<
    std::path::PathBuf,
    DocsError,
>)
    ensures
        r is Err ==> r->Err_0 is Build,
{
    gen_docs_with_all_features("stable", manifest_path)
}

/// Builds JSON documentation on `toolchain` with the options of
/// `BuildOptions::features_on`.
pub fn gen_docs_with_features(
    toolchain: &str,
    manifest_path: std::path::PathBuf,
    no_default_features: bool,
    features: Option<Vec<String>>,
) -> (r: Result<std::path::PathBuf, DocsError>)
    ensures
        r is Err ==> r->Err_0 is Build,
{
    let options = BuildOptions::features_on(toolchain, no_default_features, features);
    run_build(&options, manifest_path)
}

/// Builds JSON documentation with the options of
/// `BuildOptions::features_on("stable", ..)`: the stable toolchain, the one
/// this library is built with.
pub fn gen_docs_with_features_auto_toolchain(
    manifest_path: std::path::PathBuf,
    no_default_features: bool,
    features: Option<Vec<String>>,
) -> (r: Result<std::path::PathBuf, DocsError>)
    ensures
        r is Err ==> r->Err_0 is Build,
{
    gen_docs_with_features("stable", manifest_path, no_default_features, features)
}

/// Documentation generated for a local crate, with the crate's name.
#[derive(Debug, Clone)]
pub struct GenDocs {
    /// Name of the crate, taken from the generated file's name.
    pub lib_name: String,
    /// The generated documentation.
    pub docs: DocCrate,
}

impl GenDocs {
    /// Reads generated JSON; the crate is named after the JSON file's stem.
    /// Fails with `DocsError::Config` (`NO_STEM_MESSAGE`) when the path has
    /// no stem, and then with `DocsError::Json` when the bytes are not
    /// rustdoc JSON.
    pub fn from_json(json_path: &str, json: &[u8]) -> (r: Result<GenDocs, DocsError>)
        ensures
            path_file_stem(json_path@) is None ==> r is Err && is_config_error(
                r->Err_0,
                NO_STEM_MESSAGE@,
            ),
            path_file_stem(json_path@) is Some ==> (r is Ok <==> is_rustdoc_json(json@)),
            path_file_stem(json_path@) is Some && r is Err ==> r->Err_0 is Json,
            r is Ok ==> path_file_stem(json_path@) == Some(r->Ok_0.lib_name@),
            r is Ok ==> is_read_from(r->Ok_0.docs, json@),
    {
        match file_stem(json_path) {
            None => Err(DocsError::Config(String::from_str(NO_STEM_MESSAGE))),
            Some(lib_name) => match DocCrate::from_json(json) {
                Ok(docs) => Ok(GenDocs { lib_name, docs }),
                Err(e) => Err(e),
            },
        }
    }
}

impl CrateDocs {
    /// Generates JSON documentation with all features for the crate of
    /// `manifest_path`, on `toolchain` or else on the stable toolchain, and
    /// returns the JSON file's path. `GenDocs::from_json` and
    /// `CrateDocs::process_docs` then read that file's contents.
    pub fn from_local(manifest_path: std::path::PathBuf, toolchain: Option<String>) -> (r: Result<
        std::path::PathBuf,
        DocsError,
    >)
        ensures
            r is Err ==> r->Err_0 is Build,
    {
        match toolchain {
            Some(t) => gen_docs_with_all_features(t.as_str(), manifest_path),
            None => gen_docs_with_all_features_auto_toolchain(manifest_path),
        }
    }

    /// Generates JSON documentation with the features given for the crate of
    /// `manifest_path`, on `toolchain` or else on the stable toolchain, and
    /// returns the JSON file's path.
    pub fn from_local_with_features(
        manifest_path: std::path::PathBuf,
        no_default_features: bool,
        features: Option<Vec<String>>,
        toolchain: Option<String>,
    ) -> (r: Result<std::path::PathBuf, DocsError>)
        ensures
            r is Err ==> r->Err_0 is Build,
    {
        match toolchain {
            Some(t) => gen_docs_with_features(
                t.as_str(),
                manifest_path,
                no_default_features,
                features,
            ),
            None => gen_docs_with_features_auto_toolchain(
                manifest_path,
                no_default_features,
                features,
            ),
        }
    }

    /// Flattens documentation that `cargo rustdoc` generated: `json_path` is
    /// the JSON file's path as text (`None` when it is not UTF-8) and `docs`
    /// what reading that file gave. The crate is named after the file's stem
    /// and filed under the version the documentation records. A missing stem
    /// fails first, with `DocsError::Config` (`NO_STEM_MESSAGE`); then the
    /// error of `docs`; then flattening as `process_docs` does.
    pub fn from_generated(json_path: Option<&str>, docs: Result<DocCrate, DocsError>) -> (r: Result<
        CrateDocs,
        DocsError,
    >)
        ensures
            stem_of(json_path) is None ==> r is Err && is_config_error(r->Err_0, NO_STEM_MESSAGE@),
            stem_of(json_path) is Some && docs is Err ==> r is Err && r->Err_0 == docs->Err_0,
            stem_of(json_path) is Some && docs is Ok ==> {
                let d = docs->Ok_0;
                let lib = stem_of(json_path)->Some_0;
                &&& (r is Ok <==> spans_present(d.index@))
                &&& (r is Ok ==> is_flattening(lib, version_or_latest(d.crate_version), d, r->Ok_0))
                &&& (r is Err ==> is_config_error(r->Err_0, NO_SOURCE_MESSAGE@))
            },
    {
        let lib_name = match json_path {
            Some(p) => file_stem(p),
            None => None,
        };
        match lib_name {
            None => Err(DocsError::Config(String::from_str(NO_STEM_MESSAGE))),
            Some(lib_name) => match docs {
                Ok(d) => CrateDocs::process_docs(lib_name.as_str(), d, None),
                Err(e) => Err(e),
            },
        }
    }
}

} // verus!
