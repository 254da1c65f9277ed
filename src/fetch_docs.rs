//! Reading rustdoc JSON served online: the endpoint, the response body, the JSON.

use vstd::multiset::Multiset;
use vstd::prelude::*;
use vstd::slice::slice_to_vec;

use crate::crate_docs::DOCS_BASE_URL;
use crate::error::DocsError;
use crate::model::{index_entries, opt_view, version_or_latest, DocCrate, Item};
use crate::text::{eq_ignore_ascii_case, spec_eq_ignore_ascii_case};

verus! {

/// What a zstd decoder makes of a whole buffer: the decompressed bytes, or
/// nothing when the buffer is not a valid zstd stream.
pub uninterp spec fn zstd_decoded(b: Seq<u8>) -> Option<Seq<u8>>;

/// The root id of the rustdoc JSON in the bytes; nothing when they do not
/// deserialize as rustdoc_types' `Crate`.
pub uninterp spec fn rustdoc_root(b: Seq<u8>) -> Option<u32>;

/// The `crate_version` recorded in the rustdoc JSON in the bytes.
pub uninterp spec fn rustdoc_version(b: Seq<u8>) -> Option<Seq<char>>;

/// The index entries of the rustdoc JSON in the bytes, each as its id, name,
/// UTF-8 span file, whether it is public, and its docs.
pub uninterp spec fn rustdoc_items(b: Seq<u8>) -> Multiset<
    (u32, Option<Seq<char>>, Option<Seq<char>>, bool, Option<Seq<char>>),
>;

/// Whether the bytes deserialize as rustdoc_types' `Crate`.
pub open spec fn is_rustdoc_json(b: Seq<u8>) -> bool {
    rustdoc_root(b) is Some
}

/// `docs` holds what the rustdoc JSON in `b` records.
pub open spec fn is_read_from(docs: DocCrate, b: Seq<u8>) -> bool {
    &&& rustdoc_root(b) == Some(docs.root)
    &&& opt_view(docs.crate_version) == rustdoc_version(b)
    &&& index_entries(docs.index@) == rustdoc_items(b)
}

/// Relies on `zstd::decode_all`: decompresses a zstd stream held in memory,
/// and fails when the bytes are not one.
#[verifier::external_body]
fn zstd_decode_all(b: &[u8]) -> (r: Result<Vec<u8>, std::io::Error>)
    ensures
        match r {
            Ok(v) => zstd_decoded(b@) == Some(v@),
            Err(_) => zstd_decoded(b@) is None,
        },
{
    zstd::decode_all(b)
}

/// Relies on `serde_json::from_slice` into rustdoc_types' `Crate` and on its
/// public fields: keeps the root id, the version and, for each index entry,
/// its key, name, span file (when UTF-8), whether it is `Visibility::Public`,
/// and its docs. These depend on the bytes alone; the entries' order follows
/// a `HashMap` walk and is left unstated.
#[verifier::external_body]
fn parse_rustdoc_json(b: &[u8]) -> (r: Result<DocCrate, serde_json::Error>)
    ensures
        r is Ok == is_rustdoc_json(b@),
        r is Ok ==> rustdoc_root(b@) == Some(r->Ok_0.root),
        r is Ok ==> opt_view(r->Ok_0.crate_version) == rustdoc_version(b@),
        r is Ok ==> index_entries(r->Ok_0.index@) == rustdoc_items(b@),
{
    serde_json::from_slice::<rustdoc_types::Crate>(b).map(|c| DocCrate {
        root: c.root.0,
        crate_version: c.crate_version,
        index: c.index.into_iter().map(|(id, it)| Item {
            id: id.0,
            name: it.name,
            filename: it.span.and_then(|s| s.filename.to_str().map(String::from)),
            is_public: matches!(it.visibility, rustdoc_types::Visibility::Public),
            docs: it.docs,
        }).collect(),
    })
}

/// `<DOCS_BASE_URL>/<lib>/<version or latest>/json`.
pub open spec fn json_url(lib: Seq<char>, version: Option<String>) -> Seq<char> {
    DOCS_BASE_URL@ + "/"@ + lib + "/"@ + version_or_latest(version) + "/json"@
}

/// The bytes a response body stands for, given its `Content-Encoding`:
/// `zstd` (in any case) is decoded, another encoding is kept, and without
/// one the body is decoded when it is zstd and kept otherwise. `None` when
/// the header says zstd and the body is not.
pub open spec fn decoded_body(body: Seq<u8>, content_encoding: Option<Seq<char>>) -> Option<Seq<u8>> {
    match content_encoding {
        Some(e) => if spec_eq_ignore_ascii_case(e, "zstd"@) {
            zstd_decoded(body)
        } else {
            Some(body)
        },
        None => match zstd_decoded(body) {
            Some(d) => Some(d),
            None => Some(body),
        },
    }
}

/// Fetching rustdoc JSON from docs.rs and other servers.
pub struct OnlineDocs;

impl OnlineDocs {
    /// The docs.rs endpoint of a crate's rustdoc JSON; `latest` when no
    /// version is given.
    pub fn docs_json_url(lib_name: &str, version: Option<String>) -> (r: String)
        ensures
            r@ == json_url(lib_name@, version),
    {
        let version = match version {
            Some(v) => v,
            None => String::from_str("latest"),
        };
        let mut url = String::from_str(DOCS_BASE_URL);
        url.append("/");
        url.append(lib_name);
        url.append("/");
        url.append(version.as_str());
        url.append("/json");
        url
    }

    /// Decompresses a response body as its `Content-Encoding` asks, and
    /// tries zstd when there is no such header (docs.rs serves zstd without
    /// always saying so). The content type and URL are not consulted. Fails with `DocsError::Io`
    /// only when the header says zstd and the body is not zstd.
    pub fn decompress_if_needed(
        body_bytes: &[u8],
        content_encoding: Option<&str>,
        _content_type: Option<&str>,
        _url: &str,
    ) -> (r: Result<Vec<u8>, DocsError>)
        ensures
            ({
                let e = match content_encoding {
                    Some(s) => Some(s@),
                    None => None,
                };
                match decoded_body(body_bytes@, e) {
                    Some(d) => r is Ok && r->Ok_0@ == d,
                    None => r is Err && r->Err_0 is Io,
                }
            }),
    {
        match content_encoding {
            Some(encoding) => {
                if eq_ignore_ascii_case(encoding, "zstd") {
                    match zstd_decode_all(body_bytes) {
                        Ok(d) => Ok(d),
                        Err(e) => Err(DocsError::Io(e)),
                    }
                } else {
                    Ok(slice_to_vec(body_bytes))
                }
            },
            None => match zstd_decode_all(body_bytes) {
                Ok(d) => Ok(d),
                Err(_) => Ok(slice_to_vec(body_bytes)),
            },
        }
    }
}

impl DocCrate {
    /// Reads rustdoc JSON: its root id, version and index entries. Fails
    /// with `DocsError::Json` exactly when the bytes are not rustdoc JSON of
    /// the expected format.
    pub fn from_json(bytes: &[u8]) -> (r: Result<DocCrate, DocsError>)
        ensures
            r is Ok == is_rustdoc_json(bytes@),
            r is Ok ==> is_read_from(r->Ok_0, bytes@),
            r is Err ==> r->Err_0 is Json,
    {
        match parse_rustdoc_json(bytes) {
            Ok(docs) => Ok(docs),
            Err(e) => Err(DocsError::Json(e)),
        }
    }
}

} // verus!
