//! Flattening a crate's documentation index into sessions.

use vstd::prelude::*;

use crate::error::{is_config_error, DocsError};
use crate::model::{version_or_latest, DocCrate, Item};

verus! {

/// Base URL of the docs.rs crate endpoints.
pub const DOCS_BASE_URL: &'static str = "https://docs.rs/crate";

/// Why flattening fails: a listed item has no source file to link to.
pub const NO_SOURCE_MESSAGE: &'static str = "a public documented item has no source file";

/// Why a crate cannot be named after its root item: there is none.
pub const NO_ROOT_MESSAGE: &'static str = "Failed to extract crate name from root item";

/// Summary of one documentation item: its title, a description and a link.
#[derive(Debug, Clone)]
pub struct SessionItem {
    /// Name of the item, or its source file when it has no name.
    pub title: String,
    /// Reserved; always empty.
    pub description: String,
    /// Link to the item's source on docs.rs.
    pub link: String,
}

/// Full documentation of one item and the link to its source.
#[derive(Debug, Clone)]
pub struct FullSessionItem {
    /// The item's markdown documentation.
    pub content: String,
    /// Link to the item's source on docs.rs.
    pub link: String,
}

/// All documentation of a crate, as summaries and as full content.
#[derive(Debug, Clone)]
pub struct CrateDocs {
    /// Name of the crate.
    pub lib_name: String,
    /// Version of the crate.
    pub version: String,
    /// A summary of the crate itself, then one per listed item.
    pub sessions: Vec<SessionItem>,
    /// The full documentation of each listed item.
    pub full_sessions: Vec<FullSessionItem>,
}

impl View for SessionItem {
    type V = (Seq<char>, Seq<char>, Seq<char>);

    open spec fn view(&self) -> Self::V {
        (self.title@, self.description@, self.link@)
    }
}

impl View for FullSessionItem {
    type V = (Seq<char>, Seq<char>);

    open spec fn view(&self) -> Self::V {
        (self.content@, self.link@)
    }
}

/// The sessions as (title, description, link) triples.
pub open spec fn session_views(s: Seq<SessionItem>) -> Seq<(Seq<char>, Seq<char>, Seq<char>)> {
    s.map_values(|x: SessionItem| x@)
}

/// The full sessions as (content, link) pairs.
pub open spec fn full_session_views(s: Seq<FullSessionItem>) -> Seq<(Seq<char>, Seq<char>)> {
    s.map_values(|x: FullSessionItem| x@)
}

/// An item makes it into the sessions when it is public and documented.
pub open spec fn is_listed(it: Item) -> bool {
    it.is_public && it.docs is Some
}

/// Every listed item names its source file.
pub open spec fn spans_present(items: Seq<Item>) -> bool {
    forall|k: int| 0 <= k < items.len() && #[trigger] is_listed(items[k]) ==> items[k].filename is Some
}

/// `<DOCS_BASE_URL>/<lib>/<version>/source`, under which source files are linked.
pub open spec fn source_base(lib: Seq<char>, version: Seq<char>) -> Seq<char> {
    DOCS_BASE_URL@ + "/"@ + lib + "/"@ + version + "/source"@
}

/// `https://docs.rs/<lib>/<version>`, the link of the crate's own session.
pub open spec fn crate_link(lib: Seq<char>, version: Seq<char>) -> Seq<char> {
    "https://docs.rs/"@ + lib + "/"@ + version
}

/// Link of an item: its source file under `base`.
pub open spec fn item_link(base: Seq<char>, it: Item) -> Seq<char> {
    base + "/"@ + it.filename->Some_0@
}

/// Title of an item: its name, else its source file.
pub open spec fn item_title(it: Item) -> Seq<char> {
    match it.name {
        Some(n) => n@,
        None => it.filename->Some_0@,
    }
}

/// The sessions of the listed items, in index order.
pub open spec fn item_sessions(base: Seq<char>, items: Seq<Item>) -> Seq<(Seq<char>, Seq<char>, Seq<char>)>
    decreases items.len(),
{
    if items.len() == 0 {
        Seq::empty()
    } else {
        let rest = item_sessions(base, items.drop_last());
        let it = items.last();
        if is_listed(it) {
            rest.push((item_title(it), Seq::empty(), item_link(base, it)))
        } else {
            rest
        }
    }
}

/// The full sessions of the listed items, in index order.
pub open spec fn item_full_sessions(base: Seq<char>, items: Seq<Item>) -> Seq<(Seq<char>, Seq<char>)>
    decreases items.len(),
{
    if items.len() == 0 {
        Seq::empty()
    } else {
        let rest = item_full_sessions(base, items.drop_last());
        let it = items.last();
        if is_listed(it) {
            rest.push((it.docs->Some_0@, item_link(base, it)))
        } else {
            rest
        }
    }
}

/// Each listed item gives one session and one full session, and both carry
/// the item's link: the k-th item session and the k-th full session belong
/// to the same item.
pub proof fn lemma_sessions_pair_up(base: Seq<char>, items: Seq<Item>)
    ensures
        item_sessions(base, items).len() == item_full_sessions(base, items).len(),
        forall|k: int|
            0 <= k < item_sessions(base, items).len() ==> (#[trigger] item_sessions(base, items)[k]).2
                == item_full_sessions(base, items)[k].1,
    decreases items.len(),
{
    if items.len() > 0 {
        lemma_sessions_pair_up(base, items.drop_last());
    }
}

/// The version the documentation is filed under: the given one, else the crate's.
pub open spec fn resolved_version(docs: DocCrate, version: Option<String>) -> Seq<char> {
    match version {
        Some(v) => v@,
        None => version_or_latest(docs.crate_version),
    }
}

/// `out` is the flattening of `docs` under the name `lib` and the version `v`.
pub open spec fn is_flattening(lib: Seq<char>, v: Seq<char>, docs: DocCrate, out: CrateDocs) -> bool {
    &&& out.lib_name@ == lib
    &&& out.version@ == v
    &&& session_views(out.sessions@) == seq![(lib, Seq::<char>::empty(), crate_link(lib, v))]
        + item_sessions(source_base(lib, v), docs.index@)
    &&& full_session_views(out.full_sessions@) == item_full_sessions(source_base(lib, v), docs.index@)
}

/// The crate is named after its root item: position `k` holds the first
/// index entry whose id is the root id.
pub open spec fn is_root_position(docs: DocCrate, k: int) -> bool {
    &&& 0 <= k < docs.index@.len()
    &&& docs.index@[k].id == docs.root
    &&& forall|j: int| 0 <= j < k ==> docs.index@[j].id != docs.root
}

/// Whether some index entry is the root item.
pub open spec fn has_root(docs: DocCrate) -> bool {
    exists|k: int| 0 <= k < docs.index@.len() && docs.index@[k].id == docs.root
}

/// The name of an item, or `unknown` for an anonymous one.
pub open spec fn name_or_unknown(it: Item) -> Seq<char> {
    match it.name {
        Some(n) => n@,
        None => "unknown"@,
    }
}

fn join2(a: &str, b: &str) -> (r: String)
    ensures
        r@ == a@ + b@,
{
    let mut s = String::from_str(a);
    s.append(b);
    s
}

fn join3(a: &str, b: &str, c: &str) -> (r: String)
    ensures
        r@ == a@ + b@ + c@,
{
    let mut s = String::from_str(a);
    s.append(b);
    s.append(c);
    s
}

/// The name of the root item of `docs` (`unknown` when it is anonymous), or
/// `None` when no index entry is the root.
pub fn root_name(docs: &DocCrate) -> (r: Option<String>)
    ensures
        r is Some <==> has_root(*docs),
        r is Some ==> exists|k: int|
            is_root_position(*docs, k) && r->Some_0@ == name_or_unknown(#[trigger] docs.index@[k]),
{
    let n = docs.index.len();
    let mut i: usize = 0;
    while i < n
        invariant
            n == docs.index@.len(),
            i <= n,
            forall|j: int| 0 <= j < i ==> docs.index@[j].id != docs.root,
        decreases n - i,
    {
        if docs.index[i].id == docs.root {
            let name = match &docs.index[i].name {
                Some(name) => name.clone(),
                None => String::from_str("unknown"),
            };
            assert(is_root_position(*docs, i as int));
            return Some(name);
        }
        i += 1;
    }
    None
}

impl CrateDocs {
    /// Docs of a crate with the given name and version and no sessions yet.
    pub fn new(lib_name: &str, version: &str) -> (r: CrateDocs)
        ensures
            r.lib_name@ == lib_name@,
            r.version@ == version@,
            r.sessions@.len() == 0,
            r.full_sessions@.len() == 0,
    {
        CrateDocs {
            lib_name: String::from_str(lib_name),
            version: String::from_str(version),
            sessions: Vec::new(),
            full_sessions: Vec::new(),
        }
    }

    /// Flattens `docs` under the name `lib_name`. The version is `version`,
    /// else the one `docs` records, else `latest`. The first session stands
    /// for the crate itself; then each public documented item gives one
    /// session and one full session, in index order. Fails with
    /// `DocsError::Config` (`NO_SOURCE_MESSAGE`) when such an item has no
    /// source file.
    pub fn process_docs(lib_name: &str, docs: DocCrate, version: Option<String>) -> (r: Result<
        CrateDocs,
        DocsError,
    >)
        ensures
            r is Ok <==> spans_present(docs.index@),
            r is Ok ==> is_flattening(lib_name@, resolved_version(docs, version), docs, r->Ok_0),
            r is Err ==> is_config_error(r->Err_0, NO_SOURCE_MESSAGE@),
    {
        let version = match version {
            Some(v) => v,
            None => docs.crate_version(),
        };
        let ghost v = version@;
        let mut crate_docs = CrateDocs::new(lib_name, version.as_str());
        let base = join3(DOCS_BASE_URL, "/", lib_name);
        let base = join3(base.as_str(), "/", version.as_str());
        let base = join2(base.as_str(), "/source");
        assert(base@ =~= source_base(lib_name@, v));
        let head_link = join3("https://docs.rs/", lib_name, "/");
        let head_link = join2(head_link.as_str(), version.as_str());
        assert(head_link@ =~= crate_link(lib_name@, v));
        crate_docs.sessions.push(
            SessionItem {
                title: String::from_str(lib_name),
                description: String::new(),
                link: head_link,
            },
        );
        let ghost head = seq![(lib_name@, Seq::<char>::empty(), crate_link(lib_name@, v))];
        assert(session_views(crate_docs.sessions@) =~= head + item_sessions(
            base@,
            docs.index@.take(0),
        ));
        assert(full_session_views(crate_docs.full_sessions@) =~= item_full_sessions(
            base@,
            docs.index@.take(0),
        ));
        let n = docs.index.len();
        let mut i: usize = 0;
        while i < n
            invariant
                n == docs.index@.len(),
                i <= n,
                base@ == source_base(lib_name@, v),
                crate_docs.lib_name@ == lib_name@,
                crate_docs.version@ == v,
                session_views(crate_docs.sessions@) == head + item_sessions(
                    base@,
                    docs.index@.take(i as int),
                ),
                full_session_views(crate_docs.full_sessions@) == item_full_sessions(
                    base@,
                    docs.index@.take(i as int),
                ),
                forall|k: int|
                    0 <= k < i && #[trigger] is_listed(docs.index@[k]) ==> docs.index@[k].filename is Some,
            decreases n - i,
        {
            let it = &docs.index[i];
            let ghost before = docs.index@.take(i as int);
            assert(docs.index@.take(i + 1).drop_last() =~= before);
            assert(docs.index@.take(i + 1).last() == docs.index@[i as int]);
            if it.is_public {
                if let Some(content) = &it.docs {
                    match &it.filename {
                        None => {
                            assert(is_listed(docs.index@[i as int]));
                            return Err(DocsError::Config(String::from_str(NO_SOURCE_MESSAGE)));
                        },
                        Some(f) => {
                            let link = join3(base.as_str(), "/", f.as_str());
                            let title = match &it.name {
                                Some(name) => name.clone(),
                                None => f.clone(),
                            };
                            let ghost s0 = crate_docs.sessions@;
                            let ghost f0 = crate_docs.full_sessions@;
                            crate_docs.sessions.push(
                                SessionItem { title, description: String::new(), link: link.clone() },
                            );
                            crate_docs.full_sessions.push(
                                FullSessionItem { content: content.clone(), link },
                            );
                            assert(session_views(crate_docs.sessions@) =~= session_views(s0).push(
                                crate_docs.sessions@.last()@,
                            ));
                            assert(full_session_views(crate_docs.full_sessions@) =~= full_session_views(
                                f0,
                            ).push(crate_docs.full_sessions@.last()@));
                        },
                    }
                }
            }
            i += 1;
        }
        assert(docs.index@.take(n as int) =~= docs.index@);
        Ok(crate_docs)
    }

    /// Flattens documentation fetched by URL: the crate is named after its
    /// root item and filed under the version the documentation records.
    /// Fails with `DocsError::Config` (`NO_ROOT_MESSAGE`) when no index
    /// entry is the root, and
    /// otherwise exactly as `process_docs` does.
    pub fn from_root_item(docs: DocCrate) -> (r: Result<CrateDocs, DocsError>)
        ensures
            !has_root(docs) ==> r is Err && is_config_error(r->Err_0, NO_ROOT_MESSAGE@),
            has_root(docs) ==> (r is Ok <==> spans_present(docs.index@)),
            has_root(docs) && r is Err ==> is_config_error(r->Err_0, NO_SOURCE_MESSAGE@),
            r is Ok ==> exists|k: int|
                is_root_position(docs, k) && is_flattening(
                    name_or_unknown(#[trigger] docs.index@[k]),
                    version_or_latest(docs.crate_version),
                    docs,
                    r->Ok_0,
                ),
    {
        match root_name(&docs) {
            Some(lib_name) => {
                let version = docs.crate_version();
                CrateDocs::process_docs(lib_name.as_str(), docs, Some(version))
            },
            None => Err(DocsError::Config(String::from_str(NO_ROOT_MESSAGE))),
        }
    }
}

} // verus!
