//! The part of a rustdoc JSON crate that the flattening reads, as plain values.

use vstd::multiset::Multiset;
use vstd::prelude::*;

verus! {

/// One entry of a crate's documentation index.
#[derive(Debug, Clone)]
pub struct Item {
    /// Identifier of the item within the crate's documentation.
    pub id: u32,
    /// Name of the item; `None` for anonymous items such as impl blocks.
    pub name: Option<String>,
    /// Source file of the item's span, when it has one that is valid UTF-8.
    pub filename: Option<String>,
    /// Whether the item's visibility is `pub`.
    pub is_public: bool,
    /// The item's markdown documentation, when it has any.
    pub docs: Option<String>,
}

/// A crate's documentation: its root module, version and item index.
#[derive(Debug, Clone)]
pub struct DocCrate {
    /// Identifier of the crate's root module.
    pub root: u32,
    /// Version of the crate, when the documentation records one.
    pub crate_version: Option<String>,
    /// All documented items, in no particular order.
    pub index: Vec<Item>,
}

/// The text an optional string holds.
pub open spec fn opt_view(o: Option<String>) -> Option<Seq<char>> {
    match o {
        Some(s) => Some(s@),
        None => None,
    }
}

/// An index entry as plain values: id, name, source file, public, docs.
pub open spec fn item_view(it: Item) -> (u32, Option<Seq<char>>, Option<Seq<char>>, bool, Option<
    Seq<char>,
>) {
    (it.id, opt_view(it.name), opt_view(it.filename), it.is_public, opt_view(it.docs))
}

/// The entries of an index as a multiset of plain values; their order
/// carries no meaning.
pub open spec fn index_entries(index: Seq<Item>) -> Multiset<
    (u32, Option<Seq<char>>, Option<Seq<char>>, bool, Option<Seq<char>>),
> {
    index.map_values(|it: Item| item_view(it)).to_multiset()
}

/// The version text of a crate: the recorded one, else `latest`.
pub open spec fn version_or_latest(v: Option<String>) -> Seq<char> {
    match v {
        Some(s) => s@,
        None => "latest"@,
    }
}

impl DocCrate {
    /// Identifier of the root module.
    pub fn root_id(&self) -> (r: u32)
        ensures
            r == self.root,
    {
        self.root
    }

    /// The crate's version, or `latest` when none is recorded.
    pub fn crate_version(&self) -> (r: String)
        ensures
            r@ == version_or_latest(self.crate_version),
    {
        match &self.crate_version {
            Some(v) => v.clone(),
            None => String::from_str("latest"),
        }
    }
}

} // verus!
