//! The shape that a structured document has, whatever notation it was written in.

use vstd::prelude::*;

verus! {

/// A parsed document, seen as what the audit can read from it.
///
/// JSON, TOML and YAML values are all described by this one tree. A table keeps the entries
/// whose key is a string. Numbers, dates and nulls, which the audit never reads, are `Other`.
pub enum Document {
    /// A string.
    Text(Seq<char>),
    /// A boolean.
    Flag(bool),
    /// An array, in order.
    List(Seq<Document>),
    /// An object, table or mapping.
    Table(Map<Seq<char>, Document>),
    /// Any other value.
    Other,
}

impl Document {
    /// The string that this document is, if it is one.
    pub open spec fn text(self) -> Option<Seq<char>> {
        match self {
            Document::Text(s) => Some(s),
            _ => None,
        }
    }

    /// The boolean that this document is, if it is one.
    pub open spec fn flag(self) -> Option<bool> {
        match self {
            Document::Flag(b) => Some(b),
            _ => None,
        }
    }

    /// The elements of this document, if it is an array.
    pub open spec fn items(self) -> Option<Seq<Document>> {
        match self {
            Document::List(items) => Some(items),
            _ => None,
        }
    }

    /// The entry stored under `key`, if this document is a table that has one.
    pub open spec fn member(self, key: Seq<char>) -> Option<Document> {
        match self {
            Document::Table(entries) => if entries.contains_key(key) {
                Some(entries[key])
            } else {
                None
            },
            _ => None,
        }
    }

    /// The string stored under `key`, if there is one.
    pub open spec fn text_member(self, key: Seq<char>) -> Option<Seq<char>> {
        match self.member(key) {
            Some(entry) => entry.text(),
            None => None,
        }
    }
}

} // verus!
