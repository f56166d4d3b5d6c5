//! What this planner reads of the catalog: identifiers, kinds and the
//! records that name resolution hands back.

use vstd::prelude::*;

verus! {

/// The kind of a catalog item.
#[derive(Clone, Copy, Debug, PartialEq, Eq, Structural)]
pub enum CatalogItemType {
    Table,
    Source,
    Sink,
    View,
    Index,
    Type,
}

impl CatalogItemType {
    /// The kind's name as it appears in messages.
    pub open spec fn name(self) -> Seq<char> {
        match self {
            CatalogItemType::Table => "table"@,
            CatalogItemType::Source => "source"@,
            CatalogItemType::Sink => "sink"@,
            CatalogItemType::View => "view"@,
            CatalogItemType::Index => "index"@,
            CatalogItemType::Type => "type"@,
        }
    }

    /// The kind's name as it appears in messages.
    pub fn as_str(&self) -> (s: &'static str)
        ensures
            s@ == self.name(),
    {
        match *self {
            CatalogItemType::Table => "table",
            CatalogItemType::Source => "source",
            CatalogItemType::Sink => "sink",
            CatalogItemType::View => "view",
            CatalogItemType::Index => "index",
            CatalogItemType::Type => "type",
        }
    }

    /// Whether indexes can be built on items of this kind.
    pub open spec fn indexable(self) -> bool {
        self == CatalogItemType::View || self == CatalogItemType::Source || self
            == CatalogItemType::Table
    }

    /// Whether indexes can be built on items of this kind.
    pub fn is_indexable(&self) -> (b: bool)
        ensures
            b == self.indexable(),
    {
        match *self {
            CatalogItemType::View | CatalogItemType::Source | CatalogItemType::Table => true,
            CatalogItemType::Sink | CatalogItemType::Index | CatalogItemType::Type => false,
        }
    }
}

/// A name as a statement spells it: one or more parts, outermost first.
#[derive(Clone, Debug, PartialEq, Eq)]
pub struct ObjectName {
    pub parts: Vec<String>,
}

/// A database of the catalog.
#[derive(Clone, Debug, PartialEq, Eq)]
pub struct Database {
    /// The identifier: a number.
    pub id: i64,
    pub name: String,
}

/// A schema of the catalog. One without an owning database is ambient:
/// it is visible from every database.
#[derive(Clone, Copy, Debug, PartialEq, Eq)]
pub struct Schema {
    /// The identifier: a number.
    pub id: i64,
    pub database_id: Option<i64>,
}

/// An item of the catalog, as name resolution hands it back.
#[derive(Clone, Debug, PartialEq, Eq)]
pub struct CatalogItem {
    /// The identifier, as it is written. Nothing is read into it.
    pub id: String,
    /// The fully qualified name.
    pub name: String,
    pub item_type: CatalogItemType,
    /// The statement that defines the item.
    pub create_sql: String,
}

/// Why the catalog could not resolve a name.
#[derive(Clone, Debug, PartialEq, Eq)]
pub struct CatalogError {
    pub message: String,
}

} // verus!
