//! The ways in which planning a `SHOW` statement fails.

use vstd::prelude::*;
use crate::catalog::{CatalogError, CatalogItemType};
use crate::context::{ParserError, PipelineError};

verus! {

/// A form of `SHOW` that is refused whatever the catalog holds.
#[derive(Clone, Copy, Debug, PartialEq, Eq, Structural)]
pub enum Unsupported {
    ExtendedTables,
    ExtendedIndexes,
    ExtendedColumns,
    FullColumns,
}

impl Unsupported {
    /// The refused form, as a statement would begin.
    pub open spec fn feature(self) -> Seq<char> {
        match self {
            Unsupported::ExtendedTables => "SHOW EXTENDED TABLES"@,
            Unsupported::ExtendedIndexes => "SHOW EXTENDED INDEXES"@,
            Unsupported::ExtendedColumns => "SHOW EXTENDED COLUMNS"@,
            Unsupported::FullColumns => "SHOW FULL COLUMNS"@,
        }
    }

    /// The refused form, as a statement would begin.
    pub fn as_str(&self) -> (s: &'static str)
        ensures
            s@ == self.feature(),
    {
        match *self {
            Unsupported::ExtendedTables => "SHOW EXTENDED TABLES",
            Unsupported::ExtendedIndexes => "SHOW EXTENDED INDEXES",
            Unsupported::ExtendedColumns => "SHOW EXTENDED COLUMNS",
            Unsupported::FullColumns => "SHOW FULL COLUMNS",
        }
    }
}

/// A query that this crate put together and that the parser did not take
/// for one `SELECT` statement. It shows a fault in this crate, never one of
/// the user.
#[derive(Clone, Debug, PartialEq, Eq)]
pub enum Defect {
    /// The text did not parse.
    InvalidSql(ParserError),
    /// The text parsed to no statement, or to more than one.
    NotOneStatement { count: usize },
    /// The text parsed to one statement that is no `SELECT`.
    NotSelect,
}

impl Defect {
    /// What the defect is, in words.
    pub open spec fn message_text(self) -> Seq<char> {
        match self {
            Defect::InvalidSql(e) => "SHOW was planned with invalid SQL: "@ + e.message@,
            Defect::NotOneStatement { .. } => "SHOW was not planned as exactly one statement"@,
            Defect::NotSelect => "SHOW was planned with a non-SELECT statement"@,
        }
    }
}

/// Why a `SHOW` statement could not be planned.
#[derive(Clone, Debug, PartialEq, Eq)]
pub enum PlanError {
    /// The catalog could not resolve a name. Its error is handed on as it came.
    Catalog(CatalogError),
    /// `SHOW CREATE` named an item of another kind than the statement is for.
    WrongItemType { name: String, expected: CatalogItemType, actual: CatalogItemType },
    /// `SHOW INDEXES` named an item of a kind that has no indexes.
    NotIndexable { name: String, item_type: CatalogItemType },
    /// The statement has a modifier that its listing does not support.
    Unsupported(Unsupported),
    /// The query put together for the listing was not one `SELECT` statement.
    Defect(Defect),
    /// The pipeline could not describe or plan the query. Its error is
    /// handed on as it came.
    Pipeline(PipelineError),
}

impl PlanError {
    /// Whether the error shows a fault in this crate rather than in the
    /// statement or in the catalog.
    pub open spec fn internal(self) -> bool {
        self is Defect
    }

    /// Whether the error shows a fault in this crate rather than in the
    /// statement or in the catalog.
    pub fn is_internal(&self) -> (b: bool)
        ensures
            b == self.internal(),
    {
        match self {
            PlanError::Defect(_) => true,
            _ => false,
        }
    }

    /// The error in words.
    pub open spec fn message_text(self) -> Seq<char> {
        match self {
            PlanError::Catalog(e) => e.message@,
            PlanError::WrongItemType { name, expected, .. } => match expected {
                CatalogItemType::View => name@ + " is not a view"@,
                CatalogItemType::Table => name@ + " is not a table"@,
                CatalogItemType::Source => name@ + " is not a source"@,
                CatalogItemType::Type => name@ + " is not a type"@,
                CatalogItemType::Sink => "'"@ + name@ + "' is not a sink"@,
                CatalogItemType::Index => "'"@ + name@ + "' is not an index"@,
            },
            PlanError::NotIndexable { name, item_type } => "cannot show indexes on "@ + name@
                + " because it is a "@ + item_type.name(),
            PlanError::Unsupported(form) => form.feature() + " is not supported"@,
            PlanError::Defect(defect) => defect.message_text(),
            PlanError::Pipeline(e) => e.message@,
        }
    }

    /// The error in words.
    pub fn message(&self) -> (text: String)
        ensures
            text@ == self.message_text(),
    {
        match self {
            PlanError::Catalog(e) => e.message.clone(),
            PlanError::WrongItemType { name, expected, .. } => {
                match expected {
                    CatalogItemType::View => {
                        let mut text = name.clone();
                        text.append(" is not a view");
                        text
                    },
                    CatalogItemType::Table => {
                        let mut text = name.clone();
                        text.append(" is not a table");
                        text
                    },
                    CatalogItemType::Source => {
                        let mut text = name.clone();
                        text.append(" is not a source");
                        text
                    },
                    CatalogItemType::Type => {
                        let mut text = name.clone();
                        text.append(" is not a type");
                        text
                    },
                    CatalogItemType::Sink => {
                        let mut text = String::from_str("'");
                        text.append(name.as_str());
                        text.append("' is not a sink");
                        text
                    },
                    CatalogItemType::Index => {
                        let mut text = String::from_str("'");
                        text.append(name.as_str());
                        text.append("' is not an index");
                        text
                    },
                }
            },
            PlanError::NotIndexable { name, item_type } => {
                let mut text = String::from_str("cannot show indexes on ");
                text.append(name.as_str());
                text.append(" because it is a ");
                text.append(item_type.as_str());
                text
            },
            PlanError::Unsupported(form) => {
                let mut text = String::from_str(form.as_str());
                text.append(" is not supported");
                text
            },
            PlanError::Defect(Defect::InvalidSql(e)) => {
                let mut text = String::from_str("SHOW was planned with invalid SQL: ");
                text.append(e.message.as_str());
                text
            },
            PlanError::Defect(Defect::NotOneStatement { .. }) => String::from_str(
                "SHOW was not planned as exactly one statement",
            ),
            PlanError::Defect(Defect::NotSelect) => String::from_str(
                "SHOW was planned with a non-SELECT statement",
            ),
            PlanError::Pipeline(e) => e.message.clone(),
        }
    }
}

} // verus!
