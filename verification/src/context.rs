//! The planner's surroundings, as this crate sees them: the catalog that
//! resolves names, and the pipeline that parses and plans a query.

use vstd::prelude::*;
use crate::catalog::{CatalogError, CatalogItem, Database, ObjectName, Schema};

verus! {

/// A statement as the parser hands it back. Only a `SELECT` is looked into.
#[derive(Clone, Debug, PartialEq, Eq)]
pub enum Statement<S> {
    Select(S),
    Other,
}

/// Why a text did not parse.
#[derive(Clone, Debug, PartialEq, Eq)]
pub struct ParserError {
    pub message: String,
}

/// Why the pipeline could not describe or plan a query.
#[derive(Clone, Debug, PartialEq, Eq)]
pub struct PipelineError {
    pub message: String,
}

/// The catalog, as far as this crate asks it: it resolves names.
///
/// Nothing is assumed of an implementation: every contract in this crate
/// that depends on one of these calls speaks of the answer that came back.
pub trait Catalog {
    /// The session's current database.
    fn resolve_default_database(&self) -> Result<Database, CatalogError>;

    /// The database called `name`.
    fn resolve_database(&self, name: ObjectName) -> Result<Database, CatalogError>;

    /// The session's current schema.
    fn resolve_default_schema(&self) -> Result<Schema, CatalogError>;

    /// The schema called `name`.
    fn resolve_schema(&self, name: ObjectName) -> Result<Schema, CatalogError>;

    /// The item called `name`.
    fn resolve_item(&self, name: ObjectName) -> Result<CatalogItem, CatalogError>;
}

/// The pipeline that every query goes through: it parses a text, and it
/// describes and plans a `SELECT` statement.
///
/// Nothing is assumed of an implementation either.
pub trait Pipeline {
    /// A parsed `SELECT` statement.
    type Select;

    /// The shape of a statement's result.
    type Desc;

    /// An executable plan.
    type Plan;

    /// A value bound to a parameter of a statement.
    type Param;

    /// Parses `sql` into its statements.
    fn parse(&self, sql: &String) -> Result<Vec<Statement<Self::Select>>, ParserError>;

    /// The shape of the result of `stmt`, whose parameters are bound to
    /// `params`, in their order.
    fn describe_select(&self, stmt: Self::Select, params: Vec<Self::Param>) -> Result<
        Self::Desc,
        PipelineError,
    >;

    /// The plan of `stmt`, whose parameters are bound to `params`, in
    /// their order. The statement stands in no outer query.
    fn plan_select(&self, stmt: Self::Select, params: Vec<Self::Param>) -> Result<
        Self::Plan,
        PipelineError,
    >;
}

} // verus!
