//! What holds of every listing and of every planned query.

use vstd::prelude::*;
use crate::catalog::{CatalogError, CatalogItem, Database, ObjectName, Schema};
use crate::context::{Catalog, ParserError, Pipeline, Statement};
use crate::error::PlanError;
use crate::listing::{Listing, IS_AMBIENT, IS_MATERIALIZED, S_IS_AMBIENT};
use crate::query::{column_names, Modifier, Truth};
use crate::select::{
    filter_condition, only_select, select_text, ShowSelect, ShowStatementFilter,
};
use crate::show::{
    columns_shown, database_resolved, indexes_of_shown, indexes_shown, listing_shown,
    schema_resolved, schemas_shown, shown_in_schema, ShowColumnsStatement, ShowIndexesStatement,
};
use crate::text::{literal_denotes, literal_value, string_literal};

verus! {

/// Every listing puts out `name` as its first column, so that a pattern
/// always has its column to be matched against.
pub proof fn name_leads(listing: Listing)
    ensures
        listing.columns().len() >= 1,
        listing.columns()[0] == listing.leading_column(),
        listing.columns()[0].name() == "name"@,
{
}

/// The brief form of a listing puts out `name` alone. The full form puts
/// out the same column first and, behind it, `type`; a full listing of
/// sources or of views that is not narrowed to the materialized ones puts
/// out `materialized` behind that. Both forms read the same relation under
/// the same condition.
pub proof fn full_adds_derived_columns(listing: Listing)
    requires
        listing.takes_full(),
    ensures
        column_names(listing.with_full(false).columns()) == seq!["name"@],
        listing.with_full(true).columns() == listing.with_full(false).columns()
            + listing.with_full(true).derived_columns(),
        column_names(listing.with_full(true).derived_columns()) == (if listing.takes_materialized()
            && !listing.materialized() {
            seq!["type"@, "materialized"@]
        } else {
            seq!["type"@]
        }),
        listing.with_full(true).relation() == listing.with_full(false).relation(),
        listing.with_full(true).condition() == listing.with_full(false).condition(),
{
}

/// A listing narrowed to what is materialized reads the same relation as
/// the listing of everything, picks out the same scope and takes its names
/// from the same column. It asks, beside the test of the scope, that the
/// object is materialized: every row that it keeps, the listing of
/// everything keeps too.
pub proof fn materialized_narrows(listing: Listing, row: Truth)
    requires
        listing.takes_materialized(),
    ensures
        listing.with_materialized(true).relation() == listing.with_materialized(false).relation(),
        listing.with_materialized(true).columns()[0] == listing.with_materialized(
            false,
        ).columns()[0],
        listing.with_materialized(true).scope_test() == listing.with_materialized(
            false,
        ).scope_test(),
        listing.with_materialized(false).modifier() == Modifier::Alone,
        listing.with_materialized(true).modifier() == Modifier::And(IS_MATERIALIZED),
        listing.with_materialized(true).condition() is Some,
        listing.with_materialized(false).condition() is Some,
        listing.with_materialized(true).condition().unwrap().holds(row)
            ==> listing.with_materialized(false).condition().unwrap().holds(row),
{
}

/// An extended listing puts out the same columns of the same relation as
/// the one that is not extended, and picks out the same scope. It lets in,
/// beside what meets the test of the scope, what lies in an ambient schema:
/// every row that the other keeps, it keeps too.
pub proof fn extended_widens(listing: Listing, row: Truth)
    requires
        listing.takes_extended(),
    ensures
        listing.with_extended(true).columns() == listing.with_extended(false).columns(),
        listing.with_extended(true).relation() == listing.with_extended(false).relation(),
        listing.with_extended(true).scope_test() == listing.with_extended(false).scope_test(),
        listing.with_extended(false).modifier() == Modifier::Alone,
        listing.with_extended(true).modifier() == (if listing is Schemas {
            Modifier::Or(IS_AMBIENT)
        } else {
            Modifier::Or(S_IS_AMBIENT)
        }),
        listing.with_extended(true).condition() is Some,
        listing.with_extended(false).condition() is Some,
        listing.with_extended(false).condition().unwrap().holds(row) ==> listing.with_extended(
            true,
        ).condition().unwrap().holds(row),
{
}

/// A pattern is matched against `name`, and it is matched as it was given:
/// the literal that stands for it in the query denotes the pattern itself,
/// whatever quotes the pattern holds.
pub proof fn pattern_is_matched_as_given(pattern: String)
    ensures
        filter_condition(Some(ShowStatementFilter::Like(pattern))) == "name LIKE "@
            + string_literal(pattern@),
        literal_value(string_literal(pattern@)) == Some(pattern@),
{
    literal_denotes(pattern@);
}

/// The listing of the indexes on an item, and that of its columns, pick
/// out the item by its identifier as it is written: the literal that
/// stands for it in the query denotes the identifier itself.
pub proof fn item_is_picked_out_as_identified(id: String)
    ensures
        (Listing::Indexes { on_id: id }).scope_test() == Some(
            "objs.id = "@ + string_literal(id@),
        ),
        (Listing::Columns { of_id: id }).scope_test() == Some(
            "mz_columns.id = "@ + string_literal(id@),
        ),
        literal_value(string_literal(id@)) == Some(id@),
{
    literal_denotes(id@);
}

/// Whatever the base query and the filter are, the planned query selects
/// every column of the base query, keeps the rows that meet the filter,
/// and ends in the order by all columns, ascending. No text of the base
/// query or of the filter stands behind that clause.
pub proof fn order_is_fixed(query: Seq<char>, filter: Option<ShowStatementFilter>)
    ensures
        select_text(query, filter) == ("SELECT * FROM ("@ + query + ") AS q WHERE "@
            + filter_condition(filter)) + " ORDER BY q.* ASC"@,
        select_text(query, filter).len() >= " ORDER BY q.* ASC"@.len(),
        select_text(query, filter).subrange(
            select_text(query, filter).len() - " ORDER BY q.* ASC"@.len(),
            select_text(query, filter).len() as int,
        ) == " ORDER BY q.* ASC"@,
{
}

/// Whether the parser of `scx` takes the query planned for `listing`
/// under `filter` for one `SELECT` statement, whenever it is given it.
pub open spec fn parser_takes<C: Pipeline>(
    scx: &C,
    listing: Listing,
    filter: Option<ShowStatementFilter>,
) -> bool {
    forall|sql: String, parsed: Result<Vec<Statement<C::Select>>, ParserError>|
        sql@ == select_text(listing.query().text(), filter) && #[trigger] call_ensures(
            C::parse,
            (scx, &sql),
            parsed,
        ) ==> only_select(parsed) is Ok
}

/// Where the parser takes the query of a listing for one `SELECT`
/// statement, the listing is made, and its first column is `name`.
pub proof fn listing_is_made<'a, C: Pipeline>(
    scx: &'a C,
    listing: Listing,
    filter: Option<ShowStatementFilter>,
    made: Result<ShowSelect<'a, C>, PlanError>,
)
    requires
        listing_shown(scx, listing, filter, made),
        parser_takes(scx, listing, filter),
    ensures
        made is Ok,
        listing.columns()[0].name() == "name"@,
{
}

/// Where the catalog resolves the database and the parser takes the query
/// for one `SELECT` statement, the schemas are listed, `name` first.
pub proof fn schemas_are_listed<'a, C: Catalog + Pipeline>(
    scx: &'a C,
    extended: bool,
    full: bool,
    from: Option<ObjectName>,
    filter: Option<ShowStatementFilter>,
    made: Result<ShowSelect<'a, C>, PlanError>,
)
    requires
        schemas_shown(scx, extended, full, from, filter, made),
        forall|scope: Result<Database, CatalogError>| #[trigger]
            database_resolved(scx, from, scope) ==> scope is Ok,
        forall|database_id: i64| #[trigger]
            parser_takes(scx, Listing::Schemas { database_id, full, extended }, filter),
    ensures
        made is Ok,
        forall|database_id: i64|
            #![trigger (Listing::Schemas { database_id, full, extended }).columns()]
            (Listing::Schemas { database_id, full, extended }).columns()[0].name() == "name"@,
{
    let scope = choose|scope: Result<Database, CatalogError>| #[trigger]
        database_resolved(scx, from, scope) && match scope {
            Err(e) => made == Err::<ShowSelect<'a, C>, PlanError>(PlanError::Catalog(e)),
            Ok(database) => listing_shown(
                scx,
                Listing::Schemas { database_id: database.id, full, extended },
                filter,
                made,
            ),
        };
    let database_id = scope->Ok_0.id;
    assert(parser_takes(scx, Listing::Schemas { database_id, full, extended }, filter));
}

/// Whether the parser of `scx` takes the query of each listing that
/// `listing_of` gives for one `SELECT` statement.
pub open spec fn parser_takes_each<C: Pipeline>(
    scx: &C,
    listing_of: spec_fn(i64) -> Listing,
    filter: Option<ShowStatementFilter>,
) -> bool {
    forall|schema_id: i64| #[trigger] parser_takes(scx, listing_of(schema_id), filter)
}

/// Where the catalog resolves the schema and the parser takes the query
/// for one `SELECT` statement, what lies in the schema is listed, `name`
/// first: tables, sources, views, sinks, types or objects of every kind,
/// as `listing_of` says.
pub proof fn schema_is_listed<'a, C: Catalog + Pipeline>(
    scx: &'a C,
    from: Option<ObjectName>,
    listing_of: spec_fn(i64) -> Listing,
    filter: Option<ShowStatementFilter>,
    made: Result<ShowSelect<'a, C>, PlanError>,
)
    requires
        shown_in_schema(scx, from, listing_of, filter, made),
        forall|scope: Result<Schema, CatalogError>| #[trigger]
            schema_resolved(scx, from, scope) ==> scope is Ok,
        parser_takes_each(scx, listing_of, filter),
    ensures
        made is Ok,
        forall|schema_id: i64| (#[trigger] listing_of(schema_id)).columns()[0].name() == "name"@,
{
    let scope = choose|scope: Result<Schema, CatalogError>| #[trigger]
        schema_resolved(scx, from, scope) && match scope {
            Err(e) => made == Err::<ShowSelect<'a, C>, PlanError>(PlanError::Catalog(e)),
            Ok(schema) => listing_shown(scx, listing_of(schema.id), filter, made),
        };
    assert(parser_takes(scx, listing_of(scope->Ok_0.id), filter));
}

/// Where the statement is not extended, the catalog resolves the item to
/// a view, a source or a table, and the parser takes the query for one
/// `SELECT` statement, the indexes on the item are listed, `name` first.
pub proof fn indexes_are_listed<'a, C: Catalog + Pipeline>(
    scx: &'a C,
    stmt: ShowIndexesStatement,
    made: Result<ShowSelect<'a, C>, PlanError>,
)
    requires
        indexes_shown(scx, stmt, made),
        !stmt.extended,
        forall|found: Result<CatalogItem, CatalogError>| #[trigger]
            call_ensures(C::resolve_item, (scx, stmt.table_name), found) ==> (found matches Ok(
                item,
            ) && item.item_type.indexable()),
        forall|on_id: String| #[trigger]
            parser_takes(scx, Listing::Indexes { on_id }, stmt.filter),
    ensures
        made is Ok,
        forall|on_id: String|
            #![trigger (Listing::Indexes { on_id }).columns()]
            (Listing::Indexes { on_id }).columns()[0].name() == "name"@,
{
    let found = choose|found: Result<CatalogItem, CatalogError>| #[trigger]
        call_ensures(C::resolve_item, (scx, stmt.table_name), found) && match found {
            Err(e) => made == Err::<ShowSelect<'a, C>, PlanError>(PlanError::Catalog(e)),
            Ok(item) => indexes_of_shown(scx, item, stmt.filter, made),
        };
    assert(parser_takes(scx, Listing::Indexes { on_id: found->Ok_0.id }, stmt.filter));
}

/// Where the statement is neither extended nor full, the catalog resolves
/// the item, and the parser takes the query for one `SELECT` statement,
/// the columns of the item are listed, `name` first.
pub proof fn columns_are_listed<'a, C: Catalog + Pipeline>(
    scx: &'a C,
    stmt: ShowColumnsStatement,
    made: Result<ShowSelect<'a, C>, PlanError>,
)
    requires
        columns_shown(scx, stmt, made),
        !stmt.extended,
        !stmt.full,
        forall|found: Result<CatalogItem, CatalogError>| #[trigger]
            call_ensures(C::resolve_item, (scx, stmt.table_name), found) ==> found is Ok,
        forall|of_id: String| #[trigger]
            parser_takes(scx, Listing::Columns { of_id }, stmt.filter),
    ensures
        made is Ok,
        forall|of_id: String|
            #![trigger (Listing::Columns { of_id }).columns()]
            (Listing::Columns { of_id }).columns()[0].name() == "name"@,
{
    let found = choose|found: Result<CatalogItem, CatalogError>| #[trigger]
        call_ensures(C::resolve_item, (scx, stmt.table_name), found) && match found {
            Err(e) => made == Err::<ShowSelect<'a, C>, PlanError>(PlanError::Catalog(e)),
            Ok(item) => listing_shown(
                scx,
                Listing::Columns { of_id: item.id },
                stmt.filter,
                made,
            ),
        };
    assert(parser_takes(scx, Listing::Columns { of_id: found->Ok_0.id }, stmt.filter));
}

} // verus!
