//! Handlers for `SHOW ...` statements.

use vstd::prelude::*;
use crate::catalog::{CatalogError, CatalogItem, CatalogItemType, Database, ObjectName, Schema};
use crate::context::{Catalog, Pipeline};
use crate::error::{PlanError, Unsupported};
use crate::listing::Listing;
use crate::select::{select_made, select_text, ShowSelect, ShowStatementFilter};

verus! {

/// `SHOW CREATE VIEW <view_name>`
#[derive(Clone, Debug, PartialEq, Eq)]
pub struct ShowCreateViewStatement {
    pub view_name: ObjectName,
}

/// `SHOW CREATE TABLE <table_name>`
#[derive(Clone, Debug, PartialEq, Eq)]
pub struct ShowCreateTableStatement {
    pub table_name: ObjectName,
}

/// `SHOW CREATE SOURCE <source_name>`
#[derive(Clone, Debug, PartialEq, Eq)]
pub struct ShowCreateSourceStatement {
    pub source_name: ObjectName,
}

/// `SHOW CREATE SINK <sink_name>`
#[derive(Clone, Debug, PartialEq, Eq)]
pub struct ShowCreateSinkStatement {
    pub sink_name: ObjectName,
}

/// `SHOW CREATE INDEX <index_name>`
#[derive(Clone, Debug, PartialEq, Eq)]
pub struct ShowCreateIndexStatement {
    pub index_name: ObjectName,
}

/// `SHOW DATABASES [<filter>]`
#[derive(Clone, Debug, PartialEq, Eq)]
pub struct ShowDatabasesStatement {
    pub filter: Option<ShowStatementFilter>,
}

/// What a `SHOW <objects>` statement lists.
#[derive(Clone, Copy, Debug, PartialEq, Eq, Structural)]
pub enum ObjectType {
    Schema,
    Table,
    View,
    Source,
    Sink,
    Type,
    Object,
    Index,
}

/// `SHOW [EXTENDED] [FULL] [MATERIALIZED] <object_type> [FROM <from>] [<filter>]`
#[derive(Clone, Debug, PartialEq, Eq)]
pub struct ShowObjectsStatement {
    pub object_type: ObjectType,
    pub extended: bool,
    pub full: bool,
    pub materialized: bool,
    pub from: Option<ObjectName>,
    pub filter: Option<ShowStatementFilter>,
}

/// `SHOW [EXTENDED] INDEXES FROM <table_name> [<filter>]`
#[derive(Clone, Debug, PartialEq, Eq)]
pub struct ShowIndexesStatement {
    pub table_name: ObjectName,
    pub extended: bool,
    pub filter: Option<ShowStatementFilter>,
}

/// `SHOW [EXTENDED] [FULL] COLUMNS FROM <table_name> [<filter>]`
#[derive(Clone, Debug, PartialEq, Eq)]
pub struct ShowColumnsStatement {
    pub extended: bool,
    pub full: bool,
    pub table_name: ObjectName,
    pub filter: Option<ShowStatementFilter>,
}

/// A row of a result: its values, left to right.
#[derive(Clone, Debug, PartialEq, Eq)]
pub struct Row {
    pub values: Vec<String>,
}

/// What `SHOW CREATE` answers for `item` where the statement is for items
/// of kind `expected`: one row that holds the item's name and the
/// statement that defines it, or the refusal of an item of another kind.
pub open spec fn item_create_shown(expected: CatalogItemType, item: CatalogItem, r: Result<
    Vec<Row>,
    PlanError,
>) -> bool {
    if item.item_type == expected {
        r matches Ok(rows) && rows@.len() == 1 && rows@[0].values@ == seq![
            item.name,
            item.create_sql,
        ]
    } else {
        r == Err::<Vec<Row>, PlanError>(
            PlanError::WrongItemType { name: item.name, expected, actual: item.item_type },
        )
    }
}

/// Answers `SHOW CREATE` for an item that the catalog has resolved.
pub fn show_create(expected: CatalogItemType, item: CatalogItem) -> (r: Result<
    Vec<Row>,
    PlanError,
>)
    ensures
        item_create_shown(expected, item, r),
{
    let CatalogItem { name, item_type, create_sql, .. } = item;
    if item_type == expected {
        let mut values: Vec<String> = Vec::new();
        values.push(name);
        values.push(create_sql);
        assert(values@ == seq![item.name, item.create_sql]);
        let mut rows: Vec<Row> = Vec::new();
        rows.push(Row { values });
        Ok(rows)
    } else {
        Err(PlanError::WrongItemType { name, expected, actual: item_type })
    }
}

/// What `SHOW CREATE` answers for the name `name`, for some answer of the
/// catalog to that name: the catalog's error as it came, or what is due
/// for the item.
pub open spec fn create_shown<C: Catalog>(
    scx: &C,
    expected: CatalogItemType,
    name: ObjectName,
    r: Result<Vec<Row>, PlanError>,
) -> bool {
    exists|found: Result<CatalogItem, CatalogError>| #[trigger]
        call_ensures(C::resolve_item, (scx, name), found) && match found {
            Err(e) => r == Err::<Vec<Row>, PlanError>(PlanError::Catalog(e)),
            Ok(item) => item_create_shown(expected, item, r),
        }
}

fn handle_show_create<C: Catalog>(
    scx: &C,
    expected: CatalogItemType,
    name: ObjectName,
) -> (r: Result<Vec<Row>, PlanError>)
    ensures
        create_shown(scx, expected, name, r),
{
    match scx.resolve_item(name) {
        Ok(item) => show_create(expected, item),
        Err(e) => Err(PlanError::Catalog(e)),
    }
}

/// Plans `SHOW CREATE VIEW`.
pub fn handle_show_create_view<C: Catalog>(
    scx: &C,
    stmt: ShowCreateViewStatement,
) -> (r: Result<Vec<Row>, PlanError>)
    ensures
        create_shown(scx, CatalogItemType::View, stmt.view_name, r),
{
    handle_show_create(scx, CatalogItemType::View, stmt.view_name)
}

/// Plans `SHOW CREATE TABLE`.
pub fn handle_show_create_table<C: Catalog>(
    scx: &C,
    stmt: ShowCreateTableStatement,
) -> (r: Result<Vec<Row>, PlanError>)
    ensures
        create_shown(scx, CatalogItemType::Table, stmt.table_name, r),
{
    handle_show_create(scx, CatalogItemType::Table, stmt.table_name)
}

/// Plans `SHOW CREATE SOURCE`.
pub fn handle_show_create_source<C: Catalog>(
    scx: &C,
    stmt: ShowCreateSourceStatement,
) -> (r: Result<Vec<Row>, PlanError>)
    ensures
        create_shown(scx, CatalogItemType::Source, stmt.source_name, r),
{
    handle_show_create(scx, CatalogItemType::Source, stmt.source_name)
}

/// Plans `SHOW CREATE SINK`.
pub fn handle_show_create_sink<C: Catalog>(
    scx: &C,
    stmt: ShowCreateSinkStatement,
) -> (r: Result<Vec<Row>, PlanError>)
    ensures
        create_shown(scx, CatalogItemType::Sink, stmt.sink_name, r),
{
    handle_show_create(scx, CatalogItemType::Sink, stmt.sink_name)
}

/// Plans `SHOW CREATE INDEX`.
pub fn handle_show_create_index<C: Catalog>(
    scx: &C,
    stmt: ShowCreateIndexStatement,
) -> (r: Result<Vec<Row>, PlanError>)
    ensures
        create_shown(scx, CatalogItemType::Index, stmt.index_name, r),
{
    handle_show_create(scx, CatalogItemType::Index, stmt.index_name)
}

/// Whether `made` is what becomes of `listing` under `filter`: its base
/// query, filtered and ordered, parsed by `scx`.
pub open spec fn listing_shown<'a, C: Pipeline>(
    scx: &'a C,
    listing: Listing,
    filter: Option<ShowStatementFilter>,
    made: Result<ShowSelect<'a, C>, PlanError>,
) -> bool {
    select_made(scx, select_text(listing.query().text(), filter), made)
}

/// Makes the `ShowSelect` of a listing whose scope is resolved.
pub fn show_listing<'a, C: Pipeline>(
    scx: &'a C,
    listing: Listing,
    filter: Option<ShowStatementFilter>,
) -> (made: Result<ShowSelect<'a, C>, PlanError>)
    ensures
        listing_shown(scx, listing, filter, made),
{
    let query = listing.base_query().render();
    ShowSelect::new(scx, query, filter)
}

/// Whether `scope` is an answer of the catalog to the question which
/// database a listing looks into: the one that `from` names, or the
/// session's own where it names none.
pub open spec fn database_resolved<C: Catalog>(
    scx: &C,
    from: Option<ObjectName>,
    scope: Result<Database, CatalogError>,
) -> bool {
    match from {
        Some(name) => call_ensures(C::resolve_database, (scx, name), scope),
        None => call_ensures(C::resolve_default_database, (scx,), scope),
    }
}

/// Whether `scope` is an answer of the catalog to the question which
/// schema a listing looks into: the one that `from` names, or the
/// session's own where it names none.
pub open spec fn schema_resolved<C: Catalog>(
    scx: &C,
    from: Option<ObjectName>,
    scope: Result<Schema, CatalogError>,
) -> bool {
    match from {
        Some(name) => call_ensures(C::resolve_schema, (scx, name), scope),
        None => call_ensures(C::resolve_default_schema, (scx,), scope),
    }
}

fn resolve_database_scope<C: Catalog>(scx: &C, from: Option<ObjectName>) -> (scope:
    Result<Database, CatalogError>)
    ensures
        database_resolved(scx, from, scope),
{
    match from {
        Some(name) => scx.resolve_database(name),
        None => scx.resolve_default_database(),
    }
}

fn resolve_schema_scope<C: Catalog>(scx: &C, from: Option<ObjectName>) -> (scope: Result<
    Schema,
    CatalogError,
>)
    ensures
        schema_resolved(scx, from, scope),
{
    match from {
        Some(name) => scx.resolve_schema(name),
        None => scx.resolve_default_schema(),
    }
}

/// Whether `made` is what becomes of a listing that looks into a schema:
/// for some answer of the catalog to `from`, the catalog's error as it
/// came, or what becomes of the listing that `listing_of` gives for the
/// schema's identifier.
pub open spec fn shown_in_schema<'a, C: Catalog + Pipeline>(
    scx: &'a C,
    from: Option<ObjectName>,
    listing_of: spec_fn(i64) -> Listing,
    filter: Option<ShowStatementFilter>,
    made: Result<ShowSelect<'a, C>, PlanError>,
) -> bool {
    exists|scope: Result<Schema, CatalogError>| #[trigger]
        schema_resolved(scx, from, scope) && match scope {
            Err(e) => made == Err::<ShowSelect<'a, C>, PlanError>(PlanError::Catalog(e)),
            Ok(schema) => listing_shown(scx, listing_of(schema.id), filter, made),
        }
}

/// Plans `SHOW DATABASES`.
pub fn show_databases<'a, C: Pipeline>(
    scx: &'a C,
    stmt: ShowDatabasesStatement,
) -> (made: Result<ShowSelect<'a, C>, PlanError>)
    ensures
        listing_shown(scx, Listing::Databases, stmt.filter, made),
{
    show_listing(scx, Listing::Databases, stmt.filter)
}

/// What `SHOW SCHEMAS` comes to.
pub open spec fn schemas_shown<'a, C: Catalog + Pipeline>(
    scx: &'a C,
    extended: bool,
    full: bool,
    from: Option<ObjectName>,
    filter: Option<ShowStatementFilter>,
    made: Result<ShowSelect<'a, C>, PlanError>,
) -> bool {
    exists|scope: Result<Database, CatalogError>| #[trigger]
        database_resolved(scx, from, scope) && match scope {
            Err(e) => made == Err::<ShowSelect<'a, C>, PlanError>(PlanError::Catalog(e)),
            Ok(database) => listing_shown(
                scx,
                Listing::Schemas { database_id: database.id, full, extended },
                filter,
                made,
            ),
        }
}

/// Plans `SHOW SCHEMAS`: the schemas of the database that `from` names, or
/// of the session's own.
pub fn show_schemas<'a, C: Catalog + Pipeline>(
    scx: &'a C,
    extended: bool,
    full: bool,
    from: Option<ObjectName>,
    filter: Option<ShowStatementFilter>,
) -> (made: Result<ShowSelect<'a, C>, PlanError>)
    ensures
        schemas_shown(scx, extended, full, from, filter, made),
{
    match resolve_database_scope(scx, from) {
        Ok(database) => show_listing(
            scx,
            Listing::Schemas { database_id: database.id, full, extended },
            filter,
        ),
        Err(e) => Err(PlanError::Catalog(e)),
    }
}

/// What `SHOW TABLES` comes to.
pub open spec fn tables_shown<'a, C: Catalog + Pipeline>(
    scx: &'a C,
    extended: bool,
    full: bool,
    from: Option<ObjectName>,
    filter: Option<ShowStatementFilter>,
    made: Result<ShowSelect<'a, C>, PlanError>,
) -> bool {
    if extended {
        made == Err::<ShowSelect<'a, C>, PlanError>(
            PlanError::Unsupported(Unsupported::ExtendedTables),
        )
    } else {
        shown_in_schema(
            scx,
            from,
            |schema_id: i64| Listing::Tables { schema_id, full },
            filter,
            made,
        )
    }
}

/// Plans `SHOW TABLES`: the tables of the schema that `from` names, or of
/// the session's own. `extended` is refused before the catalog is asked.
pub fn show_tables<'a, C: Catalog + Pipeline>(
    scx: &'a C,
    extended: bool,
    full: bool,
    from: Option<ObjectName>,
    filter: Option<ShowStatementFilter>,
) -> (made: Result<ShowSelect<'a, C>, PlanError>)
    ensures
        tables_shown(scx, extended, full, from, filter, made),
{
    if extended {
        return Err(PlanError::Unsupported(Unsupported::ExtendedTables));
    }
    match resolve_schema_scope(scx, from) {
        Ok(schema) => show_listing(
            scx,
            Listing::Tables { schema_id: schema.id, full },
            filter,
        ),
        Err(e) => Err(PlanError::Catalog(e)),
    }
}

/// What `SHOW SOURCES` comes to.
pub open spec fn sources_shown<'a, C: Catalog + Pipeline>(
    scx: &'a C,
    full: bool,
    materialized: bool,
    from: Option<ObjectName>,
    filter: Option<ShowStatementFilter>,
    made: Result<ShowSelect<'a, C>, PlanError>,
) -> bool {
    shown_in_schema(
        scx,
        from,
        |schema_id: i64| Listing::Sources { schema_id, full, materialized },
        filter,
        made,
    )
}

/// Plans `SHOW SOURCES`: the sources of the schema that `from` names, or
/// of the session's own.
pub fn show_sources<'a, C: Catalog + Pipeline>(
    scx: &'a C,
    full: bool,
    materialized: bool,
    from: Option<ObjectName>,
    filter: Option<ShowStatementFilter>,
) -> (made: Result<ShowSelect<'a, C>, PlanError>)
    ensures
        sources_shown(scx, full, materialized, from, filter, made),
{
    match resolve_schema_scope(scx, from) {
        Ok(schema) => show_listing(
            scx,
            Listing::Sources { schema_id: schema.id, full, materialized },
            filter,
        ),
        Err(e) => Err(PlanError::Catalog(e)),
    }
}

/// What `SHOW VIEWS` comes to.
pub open spec fn views_shown<'a, C: Catalog + Pipeline>(
    scx: &'a C,
    full: bool,
    materialized: bool,
    from: Option<ObjectName>,
    filter: Option<ShowStatementFilter>,
    made: Result<ShowSelect<'a, C>, PlanError>,
) -> bool {
    shown_in_schema(
        scx,
        from,
        |schema_id: i64| Listing::Views { schema_id, full, materialized },
        filter,
        made,
    )
}

/// Plans `SHOW VIEWS`: the views of the schema that `from` names, or of
/// the session's own.
pub fn show_views<'a, C: Catalog + Pipeline>(
    scx: &'a C,
    full: bool,
    materialized: bool,
    from: Option<ObjectName>,
    filter: Option<ShowStatementFilter>,
) -> (made: Result<ShowSelect<'a, C>, PlanError>)
    ensures
        views_shown(scx, full, materialized, from, filter, made),
{
    match resolve_schema_scope(scx, from) {
        Ok(schema) => show_listing(
            scx,
            Listing::Views { schema_id: schema.id, full, materialized },
            filter,
        ),
        Err(e) => Err(PlanError::Catalog(e)),
    }
}

/// What `SHOW SINKS` comes to.
pub open spec fn sinks_shown<'a, C: Catalog + Pipeline>(
    scx: &'a C,
    full: bool,
    from: Option<ObjectName>,
    filter: Option<ShowStatementFilter>,
    made: Result<ShowSelect<'a, C>, PlanError>,
) -> bool {
    shown_in_schema(
        scx,
        from,
        |schema_id: i64| Listing::Sinks { schema_id, full },
        filter,
        made,
    )
}

/// Plans `SHOW SINKS`: the sinks of the schema that `from` names, or of
/// the session's own.
pub fn show_sinks<'a, C: Catalog + Pipeline>(
    scx: &'a C,
    full: bool,
    from: Option<ObjectName>,
    filter: Option<ShowStatementFilter>,
) -> (made: Result<ShowSelect<'a, C>, PlanError>)
    ensures
        sinks_shown(scx, full, from, filter, made),
{
    match resolve_schema_scope(scx, from) {
        Ok(schema) => show_listing(
            scx,
            Listing::Sinks { schema_id: schema.id, full },
            filter,
        ),
        Err(e) => Err(PlanError::Catalog(e)),
    }
}

/// What `SHOW TYPES` comes to.
pub open spec fn types_shown<'a, C: Catalog + Pipeline>(
    scx: &'a C,
    extended: bool,
    full: bool,
    from: Option<ObjectName>,
    filter: Option<ShowStatementFilter>,
    made: Result<ShowSelect<'a, C>, PlanError>,
) -> bool {
    shown_in_schema(
        scx,
        from,
        |schema_id: i64| Listing::Types { schema_id, full, extended },
        filter,
        made,
    )
}

/// Plans `SHOW TYPES`: the types of the schema that `from` names, or of
/// the session's own.
pub fn show_types<'a, C: Catalog + Pipeline>(
    scx: &'a C,
    extended: bool,
    full: bool,
    from: Option<ObjectName>,
    filter: Option<ShowStatementFilter>,
) -> (made: Result<ShowSelect<'a, C>, PlanError>)
    ensures
        types_shown(scx, extended, full, from, filter, made),
{
    match resolve_schema_scope(scx, from) {
        Ok(schema) => show_listing(
            scx,
            Listing::Types { schema_id: schema.id, full, extended },
            filter,
        ),
        Err(e) => Err(PlanError::Catalog(e)),
    }
}

/// What `SHOW OBJECTS` comes to.
pub open spec fn all_objects_shown<'a, C: Catalog + Pipeline>(
    scx: &'a C,
    extended: bool,
    full: bool,
    from: Option<ObjectName>,
    filter: Option<ShowStatementFilter>,
    made: Result<ShowSelect<'a, C>, PlanError>,
) -> bool {
    shown_in_schema(
        scx,
        from,
        |schema_id: i64| Listing::Objects { schema_id, full, extended },
        filter,
        made,
    )
}

/// Plans `SHOW OBJECTS`: the objects of every kind in the schema that
/// `from` names, or in the session's own.
pub fn show_all_objects<'a, C: Catalog + Pipeline>(
    scx: &'a C,
    extended: bool,
    full: bool,
    from: Option<ObjectName>,
    filter: Option<ShowStatementFilter>,
) -> (made: Result<ShowSelect<'a, C>, PlanError>)
    ensures
        all_objects_shown(scx, extended, full, from, filter, made),
{
    match resolve_schema_scope(scx, from) {
        Ok(schema) => show_listing(
            scx,
            Listing::Objects { schema_id: schema.id, full, extended },
            filter,
        ),
        Err(e) => Err(PlanError::Catalog(e)),
    }
}

/// What `SHOW <objects>` comes to: what the listing of its object type
/// comes to, with the modifiers that this listing knows.
pub open spec fn objects_shown<'a, C: Catalog + Pipeline>(
    scx: &'a C,
    stmt: ShowObjectsStatement,
    made: Result<ShowSelect<'a, C>, PlanError>,
) -> bool {
    match stmt.object_type {
        ObjectType::Schema => schemas_shown(
            scx,
            stmt.extended,
            stmt.full,
            stmt.from,
            stmt.filter,
            made,
        ),
        ObjectType::Table => tables_shown(
            scx,
            stmt.extended,
            stmt.full,
            stmt.from,
            stmt.filter,
            made,
        ),
        ObjectType::Source => sources_shown(
            scx,
            stmt.full,
            stmt.materialized,
            stmt.from,
            stmt.filter,
            made,
        ),
        ObjectType::View => views_shown(
            scx,
            stmt.full,
            stmt.materialized,
            stmt.from,
            stmt.filter,
            made,
        ),
        ObjectType::Sink => sinks_shown(scx, stmt.full, stmt.from, stmt.filter, made),
        ObjectType::Type => types_shown(
            scx,
            stmt.extended,
            stmt.full,
            stmt.from,
            stmt.filter,
            made,
        ),
        ObjectType::Object => all_objects_shown(
            scx,
            stmt.extended,
            stmt.full,
            stmt.from,
            stmt.filter,
            made,
        ),
        ObjectType::Index => false,
    }
}

/// Plans `SHOW <objects>` for every object type but indexes, which have a
/// statement of their own.
pub fn show_objects<'a, C: Catalog + Pipeline>(
    scx: &'a C,
    stmt: ShowObjectsStatement,
) -> (made: Result<ShowSelect<'a, C>, PlanError>)
    requires
        stmt.object_type != ObjectType::Index,
    ensures
        objects_shown(scx, stmt, made),
{
    let ShowObjectsStatement { object_type, extended, full, materialized, from, filter } = stmt;
    match object_type {
        ObjectType::Schema => show_schemas(scx, extended, full, from, filter),
        ObjectType::Table => show_tables(scx, extended, full, from, filter),
        ObjectType::Source => show_sources(scx, full, materialized, from, filter),
        ObjectType::View => show_views(scx, full, materialized, from, filter),
        ObjectType::Sink => show_sinks(scx, full, from, filter),
        ObjectType::Type => show_types(scx, extended, full, from, filter),
        ObjectType::Object => show_all_objects(scx, extended, full, from, filter),
        ObjectType::Index => vstd::pervasive::unreached(),
    }
}

/// What `SHOW INDEXES` comes to for an item that the catalog has resolved:
/// the refusal of an item that can have no index, or what becomes of the
/// listing of the item's indexes.
pub open spec fn indexes_of_shown<'a, C: Pipeline>(
    scx: &'a C,
    item: CatalogItem,
    filter: Option<ShowStatementFilter>,
    made: Result<ShowSelect<'a, C>, PlanError>,
) -> bool {
    if item.item_type.indexable() {
        listing_shown(scx, Listing::Indexes { on_id: item.id }, filter, made)
    } else {
        made == Err::<ShowSelect<'a, C>, PlanError>(
            PlanError::NotIndexable { name: item.name, item_type: item.item_type },
        )
    }
}

/// What `SHOW INDEXES` comes to.
pub open spec fn indexes_shown<'a, C: Catalog + Pipeline>(
    scx: &'a C,
    stmt: ShowIndexesStatement,
    made: Result<ShowSelect<'a, C>, PlanError>,
) -> bool {
    if stmt.extended {
        made == Err::<ShowSelect<'a, C>, PlanError>(
            PlanError::Unsupported(Unsupported::ExtendedIndexes),
        )
    } else {
        exists|found: Result<CatalogItem, CatalogError>| #[trigger]
            call_ensures(C::resolve_item, (scx, stmt.table_name), found) && match found {
                Err(e) => made == Err::<ShowSelect<'a, C>, PlanError>(PlanError::Catalog(e)),
                Ok(item) => indexes_of_shown(scx, item, stmt.filter, made),
            }
    }
}

/// Lists the indexes on an item that the catalog has resolved. Only a
/// view, a source or a table can have any: for an item of another kind no
/// query is made.
pub fn show_indexes_of<'a, C: Pipeline>(
    scx: &'a C,
    item: CatalogItem,
    filter: Option<ShowStatementFilter>,
) -> (made: Result<ShowSelect<'a, C>, PlanError>)
    ensures
        indexes_of_shown(scx, item, filter, made),
{
    let CatalogItem { id, name, item_type, .. } = item;
    if !item_type.is_indexable() {
        return Err(PlanError::NotIndexable { name, item_type });
    }
    show_listing(scx, Listing::Indexes { on_id: id }, filter)
}

/// Plans `SHOW INDEXES`. `extended` is refused before the catalog is asked.
pub fn show_indexes<'a, C: Catalog + Pipeline>(
    scx: &'a C,
    stmt: ShowIndexesStatement,
) -> (made: Result<ShowSelect<'a, C>, PlanError>)
    ensures
        indexes_shown(scx, stmt, made),
{
    let ShowIndexesStatement { table_name, extended, filter } = stmt;
    if extended {
        return Err(PlanError::Unsupported(Unsupported::ExtendedIndexes));
    }
    match scx.resolve_item(table_name) {
        Ok(item) => show_indexes_of(scx, item, filter),
        Err(e) => Err(PlanError::Catalog(e)),
    }
}

/// What `SHOW COLUMNS` comes to.
pub open spec fn columns_shown<'a, C: Catalog + Pipeline>(
    scx: &'a C,
    stmt: ShowColumnsStatement,
    made: Result<ShowSelect<'a, C>, PlanError>,
) -> bool {
    if stmt.extended {
        made == Err::<ShowSelect<'a, C>, PlanError>(
            PlanError::Unsupported(Unsupported::ExtendedColumns),
        )
    } else if stmt.full {
        made == Err::<ShowSelect<'a, C>, PlanError>(
            PlanError::Unsupported(Unsupported::FullColumns),
        )
    } else {
        exists|found: Result<CatalogItem, CatalogError>| #[trigger]
            call_ensures(C::resolve_item, (scx, stmt.table_name), found) && match found {
                Err(e) => made == Err::<ShowSelect<'a, C>, PlanError>(PlanError::Catalog(e)),
                Ok(item) => listing_shown(
                    scx,
                    Listing::Columns { of_id: item.id },
                    stmt.filter,
                    made,
                ),
            }
    }
}

/// Plans `SHOW COLUMNS`. `extended` and `full` are refused, in this order,
/// before the catalog is asked.
pub fn show_columns<'a, C: Catalog + Pipeline>(
    scx: &'a C,
    stmt: ShowColumnsStatement,
) -> (made: Result<ShowSelect<'a, C>, PlanError>)
    ensures
        columns_shown(scx, stmt, made),
{
    let ShowColumnsStatement { extended, full, table_name, filter } = stmt;
    if extended {
        return Err(PlanError::Unsupported(Unsupported::ExtendedColumns));
    }
    if full {
        return Err(PlanError::Unsupported(Unsupported::FullColumns));
    }
    match scx.resolve_item(table_name) {
        Ok(item) => show_listing(scx, Listing::Columns { of_id: item.id }, filter),
        Err(e) => Err(PlanError::Catalog(e)),
    }
}

} // verus!
