//! The listings that `SHOW` offers, each with the scope it was resolved to
//! and its modifiers, and the base query that each of them stands for.

use vstd::prelude::*;
use crate::query::{
    condition_view, BaseQuery, BaseQueryView, Column, Condition, ConditionView, Modifier,
};
use crate::text::{decimal, push_decimal, push_string_literal, string_literal};

verus! {

/// The relation of the databases.
pub const DATABASES: &'static str = "mz_catalog.mz_databases";

/// The relation of the schemas.
pub const SCHEMAS: &'static str = "mz_catalog.mz_schemas";

/// The relation of the tables.
pub const TABLES: &'static str = "mz_catalog.mz_tables";

/// The relation of the sources.
pub const SOURCES: &'static str = "mz_catalog.mz_sources";

/// The relation of the views.
pub const VIEWS: &'static str = "mz_catalog.mz_views";

/// The relation of the sinks.
pub const SINKS: &'static str = "mz_catalog.mz_sinks";

/// The types, as `t`, each with its schema, as `s`.
pub const TYPES: &'static str =
    "mz_catalog.mz_types t JOIN mz_catalog.mz_schemas s ON t.schema_id = s.id";

/// The objects of every kind, as `o`, each with its schema, as `s`.
pub const OBJECTS: &'static str =
    "mz_catalog.mz_objects o JOIN mz_catalog.mz_schemas s ON o.schema_id = s.id";

/// The columns of the indexes, as `idx_cols`, each with its index, as
/// `idxs`, with the object that the index is on, as `objs`, and, where it
/// is a column of that object, with that column, as `obj_cols`.
pub const INDEXES: &'static str =
    "mz_catalog.mz_indexes AS idxs JOIN mz_catalog.mz_index_columns AS idx_cols ON idxs.id = idx_cols.index_id JOIN mz_catalog.mz_objects AS objs ON idxs.on_id = objs.id LEFT JOIN mz_catalog.mz_columns AS obj_cols ON idxs.on_id = obj_cols.id AND idx_cols.on_position = obj_cols.position";

/// The relation of the columns.
pub const COLUMNS: &'static str = "mz_catalog.mz_columns AS mz_columns";

/// The kind of a schema: `system` for an ambient one, `user` for one that
/// a database owns.
pub const SCHEMA_TYPE: &'static str =
    "CASE WHEN database_id IS NULL THEN 'system' ELSE 'user' END";

/// The kind of the object of a row.
pub const OBJECT_TYPE: &'static str = "mz_internal.mz_classify_object_id(id)";

/// The kind of the object of a row of `t`.
pub const OBJECT_TYPE_OF_T: &'static str = "mz_internal.mz_classify_object_id(t.id)";

/// The kind of the object of a row of `o`.
pub const OBJECT_TYPE_OF_O: &'static str = "mz_internal.mz_classify_object_id(o.id)";

/// Whether the object of a row has an index that materializes it.
pub const IS_MATERIALIZED: &'static str = "mz_internal.mz_is_materialized(id)";

/// Whether the schema of a row is ambient.
pub const IS_AMBIENT: &'static str = "database_id IS NULL";

/// Whether the schema `s` is ambient.
pub const S_IS_AMBIENT: &'static str = "s.database_id IS NULL";

/// A listing whose scope is resolved: the database, schema or item that it
/// looks into is known by its identifier. A database or a schema has a
/// number; an item has an identifier that is taken as it is written.
///
/// `full` asks for the derived columns beside `name`. `extended` lets in
/// what is ambient, beside what the scope holds. `materialized` keeps only
/// what has an index that materializes it.
#[derive(Clone, Debug, PartialEq, Eq)]
pub enum Listing {
    Databases,
    Schemas { database_id: i64, full: bool, extended: bool },
    Tables { schema_id: i64, full: bool },
    Sources { schema_id: i64, full: bool, materialized: bool },
    Views { schema_id: i64, full: bool, materialized: bool },
    Sinks { schema_id: i64, full: bool },
    Types { schema_id: i64, full: bool, extended: bool },
    Objects { schema_id: i64, full: bool, extended: bool },
    Indexes { on_id: String },
    Columns { of_id: String },
}

/// The column `name` of a catalog relation, as it stands.
pub open spec fn name_column() -> Column {
    Column::Plain { name: "name" }
}

/// The column `name` of one of several joined relations: `expr` picks it
/// out, and it is put out as `name`.
pub open spec fn name_column_of(expr: &'static str) -> Column {
    Column::Derived { expr, name: "name" }
}

/// The column `type`: the kind of what the row stands for, computed by
/// `expr`.
pub open spec fn type_column(expr: &'static str) -> Column {
    Column::Derived { expr, name: "type" }
}

/// The column `materialized`: whether the object has an index that
/// materializes it.
pub open spec fn materialized_column() -> Column {
    Column::Derived { expr: IS_MATERIALIZED, name: "materialized" }
}

/// The columns of an index listing: one row for each column of each index.
/// The first is the name of the object that the index is on; like the
/// first column of every listing it is put out as `name`.
pub open spec fn index_columns() -> Seq<Column> {
    seq![
        Column::Derived { expr: "objs.name", name: "name" },
        Column::Derived { expr: "idxs.name", name: "key_name" },
        Column::Derived { expr: "idx_cols.index_position", name: "seq_in_index" },
        Column::Derived { expr: "obj_cols.name", name: "column_name" },
        Column::Derived { expr: "idx_cols.on_expression", name: "expression" },
        Column::Derived { expr: "idx_cols.nullable", name: "nullable" },
    ]
}

/// The columns of a column listing.
pub open spec fn column_columns() -> Seq<Column> {
    seq![
        Column::Derived { expr: "mz_columns.name", name: "name" },
        Column::Derived { expr: "mz_columns.nullable", name: "nullable" },
        Column::Derived { expr: "mz_columns.type", name: "type" },
    ]
}

impl Listing {
    /// Whether the listing asks for the derived columns.
    pub open spec fn full(self) -> bool {
        match self {
            Listing::Schemas { full, .. } => full,
            Listing::Tables { full, .. } => full,
            Listing::Sources { full, .. } => full,
            Listing::Views { full, .. } => full,
            Listing::Sinks { full, .. } => full,
            Listing::Types { full, .. } => full,
            Listing::Objects { full, .. } => full,
            Listing::Databases | Listing::Indexes { .. } | Listing::Columns { .. } => false,
        }
    }

    /// Whether the listing lets in what is ambient.
    pub open spec fn extended(self) -> bool {
        match self {
            Listing::Schemas { extended, .. } => extended,
            Listing::Types { extended, .. } => extended,
            Listing::Objects { extended, .. } => extended,
            _ => false,
        }
    }

    /// Whether the listing keeps only what is materialized.
    pub open spec fn materialized(self) -> bool {
        match self {
            Listing::Sources { materialized, .. } => materialized,
            Listing::Views { materialized, .. } => materialized,
            _ => false,
        }
    }

    /// Whether the listing has a brief and a full form.
    pub open spec fn takes_full(self) -> bool {
        !(self is Databases || self is Indexes || self is Columns)
    }

    /// Whether the listing can be widened to what is ambient.
    pub open spec fn takes_extended(self) -> bool {
        self is Schemas || self is Types || self is Objects
    }

    /// Whether the listing can be narrowed to what is materialized.
    pub open spec fn takes_materialized(self) -> bool {
        self is Sources || self is Views
    }

    /// The same listing, in its full form or in its brief one.
    pub open spec fn with_full(self, full: bool) -> Listing {
        match self {
            Listing::Schemas { database_id, extended, .. } => Listing::Schemas {
                database_id,
                full,
                extended,
            },
            Listing::Tables { schema_id, .. } => Listing::Tables { schema_id, full },
            Listing::Sources { schema_id, materialized, .. } => Listing::Sources {
                schema_id,
                full,
                materialized,
            },
            Listing::Views { schema_id, materialized, .. } => Listing::Views {
                schema_id,
                full,
                materialized,
            },
            Listing::Sinks { schema_id, .. } => Listing::Sinks { schema_id, full },
            Listing::Types { schema_id, extended, .. } => Listing::Types {
                schema_id,
                full,
                extended,
            },
            Listing::Objects { schema_id, extended, .. } => Listing::Objects {
                schema_id,
                full,
                extended,
            },
            _ => self,
        }
    }

    /// The same listing, with or without what is ambient.
    pub open spec fn with_extended(self, extended: bool) -> Listing {
        match self {
            Listing::Schemas { database_id, full, .. } => Listing::Schemas {
                database_id,
                full,
                extended,
            },
            Listing::Types { schema_id, full, .. } => Listing::Types {
                schema_id,
                full,
                extended,
            },
            Listing::Objects { schema_id, full, .. } => Listing::Objects {
                schema_id,
                full,
                extended,
            },
            _ => self,
        }
    }

    /// The same listing, of what is materialized only or of everything.
    pub open spec fn with_materialized(self, materialized: bool) -> Listing {
        match self {
            Listing::Sources { schema_id, full, .. } => Listing::Sources {
                schema_id,
                full,
                materialized,
            },
            Listing::Views { schema_id, full, .. } => Listing::Views {
                schema_id,
                full,
                materialized,
            },
            _ => self,
        }
    }

    /// The first column of the listing: the one that a pattern is matched
    /// against.
    pub open spec fn leading_column(self) -> Column {
        match self {
            Listing::Types { .. } => name_column_of("t.name"),
            Listing::Objects { .. } => name_column_of("o.name"),
            Listing::Indexes { .. } => name_column_of("objs.name"),
            Listing::Columns { .. } => name_column_of("mz_columns.name"),
            _ => name_column(),
        }
    }

    /// The columns that `full` puts behind the leading one; none where the
    /// listing is not `full`.
    pub open spec fn derived_columns(self) -> Seq<Column> {
        if !self.full() {
            Seq::empty()
        } else {
            match self {
                Listing::Schemas { .. } => seq![type_column(SCHEMA_TYPE)],
                Listing::Tables { .. } | Listing::Sinks { .. } => seq![type_column(OBJECT_TYPE)],
                Listing::Sources { materialized, .. } | Listing::Views { materialized, .. } => {
                    if materialized {
                        seq![type_column(OBJECT_TYPE)]
                    } else {
                        seq![type_column(OBJECT_TYPE), materialized_column()]
                    }
                },
                Listing::Types { .. } => seq![type_column(OBJECT_TYPE_OF_T)],
                Listing::Objects { .. } => seq![type_column(OBJECT_TYPE_OF_O)],
                _ => Seq::empty(),
            }
        }
    }

    /// The output columns of the listing, left to right.
    pub open spec fn columns(self) -> Seq<Column> {
        match self {
            Listing::Indexes { .. } => index_columns(),
            Listing::Columns { .. } => column_columns(),
            _ => seq![self.leading_column()] + self.derived_columns(),
        }
    }

    /// The relation of the system catalog that the listing reads.
    pub open spec fn relation(self) -> &'static str {
        match self {
            Listing::Databases => DATABASES,
            Listing::Schemas { .. } => SCHEMAS,
            Listing::Tables { .. } => TABLES,
            Listing::Sources { .. } => SOURCES,
            Listing::Views { .. } => VIEWS,
            Listing::Sinks { .. } => SINKS,
            Listing::Types { .. } => TYPES,
            Listing::Objects { .. } => OBJECTS,
            Listing::Indexes { .. } => INDEXES,
            Listing::Columns { .. } => COLUMNS,
        }
    }

    /// The test that picks out what lies in the listing's scope; none for
    /// a listing that has no scope.
    pub open spec fn scope_test(self) -> Option<Seq<char>> {
        match self {
            Listing::Databases => None,
            Listing::Schemas { database_id, .. } => Some(
                "database_id = "@ + decimal(database_id as int),
            ),
            Listing::Tables { schema_id, .. } => Some("schema_id = "@ + decimal(schema_id as int)),
            Listing::Sources { schema_id, .. } => Some(
                "schema_id = "@ + decimal(schema_id as int),
            ),
            Listing::Views { schema_id, .. } => Some("schema_id = "@ + decimal(schema_id as int)),
            Listing::Sinks { schema_id, .. } => Some("schema_id = "@ + decimal(schema_id as int)),
            Listing::Types { schema_id, .. } => Some(
                "t.schema_id = "@ + decimal(schema_id as int),
            ),
            Listing::Objects { schema_id, .. } => Some(
                "o.schema_id = "@ + decimal(schema_id as int),
            ),
            Listing::Indexes { on_id } => Some("objs.id = "@ + string_literal(on_id@)),
            Listing::Columns { of_id } => Some("mz_columns.id = "@ + string_literal(of_id@)),
        }
    }

    /// What the listing's modifiers join to the test of its scope.
    pub open spec fn modifier(self) -> Modifier {
        match self {
            Listing::Schemas { extended: true, .. } => Modifier::Or(IS_AMBIENT),
            Listing::Types { extended: true, .. } => Modifier::Or(S_IS_AMBIENT),
            Listing::Objects { extended: true, .. } => Modifier::Or(S_IS_AMBIENT),
            Listing::Sources { materialized: true, .. } => Modifier::And(IS_MATERIALIZED),
            Listing::Views { materialized: true, .. } => Modifier::And(IS_MATERIALIZED),
            _ => Modifier::Alone,
        }
    }

    /// The condition of the listing.
    pub open spec fn condition(self) -> Option<ConditionView> {
        match self.scope_test() {
            Some(scope) => Some(ConditionView { scope, modifier: self.modifier() }),
            None => None,
        }
    }

    /// The base query of the listing.
    pub open spec fn query(self) -> BaseQueryView {
        BaseQueryView {
            columns: self.columns(),
            relation: self.relation()@,
            condition: self.condition(),
        }
    }

    /// The output columns of the listing, left to right.
    pub fn output_columns(&self) -> (columns: Vec<Column>)
        ensures
            columns@ == self.columns(),
    {
        let mut columns: Vec<Column> = Vec::new();
        match self {
            Listing::Databases => {
                columns.push(Column::Plain { name: "name" });
            },
            Listing::Schemas { full, .. } => {
                columns.push(Column::Plain { name: "name" });
                if *full {
                    columns.push(Column::Derived { expr: SCHEMA_TYPE, name: "type" });
                }
            },
            Listing::Tables { full, .. } | Listing::Sinks { full, .. } => {
                columns.push(Column::Plain { name: "name" });
                if *full {
                    columns.push(Column::Derived { expr: OBJECT_TYPE, name: "type" });
                }
            },
            Listing::Sources { full, materialized, .. } | Listing::Views {
                full,
                materialized,
                ..
            } => {
                columns.push(Column::Plain { name: "name" });
                if *full {
                    columns.push(Column::Derived { expr: OBJECT_TYPE, name: "type" });
                    if !*materialized {
                        columns.push(
                            Column::Derived { expr: IS_MATERIALIZED, name: "materialized" },
                        );
                    }
                }
            },
            Listing::Types { full, .. } => {
                columns.push(Column::Derived { expr: "t.name", name: "name" });
                if *full {
                    columns.push(Column::Derived { expr: OBJECT_TYPE_OF_T, name: "type" });
                }
            },
            Listing::Objects { full, .. } => {
                columns.push(Column::Derived { expr: "o.name", name: "name" });
                if *full {
                    columns.push(Column::Derived { expr: OBJECT_TYPE_OF_O, name: "type" });
                }
            },
            Listing::Indexes { .. } => {
                columns.push(Column::Derived { expr: "objs.name", name: "name" });
                columns.push(Column::Derived { expr: "idxs.name", name: "key_name" });
                columns.push(
                    Column::Derived { expr: "idx_cols.index_position", name: "seq_in_index" },
                );
                columns.push(Column::Derived { expr: "obj_cols.name", name: "column_name" });
                columns.push(
                    Column::Derived { expr: "idx_cols.on_expression", name: "expression" },
                );
                columns.push(Column::Derived { expr: "idx_cols.nullable", name: "nullable" });
            },
            Listing::Columns { .. } => {
                columns.push(Column::Derived { expr: "mz_columns.name", name: "name" });
                columns.push(Column::Derived { expr: "mz_columns.nullable", name: "nullable" });
                columns.push(Column::Derived { expr: "mz_columns.type", name: "type" });
            },
        }
        columns
    }

    /// The relation of the system catalog that the listing reads.
    pub fn from_relation(&self) -> (relation: &'static str)
        ensures
            relation@ == self.relation()@,
    {
        match self {
            Listing::Databases => DATABASES,
            Listing::Schemas { .. } => SCHEMAS,
            Listing::Tables { .. } => TABLES,
            Listing::Sources { .. } => SOURCES,
            Listing::Views { .. } => VIEWS,
            Listing::Sinks { .. } => SINKS,
            Listing::Types { .. } => TYPES,
            Listing::Objects { .. } => OBJECTS,
            Listing::Indexes { .. } => INDEXES,
            Listing::Columns { .. } => COLUMNS,
        }
    }

    /// What the listing's modifiers join to the test of its scope.
    pub fn joined_test(&self) -> (modifier: Modifier)
        ensures
            modifier == self.modifier(),
    {
        match self {
            Listing::Schemas { extended: true, .. } => Modifier::Or(IS_AMBIENT),
            Listing::Types { extended: true, .. } | Listing::Objects { extended: true, .. } => {
                Modifier::Or(S_IS_AMBIENT)
            },
            Listing::Sources { materialized: true, .. } | Listing::Views {
                materialized: true,
                ..
            } => Modifier::And(IS_MATERIALIZED),
            _ => Modifier::Alone,
        }
    }

    /// The condition of the listing: the test of its scope, and what its
    /// modifiers join to it.
    pub fn where_condition(&self) -> (condition: Option<Condition>)
        ensures
            condition_view(condition) == self.condition(),
    {
        let scope = match self {
            Listing::Databases => {
                return None;
            },
            Listing::Schemas { database_id, .. } => {
                let mut text = String::from_str("database_id = ");
                push_decimal(&mut text, *database_id);
                text
            },
            Listing::Tables { schema_id, .. }
            | Listing::Sources { schema_id, .. }
            | Listing::Views { schema_id, .. }
            | Listing::Sinks { schema_id, .. } => {
                let mut text = String::from_str("schema_id = ");
                push_decimal(&mut text, *schema_id);
                text
            },
            Listing::Types { schema_id, .. } => {
                let mut text = String::from_str("t.schema_id = ");
                push_decimal(&mut text, *schema_id);
                text
            },
            Listing::Objects { schema_id, .. } => {
                let mut text = String::from_str("o.schema_id = ");
                push_decimal(&mut text, *schema_id);
                text
            },
            Listing::Indexes { on_id } => {
                let mut text = String::from_str("objs.id = ");
                push_string_literal(&mut text, on_id.as_str());
                text
            },
            Listing::Columns { of_id } => {
                let mut text = String::from_str("mz_columns.id = ");
                push_string_literal(&mut text, of_id.as_str());
                text
            },
        };
        Some(Condition { scope, modifier: self.joined_test() })
    }

    /// The base query of the listing.
    pub fn base_query(&self) -> (query: BaseQuery)
        ensures
            query@ == self.query(),
    {
        BaseQuery {
            columns: self.output_columns(),
            relation: self.from_relation(),
            condition: self.where_condition(),
        }
    }
}

} // verus!
