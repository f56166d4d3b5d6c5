use std::cell::RefCell;

use sql_show::catalog::{
    CatalogError, CatalogItem, CatalogItemType, Database, ObjectName, Schema,
};
use sql_show::context::{Catalog, ParserError, Pipeline, PipelineError, Statement};
use sql_show::error::{Defect, PlanError, Unsupported};
use sql_show::select::{into_select, select_sql, ShowSelect, ShowStatementFilter};
use sql_show::show::{
    handle_show_create_index, handle_show_create_sink, handle_show_create_source,
    handle_show_create_table, handle_show_create_view, show_indexes_of, show_all_objects,
    show_columns, show_create, show_databases, show_indexes, show_objects, show_schemas,
    show_sinks, show_sources, show_tables, show_types, show_views, ObjectType, Row,
    ShowColumnsStatement, ShowCreateIndexStatement, ShowCreateSinkStatement,
    ShowCreateSourceStatement, ShowCreateTableStatement, ShowCreateViewStatement,
    ShowDatabasesStatement, ShowIndexesStatement, ShowObjectsStatement,
};

/// How the parser of a session answers.
#[derive(Clone, Copy, Debug, PartialEq, Eq)]
enum Parser {
    OneSelect,
    Fails,
    Nothing,
    TwoSelects,
    OneOther,
}

/// A session over a small catalog. It keeps a record of what it is asked.
struct Session {
    parser: Parser,
    pipeline_fails: bool,
    asked: RefCell<Vec<String>>,
    parsed: RefCell<Vec<String>>,
}

impl Session {
    fn new() -> Session {
        Session::with_parser(Parser::OneSelect)
    }

    fn with_parser(parser: Parser) -> Session {
        Session {
            parser,
            pipeline_fails: false,
            asked: RefCell::new(Vec::new()),
            parsed: RefCell::new(Vec::new()),
        }
    }

    fn asked(&self) -> Vec<String> {
        self.asked.borrow().clone()
    }

    fn parsed(&self) -> Vec<String> {
        self.parsed.borrow().clone()
    }
}

fn name(parts: &[&str]) -> ObjectName {
    ObjectName { parts: parts.iter().map(|p| p.to_string()).collect() }
}

fn item(id: &str, name: &str, item_type: CatalogItemType) -> CatalogItem {
    CatalogItem {
        id: id.to_string(),
        name: format!("materialize.public.{}", name),
        item_type,
        create_sql: format!("CREATE {} {}", item_type.as_str().to_uppercase(), name),
    }
}

impl Catalog for Session {
    fn resolve_default_database(&self) -> Result<Database, CatalogError> {
        self.asked.borrow_mut().push("default database".to_string());
        Ok(Database { id: 1, name: "materialize".to_string() })
    }

    fn resolve_database(&self, name: ObjectName) -> Result<Database, CatalogError> {
        let name = name.parts.join(".");
        self.asked.borrow_mut().push(format!("database {}", name));
        match name.as_str() {
            "materialize" => Ok(Database { id: 1, name }),
            "other" => Ok(Database { id: 2, name }),
            _ => Err(CatalogError { message: format!("unknown database '{}'", name) }),
        }
    }

    fn resolve_default_schema(&self) -> Result<Schema, CatalogError> {
        self.asked.borrow_mut().push("default schema".to_string());
        Ok(Schema { id: 3, database_id: Some(1) })
    }

    fn resolve_schema(&self, name: ObjectName) -> Result<Schema, CatalogError> {
        let name = name.parts.join(".");
        self.asked.borrow_mut().push(format!("schema {}", name));
        match name.as_str() {
            "public" => Ok(Schema { id: 3, database_id: Some(1) }),
            "private" => Ok(Schema { id: 4, database_id: Some(1) }),
            "system" => Ok(Schema { id: 5, database_id: None }),
            _ => Err(CatalogError { message: format!("unknown schema '{}'", name) }),
        }
    }

    fn resolve_item(&self, name: ObjectName) -> Result<CatalogItem, CatalogError> {
        let name = name.parts.join(".");
        self.asked.borrow_mut().push(format!("item {}", name));
        match name.as_str() {
            "t" => Ok(item("u1", "t", CatalogItemType::Table)),
            "v" => Ok(item("u2", "v", CatalogItemType::View)),
            "src" => Ok(item("u3", "src", CatalogItemType::Source)),
            "s" => Ok(item("u4", "s", CatalogItemType::Sink)),
            "i" => Ok(item("u5", "i", CatalogItemType::Index)),
            "ty" => Ok(item("s6", "ty", CatalogItemType::Type)),
            _ => Err(CatalogError { message: format!("unknown catalog item '{}'", name) }),
        }
    }
}

impl Pipeline for Session {
    type Select = String;
    type Desc = Vec<String>;
    type Plan = String;
    type Param = String;

    fn parse(&self, sql: &String) -> Result<Vec<Statement<String>>, ParserError> {
        self.parsed.borrow_mut().push(sql.clone());
        match self.parser {
            Parser::OneSelect => Ok(vec![Statement::Select(sql.clone())]),
            Parser::Fails => Err(ParserError { message: "unexpected token".to_string() }),
            Parser::Nothing => Ok(vec![]),
            Parser::TwoSelects => {
                Ok(vec![Statement::Select(sql.clone()), Statement::Select(sql.clone())])
            }
            Parser::OneOther => Ok(vec![Statement::Other]),
        }
    }

    fn describe_select(
        &self,
        stmt: String,
        params: Vec<String>,
    ) -> Result<Vec<String>, PipelineError> {
        assert!(params.is_empty());
        if self.pipeline_fails {
            Err(PipelineError { message: "column \"name\" does not exist".to_string() })
        } else {
            Ok(vec!["shape of".to_string(), stmt])
        }
    }

    fn plan_select(&self, stmt: String, params: Vec<String>) -> Result<String, PipelineError> {
        assert!(params.is_empty());
        if self.pipeline_fails {
            Err(PipelineError { message: "column \"name\" does not exist".to_string() })
        } else {
            Ok(format!("plan of {}", stmt))
        }
    }
}

fn error_of<T>(result: Result<T, PlanError>) -> PlanError {
    match result {
        Ok(_) => panic!("the statement was planned"),
        Err(e) => e,
    }
}

fn sql_of(result: Result<ShowSelect<'_, Session>, PlanError>) -> String {
    match result {
        Ok(select) => match select.handle() {
            Ok(plan) => plan.strip_prefix("plan of ").unwrap().to_string(),
            Err(e) => panic!("no plan: {}", e.message()),
        },
        Err(e) => panic!("no query: {}", e.message()),
    }
}

fn wrapped(base: &str, condition: &str) -> String {
    format!("SELECT * FROM ({}) AS q WHERE {} ORDER BY q.* ASC", base, condition)
}

fn objects(object_type: ObjectType) -> ShowObjectsStatement {
    ShowObjectsStatement {
        object_type,
        extended: false,
        full: false,
        materialized: false,
        from: None,
        filter: None,
    }
}

#[test]
fn select_sql_without_a_filter() {
    assert_eq!(
        select_sql("SELECT name FROM t", &None),
        "SELECT * FROM (SELECT name FROM t) AS q WHERE true ORDER BY q.* ASC"
    );
}

#[test]
fn select_sql_with_a_pattern() {
    assert_eq!(
        select_sql("SELECT name FROM t", &Some(ShowStatementFilter::Like("user_%".to_string()))),
        "SELECT * FROM (SELECT name FROM t) AS q WHERE name LIKE 'user_%' ORDER BY q.* ASC"
    );
}

#[test]
fn select_sql_with_a_pattern_that_holds_quotes() {
    assert_eq!(
        select_sql("SELECT name FROM t", &Some(ShowStatementFilter::Like("o'%".to_string()))),
        "SELECT * FROM (SELECT name FROM t) AS q WHERE name LIKE 'o''%' ORDER BY q.* ASC"
    );
}

#[test]
fn select_sql_with_a_predicate() {
    assert_eq!(
        select_sql(
            "SELECT name FROM t",
            &Some(ShowStatementFilter::Where("name = 'orders'".to_string()))
        ),
        "SELECT * FROM (SELECT name FROM t) AS q WHERE name = 'orders' ORDER BY q.* ASC"
    );
}

#[test]
fn select_sql_orders_whatever_the_base_query_asks_for() {
    let sql = select_sql("SELECT name FROM t ORDER BY name DESC", &None);
    assert_eq!(
        sql,
        "SELECT * FROM (SELECT name FROM t ORDER BY name DESC) AS q WHERE true ORDER BY q.* ASC"
    );
    assert!(sql.ends_with(" ORDER BY q.* ASC"));
}

#[test]
fn into_select_takes_the_only_select() {
    assert_eq!(into_select(Ok(vec![Statement::Select(7)])), Ok(7));
}

#[test]
fn into_select_names_each_defect() {
    let failed: Result<Vec<Statement<u8>>, ParserError> =
        Err(ParserError { message: "unexpected token".to_string() });
    assert_eq!(
        into_select(failed),
        Err(Defect::InvalidSql(ParserError { message: "unexpected token".to_string() }))
    );
    let nothing: Vec<Statement<u8>> = vec![];
    assert_eq!(into_select(Ok(nothing)), Err(Defect::NotOneStatement { count: 0 }));
    assert_eq!(
        into_select(Ok(vec![Statement::Select(1u8), Statement::Other])),
        Err(Defect::NotOneStatement { count: 2 })
    );
    let other: Vec<Statement<u8>> = vec![Statement::Other];
    assert_eq!(into_select(Ok(other)), Err(Defect::NotSelect));
}

#[test]
fn new_parses_the_composed_query() {
    let session = Session::new();
    let select = ShowSelect::new(
        &session,
        "SELECT name FROM t".to_string(),
        Some(ShowStatementFilter::Like("a%".to_string())),
    );
    assert!(select.is_ok());
    assert_eq!(
        session.parsed(),
        vec!["SELECT * FROM (SELECT name FROM t) AS q WHERE name LIKE 'a%' ORDER BY q.* ASC"]
    );
}

#[test]
fn new_reports_a_query_that_does_not_parse() {
    let session = Session::with_parser(Parser::Fails);
    let e = error_of(ShowSelect::new(&session, "SELECT".to_string(), None));
    assert_eq!(
        e,
        PlanError::Defect(Defect::InvalidSql(ParserError {
            message: "unexpected token".to_string()
        }))
    );
    assert!(e.is_internal());
}

#[test]
fn new_reports_a_query_that_is_not_one_statement() {
    let session = Session::with_parser(Parser::Nothing);
    let e = error_of(ShowSelect::new(&session, "".to_string(), None));
    assert_eq!(e, PlanError::Defect(Defect::NotOneStatement { count: 0 }));
    let session = Session::with_parser(Parser::TwoSelects);
    let e = error_of(ShowSelect::new(&session, "SELECT 1; SELECT 2".to_string(), None));
    assert_eq!(e, PlanError::Defect(Defect::NotOneStatement { count: 2 }));
    assert!(e.is_internal());
}

#[test]
fn new_reports_a_query_that_is_no_select() {
    let session = Session::with_parser(Parser::OneOther);
    let e = error_of(ShowSelect::new(&session, "DROP TABLE t".to_string(), None));
    assert_eq!(e, PlanError::Defect(Defect::NotSelect));
    assert!(e.is_internal());
}

#[test]
fn describe_hands_the_statement_to_the_pipeline() {
    let session = Session::new();
    let select = show_databases(&session, ShowDatabasesStatement { filter: None }).ok().unwrap();
    assert_eq!(
        select.describe(),
        Ok(vec![
            "shape of".to_string(),
            wrapped("SELECT name FROM mz_catalog.mz_databases", "true")
        ])
    );
}

#[test]
fn handle_hands_the_statement_to_the_pipeline() {
    let session = Session::new();
    let select = show_databases(&session, ShowDatabasesStatement { filter: None }).ok().unwrap();
    assert_eq!(
        select.handle(),
        Ok(format!("plan of {}", wrapped("SELECT name FROM mz_catalog.mz_databases", "true")))
    );
}

#[test]
fn the_pipeline_s_error_is_handed_on_as_it_came() {
    let mut session = Session::new();
    session.pipeline_fails = true;
    let failure = PipelineError { message: "column \"name\" does not exist".to_string() };
    let select = show_databases(&session, ShowDatabasesStatement { filter: None }).ok().unwrap();
    assert_eq!(select.describe(), Err(PlanError::Pipeline(failure.clone())));
    let select = show_databases(&session, ShowDatabasesStatement { filter: None }).ok().unwrap();
    let e = error_of(select.handle());
    assert_eq!(e, PlanError::Pipeline(failure));
    assert_eq!(e.message(), "column \"name\" does not exist");
    assert!(!e.is_internal());
}

#[test]
fn show_databases_asks_the_catalog_nothing() {
    let session = Session::new();
    let made = show_databases(
        &session,
        ShowDatabasesStatement { filter: Some(ShowStatementFilter::Like("m%".to_string())) },
    );
    assert_eq!(sql_of(made), wrapped("SELECT name FROM mz_catalog.mz_databases", "name LIKE 'm%'"));
    assert!(session.asked().is_empty());
}

#[test]
fn show_schemas_of_the_current_database() {
    let session = Session::new();
    let made = show_objects(&session, objects(ObjectType::Schema));
    assert_eq!(
        sql_of(made),
        wrapped("SELECT name FROM mz_catalog.mz_schemas WHERE database_id = 1", "true")
    );
    assert_eq!(session.asked(), vec!["default database"]);
}

#[test]
fn show_extended_schemas_lets_in_the_ambient_ones() {
    let session = Session::new();
    let mut stmt = objects(ObjectType::Schema);
    stmt.extended = true;
    assert_eq!(
        sql_of(show_objects(&session, stmt)),
        wrapped(
            "SELECT name FROM mz_catalog.mz_schemas WHERE database_id = 1 OR database_id IS NULL",
            "true"
        )
    );
}

#[test]
fn show_schemas_of_a_named_database() {
    let session = Session::new();
    let made = show_schemas(&session, false, true, Some(name(&["other"])), None);
    assert_eq!(
        sql_of(made),
        wrapped(
            "SELECT name, CASE WHEN database_id IS NULL THEN 'system' ELSE 'user' END AS type \
             FROM mz_catalog.mz_schemas WHERE database_id = 2",
            "true"
        )
    );
    assert_eq!(session.asked(), vec!["database other"]);
}

#[test]
fn show_schemas_of_an_unknown_database() {
    let session = Session::new();
    let e = error_of(show_schemas(&session, false, false, Some(name(&["nowhere"])), None));
    assert_eq!(
        e,
        PlanError::Catalog(CatalogError { message: "unknown database 'nowhere'".to_string() })
    );
    assert_eq!(e.message(), "unknown database 'nowhere'");
    assert!(session.parsed().is_empty());
}

#[test]
fn show_tables_like_a_pattern() {
    let session = Session::new();
    let mut stmt = objects(ObjectType::Table);
    stmt.filter = Some(ShowStatementFilter::Like("user_%".to_string()));
    assert_eq!(
        sql_of(show_objects(&session, stmt)),
        wrapped("SELECT name FROM mz_catalog.mz_tables WHERE schema_id = 3", "name LIKE 'user_%'")
    );
}

#[test]
fn show_tables_where_a_predicate_holds() {
    let session = Session::new();
    let mut stmt = objects(ObjectType::Table);
    stmt.filter = Some(ShowStatementFilter::Where("name = 'orders'".to_string()));
    assert_eq!(
        sql_of(show_objects(&session, stmt)),
        wrapped("SELECT name FROM mz_catalog.mz_tables WHERE schema_id = 3", "name = 'orders'")
    );
}

#[test]
fn show_full_tables_of_a_named_schema() {
    let session = Session::new();
    let made = show_tables(&session, false, true, Some(name(&["private"])), None);
    assert_eq!(
        sql_of(made),
        wrapped(
            "SELECT name, mz_internal.mz_classify_object_id(id) AS type \
             FROM mz_catalog.mz_tables WHERE schema_id = 4",
            "true"
        )
    );
    assert_eq!(session.asked(), vec!["schema private"]);
}

#[test]
fn show_extended_tables_is_refused_before_the_catalog_is_asked() {
    let session = Session::new();
    let mut stmt = objects(ObjectType::Table);
    stmt.extended = true;
    stmt.from = Some(name(&["nowhere"]));
    let e = error_of(show_objects(&session, stmt));
    assert_eq!(e, PlanError::Unsupported(Unsupported::ExtendedTables));
    assert_eq!(e.message(), "SHOW EXTENDED TABLES is not supported");
    assert!(session.asked().is_empty());
    assert!(session.parsed().is_empty());
}

#[test]
fn show_tables_of_an_unknown_schema() {
    let session = Session::new();
    let e = error_of(show_tables(&session, false, false, Some(name(&["nowhere"])), None));
    assert_eq!(
        e,
        PlanError::Catalog(CatalogError { message: "unknown schema 'nowhere'".to_string() })
    );
    assert!(session.parsed().is_empty());
}

#[test]
fn show_sources_in_its_four_shapes() {
    let session = Session::new();
    let classify = "mz_internal.mz_classify_object_id(id) AS type";
    let materialized = "mz_internal.mz_is_materialized(id)";
    assert_eq!(
        sql_of(show_sources(&session, false, false, None, None)),
        wrapped("SELECT name FROM mz_catalog.mz_sources WHERE schema_id = 3", "true")
    );
    assert_eq!(
        sql_of(show_sources(&session, true, false, None, None)),
        wrapped(
            &format!(
                "SELECT name, {}, {} AS materialized FROM mz_catalog.mz_sources \
                 WHERE schema_id = 3",
                classify, materialized
            ),
            "true"
        )
    );
    assert_eq!(
        sql_of(show_sources(&session, false, true, None, None)),
        wrapped(
            &format!(
                "SELECT name FROM mz_catalog.mz_sources WHERE schema_id = 3 AND {}",
                materialized
            ),
            "true"
        )
    );
    assert_eq!(
        sql_of(show_sources(&session, true, true, None, None)),
        wrapped(
            &format!(
                "SELECT name, {} FROM mz_catalog.mz_sources WHERE schema_id = 3 AND {}",
                classify, materialized
            ),
            "true"
        )
    );
}

#[test]
fn show_materialized_views() {
    let session = Session::new();
    let mut stmt = objects(ObjectType::View);
    stmt.materialized = true;
    stmt.from = Some(name(&["private"]));
    assert_eq!(
        sql_of(show_objects(&session, stmt)),
        wrapped(
            "SELECT name FROM mz_catalog.mz_views \
             WHERE schema_id = 4 AND mz_internal.mz_is_materialized(id)",
            "true"
        )
    );
    assert_eq!(
        sql_of(show_views(&session, true, false, None, None)),
        wrapped(
            "SELECT name, mz_internal.mz_classify_object_id(id) AS type, \
             mz_internal.mz_is_materialized(id) AS materialized \
             FROM mz_catalog.mz_views WHERE schema_id = 3",
            "true"
        )
    );
}

#[test]
fn show_objects_passes_the_modifiers_that_each_listing_knows() {
    let session = Session::new();
    let mut stmt = objects(ObjectType::Source);
    stmt.extended = true;
    stmt.full = true;
    assert_eq!(
        sql_of(show_objects(&session, stmt)),
        wrapped(
            "SELECT name, mz_internal.mz_classify_object_id(id) AS type, \
             mz_internal.mz_is_materialized(id) AS materialized \
             FROM mz_catalog.mz_sources WHERE schema_id = 3",
            "true"
        )
    );
    let mut stmt = objects(ObjectType::Sink);
    stmt.extended = true;
    stmt.materialized = true;
    assert_eq!(
        sql_of(show_objects(&session, stmt)),
        wrapped("SELECT name FROM mz_catalog.mz_sinks WHERE schema_id = 3", "true")
    );
    let mut stmt = objects(ObjectType::Type);
    stmt.materialized = true;
    assert_eq!(
        sql_of(show_objects(&session, stmt)),
        wrapped(
            "SELECT t.name AS name FROM mz_catalog.mz_types t \
             JOIN mz_catalog.mz_schemas s ON t.schema_id = s.id WHERE t.schema_id = 3",
            "true"
        )
    );
}

#[test]
fn show_sinks_of_the_current_schema() {
    let session = Session::new();
    assert_eq!(
        sql_of(show_sinks(&session, true, None, None)),
        wrapped(
            "SELECT name, mz_internal.mz_classify_object_id(id) AS type \
             FROM mz_catalog.mz_sinks WHERE schema_id = 3",
            "true"
        )
    );
    assert_eq!(session.asked(), vec!["default schema"]);
}

#[test]
fn show_extended_types() {
    let session = Session::new();
    assert_eq!(
        sql_of(show_types(&session, true, true, None, None)),
        wrapped(
            "SELECT t.name AS name, mz_internal.mz_classify_object_id(t.id) AS type \
             FROM mz_catalog.mz_types t JOIN mz_catalog.mz_schemas s ON t.schema_id = s.id \
             WHERE t.schema_id = 3 OR s.database_id IS NULL",
            "true"
        )
    );
}

#[test]
fn show_all_objects_of_a_schema() {
    let session = Session::new();
    assert_eq!(
        sql_of(show_all_objects(
            &session,
            false,
            false,
            Some(name(&["system"])),
            Some(ShowStatementFilter::Like("mz_%".to_string()))
        )),
        wrapped(
            "SELECT o.name AS name FROM mz_catalog.mz_objects o \
             JOIN mz_catalog.mz_schemas s ON o.schema_id = s.id WHERE o.schema_id = 5",
            "name LIKE 'mz_%'"
        )
    );
    let mut stmt = objects(ObjectType::Object);
    stmt.extended = true;
    stmt.full = true;
    assert_eq!(
        sql_of(show_objects(&session, stmt)),
        wrapped(
            "SELECT o.name AS name, mz_internal.mz_classify_object_id(o.id) AS type \
             FROM mz_catalog.mz_objects o JOIN mz_catalog.mz_schemas s ON o.schema_id = s.id \
             WHERE o.schema_id = 3 OR s.database_id IS NULL",
            "true"
        )
    );
}

#[test]
fn show_indexes_on_a_view() {
    let session = Session::new();
    let made = show_indexes(
        &session,
        ShowIndexesStatement { table_name: name(&["v"]), extended: false, filter: None },
    );
    assert_eq!(
        sql_of(made),
        wrapped(
            "SELECT objs.name AS name, idxs.name AS key_name, \
             idx_cols.index_position AS seq_in_index, obj_cols.name AS column_name, \
             idx_cols.on_expression AS expression, idx_cols.nullable AS nullable \
             FROM mz_catalog.mz_indexes AS idxs \
             JOIN mz_catalog.mz_index_columns AS idx_cols ON idxs.id = idx_cols.index_id \
             JOIN mz_catalog.mz_objects AS objs ON idxs.on_id = objs.id \
             LEFT JOIN mz_catalog.mz_columns AS obj_cols \
             ON idxs.on_id = obj_cols.id AND idx_cols.on_position = obj_cols.position \
             WHERE objs.id = 'u2'",
            "true"
        )
    );
    assert_eq!(session.asked(), vec!["item v"]);
}

#[test]
fn show_indexes_like_a_pattern() {
    let session = Session::new();
    let made = show_indexes(
        &session,
        ShowIndexesStatement {
            table_name: name(&["t"]),
            extended: false,
            filter: Some(ShowStatementFilter::Like("ord%".to_string())),
        },
    );
    let sql = sql_of(made);
    assert!(sql.starts_with("SELECT * FROM (SELECT objs.name AS name, idxs.name AS key_name, "));
    assert!(sql.ends_with(" WHERE objs.id = 'u1') AS q WHERE name LIKE 'ord%' ORDER BY q.* ASC"));
}

#[test]
fn show_indexes_on_a_table_and_on_a_source() {
    let session = Session::new();
    for on in ["t", "src"] {
        let made = show_indexes(
            &session,
            ShowIndexesStatement { table_name: name(&[on]), extended: false, filter: None },
        );
        assert!(made.is_ok());
    }
}

#[test]
fn show_indexes_on_a_sink_is_refused_and_makes_no_query() {
    let session = Session::new();
    let e = error_of(show_indexes(
        &session,
        ShowIndexesStatement { table_name: name(&["s"]), extended: false, filter: None },
    ));
    assert_eq!(
        e,
        PlanError::NotIndexable {
            name: "materialize.public.s".to_string(),
            item_type: CatalogItemType::Sink
        }
    );
    assert_eq!(e.message(), "cannot show indexes on materialize.public.s because it is a sink");
    assert!(session.parsed().is_empty());
}

#[test]
fn show_indexes_on_an_index_and_on_a_type_is_refused() {
    let session = Session::new();
    let e = error_of(show_indexes(
        &session,
        ShowIndexesStatement { table_name: name(&["i"]), extended: false, filter: None },
    ));
    assert_eq!(e.message(), "cannot show indexes on materialize.public.i because it is a index");
    let e = error_of(show_indexes_of(&session, item("s6", "ty", CatalogItemType::Type), None));
    assert_eq!(e.message(), "cannot show indexes on materialize.public.ty because it is a type");
}

#[test]
fn show_extended_indexes_is_refused_before_the_catalog_is_asked() {
    let session = Session::new();
    let e = error_of(show_indexes(
        &session,
        ShowIndexesStatement { table_name: name(&["nothing"]), extended: true, filter: None },
    ));
    assert_eq!(e, PlanError::Unsupported(Unsupported::ExtendedIndexes));
    assert_eq!(e.message(), "SHOW EXTENDED INDEXES is not supported");
    assert!(session.asked().is_empty());
}

#[test]
fn show_indexes_on_an_unknown_item() {
    let session = Session::new();
    let e = error_of(show_indexes(
        &session,
        ShowIndexesStatement { table_name: name(&["nothing"]), extended: false, filter: None },
    ));
    assert_eq!(
        e,
        PlanError::Catalog(CatalogError { message: "unknown catalog item 'nothing'".to_string() })
    );
}

#[test]
fn show_columns_of_an_item() {
    let session = Session::new();
    let made = show_columns(
        &session,
        ShowColumnsStatement {
            extended: false,
            full: false,
            table_name: name(&["t"]),
            filter: Some(ShowStatementFilter::Where("nullable".to_string())),
        },
    );
    assert_eq!(
        sql_of(made),
        wrapped(
            "SELECT mz_columns.name AS name, mz_columns.nullable AS nullable, \
             mz_columns.type AS type FROM mz_catalog.mz_columns AS mz_columns \
             WHERE mz_columns.id = 'u1'",
            "nullable"
        )
    );
}

#[test]
fn show_columns_refuses_its_modifiers() {
    let session = Session::new();
    let stmt = |extended: bool, full: bool| ShowColumnsStatement {
        extended,
        full,
        table_name: name(&["t"]),
        filter: None,
    };
    let e = error_of(show_columns(&session, stmt(true, false)));
    assert_eq!(e, PlanError::Unsupported(Unsupported::ExtendedColumns));
    assert_eq!(e.message(), "SHOW EXTENDED COLUMNS is not supported");
    let e = error_of(show_columns(&session, stmt(false, true)));
    assert_eq!(e, PlanError::Unsupported(Unsupported::FullColumns));
    assert_eq!(e.message(), "SHOW FULL COLUMNS is not supported");
    let e = error_of(show_columns(&session, stmt(true, true)));
    assert_eq!(e, PlanError::Unsupported(Unsupported::ExtendedColumns));
    assert!(session.asked().is_empty());
}

#[test]
fn show_columns_of_an_unknown_item() {
    let session = Session::new();
    let e = error_of(show_columns(
        &session,
        ShowColumnsStatement {
            extended: false,
            full: false,
            table_name: name(&["nothing"]),
            filter: None,
        },
    ));
    assert_eq!(e.message(), "unknown catalog item 'nothing'");
    assert!(session.parsed().is_empty());
}

#[test]
fn a_listing_whose_query_does_not_parse_is_a_defect() {
    let session = Session::with_parser(Parser::Fails);
    let e = error_of(show_objects(&session, objects(ObjectType::Table)));
    assert!(e.is_internal());
    assert_eq!(e.message(), "SHOW was planned with invalid SQL: unexpected token");
}

#[test]
fn show_create_view_of_a_view() {
    let session = Session::new();
    let rows = handle_show_create_view(&session, ShowCreateViewStatement { view_name: name(&["v"]) });
    assert_eq!(
        rows,
        Ok(vec![Row {
            values: vec!["materialize.public.v".to_string(), "CREATE VIEW v".to_string()]
        }])
    );
    assert_eq!(session.asked(), vec!["item v"]);
}

#[test]
fn show_create_view_of_a_table_is_refused_and_makes_no_query() {
    let session = Session::new();
    let e = error_of(handle_show_create_view(
        &session,
        ShowCreateViewStatement { view_name: name(&["t"]) },
    ));
    assert_eq!(
        e,
        PlanError::WrongItemType {
            name: "materialize.public.t".to_string(),
            expected: CatalogItemType::View,
            actual: CatalogItemType::Table,
        }
    );
    assert_eq!(e.message(), "materialize.public.t is not a view");
    assert!(!e.is_internal());
    assert!(session.parsed().is_empty());
}

#[test]
fn show_create_of_each_kind() {
    let session = Session::new();
    let row = |name: &str, sql: &str| Ok(vec![Row { values: vec![name.to_string(), sql.to_string()] }]);
    assert_eq!(
        handle_show_create_table(&session, ShowCreateTableStatement { table_name: name(&["t"]) }),
        row("materialize.public.t", "CREATE TABLE t")
    );
    assert_eq!(
        handle_show_create_source(
            &session,
            ShowCreateSourceStatement { source_name: name(&["src"]) }
        ),
        row("materialize.public.src", "CREATE SOURCE src")
    );
    assert_eq!(
        handle_show_create_sink(&session, ShowCreateSinkStatement { sink_name: name(&["s"]) }),
        row("materialize.public.s", "CREATE SINK s")
    );
    assert_eq!(
        handle_show_create_index(&session, ShowCreateIndexStatement { index_name: name(&["i"]) }),
        row("materialize.public.i", "CREATE INDEX i")
    );
}

#[test]
fn show_create_of_another_kind_is_refused() {
    let session = Session::new();
    let e = error_of(handle_show_create_table(
        &session,
        ShowCreateTableStatement { table_name: name(&["v"]) },
    ));
    assert_eq!(e.message(), "materialize.public.v is not a table");
    let e = error_of(handle_show_create_source(
        &session,
        ShowCreateSourceStatement { source_name: name(&["t"]) },
    ));
    assert_eq!(e.message(), "materialize.public.t is not a source");
    let e = error_of(handle_show_create_sink(
        &session,
        ShowCreateSinkStatement { sink_name: name(&["t"]) },
    ));
    assert_eq!(e.message(), "'materialize.public.t' is not a sink");
    let e = error_of(handle_show_create_index(
        &session,
        ShowCreateIndexStatement { index_name: name(&["s"]) },
    ));
    assert_eq!(
        e,
        PlanError::WrongItemType {
            name: "materialize.public.s".to_string(),
            expected: CatalogItemType::Index,
            actual: CatalogItemType::Sink,
        }
    );
    assert_eq!(e.message(), "'materialize.public.s' is not an index");
}

#[test]
fn show_create_of_an_unknown_item() {
    let session = Session::new();
    let e = error_of(handle_show_create_view(
        &session,
        ShowCreateViewStatement { view_name: name(&["nothing"]) },
    ));
    assert_eq!(
        e,
        PlanError::Catalog(CatalogError { message: "unknown catalog item 'nothing'".to_string() })
    );
}

#[test]
fn show_create_for_a_resolved_item() {
    assert_eq!(
        show_create(CatalogItemType::Type, item("s6", "ty", CatalogItemType::Type)),
        Ok(vec![Row {
            values: vec!["materialize.public.ty".to_string(), "CREATE TYPE ty".to_string()]
        }])
    );
    let e = error_of(show_create(CatalogItemType::Type, item("u1", "t", CatalogItemType::Table)));
    assert_eq!(e.message(), "materialize.public.t is not a type");
}
