use sql_show::catalog::{CatalogError, CatalogItemType};
use sql_show::context::{ParserError, PipelineError};
use sql_show::error::{Defect, PlanError, Unsupported};

#[test]
fn kinds_are_named_in_lower_case() {
    assert_eq!(CatalogItemType::Table.as_str(), "table");
    assert_eq!(CatalogItemType::Source.as_str(), "source");
    assert_eq!(CatalogItemType::Sink.as_str(), "sink");
    assert_eq!(CatalogItemType::View.as_str(), "view");
    assert_eq!(CatalogItemType::Index.as_str(), "index");
    assert_eq!(CatalogItemType::Type.as_str(), "type");
}

#[test]
fn views_sources_and_tables_can_have_indexes() {
    assert!(CatalogItemType::View.is_indexable());
    assert!(CatalogItemType::Source.is_indexable());
    assert!(CatalogItemType::Table.is_indexable());
    assert!(!CatalogItemType::Sink.is_indexable());
    assert!(!CatalogItemType::Index.is_indexable());
    assert!(!CatalogItemType::Type.is_indexable());
}

#[test]
fn unsupported_forms_are_named() {
    assert_eq!(Unsupported::ExtendedTables.as_str(), "SHOW EXTENDED TABLES");
    assert_eq!(Unsupported::ExtendedIndexes.as_str(), "SHOW EXTENDED INDEXES");
    assert_eq!(Unsupported::ExtendedColumns.as_str(), "SHOW EXTENDED COLUMNS");
    assert_eq!(Unsupported::FullColumns.as_str(), "SHOW FULL COLUMNS");
}

#[test]
fn message_of_a_catalog_error() {
    let e = PlanError::Catalog(CatalogError { message: "unknown schema 'x'".to_string() });
    assert_eq!(e.message(), "unknown schema 'x'");
    assert!(!e.is_internal());
}

#[test]
fn message_of_a_wrong_item_type() {
    let wrong = |expected: CatalogItemType| PlanError::WrongItemType {
        name: "db.sc.x".to_string(),
        expected,
        actual: CatalogItemType::Type,
    };
    assert_eq!(wrong(CatalogItemType::View).message(), "db.sc.x is not a view");
    assert_eq!(wrong(CatalogItemType::Table).message(), "db.sc.x is not a table");
    assert_eq!(wrong(CatalogItemType::Source).message(), "db.sc.x is not a source");
    assert_eq!(wrong(CatalogItemType::Sink).message(), "'db.sc.x' is not a sink");
    assert_eq!(wrong(CatalogItemType::Index).message(), "'db.sc.x' is not an index");
    assert!(!wrong(CatalogItemType::View).is_internal());
}

#[test]
fn message_of_an_item_without_indexes() {
    let e = PlanError::NotIndexable {
        name: "db.sc.x".to_string(),
        item_type: CatalogItemType::Sink,
    };
    assert_eq!(e.message(), "cannot show indexes on db.sc.x because it is a sink");
    assert!(!e.is_internal());
}

#[test]
fn message_of_an_unsupported_form() {
    assert_eq!(
        PlanError::Unsupported(Unsupported::FullColumns).message(),
        "SHOW FULL COLUMNS is not supported"
    );
    assert!(!PlanError::Unsupported(Unsupported::FullColumns).is_internal());
}

#[test]
fn messages_of_defects() {
    let invalid =
        PlanError::Defect(Defect::InvalidSql(ParserError { message: "Expected )".to_string() }));
    assert_eq!(invalid.message(), "SHOW was planned with invalid SQL: Expected )");
    assert!(invalid.is_internal());
    let count = PlanError::Defect(Defect::NotOneStatement { count: 2 });
    assert_eq!(count.message(), "SHOW was not planned as exactly one statement");
    assert!(count.is_internal());
    let other = PlanError::Defect(Defect::NotSelect);
    assert_eq!(other.message(), "SHOW was planned with a non-SELECT statement");
    assert!(other.is_internal());
}

#[test]
fn message_of_a_pipeline_error() {
    let e = PlanError::Pipeline(PipelineError { message: "unknown function".to_string() });
    assert_eq!(e.message(), "unknown function");
    assert!(!e.is_internal());
}
