//! What the adapter asks of a catalog, and what it makes of the answers.

use arrow_array::{ArrayRef, Int32Array, RecordBatch, StringArray};
use arrow_schema::{DataType, Field, Schema};
use sqlserver_adapter::batch::{int_values, string_values, ResultBatch};
use sqlserver_adapter::catalog::{collect_columns, collect_tables, ColumnRow, StatsRow};
use sqlserver_adapter::columns::{build_schema_from_columns, read_column_fields, ColumnField};
use sqlserver_adapter::metadata::{
    build_columns_query, list_relations, reduce_relations, reduce_schemas, relation_schema,
    relations_query_ctx, schema_query_ctx, AdapterEngine, AdapterType, CatalogAndSchema,
    RelationSchemas, RelationsBySchema, SqlServerMetadataAdapter,
};
use sqlserver_adapter::relation::{
    AdapterError, AdapterErrorKind, Relation, RelationType, ResolvedQuoting,
};
use sqlserver_adapter::sql::{build_columns_sql, build_list_relations_sql};
use std::sync::Arc;

const QUOTING: ResolvedQuoting =
    ResolvedQuoting { database: true, schema: false, identifier: true };

fn engine() -> AdapterEngine {
    AdapterEngine { adapter_type: AdapterType::SqlServer, quoting: QUOTING, threads: 4 }
}

fn adapter() -> SqlServerMetadataAdapter {
    SqlServerMetadataAdapter::new(Arc::new(engine()))
}

fn strings(values: &[&str]) -> ArrayRef {
    Arc::new(StringArray::from(values.to_vec()))
}

fn ints(values: &[i32]) -> ArrayRef {
    Arc::new(Int32Array::from(values.to_vec()))
}

fn batch(columns: Vec<(&str, ArrayRef)>) -> ResultBatch {
    ResultBatch { record_batch: RecordBatch::try_from_iter(columns).expect("batch") }
}

fn empty_batch() -> ResultBatch {
    ResultBatch { record_batch: RecordBatch::new_empty(Arc::new(Schema::empty())) }
}

fn db_schema(catalog: &str, schema: &str) -> CatalogAndSchema {
    CatalogAndSchema {
        rendered_catalog: format!("\"{catalog}\""),
        rendered_schema: format!("\"{schema}\""),
        resolved_catalog: catalog.to_string(),
        resolved_schema: schema.to_string(),
    }
}

fn relation(database: Option<&str>, schema: Option<&str>, identifier: Option<&str>) -> Relation {
    Relation::new_sqlserver(
        database.map(str::to_string),
        schema.map(str::to_string),
        identifier.map(str::to_string),
        Some(RelationType::Table),
        QUOTING,
    )
}

fn driver_error() -> AdapterError {
    AdapterError::new(AdapterErrorKind::Driver, "connection lost")
}

fn assert_bad_column(error: &AdapterError, name: &str) {
    assert_eq!(error.kind, AdapterErrorKind::UnexpectedResult);
    assert_eq!(
        error.message,
        format!("The result has no column of the expected type named {name}")
    );
}

#[test]
fn relations_are_listed_row_by_row() {
    let schema = db_schema("db", "o'brien");
    let relations = list_relations(
        &engine(),
        |sql: String| {
            assert_eq!(sql, build_list_relations_sql("\"db\"", "o'brien"));
            Ok(batch(vec![
                ("table_schema", strings(&["dbo", "dbo", "x"])),
                ("table_name", strings(&["orders", "recent", "odd"])),
                ("table_type", strings(&["TABLE", "VIEW", "SYNONYM"])),
            ]))
        },
        &schema,
    )
    .expect("relations");

    let expected = |schema: &str, name: &str, relation_type: Option<RelationType>| Relation {
        database: Some("db".to_string()),
        schema: Some(schema.to_string()),
        identifier: Some(name.to_string()),
        relation_type,
        quoting: QUOTING,
    };
    assert_eq!(
        relations,
        vec![
            expected("dbo", "orders", Some(RelationType::Table)),
            expected("dbo", "recent", Some(RelationType::View)),
            expected("x", "odd", None),
        ]
    );
    for relation in &relations {
        assert!(build_columns_query(relation).is_ok());
    }
}

#[test]
fn listing_needs_a_rendered_database() {
    let mut schema = db_schema("db", "dbo");
    schema.rendered_catalog = String::new();
    let error = list_relations(&engine(), |_: String| panic!("no query is run"), &schema)
        .expect_err("no database");
    assert_eq!(error.kind, AdapterErrorKind::UnexpectedResult);
    assert_eq!(
        error.message,
        "SQL Server relations require a database to build a three-part name"
    );
}

#[test]
fn a_listing_without_rows_needs_no_columns() {
    let relations = list_relations(&engine(), |_: String| Ok(empty_batch()), &db_schema("d", "s"));
    assert!(relations.expect("relations").is_empty());
}

#[test]
fn a_listing_hands_on_the_errors_of_the_driver() {
    let error = list_relations(&engine(), |_: String| Err(driver_error()), &db_schema("d", "s"))
        .expect_err("driver");
    assert_eq!(error.kind, AdapterErrorKind::Driver);
    assert_eq!(error.message, "connection lost");
}

#[test]
fn a_listing_names_the_first_column_that_is_missing() {
    let list = |columns: Vec<(&'static str, ArrayRef)>| {
        list_relations(&engine(), |_: String| Ok(batch(columns)), &db_schema("d", "s"))
            .expect_err("column")
    };
    assert_bad_column(&list(vec![("x", ints(&[1]))]), "table_schema");
    assert_bad_column(
        &list(vec![("table_schema", strings(&["s"])), ("table_name", ints(&[1]))]),
        "table_name",
    );
    assert_bad_column(
        &list(vec![("table_name", strings(&["t"])), ("table_schema", strings(&["s"]))]),
        "table_type",
    );
}

#[test]
fn columns_are_found_by_name_and_type() {
    let both = batch(vec![("a", strings(&["x", "y"])), ("b", ints(&[-1, 7]))]);
    assert_eq!(string_values(&both, "a").expect("strings"), vec!["x", "y"]);
    assert_eq!(int_values(&both, "b").expect("ints"), vec![-1, 7]);
    assert_bad_column(&string_values(&both, "b").expect_err("type"), "b");
    assert_bad_column(&int_values(&both, "a").expect_err("type"), "a");
    assert_bad_column(&int_values(&both, "c").expect_err("name"), "c");
    assert_bad_column(&string_values(&both, "A").expect_err("case"), "A");

    let twice = batch(vec![("a", strings(&["first"])), ("a", strings(&["second"]))]);
    assert_eq!(string_values(&twice, "a").expect("strings"), vec!["first"]);
    let mixed = batch(vec![("a", ints(&[1])), ("a", strings(&["second"]))]);
    assert_bad_column(&string_values(&mixed, "a").expect_err("the first column counts"), "a");
}

fn stats_batch() -> ResultBatch {
    batch(vec![
        ("table_database", strings(&["DB", "db", "DB"])),
        ("table_schema", strings(&["dbo", "DBO", "dbo"])),
        ("table_name", strings(&["Orders", "orders", "\u{dc}bung"])),
        ("table_type", strings(&["TABLE", "VIEW", "VIEW"])),
        ("table_comment", strings(&["", "later", "noted"])),
        ("table_owner", strings(&["sa", "other", ""])),
    ])
}

#[test]
fn the_first_row_describes_a_table() {
    let tables = adapter().build_schemas_from_stats_sql(Arc::new(stats_batch())).expect("tables");
    let keys: Vec<&str> = tables.entries().iter().map(|(key, _)| key.as_str()).collect();
    assert_eq!(keys, vec!["db.dbo.orders", "db.dbo.\u{fc}bung"]);

    let orders = tables.get("db.dbo.orders").expect("orders");
    assert_eq!(orders.metadata.materialization_type, "TABLE");
    assert_eq!(orders.metadata.database.as_deref(), Some("DB"));
    assert_eq!(orders.metadata.schema, "dbo");
    assert_eq!(orders.metadata.name, "Orders");
    assert_eq!(orders.metadata.comment, None);
    assert_eq!(orders.metadata.owner.as_deref(), Some("sa"));
    assert_eq!(orders.unique_id, None);
    assert!(orders.columns.entries().is_empty());

    assert_eq!(orders.stats.entries().len(), 1);
    let stats = orders.stats.get("has_stats").expect("stats");
    assert_eq!(stats.id, "has_stats");
    assert_eq!(stats.label, "Has Stats?");
    assert_eq!(stats.value, serde_json::Value::Bool(false));
    assert_eq!(
        stats.description.as_deref(),
        Some("Indicates whether there are statistics for this table")
    );
    assert!(!stats.included);

    let other = tables.get("db.dbo.\u{fc}bung").expect("other");
    assert_eq!(other.metadata.comment.as_deref(), Some("noted"));
    assert_eq!(other.metadata.owner.as_deref(), Some(""));
}

#[test]
fn a_catalog_without_rows_needs_no_columns() {
    let tables = adapter().build_schemas_from_stats_sql(Arc::new(empty_batch())).expect("tables");
    assert!(tables.entries().is_empty());
    let columns =
        adapter().build_columns_from_get_columns(Arc::new(empty_batch())).expect("columns");
    assert!(columns.entries().is_empty());
}

#[test]
fn a_catalog_names_the_first_column_that_is_missing() {
    let one = batch(vec![("table_schema", strings(&["s"]))]);
    let error = adapter().build_schemas_from_stats_sql(Arc::new(one)).expect_err("column");
    assert_bad_column(&error, "table_database");

    let names = ["table_database", "table_schema", "table_name", "table_type", "table_comment"];
    let most = batch(names.iter().map(|name| (*name, strings(&["x"]))).collect());
    let error = adapter().build_schemas_from_stats_sql(Arc::new(most)).expect_err("column");
    assert_bad_column(&error, "table_owner");

    let wrong = batch(vec![
        ("table_database", strings(&["d"])),
        ("table_schema", strings(&["s"])),
        ("table_name", strings(&["t"])),
        ("column_name", strings(&["c"])),
        ("column_index", strings(&["1"])),
    ]);
    let error = adapter().build_columns_from_get_columns(Arc::new(wrong)).expect_err("column");
    assert_bad_column(&error, "column_index");
}

#[test]
fn the_last_row_describes_a_column() {
    let rows = batch(vec![
        ("table_database", strings(&["DB", "db", "db", "db"])),
        ("table_schema", strings(&["dbo", "dbo", "dbo", "x"])),
        ("table_name", strings(&["t", "T", "t", "t"])),
        ("column_name", strings(&["id", "name", "id", "id"])),
        ("column_index", ints(&[1, 2, -3, 4])),
        ("column_type", strings(&["int", "nvarchar", "bigint", "int"])),
        ("column_comment", strings(&["", "who", "again", ""])),
    ]);
    let relations = adapter().build_columns_from_get_columns(Arc::new(rows)).expect("columns");
    let keys: Vec<&str> = relations.entries().iter().map(|(key, _)| key.as_str()).collect();
    assert_eq!(keys, vec!["db.dbo.t", "db.x.t"]);

    let columns = relations.get("db.dbo.t").expect("relation");
    let names: Vec<&str> = columns.entries().iter().map(|(name, _)| name.as_str()).collect();
    assert_eq!(names, vec!["id", "name"]);
    let id = columns.get("id").expect("id");
    assert_eq!(id.name, "id");
    assert_eq!(id.index, -3);
    assert_eq!(id.data_type, "bigint");
    assert_eq!(id.comment.as_deref(), Some("again"));
    let name = columns.get("name").expect("name");
    assert_eq!(name.index, 2);
    assert_eq!(name.comment.as_deref(), Some("who"));

    let other = relations.get("db.x.t").expect("relation");
    assert_eq!(other.entries().len(), 1);
    assert_eq!(other.get("id").expect("id").comment, None);
}

#[test]
fn rows_are_collected_under_the_keys_given_for_them() {
    let row = |table: &str, comment: &str| StatsRow {
        catalog: "c".to_string(),
        schema: "s".to_string(),
        table: table.to_string(),
        table_type: "TABLE".to_string(),
        comment: comment.to_string(),
        owner: "o".to_string(),
    };
    let keys = vec!["k".to_string(), "j".to_string(), "k".to_string()];
    let tables = collect_tables(&vec![row("a", "1"), row("b", "2"), row("d", "3")], &keys);
    let found: Vec<(&str, &str)> = tables
        .entries()
        .iter()
        .map(|(key, table)| (key.as_str(), table.metadata.name.as_str()))
        .collect();
    assert_eq!(found, vec![("j", "b"), ("k", "a")]);

    let column = |name: &str, index: i32| ColumnRow {
        catalog: "c".to_string(),
        schema: "s".to_string(),
        table: "t".to_string(),
        name: name.to_string(),
        index,
        data_type: "int".to_string(),
        comment: String::new(),
    };
    let columns = collect_columns(&vec![column("a", 1), column("b", 2), column("a", 3)], &keys);
    assert_eq!(columns.get("k").expect("k").get("a").expect("a").index, 3);
    assert_eq!(columns.get("j").expect("j").get("b").expect("b").index, 2);
    assert!(columns.get("c.s.t").is_none());
}

fn columns_batch() -> ResultBatch {
    batch(vec![
        ("column_name", strings(&["id", "name", "price", "at"])),
        ("data_type", strings(&["int", "nvarchar", "decimal", "datetime2"])),
        ("max_length", ints(&[4, 100, 9, 8])),
        ("numeric_precision", ints(&[10, 0, 18, 27])),
        ("numeric_scale", ints(&[0, 0, 4, 7])),
        ("is_nullable", strings(&["NO", "YES", "yes", "YES"])),
    ])
}

fn text_field(column: &ColumnField) -> Result<Field, AdapterError> {
    let name = format!("{}: {}", column.name, column.type_text);
    Ok(Field::new(name, DataType::Utf8, column.nullable))
}

#[test]
fn declared_types_are_read_with_their_parameters() {
    let columns = read_column_fields(&columns_batch()).expect("columns");
    let read: Vec<(&str, &str, bool)> =
        columns.iter().map(|c| (c.name.as_str(), c.type_text.as_str(), c.nullable)).collect();
    assert_eq!(
        read,
        vec![
            ("id", "int", false),
            ("name", "nvarchar(50)", true),
            ("price", "decimal(18,4)", false),
            ("at", "datetime2(7)", true),
        ]
    );
}

#[test]
fn a_schema_has_a_field_for_each_column() {
    let schema = build_schema_from_columns(&columns_batch(), text_field).expect("schema");
    let expected = Schema::new(vec![
        Field::new("id: int", DataType::Utf8, false),
        Field::new("name: nvarchar(50)", DataType::Utf8, true),
        Field::new("price: decimal(18,4)", DataType::Utf8, false),
        Field::new("at: datetime2(7)", DataType::Utf8, true),
    ]);
    assert_eq!(*schema, expected);
    assert!(schema.metadata().is_empty());
}

#[test]
fn the_first_field_that_cannot_be_made_ends_a_schema() {
    let error = build_schema_from_columns(&columns_batch(), |column: &ColumnField| {
        if column.name == "id" {
            text_field(column)
        } else {
            Err(AdapterError::new(AdapterErrorKind::UnexpectedResult, &column.name))
        }
    })
    .expect_err("field");
    assert_eq!(error.message, "name");
}

#[test]
fn a_schema_needs_all_columns_of_the_result_even_without_rows() {
    let error = build_schema_from_columns(&empty_batch(), text_field).expect_err("column");
    assert_bad_column(&error, "column_name");

    let names = ["column_name", "data_type"];
    let some = batch(names.iter().map(|name| (*name, strings(&[]))).collect());
    let error = build_schema_from_columns(&some, text_field).expect_err("column");
    assert_bad_column(&error, "max_length");
}

#[test]
fn the_columns_of_a_relation_are_asked_for_by_its_three_part_name() {
    let orders = relation(Some("my db"), Some("dbo"), Some("o'rders"));
    let schema = relation_schema(
        &orders,
        |sql: String| {
            assert_eq!(sql, build_columns_sql("\"my db\"", "dbo", "o'rders"));
            Ok(columns_batch())
        },
        text_field,
    )
    .expect("schema");
    assert_eq!(schema.fields().len(), 4);

    let error = relation_schema(&orders, |_: String| Err(driver_error()), text_field);
    assert_eq!(error.expect_err("driver").message, "connection lost");
}

#[test]
fn the_columns_of_an_incomplete_name_are_not_asked_for() {
    let message = |relation: Relation| build_columns_query(&relation).expect_err("name").message;
    let no_database = "SQL Server relations require a database to build a three-part name";
    let incomplete = "The relation's name is incomplete";
    assert_eq!(message(relation(Some(""), None, None)), no_database);
    assert_eq!(message(relation(None, Some("s"), Some("t"))), incomplete);
    assert_eq!(message(relation(Some("d"), None, Some("t"))), incomplete);
    assert_eq!(message(relation(Some("d"), Some("s"), None)), incomplete);
}

#[test]
fn relations_of_schemas_arrive_in_any_order() {
    let arrive = |names: [&str; 3]| {
        let mut acc = RelationsBySchema::new();
        for name in names {
            let relations = vec![relation(Some("d"), Some(name), Some("t"))];
            reduce_relations(&mut acc, db_schema("d", name), Ok(relations)).expect("reduce");
        }
        let found: Vec<(String, usize)> = acc
            .entries()
            .iter()
            .map(|(schema, relations)| (schema.resolved_schema.clone(), relations.len()))
            .collect();
        found
    };
    let in_order: Vec<(String, usize)> =
        ["a", "b", "c"].iter().map(|name| (name.to_string(), 1)).collect();
    assert_eq!(arrive(["a", "b", "c"]), in_order);
    assert_eq!(arrive(["c", "a", "b"]), in_order);
    assert_eq!(arrive(["b", "c", "a"]), in_order);
    assert_eq!(arrive(["a", "b", "a"]).len(), 2);
}

#[test]
fn schemas_are_ordered_by_the_first_text_that_differs() {
    let name = |texts: [&str; 4]| CatalogAndSchema {
        rendered_catalog: texts[0].to_string(),
        rendered_schema: texts[1].to_string(),
        resolved_catalog: texts[2].to_string(),
        resolved_schema: texts[3].to_string(),
    };
    let ordered = [
        ["a", "z", "z", "z"],
        ["b", "a", "z", "z"],
        ["b", "b", "a", "z"],
        ["b", "b", "b", "a"],
        ["b", "b", "b", "b"],
    ];
    for (i, first) in ordered.iter().enumerate() {
        for (j, second) in ordered.iter().enumerate() {
            assert_eq!(name(*first).before(&name(*second)), i < j);
            assert_eq!(name(*first).same(&name(*second)), i == j);
        }
    }

    let mut acc = RelationsBySchema::new();
    for i in [3, 0, 4, 1, 2] {
        reduce_relations(&mut acc, name(ordered[i]), Ok(Vec::new())).expect("reduce");
    }
    let walked: Vec<[&str; 4]> = acc
        .entries()
        .iter()
        .map(|(key, _)| {
            [
                key.rendered_catalog.as_str(),
                key.rendered_schema.as_str(),
                key.resolved_catalog.as_str(),
                key.resolved_schema.as_str(),
            ]
        })
        .collect();
    assert_eq!(walked, ordered.to_vec());
}

#[test]
fn a_schema_that_is_listed_again_takes_the_place_of_the_first_listing() {
    let mut acc = RelationsBySchema::new();
    let first = vec![relation(Some("d"), Some("s"), Some("old"))];
    reduce_relations(&mut acc, db_schema("d", "s"), Ok(first)).expect("reduce");
    reduce_relations(&mut acc, db_schema("d", "s"), Ok(Vec::new())).expect("reduce");
    assert_eq!(acc.entries().len(), 1);
    assert!(acc.entries()[0].1.is_empty());
}

#[test]
fn a_schema_that_cannot_be_listed_ends_the_run() {
    let mut acc = RelationsBySchema::new();
    reduce_relations(&mut acc, db_schema("d", "a"), Ok(Vec::new())).expect("reduce");
    let error = reduce_relations(&mut acc, db_schema("d", "b"), Err(driver_error()))
        .expect_err("driver");
    assert_eq!(error.message, "connection lost");
    assert_eq!(acc.entries().len(), 1);
    assert_eq!(acc.entries()[0].0.resolved_schema, "a");
}

#[test]
fn a_relation_whose_schema_cannot_be_read_ends_nothing() {
    let mut acc = RelationSchemas::new();
    reduce_schemas(&mut acc, "d.s.b".to_string(), Err(driver_error())).expect("reduce");
    reduce_schemas(&mut acc, "d.s.a".to_string(), Ok(Arc::new(Schema::empty()))).expect("reduce");
    assert_eq!(acc.entries().len(), 2);
    assert!(matches!(acc.get("d.s.a"), Some(Ok(_))));
    assert!(matches!(acc.get("d.s.b"), Some(Err(e)) if e.message == "connection lost"));
}

#[test]
fn contexts_say_what_a_query_is_for() {
    let ctx = schema_query_ctx(Some("model.a".to_string()), None);
    assert!(ctx.is_metadata);
    assert_eq!(ctx.desc, "Get table schema");
    assert_eq!(ctx.node_id.as_deref(), Some("model.a"));
    assert_eq!(ctx.phase, None);

    let ctx = schema_query_ctx(None, Some("render".to_string()));
    assert_eq!(ctx.node_id, None);
    assert_eq!(ctx.phase.as_deref(), Some("render"));

    let ctx = relations_query_ctx();
    assert!(!ctx.is_metadata);
    assert_eq!(ctx.desc, "list_relations_in_parallel");
    assert_eq!(ctx.node_id, None);
    assert_eq!(ctx.phase, None);
}

#[test]
fn the_metadata_adapter_keeps_its_engine() {
    let metadata = adapter();
    assert_eq!(metadata.adapter_type(), AdapterType::SqlServer);
    assert_eq!(*metadata.adapter.engine, engine());
}
