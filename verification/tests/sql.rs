//! Catalog queries, type texts and names.

use sqlserver_adapter::relation::{
    quoted_database, relation_type_from_table_type, AdapterErrorKind, Relation, RelationType,
    ResolvedQuoting,
};
use sqlserver_adapter::sql::{
    build_columns_sql, build_get_relation_sql, build_list_relations_sql, compose_type_text,
    format_str,
};

#[test]
fn test_list_relations_sql_is_three_part_and_quotes_the_schema() {
    let sql = build_list_relations_sql("\"my_db\"", "my_schema");

    assert!(sql.contains("from \"my_db\".sys.objects o"));
    assert!(sql.contains("join \"my_db\".sys.schemas s"));
    assert!(sql.contains("s.name = 'my_schema'"));
    assert!(sql.contains("o.type in ('U', 'V')"));
}

#[test]
fn test_get_relation_sql_matches_the_identifier_exactly() {
    let sql = build_get_relation_sql("\"my_db\"", "my_schema", "stg_orders");

    // `=`, not `like`: a pattern would also match `stgXorders`.
    assert!(sql.contains("o.name = 'stg_orders'"));
    assert!(!sql.to_lowercase().contains("like"));
}

#[test]
fn test_single_quotes_in_a_name_are_escaped() {
    let sql = build_get_relation_sql("\"my_db\"", "o'brien", "x");

    assert!(sql.contains("s.name = 'o''brien'"));
}

#[test]
fn test_columns_sql_casts_the_narrow_integer_columns() {
    let sql = build_columns_sql("\"my_db\"", "my_schema", "my_table");

    assert!(sql.contains("cast(c.max_length as int) as max_length"));
    assert!(sql.contains("cast(c.precision as int) as numeric_precision"));
    assert!(sql.contains("cast(c.scale as int) as numeric_scale"));
    assert!(sql.contains("order by c.column_id"));
}

#[test]
fn test_relation_type_from_table_type() {
    assert_eq!(
        relation_type_from_table_type("TABLE"),
        Some(RelationType::Table)
    );
    assert_eq!(
        relation_type_from_table_type("VIEW"),
        Some(RelationType::View)
    );
    assert_eq!(relation_type_from_table_type("SYNONYM"), None);
}

#[test]
fn test_compose_type_text_lengths() {
    assert_eq!(compose_type_text("varchar", 50, 0, 0), "varchar(50)");
    assert_eq!(compose_type_text("varchar", -1, 0, 0), "varchar(max)");
    assert_eq!(compose_type_text("binary", 8, 0, 0), "binary(8)");
    assert_eq!(compose_type_text("varbinary", -1, 0, 0), "varbinary(max)");
}

#[test]
fn test_compose_type_text_halves_the_national_lengths() {
    // The catalog's max_length is in bytes, and nvarchar stores two per character.
    assert_eq!(compose_type_text("nvarchar", 100, 0, 0), "nvarchar(50)");
    assert_eq!(compose_type_text("nchar", 20, 0, 0), "nchar(10)");
    assert_eq!(compose_type_text("nvarchar", -1, 0, 0), "nvarchar(max)");
}

#[test]
fn test_compose_type_text_precision_and_scale() {
    assert_eq!(compose_type_text("decimal", 9, 18, 4), "decimal(18,4)");
    assert_eq!(compose_type_text("numeric", 5, 9, 3), "numeric(9,3)");
}

#[test]
fn test_compose_type_text_scale_only_types() {
    assert_eq!(compose_type_text("datetime2", 8, 27, 7), "datetime2(7)");
    assert_eq!(compose_type_text("time", 4, 12, 3), "time(3)");
    assert_eq!(
        compose_type_text("datetimeoffset", 8, 29, 2),
        "datetimeoffset(2)"
    );
}

#[test]
fn test_compose_type_text_leaves_unparameterized_types_alone() {
    // `datetime` reports scale 3 but rejects `datetime(3)`.
    assert_eq!(compose_type_text("datetime", 8, 23, 3), "datetime");
    assert_eq!(compose_type_text("int", 4, 10, 0), "int");
    assert_eq!(compose_type_text("float", 8, 53, 0), "float");
    assert_eq!(compose_type_text("real", 4, 24, 0), "real");
    assert_eq!(compose_type_text("money", 8, 19, 4), "money");
    assert_eq!(
        compose_type_text("uniqueidentifier", 16, 0, 0),
        "uniqueidentifier"
    );
}

#[test]
fn odd_type_parameters_are_written_as_they_come() {
    assert_eq!(compose_type_text("nvarchar", 7, 0, 0), "nvarchar(3)");
    assert_eq!(compose_type_text("nchar", 0, 0, 0), "nchar(0)");
    assert_eq!(compose_type_text("char", i32::MAX, 0, 0), "char(2147483647)");
    assert_eq!(compose_type_text("nvarchar", i32::MIN, 0, 0), "nvarchar(max)");
    assert_eq!(compose_type_text("decimal", 0, -3, i32::MIN), "decimal(-3,-2147483648)");
    assert_eq!(compose_type_text("time", 0, 0, -1), "time(-1)");
    assert_eq!(compose_type_text("VARCHAR", 5, 0, 0), "VARCHAR");
    assert_eq!(compose_type_text("", 5, 5, 5), "");
}

#[test]
fn parameters_that_a_type_has_not_change_nothing() {
    assert_eq!(compose_type_text("varchar", 50, 1, 2), compose_type_text("varchar", 50, 8, 9));
    assert_eq!(compose_type_text("numeric", 1, 9, 3), compose_type_text("numeric", 2, 9, 3));
    assert_eq!(compose_type_text("time", 1, 2, 3), compose_type_text("time", 8, 9, 3));
    assert_eq!(compose_type_text("int", 1, 2, 3), compose_type_text("int", 7, 8, 9));
}

#[test]
fn the_whole_queries() {
    assert_eq!(
        build_list_relations_sql("D", "s"),
        "select s.name as table_schema, o.name as table_name, \
         case o.type when 'V' then 'VIEW' else 'TABLE' end as table_type \
         from D.sys.objects o with (nolock) \
         join D.sys.schemas s with (nolock) on o.schema_id = s.schema_id \
         where o.type in ('U', 'V') and s.name = 's' order by o.name"
    );
    assert_eq!(
        build_get_relation_sql("D", "s", "t"),
        "select case o.type when 'V' then 'VIEW' else 'TABLE' end as table_type \
         from D.sys.objects o with (nolock) \
         join D.sys.schemas s with (nolock) on o.schema_id = s.schema_id \
         where s.name = 's' and o.name = 't' and o.type in ('U', 'V')"
    );
    assert_eq!(
        build_columns_sql("D", "s", "t"),
        "select c.name collate database_default as column_name, \
         t.name collate database_default as data_type, \
         cast(c.max_length as int) as max_length, \
         cast(c.precision as int) as numeric_precision, \
         cast(c.scale as int) as numeric_scale, \
         case when c.is_nullable = 1 then 'YES' else 'NO' end as is_nullable \
         from D.sys.columns c with (nolock) \
         join D.sys.objects o with (nolock) on c.object_id = o.object_id \
         join D.sys.schemas s with (nolock) on o.schema_id = s.schema_id \
         join D.sys.types t with (nolock) on c.user_type_id = t.user_type_id \
         where s.name = 's' and o.name = 't' order by c.column_id"
    );
}

#[test]
fn literals_double_their_quotes() {
    assert_eq!(format_str(""), "''");
    assert_eq!(format_str("'"), "''''");
    assert_eq!(format_str("a''b"), "'a''''b'");
    assert_eq!(format_str("\u{fc}\\\"%_"), "'\u{fc}\\\"%_'");
}

#[test]
fn names_with_quotes_make_queries_of_their_own() {
    let first = build_get_relation_sql("D", "a", "b' and o.name = 'c");
    let second = build_get_relation_sql("D", "a' and o.name = 'b", "c");
    assert_ne!(first, second);
    assert_ne!(build_list_relations_sql("D", "a"), build_list_relations_sql("D", "a'"));
    assert_ne!(build_columns_sql("D", "a'", "'b"), build_columns_sql("D", "a''", "b"));
}

#[test]
fn table_types_are_matched_exactly() {
    assert_eq!(relation_type_from_table_type("table"), None);
    assert_eq!(relation_type_from_table_type("VIEW "), None);
    assert_eq!(relation_type_from_table_type(""), None);
}

fn relation(database: Option<&str>) -> Relation {
    let quoting = ResolvedQuoting { database: true, schema: true, identifier: true };
    Relation::new_sqlserver(database.map(str::to_string), None, None, None, quoting)
}

#[test]
fn the_database_of_a_relation_is_quoted() {
    assert_eq!(quoted_database(&relation(Some("my db"))).expect("database"), "\"my db\"");
}

#[test]
fn a_relation_needs_a_database() {
    let error = quoted_database(&relation(Some(""))).expect_err("empty");
    assert_eq!(error.kind, AdapterErrorKind::UnexpectedResult);
    assert_eq!(
        error.message,
        "SQL Server relations require a database to build a three-part name"
    );

    let error = quoted_database(&relation(None)).expect_err("absent");
    assert_eq!(error.kind, AdapterErrorKind::UnexpectedResult);
    assert_eq!(error.message, "The relation's name is incomplete");
}
