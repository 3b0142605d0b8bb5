//! The catalog: tables and columns by the qualified names of their relations.

use vstd::prelude::*;

use crate::batch::{
    bad_column, batch_ints, batch_rows, batch_strings, int_values, num_rows, number_column,
    string_values, strings, text_column, ResultBatch,
};
use crate::relation::{option_string, AdapterError, AdapterFault};
use crate::sorted_map::SortedMap;
use crate::text::{lowercase, str_lowercase};

verus! {

#[verifier::external_type_specification]
#[verifier::external_body]
pub struct ExJsonValue(serde_json::Value);

/// The JSON value of a boolean.
pub uninterp spec fn json_bool(b: bool) -> serde_json::Value;

/// The variant [`serde_json::Value::Bool`].
#[verifier::external_body]
fn json_bool_value(b: bool) -> (value: serde_json::Value)
    ensures
        value == json_bool(b),
{
    serde_json::Value::Bool(b)
}

/// What the catalog says of a table as such.
#[derive(Debug)]
pub struct TableMetadata {
    pub materialization_type: String,
    pub schema: String,
    pub name: String,
    pub database: Option<String>,
    pub comment: Option<String>,
    pub owner: Option<String>,
}

/// A column of a table.
#[derive(Debug)]
pub struct ColumnMetadata {
    pub name: String,
    pub index: i64,
    pub data_type: String,
    pub comment: Option<String>,
}

/// A statistic of a table.
#[derive(Debug)]
pub struct CatalogNodeStats {
    pub id: String,
    pub label: String,
    pub value: serde_json::Value,
    pub description: Option<String>,
    pub included: bool,
}

/// A table of the catalog.
#[derive(Debug)]
pub struct CatalogTable {
    pub metadata: TableMetadata,
    pub columns: SortedMap<ColumnMetadata>,
    pub stats: SortedMap<CatalogNodeStats>,
    pub unique_id: Option<String>,
}

/// The content of a [`TableMetadata`].
pub struct TableMetadataView {
    pub materialization_type: Seq<char>,
    pub schema: Seq<char>,
    pub name: Seq<char>,
    pub database: Option<Seq<char>>,
    pub comment: Option<Seq<char>>,
    pub owner: Option<Seq<char>>,
}

/// The content of a [`ColumnMetadata`].
pub struct ColumnMetadataView {
    pub name: Seq<char>,
    pub index: int,
    pub data_type: Seq<char>,
    pub comment: Option<Seq<char>>,
}

/// The content of a [`CatalogNodeStats`].
pub struct CatalogNodeStatsView {
    pub id: Seq<char>,
    pub label: Seq<char>,
    pub value: serde_json::Value,
    pub description: Option<Seq<char>>,
    pub included: bool,
}

/// The columns of one relation, by name.
pub type Columns = Map<Seq<char>, ColumnMetadataView>;

/// The content of a [`CatalogTable`].
#[verifier::ext_equal]
pub struct CatalogTableView {
    pub metadata: TableMetadataView,
    pub columns: Columns,
    pub stats: Map<Seq<char>, CatalogNodeStatsView>,
    pub unique_id: Option<Seq<char>>,
}

impl View for TableMetadata {
    type V = TableMetadataView;

    open spec fn view(&self) -> TableMetadataView {
        TableMetadataView {
            materialization_type: self.materialization_type@,
            schema: self.schema@,
            name: self.name@,
            database: option_string(self.database),
            comment: option_string(self.comment),
            owner: option_string(self.owner),
        }
    }
}

impl View for ColumnMetadata {
    type V = ColumnMetadataView;

    open spec fn view(&self) -> ColumnMetadataView {
        ColumnMetadataView {
            name: self.name@,
            index: self.index as int,
            data_type: self.data_type@,
            comment: option_string(self.comment),
        }
    }
}

impl View for CatalogNodeStats {
    type V = CatalogNodeStatsView;

    open spec fn view(&self) -> CatalogNodeStatsView {
        CatalogNodeStatsView {
            id: self.id@,
            label: self.label@,
            value: self.value,
            description: option_string(self.description),
            included: self.included,
        }
    }
}

/// The columns in a map of columns.
pub open spec fn columns_view(columns: Map<Seq<char>, ColumnMetadata>) -> Columns {
    columns.map_values(|column: ColumnMetadata| column@)
}

impl View for CatalogTable {
    type V = CatalogTableView;

    open spec fn view(&self) -> CatalogTableView {
        CatalogTableView {
            metadata: self.metadata@,
            columns: columns_view(self.columns@),
            stats: self.stats@.map_values(|stats: CatalogNodeStats| stats@),
            unique_id: option_string(self.unique_id),
        }
    }
}

/// The tables in a map of tables.
pub open spec fn tables_view(tables: Map<Seq<char>, CatalogTable>) -> Map<
    Seq<char>,
    CatalogTableView,
> {
    tables.map_values(|table: CatalogTable| table@)
}

/// The columns of each relation in a map of columns.
pub open spec fn relations_columns_view(
    relations: Map<Seq<char>, SortedMap<ColumnMetadata>>,
) -> Map<Seq<char>, Columns> {
    relations.map_values(|columns: SortedMap<ColumnMetadata>| columns_view(columns@))
}

/// A row of the query for tables.
#[derive(Debug)]
pub struct StatsRow {
    pub catalog: String,
    pub schema: String,
    pub table: String,
    pub table_type: String,
    pub comment: String,
    pub owner: String,
}

/// The content of a [`StatsRow`].
pub struct StatsRowView {
    pub catalog: Seq<char>,
    pub schema: Seq<char>,
    pub table: Seq<char>,
    pub table_type: Seq<char>,
    pub comment: Seq<char>,
    pub owner: Seq<char>,
}

impl View for StatsRow {
    type V = StatsRowView;

    open spec fn view(&self) -> StatsRowView {
        StatsRowView {
            catalog: self.catalog@,
            schema: self.schema@,
            table: self.table@,
            table_type: self.table_type@,
            comment: self.comment@,
            owner: self.owner@,
        }
    }
}

/// A row of the query for columns.
#[derive(Debug)]
pub struct ColumnRow {
    pub catalog: String,
    pub schema: String,
    pub table: String,
    pub name: String,
    pub index: i32,
    pub data_type: String,
    pub comment: String,
}

/// The content of a [`ColumnRow`].
pub struct ColumnRowView {
    pub catalog: Seq<char>,
    pub schema: Seq<char>,
    pub table: Seq<char>,
    pub name: Seq<char>,
    pub index: int,
    pub data_type: Seq<char>,
    pub comment: Seq<char>,
}

impl View for ColumnRow {
    type V = ColumnRowView;

    open spec fn view(&self) -> ColumnRowView {
        ColumnRowView {
            catalog: self.catalog@,
            schema: self.schema@,
            table: self.table@,
            name: self.name@,
            index: self.index as int,
            data_type: self.data_type@,
            comment: self.comment@,
        }
    }
}

pub open spec fn stats_rows_view(rows: Seq<StatsRow>) -> Seq<StatsRowView> {
    Seq::new(rows.len(), |i: int| rows[i]@)
}

pub open spec fn column_rows_view(rows: Seq<ColumnRow>) -> Seq<ColumnRowView> {
    Seq::new(rows.len(), |i: int| rows[i]@)
}

/// The rows of a result of the query for tables, or the first column that it lacks.
pub open spec fn stats_rows(batch: ResultBatch) -> Result<Seq<StatsRowView>, AdapterFault> {
    match text_column(batch, "table_database"@) {
        Err(e) => Err(e),
        Ok(catalogs) => match text_column(batch, "table_schema"@) {
            Err(e) => Err(e),
            Ok(schemas) => match text_column(batch, "table_name"@) {
                Err(e) => Err(e),
                Ok(tables) => match text_column(batch, "table_type"@) {
                    Err(e) => Err(e),
                    Ok(types) => match text_column(batch, "table_comment"@) {
                        Err(e) => Err(e),
                        Ok(comments) => match text_column(batch, "table_owner"@) {
                            Err(e) => Err(e),
                            Ok(owners) => Ok(
                                Seq::new(
                                    batch_rows(batch),
                                    |i: int|
                                        StatsRowView {
                                            catalog: catalogs[i],
                                            schema: schemas[i],
                                            table: tables[i],
                                            table_type: types[i],
                                            comment: comments[i],
                                            owner: owners[i],
                                        },
                                ),
                            ),
                        },
                    },
                },
            },
        },
    }
}

/// The rows of a result of the query for columns, or the first column that it lacks.
pub open spec fn column_rows(batch: ResultBatch) -> Result<Seq<ColumnRowView>, AdapterFault> {
    match text_column(batch, "table_database"@) {
        Err(e) => Err(e),
        Ok(catalogs) => match text_column(batch, "table_schema"@) {
            Err(e) => Err(e),
            Ok(schemas) => match text_column(batch, "table_name"@) {
                Err(e) => Err(e),
                Ok(tables) => match text_column(batch, "column_name"@) {
                    Err(e) => Err(e),
                    Ok(names) => match number_column(batch, "column_index"@) {
                        Err(e) => Err(e),
                        Ok(indices) => match text_column(batch, "column_type"@) {
                            Err(e) => Err(e),
                            Ok(types) => match text_column(batch, "column_comment"@) {
                                Err(e) => Err(e),
                                Ok(comments) => Ok(
                                    Seq::new(
                                        batch_rows(batch),
                                        |i: int|
                                            ColumnRowView {
                                                catalog: catalogs[i],
                                                schema: schemas[i],
                                                table: tables[i],
                                                name: names[i],
                                                index: indices[i] as int,
                                                data_type: types[i],
                                                comment: comments[i],
                                            },
                                    ),
                                ),
                            },
                        },
                    },
                },
            },
        },
    }
}

/// The name under which a relation stands in the catalog.
pub open spec fn qualified_name(catalog: Seq<char>, schema: Seq<char>, table: Seq<char>) -> Seq<
    char,
> {
    lowercase(catalog + "."@ + schema + "."@ + table)
}

/// The qualified name of each row's relation.
pub open spec fn stats_keys(rows: Seq<StatsRowView>) -> Seq<Seq<char>> {
    Seq::new(
        rows.len(),
        |i: int| qualified_name(rows[i].catalog, rows[i].schema, rows[i].table),
    )
}

/// The qualified name of each row's relation.
pub open spec fn column_keys(rows: Seq<ColumnRowView>) -> Seq<Seq<char>> {
    Seq::new(
        rows.len(),
        |i: int| qualified_name(rows[i].catalog, rows[i].schema, rows[i].table),
    )
}

/// A comment, where there is one.
pub open spec fn comment_of(text: Seq<char>) -> Option<Seq<char>> {
    if text.len() == 0 {
        None
    } else {
        Some(text)
    }
}

/// The statistic that says that there are none.
pub open spec fn no_stats() -> CatalogNodeStatsView {
    CatalogNodeStatsView {
        id: "has_stats"@,
        label: "Has Stats?"@,
        value: json_bool(false),
        description: Some("Indicates whether there are statistics for this table"@),
        included: false,
    }
}

/// The table of a row, without columns yet.
pub open spec fn table_of(row: StatsRowView) -> CatalogTableView {
    CatalogTableView {
        metadata: TableMetadataView {
            materialization_type: row.table_type,
            schema: row.schema,
            name: row.table,
            database: Some(row.catalog),
            comment: comment_of(row.comment),
            owner: Some(row.owner),
        },
        columns: Map::empty(),
        stats: Map::empty().insert("has_stats"@, no_stats()),
        unique_id: None,
    }
}

/// The column of a row.
pub open spec fn column_of(row: ColumnRowView) -> ColumnMetadataView {
    ColumnMetadataView {
        name: row.name,
        index: row.index,
        data_type: row.data_type,
        comment: comment_of(row.comment),
    }
}

/// The tables of the rows, each under its key; the first row of a key counts.
pub open spec fn tables_by_key(rows: Seq<StatsRowView>, keys: Seq<Seq<char>>) -> Map<
    Seq<char>,
    CatalogTableView,
>
    decreases rows.len(),
{
    if rows.len() == 0 {
        Map::empty()
    } else {
        let tables = tables_by_key(rows.drop_last(), keys.drop_last());
        if tables.contains_key(keys.last()) {
            tables
        } else {
            tables.insert(keys.last(), table_of(rows.last()))
        }
    }
}

/// The columns of the rows, by the keys of their relations and their own names; the last row of a
/// name in a relation counts.
pub open spec fn columns_by_key(rows: Seq<ColumnRowView>, keys: Seq<Seq<char>>) -> Map<
    Seq<char>,
    Columns,
>
    decreases rows.len(),
{
    if rows.len() == 0 {
        Map::empty()
    } else {
        let relations = columns_by_key(rows.drop_last(), keys.drop_last());
        let columns = if relations.contains_key(keys.last()) {
            relations[keys.last()]
        } else {
            Map::empty()
        };
        relations.insert(keys.last(), columns.insert(rows.last().name, column_of(rows.last())))
    }
}

/// The catalog of a result of the query for tables. A result without rows needs no columns.
pub open spec fn table_catalog(batch: ResultBatch) -> Result<
    Map<Seq<char>, CatalogTableView>,
    AdapterFault,
> {
    if batch_rows(batch) == 0 {
        Ok(Map::empty())
    } else {
        match stats_rows(batch) {
            Err(e) => Err(e),
            Ok(rows) => Ok(tables_by_key(rows, stats_keys(rows))),
        }
    }
}

/// The columns of a result of the query for columns. A result without rows needs no columns.
pub open spec fn column_catalog(batch: ResultBatch) -> Result<
    Map<Seq<char>, Columns>,
    AdapterFault,
> {
    if batch_rows(batch) == 0 {
        Ok(Map::empty())
    } else {
        match column_rows(batch) {
            Err(e) => Err(e),
            Ok(rows) => Ok(columns_by_key(rows, column_keys(rows))),
        }
    }
}

fn read_comment(text: &String) -> (comment: Option<String>)
    ensures
        option_string(comment) == comment_of(text@),
{
    if text.as_str().is_empty() {
        None
    } else {
        Some(text.clone())
    }
}

fn read_qualified_name(catalog: &str, schema: &str, table: &str) -> (name: String)
    ensures
        name@ == qualified_name(catalog@, schema@, table@),
{
    let mut name = catalog.to_owned();
    name.append(".");
    name.append(schema);
    name.append(".");
    name.append(table);
    str_lowercase(name.as_str())
}

/// The rows of a result of the query for tables.
pub fn read_stats_rows(batch: &ResultBatch) -> (r: Result<Vec<StatsRow>, AdapterError>)
    ensures
        match r {
            Ok(rows) => stats_rows(*batch) == Ok::<Seq<StatsRowView>, AdapterFault>(
                stats_rows_view(rows@),
            ),
            Err(e) => stats_rows(*batch) == Err::<Seq<StatsRowView>, AdapterFault>(e@),
        },
{
    let catalogs = match string_values(batch, "table_database") {
        Ok(list) => list,
        Err(e) => return Err(e),
    };
    let schemas = match string_values(batch, "table_schema") {
        Ok(list) => list,
        Err(e) => return Err(e),
    };
    let tables = match string_values(batch, "table_name") {
        Ok(list) => list,
        Err(e) => return Err(e),
    };
    let types = match string_values(batch, "table_type") {
        Ok(list) => list,
        Err(e) => return Err(e),
    };
    let comments = match string_values(batch, "table_comment") {
        Ok(list) => list,
        Err(e) => return Err(e),
    };
    let owners = match string_values(batch, "table_owner") {
        Ok(list) => list,
        Err(e) => return Err(e),
    };
    let ghost expected = stats_rows(*batch)->Ok_0;
    let mut rows: Vec<StatsRow> = Vec::new();
    let mut i: usize = 0;
    while i < catalogs.len()
        invariant
            i <= catalogs.len(),
            rows@.len() == i,
            schemas@.len() == catalogs@.len(),
            tables@.len() == catalogs@.len(),
            types@.len() == catalogs@.len(),
            comments@.len() == catalogs@.len(),
            owners@.len() == catalogs@.len(),
            expected.len() == catalogs@.len(),
            forall|k: int|
                0 <= k < expected.len() ==> #[trigger] expected[k] == (StatsRowView {
                    catalog: catalogs@[k]@,
                    schema: schemas@[k]@,
                    table: tables@[k]@,
                    table_type: types@[k]@,
                    comment: comments@[k]@,
                    owner: owners@[k]@,
                }),
            forall|k: int| 0 <= k < i ==> (#[trigger] rows@[k])@ == expected[k],
        decreases catalogs.len() - i,
    {
        let row = StatsRow {
            catalog: catalogs[i].clone(),
            schema: schemas[i].clone(),
            table: tables[i].clone(),
            table_type: types[i].clone(),
            comment: comments[i].clone(),
            owner: owners[i].clone(),
        };
        assert(row@ == expected[i as int]);
        rows.push(row);
        i += 1;
    }
    assert(stats_rows_view(rows@) =~= expected);
    Ok(rows)
}

/// The rows of a result of the query for columns.
pub fn read_column_rows(batch: &ResultBatch) -> (r: Result<Vec<ColumnRow>, AdapterError>)
    ensures
        match r {
            Ok(rows) => column_rows(*batch) == Ok::<Seq<ColumnRowView>, AdapterFault>(
                column_rows_view(rows@),
            ),
            Err(e) => column_rows(*batch) == Err::<Seq<ColumnRowView>, AdapterFault>(e@),
        },
{
    let catalogs = match string_values(batch, "table_database") {
        Ok(list) => list,
        Err(e) => return Err(e),
    };
    let schemas = match string_values(batch, "table_schema") {
        Ok(list) => list,
        Err(e) => return Err(e),
    };
    let tables = match string_values(batch, "table_name") {
        Ok(list) => list,
        Err(e) => return Err(e),
    };
    let names = match string_values(batch, "column_name") {
        Ok(list) => list,
        Err(e) => return Err(e),
    };
    let indices = match int_values(batch, "column_index") {
        Ok(list) => list,
        Err(e) => return Err(e),
    };
    let types = match string_values(batch, "column_type") {
        Ok(list) => list,
        Err(e) => return Err(e),
    };
    let comments = match string_values(batch, "column_comment") {
        Ok(list) => list,
        Err(e) => return Err(e),
    };
    let ghost expected = column_rows(*batch)->Ok_0;
    let mut rows: Vec<ColumnRow> = Vec::new();
    let mut i: usize = 0;
    while i < catalogs.len()
        invariant
            i <= catalogs.len(),
            rows@.len() == i,
            schemas@.len() == catalogs@.len(),
            tables@.len() == catalogs@.len(),
            names@.len() == catalogs@.len(),
            indices@.len() == catalogs@.len(),
            types@.len() == catalogs@.len(),
            comments@.len() == catalogs@.len(),
            expected.len() == catalogs@.len(),
            forall|k: int|
                0 <= k < expected.len() ==> #[trigger] expected[k] == (ColumnRowView {
                    catalog: catalogs@[k]@,
                    schema: schemas@[k]@,
                    table: tables@[k]@,
                    name: names@[k]@,
                    index: indices@[k] as int,
                    data_type: types@[k]@,
                    comment: comments@[k]@,
                }),
            forall|k: int| 0 <= k < i ==> (#[trigger] rows@[k])@ == expected[k],
        decreases catalogs.len() - i,
    {
        let row = ColumnRow {
            catalog: catalogs[i].clone(),
            schema: schemas[i].clone(),
            table: tables[i].clone(),
            name: names[i].clone(),
            index: indices[i],
            data_type: types[i].clone(),
            comment: comments[i].clone(),
        };
        assert(row@ == expected[i as int]);
        rows.push(row);
        i += 1;
    }
    assert(column_rows_view(rows@) =~= expected);
    Ok(rows)
}

/// The table of a row.
fn make_table(row: &StatsRow) -> (table: CatalogTable)
    ensures
        table@ == table_of(row@),
{
    let mut stats: SortedMap<CatalogNodeStats> = SortedMap::new();
    let none = CatalogNodeStats {
        id: "has_stats".to_owned(),
        label: "Has Stats?".to_owned(),
        value: json_bool_value(false),
        description: Some("Indicates whether there are statistics for this table".to_owned()),
        included: false,
    };
    assert(none@ == no_stats());
    stats.insert("has_stats".to_owned(), none);
    let table = CatalogTable {
        metadata: TableMetadata {
            materialization_type: row.table_type.clone(),
            schema: row.schema.clone(),
            name: row.table.clone(),
            database: Some(row.catalog.clone()),
            comment: read_comment(&row.comment),
            owner: Some(row.owner.clone()),
        },
        columns: SortedMap::new(),
        stats,
        unique_id: None,
    };
    assert(table@.columns =~= Map::empty());
    assert(table@.stats =~= table_of(row@).stats);
    table
}

/// The tables of `rows`, each under the key at its place in `keys`; the first row of a key counts.
pub fn collect_tables(rows: &Vec<StatsRow>, keys: &Vec<String>) -> (tables: SortedMap<CatalogTable>)
    requires
        rows@.len() == keys@.len(),
    ensures
        tables_view(tables@) == tables_by_key(stats_rows_view(rows@), strings(keys@)),
{
    let ghost all_rows = stats_rows_view(rows@);
    let ghost all_keys = strings(keys@);
    let mut tables: SortedMap<CatalogTable> = SortedMap::new();
    let mut i: usize = 0;
    assert(tables_view(tables@) =~= tables_by_key(all_rows.take(0), all_keys.take(0)));
    while i < rows.len()
        invariant
            i <= rows.len(),
            rows@.len() == keys@.len(),
            all_rows == stats_rows_view(rows@),
            all_keys == strings(keys@),
            tables_view(tables@) == tables_by_key(
                all_rows.take(i as int),
                all_keys.take(i as int),
            ),
        decreases rows.len() - i,
    {
        let ghost before = tables@;
        assert(all_rows.take(i + 1).drop_last() =~= all_rows.take(i as int));
        assert(all_keys.take(i + 1).drop_last() =~= all_keys.take(i as int));
        assert(tables_view(before).contains_key(keys@[i as int]@) == before.contains_key(
            keys@[i as int]@,
        ));
        if tables.get(keys[i].as_str()).is_none() {
            tables.insert(keys[i].clone(), make_table(&rows[i]));
            assert(tables_view(tables@) =~= tables_view(before).insert(
                keys@[i as int]@,
                table_of(rows@[i as int]@),
            ));
        }
        i += 1;
    }
    assert(all_rows.take(i as int) =~= all_rows);
    assert(all_keys.take(i as int) =~= all_keys);
    tables
}

/// The columns of `rows`, by the keys at their places in `keys` and by their own names; the last
/// row of a name under a key counts.
pub fn collect_columns(rows: &Vec<ColumnRow>, keys: &Vec<String>) -> (relations: SortedMap<
    SortedMap<ColumnMetadata>,
>)
    requires
        rows@.len() == keys@.len(),
    ensures
        relations_columns_view(relations@) == columns_by_key(
            column_rows_view(rows@),
            strings(keys@),
        ),
{
    let ghost all_rows = column_rows_view(rows@);
    let ghost all_keys = strings(keys@);
    let mut relations: SortedMap<SortedMap<ColumnMetadata>> = SortedMap::new();
    let mut i: usize = 0;
    assert(relations_columns_view(relations@) =~= columns_by_key(
        all_rows.take(0),
        all_keys.take(0),
    ));
    while i < rows.len()
        invariant
            i <= rows.len(),
            rows@.len() == keys@.len(),
            all_rows == column_rows_view(rows@),
            all_keys == strings(keys@),
            relations_columns_view(relations@) == columns_by_key(
                all_rows.take(i as int),
                all_keys.take(i as int),
            ),
        decreases rows.len() - i,
    {
        let ghost before = relations@;
        let ghost key = keys@[i as int]@;
        assert(all_rows.take(i + 1).drop_last() =~= all_rows.take(i as int));
        assert(all_keys.take(i + 1).drop_last() =~= all_keys.take(i as int));
        assert(relations_columns_view(before).contains_key(key) == before.contains_key(key));
        let mut columns: SortedMap<ColumnMetadata> = match relations.remove(keys[i].as_str()) {
            Some(columns) => columns,
            None => SortedMap::new(),
        };
        let ghost old_columns = columns@;
        assert(columns_view(old_columns) =~= if before.contains_key(key) {
            relations_columns_view(before)[key]
        } else {
            Map::empty()
        });
        let column = ColumnMetadata {
            name: rows[i].name.clone(),
            index: rows[i].index as i64,
            data_type: rows[i].data_type.clone(),
            comment: read_comment(&rows[i].comment),
        };
        assert(column@ == column_of(rows@[i as int]@));
        columns.insert(rows[i].name.clone(), column);
        assert(columns_view(columns@) =~= columns_view(old_columns).insert(
            rows@[i as int].name@,
            column_of(rows@[i as int]@),
        ));
        let ghost new_columns = columns_view(columns@);
        relations.insert(keys[i].clone(), columns);
        assert(relations_columns_view(relations@) =~= relations_columns_view(before).insert(
            key,
            new_columns,
        ));
        i += 1;
    }
    assert(all_rows.take(i as int) =~= all_rows);
    assert(all_keys.take(i as int) =~= all_keys);
    relations
}

/// The catalog of a result of the query for tables.
pub fn read_table_catalog(batch: &ResultBatch) -> (r: Result<SortedMap<CatalogTable>, AdapterError>)
    ensures
        match r {
            Ok(tables) => table_catalog(*batch) == Ok::<
                Map<Seq<char>, CatalogTableView>,
                AdapterFault,
            >(tables_view(tables@)),
            Err(e) => table_catalog(*batch) == Err::<
                Map<Seq<char>, CatalogTableView>,
                AdapterFault,
            >(e@),
        },
{
    if num_rows(batch) == 0 {
        let tables: SortedMap<CatalogTable> = SortedMap::new();
        assert(tables_view(tables@) =~= Map::empty());
        return Ok(tables);
    }
    let rows = match read_stats_rows(batch) {
        Ok(rows) => rows,
        Err(e) => return Err(e),
    };
    let mut keys: Vec<String> = Vec::new();
    let mut i: usize = 0;
    while i < rows.len()
        invariant
            i <= rows.len(),
            keys@.len() == i,
            forall|k: int|
                0 <= k < i ==> (#[trigger] keys@[k])@ == qualified_name(
                    rows@[k].catalog@,
                    rows@[k].schema@,
                    rows@[k].table@,
                ),
        decreases rows.len() - i,
    {
        keys.push(
            read_qualified_name(
                rows[i].catalog.as_str(),
                rows[i].schema.as_str(),
                rows[i].table.as_str(),
            ),
        );
        i += 1;
    }
    assert(strings(keys@) =~= stats_keys(stats_rows_view(rows@)));
    Ok(collect_tables(&rows, &keys))
}

/// The columns of a result of the query for columns.
pub fn read_column_catalog(batch: &ResultBatch) -> (r: Result<
    SortedMap<SortedMap<ColumnMetadata>>,
    AdapterError,
>)
    ensures
        match r {
            Ok(relations) => column_catalog(*batch) == Ok::<
                Map<Seq<char>, Columns>,
                AdapterFault,
            >(relations_columns_view(relations@)),
            Err(e) => column_catalog(*batch) == Err::<Map<Seq<char>, Columns>, AdapterFault>(e@),
        },
{
    if num_rows(batch) == 0 {
        let relations: SortedMap<SortedMap<ColumnMetadata>> = SortedMap::new();
        assert(relations_columns_view(relations@) =~= Map::empty());
        return Ok(relations);
    }
    let rows = match read_column_rows(batch) {
        Ok(rows) => rows,
        Err(e) => return Err(e),
    };
    let mut keys: Vec<String> = Vec::new();
    let mut i: usize = 0;
    while i < rows.len()
        invariant
            i <= rows.len(),
            keys@.len() == i,
            forall|k: int|
                0 <= k < i ==> (#[trigger] keys@[k])@ == qualified_name(
                    rows@[k].catalog@,
                    rows@[k].schema@,
                    rows@[k].table@,
                ),
        decreases rows.len() - i,
    {
        keys.push(
            read_qualified_name(
                rows[i].catalog.as_str(),
                rows[i].schema.as_str(),
                rows[i].table.as_str(),
            ),
        );
        i += 1;
    }
    assert(strings(keys@) =~= column_keys(column_rows_view(rows@)));
    Ok(collect_columns(&rows, &keys))
}

/// The first place of a key.
pub open spec fn is_first(keys: Seq<Seq<char>>, key: Seq<char>, i: int) -> bool {
    0 <= i < keys.len() && keys[i] == key && forall|j: int| 0 <= j < i ==> #[trigger] keys[j] != key
}

/// Law: every row's relation is in the catalog, nothing else is, and of several rows of one
/// relation the first one describes it.
pub proof fn law_first_row_describes_the_table(
    rows: Seq<StatsRowView>,
    keys: Seq<Seq<char>>,
    key: Seq<char>,
)
    requires
        rows.len() == keys.len(),
    ensures
        tables_by_key(rows, keys).contains_key(key) <==> keys.contains(key),
        forall|i: int| #[trigger]
            is_first(keys, key, i) ==> tables_by_key(rows, keys)[key] == table_of(rows[i]),
    decreases rows.len(),
{
    if rows.len() > 0 {
        let fewer = keys.drop_last();
        law_first_row_describes_the_table(rows.drop_last(), fewer, key);
        if key != keys.last() {
            law_first_row_describes_the_table(rows.drop_last(), fewer, keys.last());
        }
        if keys.contains(key) && key != keys.last() {
            let i = choose|i: int| 0 <= i < keys.len() && keys[i] == key;
            assert(fewer[i] == key);
        }
        if fewer.contains(key) {
            let i = choose|i: int| 0 <= i < fewer.len() && fewer[i] == key;
            assert(keys[i] == key);
        }
        assert(keys[keys.len() - 1] == keys.last());
        assert forall|i: int| #[trigger] is_first(keys, key, i) implies tables_by_key(rows, keys)[key]
            == table_of(rows[i]) by {
            if i < fewer.len() {
                assert(fewer[i] == key);
                assert forall|j: int| 0 <= j < i implies #[trigger] fewer[j] != key by {
                    assert(keys[j] != key);
                }
                assert(is_first(fewer, key, i));
            } else if fewer.contains(key) {
                let j = choose|j: int| 0 <= j < fewer.len() && fewer[j] == key;
                assert(keys[j] == key);
            }
        }
    }
}

/// The last place of a column of a relation.
pub open spec fn is_last(
    rows: Seq<ColumnRowView>,
    keys: Seq<Seq<char>>,
    key: Seq<char>,
    name: Seq<char>,
    i: int,
) -> bool {
    &&& 0 <= i < rows.len()
    &&& keys[i] == key && rows[i].name == name
    &&& forall|j: int| i < j < rows.len() ==> !(#[trigger] keys[j] == key && rows[j].name == name)
}

/// Law: every row's column is listed under the row's relation, and of several rows of one column
/// the last one describes it.
pub proof fn law_last_row_describes_the_column(
    rows: Seq<ColumnRowView>,
    keys: Seq<Seq<char>>,
    key: Seq<char>,
    name: Seq<char>,
    i: int,
)
    requires
        rows.len() == keys.len(),
        is_last(rows, keys, key, name, i),
    ensures
        columns_by_key(rows, keys).contains_key(key),
        columns_by_key(rows, keys)[key].contains_key(name),
        columns_by_key(rows, keys)[key][name] == column_of(rows[i]),
    decreases rows.len(),
{
    let fewer_rows = rows.drop_last();
    let fewer_keys = keys.drop_last();
    if i < rows.len() - 1 {
        assert(!(keys[rows.len() - 1] == key && rows[rows.len() - 1].name == name));
        assert forall|j: int| i < j < fewer_rows.len() implies !(#[trigger] fewer_keys[j] == key
            && fewer_rows[j].name == name) by {
            assert(!(keys[j] == key && rows[j].name == name));
        }
        law_last_row_describes_the_column(fewer_rows, fewer_keys, key, name, i);
    }
}

/// Law: nothing is listed that no row is about.
pub proof fn law_every_column_has_a_row(
    rows: Seq<ColumnRowView>,
    keys: Seq<Seq<char>>,
    key: Seq<char>,
    name: Seq<char>,
)
    requires
        rows.len() == keys.len(),
    ensures
        columns_by_key(rows, keys).contains_key(key) ==> keys.contains(key),
        columns_by_key(rows, keys).contains_key(key) && columns_by_key(rows, keys)[key].contains_key(
            name,
        ) ==> exists|i: int| is_last(rows, keys, key, name, i),
    decreases rows.len(),
{
    if rows.len() > 0 {
        let n = rows.len() - 1;
        let fewer_rows = rows.drop_last();
        let fewer_keys = keys.drop_last();
        law_every_column_has_a_row(fewer_rows, fewer_keys, key, name);
        if fewer_keys.contains(key) {
            let i = choose|i: int| 0 <= i < fewer_keys.len() && fewer_keys[i] == key;
            assert(keys[i] == key);
        }
        assert(keys[n] == keys.last());
        if keys[n] == key && rows[n].name == name {
            assert(is_last(rows, keys, key, name, n));
        } else if exists|i: int| is_last(fewer_rows, fewer_keys, key, name, i) {
            let i = choose|i: int| is_last(fewer_rows, fewer_keys, key, name, i);
            assert forall|j: int| i < j < rows.len() implies !(#[trigger] keys[j] == key
                && rows[j].name == name) by {
                if j < n {
                    assert(!(fewer_keys[j] == key && fewer_rows[j].name == name));
                }
            }
            assert(is_last(rows, keys, key, name, i));
        }
    }
}

/// The text of a column in a row.
pub open spec fn text_in(batch: ResultBatch, column: Seq<char>, row: int) -> Seq<char> {
    batch_strings(batch)[column][row]
}

/// The lower-cased qualified name of the relation that a row is about.
pub open spec fn relation_in(batch: ResultBatch, row: int) -> Seq<char> {
    lowercase(
        text_in(batch, "table_database"@, row) + "."@ + text_in(batch, "table_schema"@, row) + "."@
            + text_in(batch, "table_name"@, row),
    )
}

/// Law: the first row of a relation describes it. Type, schema, name, database and owner are the
/// texts of their columns in that row, and so is the comment unless it is empty; the table has no
/// columns yet, and its one statistic says that there are none.
pub proof fn law_tables_are_as_their_rows_say(
    batch: ResultBatch,
    tables: Map<Seq<char>, CatalogTable>,
    i: int,
)
    requires
        table_catalog(batch) == Ok::<Map<Seq<char>, CatalogTableView>, AdapterFault>(
            tables_view(tables),
        ),
        0 <= i < batch_rows(batch),
        forall|j: int| 0 <= j < i ==> #[trigger] relation_in(batch, j) != relation_in(batch, i),
    ensures
        tables.contains_key(relation_in(batch, i)),
        ({
            let table = tables[relation_in(batch, i)];
            let comment = text_in(batch, "table_comment"@, i);
            &&& table.metadata.materialization_type@ == text_in(batch, "table_type"@, i)
            &&& table.metadata.schema@ == text_in(batch, "table_schema"@, i)
            &&& table.metadata.name@ == text_in(batch, "table_name"@, i)
            &&& table.metadata.database matches Some(database) && database@ == text_in(
                batch,
                "table_database"@,
                i,
            )
            &&& table.metadata.owner matches Some(owner) && owner@ == text_in(
                batch,
                "table_owner"@,
                i,
            )
            &&& comment.len() == 0 ==> table.metadata.comment is None
            &&& comment.len() > 0 ==> (table.metadata.comment matches Some(text) && text@ == comment)
            &&& table.columns@.dom() == Set::<Seq<char>>::empty()
            &&& table.unique_id is None
            &&& table.stats@.dom() == Set::<Seq<char>>::empty().insert("has_stats"@)
            &&& table.stats@["has_stats"@].id@ == "has_stats"@
            &&& table.stats@["has_stats"@].label@ == "Has Stats?"@
            &&& table.stats@["has_stats"@].value == json_bool(false)
            &&& !table.stats@["has_stats"@].included
            &&& table.stats@["has_stats"@].description matches Some(text) && text@
                == "Indicates whether there are statistics for this table"@
        }),
{
    let rows = stats_rows(batch)->Ok_0;
    let keys = stats_keys(rows);
    let key = relation_in(batch, i);
    assert(keys[i] == key);
    assert forall|j: int| 0 <= j < i implies #[trigger] keys[j] != key by {
        assert(keys[j] == relation_in(batch, j));
    }
    assert(is_first(keys, key, i));
    assert(keys.contains(key));
    law_first_row_describes_the_table(rows, keys, key);
    let table = tables[key];
    assert(tables_view(tables).contains_key(key));
    assert(tables_view(tables)[key] == table@);
    assert(table@ == table_of(rows[i]));
    assert(table@.columns.dom() =~= table.columns@.dom());
    assert(table@.stats.dom() =~= table.stats@.dom());
    assert(table.stats@.dom() =~= Set::<Seq<char>>::empty().insert("has_stats"@));
    assert(table@.stats["has_stats"@] == table.stats@["has_stats"@]@);
    assert(table.columns@.dom() =~= Set::<Seq<char>>::empty());
}

/// Law: the catalog holds the relations that the rows are about and no others. It can be read where
/// all six columns are there, or where there is no row; otherwise the first that is missing, in this
/// order, is named.
pub proof fn law_the_table_catalog_is_complete(batch: ResultBatch, key: Seq<char>)
    ensures
        batch_rows(batch) == 0 ==> table_catalog(batch) == Ok::<
            Map<Seq<char>, CatalogTableView>,
            AdapterFault,
        >(Map::empty()),
        batch_rows(batch) > 0 ==> (match first_missing(
            batch,
            seq![
                "table_database"@,
                "table_schema"@,
                "table_name"@,
                "table_type"@,
                "table_comment"@,
                "table_owner"@,
            ],
        ) {
            Some(name) => table_catalog(batch) == Err::<
                Map<Seq<char>, CatalogTableView>,
                AdapterFault,
            >(bad_column(name)),
            None => table_catalog(batch) matches Ok(tables) && (tables.contains_key(key) <==> exists|
                i: int,
            |
                0 <= i < batch_rows(batch) && #[trigger] relation_in(batch, i) == key),
        }),
{
    reveal_with_fuel(first_missing, 7);
    if batch_rows(batch) > 0 && stats_rows(batch) is Ok {
        let rows = stats_rows(batch)->Ok_0;
        let keys = stats_keys(rows);
        law_first_row_describes_the_table(rows, keys, key);
        assert(forall|i: int|
            0 <= i < batch_rows(batch) ==> #[trigger] keys[i] == relation_in(batch, i));
        if keys.contains(key) {
            let i = choose|i: int| 0 <= i < keys.len() && keys[i] == key;
            assert(relation_in(batch, i) == key);
        }
        if exists|i: int| 0 <= i < batch_rows(batch) && #[trigger] relation_in(batch, i) == key {
            let i = choose|i: int|
                0 <= i < batch_rows(batch) && #[trigger] relation_in(batch, i) == key;
            assert(keys[i] == key);
        }
    }
}

/// The first of the names that is no column of strings.
pub open spec fn first_missing(batch: ResultBatch, names: Seq<Seq<char>>) -> Option<Seq<char>>
    decreases names.len(),
{
    if names.len() == 0 {
        None
    } else if !batch_strings(batch).contains_key(names[0]) {
        Some(names[0])
    } else {
        first_missing(batch, names.drop_first())
    }
}

/// Law: the last row of a column describes it. Name and type are the texts of their columns in that
/// row, the index is its number, and the comment is its text unless it is empty.
pub proof fn law_columns_are_as_their_rows_say(
    batch: ResultBatch,
    relations: Map<Seq<char>, SortedMap<ColumnMetadata>>,
    i: int,
)
    requires
        column_catalog(batch) == Ok::<Map<Seq<char>, Columns>, AdapterFault>(
            relations_columns_view(relations),
        ),
        0 <= i < batch_rows(batch),
        forall|j: int|
            i < j < batch_rows(batch) ==> !(#[trigger] relation_in(batch, j) == relation_in(batch, i)
                && text_in(batch, "column_name"@, j) == text_in(batch, "column_name"@, i)),
    ensures
        relations.contains_key(relation_in(batch, i)),
        relations[relation_in(batch, i)]@.contains_key(text_in(batch, "column_name"@, i)),
        ({
            let column = relations[relation_in(batch, i)]@[text_in(batch, "column_name"@, i)];
            let comment = text_in(batch, "column_comment"@, i);
            &&& column.name@ == text_in(batch, "column_name"@, i)
            &&& column.index == batch_ints(batch)["column_index"@][i]
            &&& column.data_type@ == text_in(batch, "column_type"@, i)
            &&& comment.len() == 0 ==> column.comment is None
            &&& comment.len() > 0 ==> (column.comment matches Some(text) && text@ == comment)
        }),
{
    let rows = column_rows(batch)->Ok_0;
    let keys = column_keys(rows);
    let key = relation_in(batch, i);
    let name = text_in(batch, "column_name"@, i);
    assert(keys[i] == key);
    assert forall|j: int| i < j < rows.len() implies !(#[trigger] keys[j] == key && rows[j].name
        == name) by {
        assert(keys[j] == relation_in(batch, j));
    }
    assert(is_last(rows, keys, key, name, i));
    law_last_row_describes_the_column(rows, keys, key, name, i);
    assert(relations_columns_view(relations).contains_key(key));
    assert(relations_columns_view(relations)[key] == columns_view(relations[key]@));
    assert(columns_view(relations[key]@).contains_key(name));
    assert(columns_view(relations[key]@)[name] == relations[key]@[name]@);
}

/// Law: nothing is listed that no row is about. The columns can be read where all seven columns of
/// the result are there, or where there is no row; otherwise one that is missing is named.
pub proof fn law_the_column_catalog_is_complete(batch: ResultBatch, key: Seq<char>, name: Seq<char>)
    ensures
        batch_rows(batch) == 0 ==> column_catalog(batch) == Ok::<
            Map<Seq<char>, Columns>,
            AdapterFault,
        >(Map::empty()),
        batch_rows(batch) > 0 ==> (match first_missing(
            batch,
            seq!["table_database"@, "table_schema"@, "table_name"@, "column_name"@],
        ) {
            Some(name) => column_catalog(batch) == Err::<Map<Seq<char>, Columns>, AdapterFault>(
                bad_column(name),
            ),
            None => if !batch_ints(batch).contains_key("column_index"@) {
                column_catalog(batch) == Err::<Map<Seq<char>, Columns>, AdapterFault>(
                    bad_column("column_index"@),
                )
            } else {
                match first_missing(batch, seq!["column_type"@, "column_comment"@]) {
                    Some(name) => column_catalog(batch) == Err::<
                        Map<Seq<char>, Columns>,
                        AdapterFault,
                    >(bad_column(name)),
                    None => column_catalog(batch) matches Ok(relations) && (relations.contains_key(
                        key,
                    ) && relations[key].contains_key(name) ==> exists|i: int|
                        0 <= i < batch_rows(batch) && #[trigger] relation_in(batch, i) == key
                            && text_in(batch, "column_name"@, i) == name),
                }
            },
        }),
{
    reveal_with_fuel(first_missing, 5);
    if batch_rows(batch) > 0 && column_rows(batch) is Ok {
        let rows = column_rows(batch)->Ok_0;
        let keys = column_keys(rows);
        law_every_column_has_a_row(rows, keys, key, name);
        if exists|i: int| is_last(rows, keys, key, name, i) {
            let i = choose|i: int| is_last(rows, keys, key, name, i);
            assert(keys[i] == relation_in(batch, i));
        }
    }
}

} // verus!
