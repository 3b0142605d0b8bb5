//! What the adapter asks of a database's catalog, and what it makes of the answers.

use arrow_schema::{Field, Schema};
use std::sync::Arc;
use vstd::prelude::*;

use crate::batch::{
    bad_column, batch_rows, batch_strings, num_rows, string_values, text_column, ResultBatch,
};
use crate::catalog::{
    column_catalog, read_column_catalog, read_table_catalog, relations_columns_view, table_catalog,
    tables_view, CatalogTable, CatalogTableView, ColumnMetadata, Columns,
};
use crate::columns::{build_schema_from_columns, is_column_of, is_schema_of, ColumnField};
use crate::relation::{
    database_part, law_databases_are_quoted_whole, law_table_types_are_told_apart, name_part,
    no_database, option_string, quoted_database, relation_type_from_table_type, relation_type_of,
    relations_view, unexpected, AdapterError, AdapterErrorKind, AdapterFault, Relation,
    RelationName, RelationType, ResolvedQuoting,
};
use crate::sorted_map::SortedMap;
use crate::sql::{build_columns_sql, build_list_relations_sql, columns_sql, list_relations_sql};
use crate::text::{
    lemma_text_before_is_strict, lemma_text_before_is_transitive, str_before, str_eq, text_before,
};

verus! {

/// The database that an adapter is for.
#[derive(Clone, Copy, Debug, PartialEq, Eq, Structural)]
pub enum AdapterType {
    SqlServer,
}

/// The settings of the engine that runs an adapter's queries.
#[derive(Clone, Copy, Debug, PartialEq, Eq, Structural)]
pub struct AdapterEngine {
    pub adapter_type: AdapterType,
    pub quoting: ResolvedQuoting,
    /// How many connections are used at a time.
    pub threads: usize,
}

/// An adapter: the engine that it runs its queries with.
#[derive(Debug)]
pub struct AdapterImpl {
    pub engine: Arc<AdapterEngine>,
}

impl AdapterImpl {
    pub fn new(engine: Arc<AdapterEngine>) -> (adapter: AdapterImpl)
        ensures
            adapter.engine == engine,
    {
        AdapterImpl { engine }
    }

    pub fn adapter_type(&self) -> (t: AdapterType)
        ensures
            t == self.engine.adapter_type,
    {
        self.engine.adapter_type
    }
}

/// What is said of a query besides its text.
#[derive(Debug)]
pub struct QueryCtx {
    /// Whether the query is about metadata.
    pub is_metadata: bool,
    pub desc: String,
    pub node_id: Option<String>,
    pub phase: Option<String>,
}

/// The content of a [`QueryCtx`].
pub struct QueryCtxView {
    pub is_metadata: bool,
    pub desc: Seq<char>,
    pub node_id: Option<Seq<char>>,
    pub phase: Option<Seq<char>>,
}

impl View for QueryCtx {
    type V = QueryCtxView;

    open spec fn view(&self) -> QueryCtxView {
        QueryCtxView {
            is_metadata: self.is_metadata,
            desc: self.desc@,
            node_id: option_string(self.node_id),
            phase: option_string(self.phase),
        }
    }
}

/// The context of the query for the columns of one relation.
pub fn schema_query_ctx(unique_id: Option<String>, phase: Option<String>) -> (ctx: QueryCtx)
    ensures
        ctx@ == (QueryCtxView {
            is_metadata: true,
            desc: "Get table schema"@,
            node_id: option_string(unique_id),
            phase: option_string(phase),
        }),
{
    QueryCtx { is_metadata: true, desc: "Get table schema".to_owned(), node_id: unique_id, phase }
}

/// The context of the query for the relations of one schema.
pub fn relations_query_ctx() -> (ctx: QueryCtx)
    ensures
        ctx@ == (QueryCtxView {
            is_metadata: false,
            desc: "list_relations_in_parallel"@,
            node_id: None,
            phase: None,
        }),
{
    QueryCtx {
        is_metadata: false,
        desc: "list_relations_in_parallel".to_owned(),
        node_id: None,
        phase: None,
    }
}

/// A schema in a database: as it is written in a query, and as it is.
#[derive(Debug)]
pub struct CatalogAndSchema {
    pub rendered_catalog: String,
    pub rendered_schema: String,
    pub resolved_catalog: String,
    pub resolved_schema: String,
}

/// The content of a [`CatalogAndSchema`].
pub struct SchemaName {
    pub rendered_catalog: Seq<char>,
    pub rendered_schema: Seq<char>,
    pub resolved_catalog: Seq<char>,
    pub resolved_schema: Seq<char>,
}

impl View for CatalogAndSchema {
    type V = SchemaName;

    open spec fn view(&self) -> SchemaName {
        SchemaName {
            rendered_catalog: self.rendered_catalog@,
            rendered_schema: self.rendered_schema@,
            resolved_catalog: self.resolved_catalog@,
            resolved_schema: self.resolved_schema@,
        }
    }
}

/// Whether the schema `a` comes before the schema `b`: the first text in which they differ decides.
pub open spec fn schema_before(a: SchemaName, b: SchemaName) -> bool {
    if a.rendered_catalog != b.rendered_catalog {
        text_before(a.rendered_catalog, b.rendered_catalog)
    } else if a.rendered_schema != b.rendered_schema {
        text_before(a.rendered_schema, b.rendered_schema)
    } else if a.resolved_catalog != b.resolved_catalog {
        text_before(a.resolved_catalog, b.resolved_catalog)
    } else {
        text_before(a.resolved_schema, b.resolved_schema)
    }
}

/// Schemas are strictly and totally ordered.
proof fn lemma_schema_before_is_strict(a: SchemaName, b: SchemaName)
    ensures
        schema_before(a, b) ==> !schema_before(b, a) && a != b,
        a == b || schema_before(a, b) || schema_before(b, a),
{
    lemma_text_before_is_strict(a.rendered_catalog, b.rendered_catalog);
    lemma_text_before_is_strict(a.rendered_schema, b.rendered_schema);
    lemma_text_before_is_strict(a.resolved_catalog, b.resolved_catalog);
    lemma_text_before_is_strict(a.resolved_schema, b.resolved_schema);
}

/// Two steps in the order of texts lead to a later text.
proof fn lemma_text_steps(a: Seq<char>, b: Seq<char>, c: Seq<char>)
    ensures
        text_before(a, b) && text_before(b, c) ==> text_before(a, c) && a != c,
{
    if text_before(a, b) && text_before(b, c) {
        lemma_text_before_is_transitive(a, b, c);
        lemma_text_before_is_strict(a, c);
    }
}

proof fn lemma_schema_before_is_transitive(a: SchemaName, b: SchemaName, c: SchemaName)
    requires
        schema_before(a, b),
        schema_before(b, c),
    ensures
        schema_before(a, c),
{
    lemma_text_steps(a.rendered_catalog, b.rendered_catalog, c.rendered_catalog);
    lemma_text_steps(a.rendered_schema, b.rendered_schema, c.rendered_schema);
    lemma_text_steps(a.resolved_catalog, b.resolved_catalog, c.resolved_catalog);
    lemma_text_steps(a.resolved_schema, b.resolved_schema, c.resolved_schema);
}

impl CatalogAndSchema {
    /// Whether this schema comes before the other one.
    pub fn before(&self, other: &CatalogAndSchema) -> (r: bool)
        ensures
            r == schema_before(self@, other@),
    {
        if !str_eq(self.rendered_catalog.as_str(), other.rendered_catalog.as_str()) {
            str_before(self.rendered_catalog.as_str(), other.rendered_catalog.as_str())
        } else if !str_eq(self.rendered_schema.as_str(), other.rendered_schema.as_str()) {
            str_before(self.rendered_schema.as_str(), other.rendered_schema.as_str())
        } else if !str_eq(self.resolved_catalog.as_str(), other.resolved_catalog.as_str()) {
            str_before(self.resolved_catalog.as_str(), other.resolved_catalog.as_str())
        } else {
            str_before(self.resolved_schema.as_str(), other.resolved_schema.as_str())
        }
    }

    /// Whether both are the same schema, written in the same way.
    pub fn same(&self, other: &CatalogAndSchema) -> (r: bool)
        ensures
            r == (self@ == other@),
    {
        str_eq(self.rendered_catalog.as_str(), other.rendered_catalog.as_str()) && str_eq(
            self.rendered_schema.as_str(),
            other.rendered_schema.as_str(),
        ) && str_eq(self.resolved_catalog.as_str(), other.resolved_catalog.as_str()) && str_eq(
            self.resolved_schema.as_str(),
            other.resolved_schema.as_str(),
        )
    }
}

/// The query for the relations of a schema, which needs a database for its three-part names.
pub open spec fn relations_query(db_schema: SchemaName) -> Result<Seq<char>, AdapterFault> {
    if db_schema.rendered_catalog.len() == 0 {
        Err(unexpected(no_database()))
    } else {
        Ok(list_relations_sql(db_schema.rendered_catalog, db_schema.resolved_schema))
    }
}

/// The relations in a result of that query. A result without rows needs no columns.
pub open spec fn listed_relations(
    batch: ResultBatch,
    db_schema: SchemaName,
    quoting: ResolvedQuoting,
) -> Result<Seq<RelationName>, AdapterFault> {
    if batch_rows(batch) == 0 {
        Ok(Seq::empty())
    } else {
        match text_column(batch, "table_schema"@) {
            Err(e) => Err(e),
            Ok(schemas) => match text_column(batch, "table_name"@) {
                Err(e) => Err(e),
                Ok(names) => match text_column(batch, "table_type"@) {
                    Err(e) => Err(e),
                    Ok(types) => Ok(
                        Seq::new(
                            batch_rows(batch),
                            |i: int|
                                RelationName {
                                    database: Some(db_schema.resolved_catalog),
                                    schema: Some(schemas[i]),
                                    identifier: Some(names[i]),
                                    relation_type: relation_type_of(types[i]),
                                    quoting,
                                },
                        ),
                    ),
                },
            },
        }
    }
}

/// The query for the relations of a schema.
pub fn build_relations_query(db_schema: &CatalogAndSchema) -> (r: Result<String, AdapterError>)
    ensures
        match r {
            Ok(sql) => relations_query(db_schema@) == Ok::<Seq<char>, AdapterFault>(sql@),
            Err(e) => relations_query(db_schema@) == Err::<Seq<char>, AdapterFault>(e@),
        },
{
    if db_schema.rendered_catalog.as_str().is_empty() {
        return Err(
            AdapterError::new(
                AdapterErrorKind::UnexpectedResult,
                "SQL Server relations require a database to build a three-part name",
            ),
        );
    }
    Ok(
        build_list_relations_sql(
            db_schema.rendered_catalog.as_str(),
            db_schema.resolved_schema.as_str(),
        ),
    )
}

/// The relations in a result of the query for them.
pub fn read_relations(
    batch: &ResultBatch,
    db_schema: &CatalogAndSchema,
    quoting: ResolvedQuoting,
) -> (r: Result<Vec<Relation>, AdapterError>)
    ensures
        match r {
            Ok(relations) => listed_relations(*batch, db_schema@, quoting) == Ok::<
                Seq<RelationName>,
                AdapterFault,
            >(relations_view(relations@)),
            Err(e) => listed_relations(*batch, db_schema@, quoting) == Err::<
                Seq<RelationName>,
                AdapterFault,
            >(e@),
        },
{
    let n: usize = num_rows(batch);
    let mut relations: Vec<Relation> = Vec::new();
    if n == 0 {
        assert(relations_view(relations@) =~= Seq::empty());
        return Ok(relations);
    }
    let schemas = match string_values(batch, "table_schema") {
        Ok(list) => list,
        Err(e) => return Err(e),
    };
    let names = match string_values(batch, "table_name") {
        Ok(list) => list,
        Err(e) => return Err(e),
    };
    let types = match string_values(batch, "table_type") {
        Ok(list) => list,
        Err(e) => return Err(e),
    };
    let ghost expected = listed_relations(*batch, db_schema@, quoting)->Ok_0;
    let mut i: usize = 0;
    while i < n
        invariant
            i <= n,
            relations@.len() == i,
            schemas@.len() == n,
            names@.len() == n,
            types@.len() == n,
            expected.len() == n,
            forall|k: int|
                0 <= k < n ==> #[trigger] expected[k] == (RelationName {
                    database: Some(db_schema@.resolved_catalog),
                    schema: Some(schemas@[k]@),
                    identifier: Some(names@[k]@),
                    relation_type: relation_type_of(types@[k]@),
                    quoting,
                }),
            forall|k: int| 0 <= k < i ==> (#[trigger] relations@[k])@ == expected[k],
        decreases n - i,
    {
        let relation = Relation::new_sqlserver(
            Some(db_schema.resolved_catalog.clone()),
            Some(schemas[i].clone()),
            Some(names[i].clone()),
            relation_type_from_table_type(types[i].as_str()),
            quoting,
        );
        assert(relation@ == expected[i as int]);
        relations.push(relation);
        i += 1;
    }
    assert(relations_view(relations@) =~= expected);
    Ok(relations)
}

/// Whether `r` is what comes of listing a schema's relations with `execute`.
pub open spec fn is_listing<E: FnOnce(String) -> Result<ResultBatch, AdapterError>>(
    execute: E,
    db_schema: SchemaName,
    quoting: ResolvedQuoting,
    r: Result<Vec<Relation>, AdapterError>,
) -> bool {
    match relations_query(db_schema) {
        Err(fault) => r matches Err(e) && e@ == fault,
        Ok(text) => exists|sql: String, reply: Result<ResultBatch, AdapterError>|
            {
                &&& sql@ == text
                &&& #[trigger] call_ensures(execute, (sql,), reply)
                &&& match reply {
                    Err(e) => r == Err::<Vec<Relation>, AdapterError>(e),
                    Ok(batch) => match r {
                        Ok(relations) => listed_relations(batch, db_schema, quoting) == Ok::<
                            Seq<RelationName>,
                            AdapterFault,
                        >(relations_view(relations@)),
                        Err(e) => listed_relations(batch, db_schema, quoting) == Err::<
                            Seq<RelationName>,
                            AdapterFault,
                        >(e@),
                    },
                }
            },
    }
}

/// The tables and views of a schema; `execute` runs the query for them and no other.
pub fn list_relations<E: FnOnce(String) -> Result<ResultBatch, AdapterError>>(
    engine: &AdapterEngine,
    execute: E,
    db_schema: &CatalogAndSchema,
) -> (r: Result<Vec<Relation>, AdapterError>)
    requires
        relations_query(db_schema@) matches Ok(text) ==> forall|sql: String|
            sql@ == text ==> call_requires(execute, (sql,)),
    ensures
        is_listing(execute, db_schema@, engine.quoting, r),
{
    let sql = match build_relations_query(db_schema) {
        Ok(sql) => sql,
        Err(e) => return Err(e),
    };
    match execute(sql) {
        Ok(batch) => read_relations(&batch, db_schema, engine.quoting),
        Err(e) => Err(e),
    }
}

/// The query for the columns of a relation, which needs all parts of its name.
pub open spec fn columns_query(relation: RelationName) -> Result<Seq<char>, AdapterFault> {
    match database_part(relation) {
        Err(e) => Err(e),
        Ok(database) => match name_part(relation.schema) {
            Err(e) => Err(e),
            Ok(schema) => match name_part(relation.identifier) {
                Err(e) => Err(e),
                Ok(identifier) => Ok(columns_sql(database, schema, identifier)),
            },
        },
    }
}

/// The query for the columns of a relation.
pub fn build_columns_query(relation: &Relation) -> (r: Result<String, AdapterError>)
    ensures
        match r {
            Ok(sql) => columns_query(relation@) == Ok::<Seq<char>, AdapterFault>(sql@),
            Err(e) => columns_query(relation@) == Err::<Seq<char>, AdapterFault>(e@),
        },
{
    let database = match quoted_database(relation) {
        Ok(database) => database,
        Err(e) => return Err(e),
    };
    let schema = match relation.schema_as_str() {
        Ok(schema) => schema,
        Err(e) => return Err(e),
    };
    let identifier = match relation.identifier_as_str() {
        Ok(identifier) => identifier,
        Err(e) => return Err(e),
    };
    Ok(build_columns_sql(database.as_str(), schema, identifier))
}

/// Whether `r` is what comes of asking `query` for a relation's columns and making a field of each
/// with `make_field`.
pub open spec fn is_relation_schema<
    Q: FnOnce(String) -> Result<ResultBatch, AdapterError>,
    F: Fn(&ColumnField) -> Result<Field, AdapterError>,
>(
    relation: RelationName,
    query: Q,
    make_field: F,
    r: Result<Arc<Schema>, AdapterError>,
) -> bool {
    match columns_query(relation) {
        Err(fault) => r matches Err(e) && e@ == fault,
        Ok(text) => exists|sql: String, reply: Result<ResultBatch, AdapterError>|
            {
                &&& sql@ == text
                &&& #[trigger] call_ensures(query, (sql,), reply)
                &&& match reply {
                    Err(e) => r == Err::<Arc<Schema>, AdapterError>(e),
                    Ok(batch) => is_schema_of(batch, make_field, r),
                }
            },
    }
}

/// The schema of one relation; `query` runs the query for its columns and no other, and
/// `make_field` turns a column of the reply, with its declared type, into a field.
pub fn relation_schema<
    Q: FnOnce(String) -> Result<ResultBatch, AdapterError>,
    F: Fn(&ColumnField) -> Result<Field, AdapterError>,
>(relation: &Relation, query: Q, make_field: F) -> (r: Result<Arc<Schema>, AdapterError>)
    requires
        columns_query(relation@) matches Ok(text) ==> forall|sql: String|
            sql@ == text ==> call_requires(query, (sql,)),
        columns_query(relation@) matches Ok(text) ==> forall|
            sql: String,
            batch: ResultBatch,
            column: &ColumnField,
        |
            #![trigger call_ensures(query, (sql,), Ok::<ResultBatch, AdapterError>(batch)), call_requires(make_field, (column,))]
            sql@ == text && call_ensures(query, (sql,), Ok::<ResultBatch, AdapterError>(batch))
                && is_column_of(batch, column@) ==> call_requires(make_field, (column,)),
    ensures
        is_relation_schema(relation@, query, make_field, r),
{
    let sql = match build_columns_query(relation) {
        Ok(sql) => sql,
        Err(e) => return Err(e),
    };
    match query(sql) {
        Ok(batch) => build_schema_from_columns(&batch, make_field),
        Err(e) => Err(e),
    }
}

/// The schemas of a list of entries.
pub open spec fn schema_keys(entries: Seq<(CatalogAndSchema, Vec<Relation>)>) -> Seq<SchemaName> {
    Seq::new(entries.len(), |i: int| entries[i].0@)
}

/// The map that a list of entries stands for.
pub open spec fn relations_map(entries: Seq<(CatalogAndSchema, Vec<Relation>)>) -> Map<
    SchemaName,
    Seq<RelationName>,
> {
    Map::new(
        |key: SchemaName| schema_keys(entries).contains(key),
        |key: SchemaName| relations_view(entries[schema_keys(entries).index_of(key)].1@),
    )
}

/// Whether each schema comes before all that follow it, so that none occurs twice.
pub open spec fn is_ordered(keys: Seq<SchemaName>) -> bool {
    forall|i: int, j: int|
        0 <= i < j < keys.len() ==> schema_before(#[trigger] keys[i], #[trigger] keys[j])
}

/// The relations of several schemas, each schema once, in the order of the schemas.
#[derive(Debug)]
pub struct RelationsBySchema {
    entries: Vec<(CatalogAndSchema, Vec<Relation>)>,
}

impl View for RelationsBySchema {
    type V = Map<SchemaName, Seq<RelationName>>;

    closed spec fn view(&self) -> Map<SchemaName, Seq<RelationName>> {
        relations_map(self.entries@)
    }
}

proof fn lemma_schema_index(keys: Seq<SchemaName>, i: int)
    requires
        is_ordered(keys),
        0 <= i < keys.len(),
    ensures
        keys.index_of(keys[i]) == i,
{
    assert(keys.contains(keys[i]));
    let j = keys.index_of(keys[i]);
    lemma_schema_before_is_strict(keys[i], keys[j]);
    lemma_schema_before_is_strict(keys[j], keys[i]);
}

/// Putting an entry at its place, over an entry of the same schema or between two others, puts it
/// into the map and keeps the order.
proof fn lemma_put_schema(
    before: Seq<(CatalogAndSchema, Vec<Relation>)>,
    p: int,
    entry: (CatalogAndSchema, Vec<Relation>),
    after: Seq<(CatalogAndSchema, Vec<Relation>)>,
)
    requires
        is_ordered(schema_keys(before)),
        0 <= p <= before.len(),
        forall|i: int| 0 <= i < p ==> schema_before(#[trigger] before[i].0@, entry.0@),
        p < before.len() ==> !schema_before(before[p].0@, entry.0@),
        if p < before.len() && before[p].0@ == entry.0@ {
            after == before.update(p, entry)
        } else {
            after == before.insert(p, entry)
        },
    ensures
        is_ordered(schema_keys(after)),
        relations_map(after) == relations_map(before).insert(
            entry.0@,
            relations_view(entry.1@),
        ),
{
    let old_keys = schema_keys(before);
    let keys = schema_keys(after);
    let replaced = p < before.len() && before[p].0@ == entry.0@;
    let shift = if replaced {
        0int
    } else {
        1int
    };
    assert forall|i: int| p <= i < before.len() && !(replaced && i == p) implies schema_before(
        entry.0@,
        #[trigger] before[i].0@,
    ) by {
        lemma_schema_before_is_strict(entry.0@, before[p].0@);
        if p < i {
            assert(schema_before(old_keys[p], old_keys[i]));
            if !replaced {
                lemma_schema_before_is_transitive(entry.0@, before[p].0@, before[i].0@);
            }
        }
    }
    assert(forall|i: int| 0 <= i < p ==> after[i] == before[i]);
    assert(after[p] == entry);
    assert(forall|i: int| p < i < after.len() ==> after[i] == before[i - shift]);
    assert forall|i: int, j: int| 0 <= i < j < keys.len() implies schema_before(
        #[trigger] keys[i],
        #[trigger] keys[j],
    ) by {
        let a = if i < p {
            i
        } else {
            i - shift
        };
        let b = if j < p {
            j
        } else {
            j - shift
        };
        if i != p && j != p {
            assert(schema_before(old_keys[a], old_keys[b]));
        } else if i == p {
            assert(schema_before(entry.0@, before[b].0@));
        } else {
            assert(schema_before(before[a].0@, entry.0@));
        }
    }
    let map = relations_map(before).insert(entry.0@, relations_view(entry.1@));
    assert forall|key: SchemaName| #[trigger] relations_map(after).contains_key(key)
        == map.contains_key(key) && (map.contains_key(key) ==> relations_map(after)[key]
        == map[key]) by {
        assert(keys[p] == entry.0@);
        lemma_schema_index(keys, p);
        if keys.contains(key) && key != entry.0@ {
            let i = keys.index_of(key);
            let k = if i < p {
                i
            } else {
                i - shift
            };
            assert(old_keys[k] == key);
            lemma_schema_index(old_keys, k);
        }
        if old_keys.contains(key) && key != entry.0@ {
            let k = old_keys.index_of(key);
            let i = if k < p {
                k
            } else {
                k + shift
            };
            assert(keys[i] == key);
            lemma_schema_index(keys, i);
        }
    }
    assert(relations_map(after) =~= map);
}

impl RelationsBySchema {
    #[verifier::type_invariant]
    spec fn inv(self) -> bool {
        is_ordered(schema_keys(self.entries@))
    }

    pub fn new() -> (relations: RelationsBySchema)
        ensures
            relations@ == Map::<SchemaName, Seq<RelationName>>::empty(),
    {
        let relations = RelationsBySchema { entries: Vec::new() };
        assert(relations@ =~= Map::empty());
        relations
    }

    /// The entries, each schema once, in the order of the schemas.
    pub fn entries(&self) -> (entries: &Vec<(CatalogAndSchema, Vec<Relation>)>)
        ensures
            is_ordered(schema_keys(entries@)),
            self@ == relations_map(entries@),
    {
        proof {
            use_type_invariant(self);
        }
        &self.entries
    }

    /// Puts the relations of a schema in place of those that were there.
    pub fn insert(&mut self, db_schema: CatalogAndSchema, relations: Vec<Relation>)
        ensures
            final(self)@ == old(self)@.insert(db_schema@, relations_view(relations@)),
    {
        proof {
            use_type_invariant(&*self);
        }
        let mut entries: Vec<(CatalogAndSchema, Vec<Relation>)> = Vec::new();
        std::mem::swap(&mut entries, &mut self.entries);
        let ghost before = entries@;
        let ghost entry = (db_schema, relations);
        let mut p: usize = 0;
        while p < entries.len() && entries[p].0.before(&db_schema)
            invariant
                p <= entries@.len(),
                entries@ == before,
                forall|i: int| 0 <= i < p ==> schema_before(#[trigger] before[i].0@, db_schema@),
            decreases entries.len() - p,
        {
            p += 1;
        }
        if p < entries.len() && entries[p].0.same(&db_schema) {
            entries.set(p, (db_schema, relations));
        } else {
            entries.insert(p, (db_schema, relations));
        }
        proof {
            lemma_put_schema(before, p as int, entry, entries@);
        }
        self.entries = entries;
    }
}

/// Takes up the relations of one more schema. A schema that could not be listed ends the run with
/// its error.
pub fn reduce_relations(
    acc: &mut RelationsBySchema,
    db_schema: CatalogAndSchema,
    relations: Result<Vec<Relation>, AdapterError>,
) -> (r: Result<(), AdapterError>)
    ensures
        match relations {
            Ok(list) => r is Ok && final(acc)@ == old(acc)@.insert(
                db_schema@,
                relations_view(list@),
            ),
            Err(e) => r == Err::<(), AdapterError>(e) && final(acc)@ == old(acc)@,
        },
{
    match relations {
        Ok(list) => {
            acc.insert(db_schema, list);
            Ok(())
        },
        Err(e) => Err(e),
    }
}

/// The schemas of relations, by the qualified names of the relations; in place of a schema that could
/// not be read stands its error.
pub type RelationSchemas = SortedMap<Result<Arc<Schema>, AdapterError>>;

/// Takes up the schema of one more relation. A schema that could not be read ends nothing.
pub fn reduce_schemas(
    acc: &mut RelationSchemas,
    semantic_fqn: String,
    schema: Result<Arc<Schema>, AdapterError>,
) -> (r: Result<(), AdapterError>)
    ensures
        r is Ok,
        final(acc)@ == old(acc)@.insert(semantic_fqn@, schema),
{
    acc.insert(semantic_fqn, schema);
    Ok(())
}

/// Law: in which order the relations of different schemas arrive makes no difference.
pub proof fn law_schemas_arrive_in_any_order(
    acc: Map<SchemaName, Seq<RelationName>>,
    a: SchemaName,
    a_relations: Seq<RelationName>,
    b: SchemaName,
    b_relations: Seq<RelationName>,
)
    requires
        a != b,
    ensures
        acc.insert(a, a_relations).insert(b, b_relations) == acc.insert(b, b_relations).insert(
            a,
            a_relations,
        ),
{
    assert(acc.insert(a, a_relations).insert(b, b_relations) =~= acc.insert(b, b_relations).insert(
        a,
        a_relations,
    ));
}

/// Two ordered lists of the same schemas are the same list.
proof fn lemma_one_order(a: Seq<SchemaName>, b: Seq<SchemaName>)
    requires
        is_ordered(a),
        is_ordered(b),
        forall|key: SchemaName| #[trigger] a.contains(key) == b.contains(key),
    ensures
        a == b,
    decreases a.len(),
{
    if a.len() == 0 {
        if b.len() > 0 {
            assert(b.contains(b[0]));
            assert(a.contains(b[0]));
        }
        assert(a =~= b);
    } else {
        assert(a.contains(a[0]));
        let j = choose|j: int| 0 <= j < b.len() && b[j] == a[0];
        assert(b.contains(b[0]));
        assert(a.contains(b[0]));
        let i = choose|i: int| 0 <= i < a.len() && a[i] == b[0];
        lemma_schema_before_is_strict(a[0], b[0]);
        lemma_schema_before_is_strict(b[0], a[0]);
        assert(a[0] == b[0]);
        let a_tail = a.drop_first();
        let b_tail = b.drop_first();
        assert forall|key: SchemaName| #[trigger] a_tail.contains(key) == b_tail.contains(key) by {
            if a_tail.contains(key) {
                let k = choose|k: int| 0 <= k < a_tail.len() && a_tail[k] == key;
                lemma_schema_before_is_strict(a[0], a[k + 1]);
                assert(a.contains(key));
                let m = choose|m: int| 0 <= m < b.len() && b[m] == key;
                assert(b_tail[m - 1] == key);
            }
            if b_tail.contains(key) {
                let k = choose|k: int| 0 <= k < b_tail.len() && b_tail[k] == key;
                lemma_schema_before_is_strict(b[0], b[k + 1]);
                assert(b.contains(b[k + 1]));
                assert(a.contains(key));
                let m = choose|m: int| 0 <= m < a.len() && a[m] == key;
                assert(a_tail[m - 1] == key);
            }
        }
        lemma_one_order(a_tail, b_tail);
        assert(a =~= seq![a[0]] + a_tail);
        assert(b =~= seq![b[0]] + b_tail);
    }
}

/// Law: what is held fixes the order in which it is walked. Two ordered lists of entries that stand
/// for the same map have the same schemas with the same relations at the same places.
pub proof fn law_the_order_of_schemas_is_fixed(
    a: Seq<(CatalogAndSchema, Vec<Relation>)>,
    b: Seq<(CatalogAndSchema, Vec<Relation>)>,
)
    requires
        is_ordered(schema_keys(a)),
        is_ordered(schema_keys(b)),
        relations_map(a) == relations_map(b),
    ensures
        schema_keys(a) == schema_keys(b),
        forall|i: int|
            0 <= i < a.len() ==> relations_view((#[trigger] a[i]).1@) == relations_view(b[i].1@),
{
    assert forall|key: SchemaName| #[trigger]
        schema_keys(a).contains(key) == schema_keys(b).contains(key) by {
        assert(relations_map(a).contains_key(key) == schema_keys(a).contains(key));
        assert(relations_map(b).contains_key(key) == schema_keys(b).contains(key));
    }
    lemma_one_order(schema_keys(a), schema_keys(b));
    assert forall|i: int| 0 <= i < a.len() implies relations_view((#[trigger] a[i]).1@)
        == relations_view(b[i].1@) by {
        lemma_schema_index(schema_keys(a), i);
        lemma_schema_index(schema_keys(b), i);
        let key = schema_keys(a)[i];
        assert(schema_keys(a).contains(key));
        assert(relations_map(a)[key] == relations_map(b)[key]);
    }
}

/// Law: every relation that is listed can be asked for its columns, unless its schema was listed
/// without a resolved database.
pub proof fn law_listed_relations_have_columns_queries(
    batch: ResultBatch,
    db_schema: SchemaName,
    quoting: ResolvedQuoting,
    i: int,
)
    requires
        db_schema.resolved_catalog.len() > 0,
        listed_relations(batch, db_schema, quoting) matches Ok(relations) && 0 <= i
            < relations.len(),
    ensures
        columns_query(listed_relations(batch, db_schema, quoting)->Ok_0[i]) is Ok,
{
}

/// Answers questions about the metadata of a SQL Server database.
#[derive(Debug)]
pub struct SqlServerMetadataAdapter {
    pub adapter: AdapterImpl,
}

impl SqlServerMetadataAdapter {
    pub fn new(engine: Arc<AdapterEngine>) -> (metadata: SqlServerMetadataAdapter)
        ensures
            metadata.adapter.engine == engine,
    {
        SqlServerMetadataAdapter { adapter: AdapterImpl::new(engine) }
    }

    pub fn adapter_type(&self) -> (t: AdapterType)
        ensures
            t == self.adapter.engine.adapter_type,
    {
        self.adapter.adapter_type()
    }

    /// The catalog of the tables in a result, by the qualified names of the tables.
    pub fn build_schemas_from_stats_sql(&self, stats_sql_result: Arc<ResultBatch>) -> (r: Result<
        SortedMap<CatalogTable>,
        AdapterError,
    >)
        ensures
            match r {
                Ok(tables) => table_catalog(*stats_sql_result) == Ok::<
                    Map<Seq<char>, CatalogTableView>,
                    AdapterFault,
                >(tables_view(tables@)),
                Err(e) => table_catalog(*stats_sql_result) == Err::<
                    Map<Seq<char>, CatalogTableView>,
                    AdapterFault,
                >(e@),
            },
    {
        read_table_catalog(&*stats_sql_result)
    }

    /// The columns in a result, by the qualified names of their relations and by their own names.
    pub fn build_columns_from_get_columns(&self, stats_sql_result: Arc<ResultBatch>) -> (r: Result<
        SortedMap<SortedMap<ColumnMetadata>>,
        AdapterError,
    >)
        ensures
            match r {
                Ok(relations) => column_catalog(*stats_sql_result) == Ok::<
                    Map<Seq<char>, Columns>,
                    AdapterFault,
                >(relations_columns_view(relations@)),
                Err(e) => column_catalog(*stats_sql_result) == Err::<
                    Map<Seq<char>, Columns>,
                    AdapterFault,
                >(e@),
            },
    {
        read_column_catalog(&*stats_sql_result)
    }
}

/// Law: each row of a listing is one relation, in the order of the rows: in the resolved database,
/// with schema and name as the texts of their columns, a table or a view as `table_type` says, and
/// with the engine's quoting.
pub proof fn law_relations_come_from_their_rows(
    batch: ResultBatch,
    db_schema: CatalogAndSchema,
    quoting: ResolvedQuoting,
    relations: Seq<Relation>,
    i: int,
)
    requires
        listed_relations(batch, db_schema@, quoting) == Ok::<Seq<RelationName>, AdapterFault>(
            relations_view(relations),
        ),
        0 <= i < batch_rows(batch),
    ensures
        relations.len() == batch_rows(batch),
        relations[i].database matches Some(database) && database@ == db_schema.resolved_catalog@,
        relations[i].schema matches Some(schema) && schema@
            == batch_strings(batch)["table_schema"@][i],
        relations[i].identifier matches Some(name) && name@
            == batch_strings(batch)["table_name"@][i],
        relations[i].relation_type == Some(RelationType::Table) <==> batch_strings(
            batch,
        )["table_type"@][i] == "TABLE"@,
        relations[i].relation_type == Some(RelationType::View) <==> batch_strings(
            batch,
        )["table_type"@][i] == "VIEW"@,
        relations[i].quoting == quoting,
{
    let views = relations_view(relations);
    assert(views.len() == batch_rows(batch));
    assert(views[i] == relations[i]@);
    law_table_types_are_told_apart(batch_strings(batch)["table_type"@][i]);
}

/// Law: a listing without rows is empty. One with rows can be read exactly where its three columns
/// are there; otherwise the first that is missing is named.
pub proof fn law_listings_need_their_columns(
    batch: ResultBatch,
    db_schema: SchemaName,
    quoting: ResolvedQuoting,
)
    ensures
        batch_rows(batch) == 0 ==> listed_relations(batch, db_schema, quoting) == Ok::<
            Seq<RelationName>,
            AdapterFault,
        >(Seq::empty()),
        batch_rows(batch) > 0 ==> (listed_relations(batch, db_schema, quoting) is Ok
            <==> batch_strings(batch).contains_key("table_schema"@) && batch_strings(
            batch,
        ).contains_key("table_name"@) && batch_strings(batch).contains_key("table_type"@)),
        listed_relations(batch, db_schema, quoting) matches Err(fault) ==> fault == bad_column(
            if !batch_strings(batch).contains_key("table_schema"@) {
                "table_schema"@
            } else if !batch_strings(batch).contains_key("table_name"@) {
                "table_name"@
            } else {
                "table_type"@
            },
        ),
{
}

/// Law: a schema is listed in the database as it is rendered and under the name that it resolves to,
/// and a schema without a rendered database is refused.
pub proof fn law_schemas_are_listed_in_their_database(db_schema: CatalogAndSchema)
    ensures
        db_schema.rendered_catalog@.len() > 0 ==> relations_query(db_schema@) == Ok::<
            Seq<char>,
            AdapterFault,
        >(list_relations_sql(db_schema.rendered_catalog@, db_schema.resolved_schema@)),
        db_schema.rendered_catalog@.len() == 0 ==> relations_query(db_schema@) == Err::<
            Seq<char>,
            AdapterFault,
        >(
            AdapterFault {
                kind: AdapterErrorKind::UnexpectedResult,
                message: "SQL Server relations require a database to build a three-part name"@,
            },
        ),
{
}

/// Law: a relation with a database, a schema and a name is asked for its columns by its quoted
/// database and by exactly that schema and name; a relation that lacks one of them is not asked.
pub proof fn law_relations_are_asked_for_by_their_names(relation: Relation)
    ensures
        match (relation.database, relation.schema, relation.identifier) {
            (Some(database), Some(schema), Some(identifier)) => if database@.len() > 0 {
                columns_query(relation@) == Ok::<Seq<char>, AdapterFault>(
                    columns_sql(seq!['"'] + database@ + seq!['"'], schema@, identifier@),
                )
            } else {
                columns_query(relation@) is Err
            },
            _ => columns_query(relation@) is Err,
        },
{
    law_databases_are_quoted_whole(relation);
}

/// Law: what `list_relations` gives of a schema with a database rests on one reply to the schema's
/// own query: the relations in its rows, or the error in its place.
pub proof fn law_listings_rest_on_one_reply<E: FnOnce(String) -> Result<ResultBatch, AdapterError>>(
    execute: E,
    db_schema: CatalogAndSchema,
    quoting: ResolvedQuoting,
    r: Result<Vec<Relation>, AdapterError>,
)
    requires
        is_listing(execute, db_schema@, quoting, r),
        db_schema.rendered_catalog@.len() > 0,
    ensures
        exists|sql: String, reply: Result<ResultBatch, AdapterError>|
            {
                &&& sql@ == list_relations_sql(
                    db_schema.rendered_catalog@,
                    db_schema.resolved_schema@,
                )
                &&& #[trigger] call_ensures(execute, (sql,), reply)
                &&& reply matches Err(e) ==> r == Err::<Vec<Relation>, AdapterError>(e)
                &&& reply matches Ok(batch) ==> (r is Ok <==> listed_relations(
                    batch,
                    db_schema@,
                    quoting,
                ) is Ok)
                &&& (reply is Ok && r is Ok) ==> listed_relations(reply->Ok_0, db_schema@, quoting)
                    == Ok::<Seq<RelationName>, AdapterFault>(relations_view(r->Ok_0@))
                &&& (reply is Ok && r is Err) ==> listed_relations(reply->Ok_0, db_schema@, quoting)
                    == Err::<Seq<RelationName>, AdapterFault>(
                    AdapterFault { kind: r->Err_0.kind, message: r->Err_0.message@ },
                )
            },
{
}

/// Law: what `relation_schema` gives of a relation with a complete name rests on one reply to the
/// query for its own columns: the schema of the reply, or the error in its place.
pub proof fn law_schemas_rest_on_one_reply<
    Q: FnOnce(String) -> Result<ResultBatch, AdapterError>,
    F: Fn(&ColumnField) -> Result<Field, AdapterError>,
>(
    relation: Relation,
    query: Q,
    make_field: F,
    r: Result<Arc<Schema>, AdapterError>,
    database: Seq<char>,
    schema: Seq<char>,
    identifier: Seq<char>,
)
    requires
        is_relation_schema(relation@, query, make_field, r),
        relation.database matches Some(s) && s@ == database && database.len() > 0,
        relation.schema matches Some(s) && s@ == schema,
        relation.identifier matches Some(s) && s@ == identifier,
    ensures
        exists|sql: String, reply: Result<ResultBatch, AdapterError>|
            {
                &&& sql@ == columns_sql(seq!['"'] + database + seq!['"'], schema, identifier)
                &&& #[trigger] call_ensures(query, (sql,), reply)
                &&& reply matches Err(e) ==> r == Err::<Arc<Schema>, AdapterError>(e)
                &&& reply matches Ok(batch) ==> is_schema_of(batch, make_field, r)
            },
{
    law_relations_are_asked_for_by_their_names(relation);
}

/// Law: an entry of a list without repetition stands in the map under its own schema, with its own
/// relations.
pub proof fn law_entries_stand_under_their_schemas(
    entries: Seq<(CatalogAndSchema, Vec<Relation>)>,
    i: int,
)
    requires
        is_ordered(schema_keys(entries)),
        0 <= i < entries.len(),
    ensures
        relations_map(entries).contains_key(entries[i].0@),
        relations_map(entries)[entries[i].0@] == relations_view(entries[i].1@),
{
    let keys = schema_keys(entries);
    assert(keys[i] == entries[i].0@);
    assert(keys.contains(keys[i]));
    lemma_schema_index(keys, i);
}

/// Law: the query for a relation's columns is said to be about metadata, with the node and the phase
/// that were given, each whether or not the other was.
pub proof fn law_schema_queries_keep_node_and_phase(
    unique_id: Option<String>,
    phase: Option<String>,
    ctx: QueryCtx,
)
    requires
        call_ensures(schema_query_ctx, (unique_id, phase), ctx),
    ensures
        ctx.is_metadata,
        ctx.desc@ == "Get table schema"@,
        unique_id is None <==> ctx.node_id is None,
        unique_id matches Some(id) ==> ctx.node_id->0@ == id@,
        phase is None <==> ctx.phase is None,
        phase matches Some(name) ==> ctx.phase->0@ == name@,
{
}

/// Law: the query for a schema's relations carries its description and nothing else.
pub proof fn law_relation_queries_are_plain(ctx: QueryCtx)
    requires
        call_ensures(relations_query_ctx, (), ctx),
    ensures
        !ctx.is_metadata,
        ctx.desc@ == "list_relations_in_parallel"@,
        ctx.node_id is None,
        ctx.phase is None,
{
}

/// Law: the first text in which two schemas differ decides which comes first, and each text counts
/// only where those before it agree.
pub proof fn law_schemas_are_ordered_text_by_text(a: CatalogAndSchema, b: CatalogAndSchema)
    ensures
        text_before(a.rendered_catalog@, b.rendered_catalog@) ==> schema_before(a@, b@),
        a.rendered_catalog@ == b.rendered_catalog@ && text_before(
            a.rendered_schema@,
            b.rendered_schema@,
        ) ==> schema_before(a@, b@),
        a.rendered_catalog@ == b.rendered_catalog@ && a.rendered_schema@ == b.rendered_schema@
            && text_before(a.resolved_catalog@, b.resolved_catalog@) ==> schema_before(a@, b@),
        a.rendered_catalog@ == b.rendered_catalog@ && a.rendered_schema@ == b.rendered_schema@
            && a.resolved_catalog@ == b.resolved_catalog@ && text_before(
            a.resolved_schema@,
            b.resolved_schema@,
        ) ==> schema_before(a@, b@),
        schema_before(a@, b@) ==> !schema_before(b@, a@),
{
    lemma_schema_before_is_strict(a@, b@);
    lemma_text_before_is_strict(a.rendered_catalog@, b.rendered_catalog@);
    lemma_text_before_is_strict(a.rendered_schema@, b.rendered_schema@);
    lemma_text_before_is_strict(a.resolved_catalog@, b.resolved_catalog@);
}

} // verus!
