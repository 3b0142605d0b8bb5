//! The catalog queries of SQL Server and the type texts that are rebuilt from their rows.
//!
//! `sp_tables` and `sp_columns` read the connection's current database only, and take a name as a
//! `LIKE` pattern. The catalog views take a three-part name, which resolves across databases, and
//! compare names for equality.

use vstd::prelude::*;

use crate::text::{decimal, i64_text, str_eq};

verus! {

/// [`String::push`]: the character stands at the end.
pub assume_specification[ std::string::String::push ](s: &mut std::string::String, c: char)
    ensures
        final(s)@ == old(s)@.push(c),
;

/// A character inside a string literal: a quote is written twice.
pub open spec fn literal_char(c: char) -> Seq<char> {
    if c == '\'' {
        seq!['\'', '\'']
    } else {
        seq![c]
    }
}

/// A text between the quotes of a string literal.
pub open spec fn literal_body(s: Seq<char>) -> Seq<char>
    decreases s.len(),
{
    if s.len() == 0 {
        Seq::empty()
    } else {
        literal_char(s[0]) + literal_body(s.drop_first())
    }
}

/// The string literal of a text.
pub open spec fn literal(s: Seq<char>) -> Seq<char> {
    seq!['\''] + literal_body(s) + seq!['\'']
}

/// What stands in a string literal, read from behind its opening quote, and what follows its
/// closing quote. A quote that is written twice stands for one and does not close the literal.
pub open spec fn read_literal(s: Seq<char>) -> Option<(Seq<char>, Seq<char>)>
    decreases s.len(),
{
    if s.len() == 0 {
        None
    } else if s[0] != '\'' {
        match read_literal(s.drop_first()) {
            Some((content, rest)) => Some((seq![s[0]] + content, rest)),
            None => None,
        }
    } else if s.len() > 1 && s[1] == '\'' {
        match read_literal(s.skip(2)) {
            Some((content, rest)) => Some((seq!['\''] + content, rest)),
            None => None,
        }
    } else {
        Some((Seq::empty(), s.drop_first()))
    }
}

proof fn lemma_literal_body_push(s: Seq<char>, c: char)
    ensures
        literal_body(s.push(c)) == literal_body(s) + literal_char(c),
    decreases s.len(),
{
    if s.len() == 0 {
        assert(s.push(c).drop_first() =~= s);
        assert(literal_body(s.push(c)) =~= literal_char(c));
        assert(literal_body(s) + literal_char(c) =~= literal_char(c));
    } else {
        assert(s.push(c).drop_first() =~= s.drop_first().push(c));
        lemma_literal_body_push(s.drop_first(), c);
        assert(literal_body(s.push(c)) =~= literal_body(s) + literal_char(c));
    }
}

/// Law: whatever quotes a name holds, its literal is read as exactly that name, and ends where
/// the query goes on.
pub proof fn law_literals_read_back(s: Seq<char>, rest: Seq<char>)
    requires
        rest.len() > 0 ==> rest[0] != '\'',
    ensures
        read_literal((literal(s) + rest).drop_first()) == Some((s, rest)),
    decreases s.len(),
{
    let text = literal_body(s) + seq!['\''] + rest;
    assert((literal(s) + rest).drop_first() =~= text);
    if s.len() == 0 {
        assert(text =~= seq!['\''] + rest);
        assert(text.drop_first() =~= rest);
        assert(s =~= Seq::empty());
    } else {
        law_literals_read_back(s.drop_first(), rest);
        let tail = literal_body(s.drop_first()) + seq!['\''] + rest;
        assert((literal(s.drop_first()) + rest).drop_first() =~= tail);
        assert(seq![s[0]] + s.drop_first() =~= s);
        if s[0] == '\'' {
            assert(text.skip(2) =~= tail);
        } else {
            assert(text.drop_first() =~= tail);
        }
    }
}

/// The string literal of a text.
pub fn format_str(s: &str) -> (r: String)
    ensures
        r@ == literal(s@),
{
    let mut r = String::new();
    r.push('\'');
    for c in it: s.chars()
        invariant
            it.seq() == s@,
            r@ == seq!['\''] + literal_body(s@.take(it.index() as int)),
    {
        proof {
            let n = it.index() as int;
            assert(s@.take(n + 1) =~= s@.take(n).push(c));
            lemma_literal_body_push(s@.take(n), c);
        }
        if c == '\'' {
            r.push('\'');
        }
        r.push(c);
    }
    assert(s@.take(s@.len() as int) =~= s@);
    r.push('\'');
    r
}

/// The query for the tables and views of a schema.
pub open spec fn list_relations_sql(quoted_database: Seq<char>, schema: Seq<char>) -> Seq<char> {
    "select s.name as table_schema, o.name as table_name, case o.type when 'V' then 'VIEW' else 'TABLE' end as table_type from "@
        + quoted_database + ".sys.objects o with (nolock) join "@ + quoted_database
        + ".sys.schemas s with (nolock) on o.schema_id = s.schema_id where o.type in ('U', 'V') and s.name = "@
        + literal(schema) + " order by o.name"@
}

/// The query for the type of one relation.
pub open spec fn get_relation_sql(
    quoted_database: Seq<char>,
    schema: Seq<char>,
    identifier: Seq<char>,
) -> Seq<char> {
    "select case o.type when 'V' then 'VIEW' else 'TABLE' end as table_type from "@
        + quoted_database + ".sys.objects o with (nolock) join "@ + quoted_database
        + ".sys.schemas s with (nolock) on o.schema_id = s.schema_id where s.name = "@ + literal(
        schema,
    ) + " and o.name = "@ + literal(identifier) + " and o.type in ('U', 'V')"@
}

/// The query for the columns of one relation.
pub open spec fn columns_sql(
    quoted_database: Seq<char>,
    schema: Seq<char>,
    identifier: Seq<char>,
) -> Seq<char> {
    "select c.name collate database_default as column_name, t.name collate database_default as data_type, cast(c.max_length as int) as max_length, cast(c.precision as int) as numeric_precision, cast(c.scale as int) as numeric_scale, case when c.is_nullable = 1 then 'YES' else 'NO' end as is_nullable from "@
        + quoted_database + ".sys.columns c with (nolock) join "@ + quoted_database
        + ".sys.objects o with (nolock) on c.object_id = o.object_id join "@ + quoted_database
        + ".sys.schemas s with (nolock) on o.schema_id = s.schema_id join "@ + quoted_database
        + ".sys.types t with (nolock) on c.user_type_id = t.user_type_id where s.name = "@
        + literal(schema) + " and o.name = "@ + literal(identifier) + " order by c.column_id"@
}

/// The tables and views of a schema, by name.
pub fn build_list_relations_sql(quoted_database: &str, schema: &str) -> (sql: String)
    ensures
        sql@ == list_relations_sql(quoted_database@, schema@),
{
    let mut sql =
        "select s.name as table_schema, o.name as table_name, case o.type when 'V' then 'VIEW' else 'TABLE' end as table_type from ".to_owned();
    sql.append(quoted_database);
    sql.append(".sys.objects o with (nolock) join ");
    sql.append(quoted_database);
    sql.append(
        ".sys.schemas s with (nolock) on o.schema_id = s.schema_id where o.type in ('U', 'V') and s.name = ",
    );
    sql.append(format_str(schema).as_str());
    sql.append(" order by o.name");
    sql
}

/// Relation type of a single object, or no rows when it does not exist.
pub fn build_get_relation_sql(quoted_database: &str, schema: &str, identifier: &str) -> (sql: String)
    ensures
        sql@ == get_relation_sql(quoted_database@, schema@, identifier@),
{
    let mut sql =
        "select case o.type when 'V' then 'VIEW' else 'TABLE' end as table_type from ".to_owned();
    sql.append(quoted_database);
    sql.append(".sys.objects o with (nolock) join ");
    sql.append(quoted_database);
    sql.append(".sys.schemas s with (nolock) on o.schema_id = s.schema_id where s.name = ");
    sql.append(format_str(schema).as_str());
    sql.append(" and o.name = ");
    sql.append(format_str(identifier).as_str());
    sql.append(" and o.type in ('U', 'V')");
    sql
}

/// Columns of a single relation, in ordinal order.
///
/// `max_length`, `precision` and `scale` come back as `smallint` and `tinyint`; the casts make
/// them a single type to read.
pub fn build_columns_sql(quoted_database: &str, schema: &str, identifier: &str) -> (sql: String)
    ensures
        sql@ == columns_sql(quoted_database@, schema@, identifier@),
{
    let mut sql =
        "select c.name collate database_default as column_name, t.name collate database_default as data_type, cast(c.max_length as int) as max_length, cast(c.precision as int) as numeric_precision, cast(c.scale as int) as numeric_scale, case when c.is_nullable = 1 then 'YES' else 'NO' end as is_nullable from ".to_owned();
    sql.append(quoted_database);
    sql.append(".sys.columns c with (nolock) join ");
    sql.append(quoted_database);
    sql.append(".sys.objects o with (nolock) on c.object_id = o.object_id join ");
    sql.append(quoted_database);
    sql.append(".sys.schemas s with (nolock) on o.schema_id = s.schema_id join ");
    sql.append(quoted_database);
    sql.append(".sys.types t with (nolock) on c.user_type_id = t.user_type_id where s.name = ");
    sql.append(format_str(schema).as_str());
    sql.append(" and o.name = ");
    sql.append(format_str(identifier).as_str());
    sql.append(" order by c.column_id");
    sql
}

/// A literal behind a common head, and what follows the literal, can be told from the whole.
proof fn lemma_literal_behind_head(
    head: Seq<char>,
    a: Seq<char>,
    a_rest: Seq<char>,
    b: Seq<char>,
    b_rest: Seq<char>,
)
    requires
        a_rest.len() > 0 && a_rest[0] != '\'',
        b_rest.len() > 0 && b_rest[0] != '\'',
        head + (literal(a) + a_rest) == head + (literal(b) + b_rest),
    ensures
        a == b,
        a_rest == b_rest,
{
    let n = head.len() as int;
    assert((head + (literal(a) + a_rest)).skip(n) =~= literal(a) + a_rest);
    assert((head + (literal(b) + b_rest)).skip(n) =~= literal(b) + b_rest);
    law_literals_read_back(a, a_rest);
    law_literals_read_back(b, b_rest);
}

/// Law: the query for the relations of a schema is about that schema alone.
pub proof fn law_listings_name_their_schema(database: Seq<char>, a: Seq<char>, b: Seq<char>)
    requires
        list_relations_sql(database, a) == list_relations_sql(database, b),
    ensures
        a == b,
{
    let select =
        "select s.name as table_schema, o.name as table_name, case o.type when 'V' then 'VIEW' else 'TABLE' end as table_type from "@;
    let objects = ".sys.objects o with (nolock) join "@;
    let schemas =
        ".sys.schemas s with (nolock) on o.schema_id = s.schema_id where o.type in ('U', 'V') and s.name = "@;
    let end = " order by o.name"@;
    let head = select + database + objects + database + schemas;
    reveal_strlit(" order by o.name");
    assert(list_relations_sql(database, a) =~= head + (literal(a) + end));
    assert(list_relations_sql(database, b) =~= head + (literal(b) + end));
    lemma_literal_behind_head(head, a, end, b, end);
}

/// Law: the query for one relation's type is about the relation of that schema and name alone.
pub proof fn law_lookups_name_their_relation(
    database: Seq<char>,
    a_schema: Seq<char>,
    a: Seq<char>,
    b_schema: Seq<char>,
    b: Seq<char>,
)
    requires
        get_relation_sql(database, a_schema, a) == get_relation_sql(database, b_schema, b),
    ensures
        a_schema == b_schema,
        a == b,
{
    let select = "select case o.type when 'V' then 'VIEW' else 'TABLE' end as table_type from "@;
    let objects = ".sys.objects o with (nolock) join "@;
    let schemas = ".sys.schemas s with (nolock) on o.schema_id = s.schema_id where s.name = "@;
    let name = " and o.name = "@;
    let end = " and o.type in ('U', 'V')"@;
    let head = select + database + objects + database + schemas;
    reveal_strlit(" and o.name = ");
    reveal_strlit(" and o.type in ('U', 'V')");
    let a_rest = name + (literal(a) + end);
    let b_rest = name + (literal(b) + end);
    assert(get_relation_sql(database, a_schema, a) =~= head + (literal(a_schema) + a_rest));
    assert(get_relation_sql(database, b_schema, b) =~= head + (literal(b_schema) + b_rest));
    lemma_literal_behind_head(head, a_schema, a_rest, b_schema, b_rest);
    lemma_literal_behind_head(name, a, end, b, end);
}

/// Law: the query for a relation's columns is about the relation of that schema and name alone.
pub proof fn law_column_queries_name_their_relation(
    database: Seq<char>,
    a_schema: Seq<char>,
    a: Seq<char>,
    b_schema: Seq<char>,
    b: Seq<char>,
)
    requires
        columns_sql(database, a_schema, a) == columns_sql(database, b_schema, b),
    ensures
        a_schema == b_schema,
        a == b,
{
    let select =
        "select c.name collate database_default as column_name, t.name collate database_default as data_type, cast(c.max_length as int) as max_length, cast(c.precision as int) as numeric_precision, cast(c.scale as int) as numeric_scale, case when c.is_nullable = 1 then 'YES' else 'NO' end as is_nullable from "@;
    let columns = ".sys.columns c with (nolock) join "@;
    let objects = ".sys.objects o with (nolock) on c.object_id = o.object_id join "@;
    let schemas = ".sys.schemas s with (nolock) on o.schema_id = s.schema_id join "@;
    let types = ".sys.types t with (nolock) on c.user_type_id = t.user_type_id where s.name = "@;
    let name = " and o.name = "@;
    let end = " order by c.column_id"@;
    let head = select + database + columns + database + objects + database + schemas + database
        + types;
    reveal_strlit(" and o.name = ");
    reveal_strlit(" order by c.column_id");
    let a_rest = name + (literal(a) + end);
    let b_rest = name + (literal(b) + end);
    assert(columns_sql(database, a_schema, a) =~= head + (literal(a_schema) + a_rest));
    assert(columns_sql(database, b_schema, b) =~= head + (literal(b_schema) + b_rest));
    lemma_literal_behind_head(head, a_schema, a_rest, b_schema, b_rest);
    lemma_literal_behind_head(name, a, end, b, end);
}

/// Types whose length is a number of bytes.
pub open spec fn has_byte_length(data_type: Seq<char>) -> bool {
    ||| data_type == "char"@
    ||| data_type == "varchar"@
    ||| data_type == "binary"@
    ||| data_type == "varbinary"@
}

/// Types that store two bytes for a character.
pub open spec fn is_national(data_type: Seq<char>) -> bool {
    data_type == "nchar"@ || data_type == "nvarchar"@
}

/// Types with a precision and a scale.
pub open spec fn is_exact_numeric(data_type: Seq<char>) -> bool {
    data_type == "decimal"@ || data_type == "numeric"@
}

/// Types with a scale alone. `datetime` reports a scale too, but does not accept one.
pub open spec fn has_fractional_seconds(data_type: Seq<char>) -> bool {
    data_type == "datetime2"@ || data_type == "datetimeoffset"@ || data_type == "time"@
}

/// A type with its length, where a negative length is the unlimited one.
pub open spec fn with_length(data_type: Seq<char>, length: int) -> Seq<char> {
    if length < 0 {
        data_type + "(max)"@
    } else {
        data_type + "("@ + decimal(length) + ")"@
    }
}

/// The text with which a column's type was declared, from the row of the catalog.
pub open spec fn type_text(
    data_type: Seq<char>,
    max_length: int,
    precision: int,
    scale: int,
) -> Seq<char> {
    if has_byte_length(data_type) {
        with_length(data_type, max_length)
    } else if is_national(data_type) {
        with_length(
            data_type,
            if max_length < 0 {
                max_length
            } else {
                max_length / 2
            },
        )
    } else if is_exact_numeric(data_type) {
        data_type + "("@ + decimal(precision) + ","@ + decimal(scale) + ")"@
    } else if has_fractional_seconds(data_type) {
        data_type + "("@ + decimal(scale) + ")"@
    } else {
        data_type
    }
}

fn text_with_length(data_type: &str, length: i32) -> (text: String)
    ensures
        text@ == with_length(data_type@, length as int),
{
    let mut text = data_type.to_owned();
    if length < 0 {
        text.append("(max)");
    } else {
        text.append("(");
        text.append(i64_text(length as i64).as_str());
        text.append(")");
    }
    text
}

/// Rebuilds the declared type text from the catalog columns.
///
/// The catalog's type name is the bare one, so `decimal(18,4)` arrives as `decimal` with the
/// precision and the scale in columns of their own.
pub fn compose_type_text(data_type: &str, max_length: i32, precision: i32, scale: i32) -> (text:
    String)
    ensures
        text@ == type_text(data_type@, max_length as int, precision as int, scale as int),
{
    if str_eq(data_type, "char") || str_eq(data_type, "varchar") || str_eq(data_type, "binary")
        || str_eq(data_type, "varbinary") {
        text_with_length(data_type, max_length)
    } else if str_eq(data_type, "nchar") || str_eq(data_type, "nvarchar") {
        if max_length < 0 {
            text_with_length(data_type, max_length)
        } else {
            text_with_length(data_type, max_length / 2)
        }
    } else if str_eq(data_type, "decimal") || str_eq(data_type, "numeric") {
        let mut text = data_type.to_owned();
        text.append("(");
        text.append(i64_text(precision as i64).as_str());
        text.append(",");
        text.append(i64_text(scale as i64).as_str());
        text.append(")");
        text
    } else if str_eq(data_type, "datetime2") || str_eq(data_type, "datetimeoffset") || str_eq(
        data_type,
        "time",
    ) {
        let mut text = data_type.to_owned();
        text.append("(");
        text.append(i64_text(scale as i64).as_str());
        text.append(")");
        text
    } else {
        data_type.to_owned()
    }
}

/// Law: a national type of `n` characters, which the catalog reports with `2 * n` bytes, gets
/// back its `n`.
pub proof fn law_national_lengths_count_characters(
    data_type: Seq<char>,
    n: nat,
    precision: int,
    scale: int,
)
    requires
        is_national(data_type),
    ensures
        type_text(data_type, 2 * n as int, precision, scale) == data_type + "("@ + decimal(n as int)
            + ")"@,
{
    reveal_strlit("char");
    reveal_strlit("varchar");
    reveal_strlit("binary");
    reveal_strlit("varbinary");
    reveal_strlit("nchar");
    reveal_strlit("nvarchar");
    assert("char"@.len() == 4 && "varchar"@.len() == 7 && "binary"@.len() == 6);
    assert("varbinary"@.len() == 9 && "nchar"@.len() == 5 && "nvarchar"@.len() == 8);
}

/// Law: only the length matters to a type with a length, only precision and scale to an exact
/// numeric, only the scale to a type with fractional seconds, and nothing to the others.
pub proof fn law_type_text_depends_on_its_parameters(
    data_type: Seq<char>,
    max_length: int,
    precision: int,
    scale: int,
    other_max_length: int,
    other_precision: int,
    other_scale: int,
)
    requires
        has_byte_length(data_type) || is_national(data_type) ==> max_length == other_max_length,
        is_exact_numeric(data_type) ==> precision == other_precision,
        is_exact_numeric(data_type) || has_fractional_seconds(data_type) ==> scale == other_scale,
    ensures
        type_text(data_type, max_length, precision, scale) == type_text(
            data_type,
            other_max_length,
            other_precision,
            other_scale,
        ),
{
}

/// Law: a type whose length is counted in bytes keeps the number that the catalog reports.
pub proof fn law_byte_lengths_are_kept(data_type: Seq<char>, n: nat, precision: int, scale: int)
    requires
        data_type == "char"@ || data_type == "varchar"@ || data_type == "binary"@ || data_type
            == "varbinary"@,
    ensures
        type_text(data_type, n as int, precision, scale) == data_type + "("@ + decimal(n as int)
            + ")"@,
{
}

proof fn lemma_type_names_differ()
    ensures
        "char"@.len() == 4 && "char"@[0] == 'c',
        "varchar"@.len() == 7 && "varchar"@[0] == 'v',
        "binary"@.len() == 6,
        "varbinary"@.len() == 9 && "varbinary"@[0] == 'v',
        "nchar"@.len() == 5,
        "nvarchar"@.len() == 8,
        "decimal"@.len() == 7 && "decimal"@[0] == 'd',
        "numeric"@.len() == 7 && "numeric"@[0] == 'n',
        "datetime2"@.len() == 9 && "datetime2"@[0] == 'd',
        "datetimeoffset"@.len() == 14,
        "time"@.len() == 4 && "time"@[0] == 't',
{
    reveal_strlit("char");
    reveal_strlit("varchar");
    reveal_strlit("binary");
    reveal_strlit("varbinary");
    reveal_strlit("nchar");
    reveal_strlit("nvarchar");
    reveal_strlit("decimal");
    reveal_strlit("numeric");
    reveal_strlit("datetime2");
    reveal_strlit("datetimeoffset");
    reveal_strlit("time");
}

/// Law: a national type, of two bytes for each character, has half as many characters as the catalog
/// reports bytes.
pub proof fn law_national_lengths_are_halved(
    data_type: Seq<char>,
    bytes: nat,
    precision: int,
    scale: int,
)
    requires
        data_type == "nchar"@ || data_type == "nvarchar"@,
    ensures
        type_text(data_type, bytes as int, precision, scale) == data_type + "("@ + decimal(
            bytes as int / 2,
        ) + ")"@,
{
    lemma_type_names_differ();
}

/// Law: a negative length is the unlimited one, of every type that has a length.
pub proof fn law_negative_lengths_are_unlimited(
    data_type: Seq<char>,
    max_length: int,
    precision: int,
    scale: int,
)
    requires
        max_length < 0,
        data_type == "char"@ || data_type == "varchar"@ || data_type == "binary"@ || data_type
            == "varbinary"@ || data_type == "nchar"@ || data_type == "nvarchar"@,
    ensures
        type_text(data_type, max_length, precision, scale) == data_type + "(max)"@,
{
}

/// Law: an exact numeric is declared with its precision and then its scale.
pub proof fn law_exact_numerics_have_precision_and_scale(
    data_type: Seq<char>,
    max_length: int,
    precision: int,
    scale: int,
)
    requires
        data_type == "decimal"@ || data_type == "numeric"@,
    ensures
        type_text(data_type, max_length, precision, scale) == data_type + "("@ + decimal(precision)
            + ","@ + decimal(scale) + ")"@,
{
    lemma_type_names_differ();
}

/// Law: a time of day, with or without a date or an offset, is declared with its scale alone.
pub proof fn law_times_have_a_scale(
    data_type: Seq<char>,
    max_length: int,
    precision: int,
    scale: int,
)
    requires
        data_type == "datetime2"@ || data_type == "datetimeoffset"@ || data_type == "time"@,
    ensures
        type_text(data_type, max_length, precision, scale) == data_type + "("@ + decimal(scale)
            + ")"@,
{
    lemma_type_names_differ();
}

/// Law: every other type is declared by its name alone.
pub proof fn law_other_types_stand_alone(
    data_type: Seq<char>,
    max_length: int,
    precision: int,
    scale: int,
)
    requires
        !seq![
            "char"@,
            "varchar"@,
            "binary"@,
            "varbinary"@,
            "nchar"@,
            "nvarchar"@,
            "decimal"@,
            "numeric"@,
            "datetime2"@,
            "datetimeoffset"@,
            "time"@,
        ].contains(data_type),
    ensures
        type_text(data_type, max_length, precision, scale) == data_type,
{
    let known = seq![
        "char"@,
        "varchar"@,
        "binary"@,
        "varbinary"@,
        "nchar"@,
        "nvarchar"@,
        "decimal"@,
        "numeric"@,
        "datetime2"@,
        "datetimeoffset"@,
        "time"@,
    ];
    assert(known[0] != data_type && known[1] != data_type && known[2] != data_type && known[3]
        != data_type && known[4] != data_type && known[5] != data_type && known[6] != data_type
        && known[7] != data_type && known[8] != data_type && known[9] != data_type && known[10]
        != data_type);
}

/// Law: a literal holds a text piece by piece. A text without quotes stands in it as it is, and a
/// quote stands in it twice.
pub proof fn law_literals_are_written_piece_by_piece(a: Seq<char>, b: Seq<char>)
    ensures
        literal(a).len() >= 2 && literal(a)[0] == '\'' && literal(a).last() == '\'',
        literal(a + b) == literal(a).drop_last() + literal(b).drop_first(),
        !a.contains('\'') ==> literal(a) == seq!['\''] + a + seq!['\''],
        literal(seq!['\'']) == seq!['\'', '\'', '\'', '\''],
{
    lemma_literal_body_concat(a, b);
    assert(literal(a).drop_last() =~= seq!['\''] + literal_body(a));
    assert(literal(b).drop_first() =~= literal_body(b) + seq!['\'']);
    assert(literal(a + b) =~= literal(a).drop_last() + literal(b).drop_first());
    if !a.contains('\'') {
        lemma_literal_body_without_quotes(a);
    }
    let quote = seq!['\''];
    assert(quote.drop_first() =~= Seq::empty());
    assert(literal_body(quote) =~= seq!['\'', '\'']) by {
        reveal_with_fuel(literal_body, 2);
    }
    assert(literal(quote) =~= seq!['\'', '\'', '\'', '\'']);
}

proof fn lemma_literal_body_concat(a: Seq<char>, b: Seq<char>)
    ensures
        literal_body(a + b) == literal_body(a) + literal_body(b),
    decreases a.len(),
{
    if a.len() == 0 {
        assert(a + b =~= b);
        assert(literal_body(a) + literal_body(b) =~= literal_body(b));
    } else {
        assert((a + b).drop_first() =~= a.drop_first() + b);
        lemma_literal_body_concat(a.drop_first(), b);
        assert(literal_body(a + b) =~= literal_body(a) + literal_body(b));
    }
}

proof fn lemma_literal_body_without_quotes(a: Seq<char>)
    requires
        !a.contains('\''),
    ensures
        literal_body(a) == a,
    decreases a.len(),
{
    if a.len() > 0 {
        assert(a[0] != '\'');
        assert forall|i: int| 0 <= i < a.drop_first().len() implies a.drop_first()[i] != '\'' by {
            assert(a[i + 1] != '\'');
        }
        lemma_literal_body_without_quotes(a.drop_first());
        assert(seq![a[0]] + a.drop_first() =~= a);
    }
}

/// Whether `part` stands somewhere in `text`.
pub open spec fn holds_text(text: Seq<char>, part: Seq<char>) -> bool {
    exists|i: int|
        0 <= i <= text.len() - part.len() && #[trigger] text.subrange(i, i + part.len()) == part
}

proof fn lemma_holds_text(before: Seq<char>, part: Seq<char>, behind: Seq<char>)
    ensures
        holds_text(before + part + behind, part),
{
    let i = before.len() as int;
    assert((before + part + behind).subrange(i, i + part.len()) =~= part);
}

/// Whether every listing is these texts with the database between them and the schema's literal
/// before the last.
pub open spec fn frames_listings(
    select: Seq<char>,
    objects: Seq<char>,
    schemas: Seq<char>,
    end: Seq<char>,
) -> bool {
    forall|database: Seq<char>, schema: Seq<char>| #[trigger]
        list_relations_sql(database, schema) == select + database + objects + database + schemas
            + literal(schema) + end
}

/// Law: two listings differ in the names of database and schema alone: all listings have one frame.
/// The relations are read from the database's own catalog views, and are the tables and views of
/// exactly the schema, in the order of their names.
pub proof fn law_listings_read_the_catalog(database: Seq<char>, schema: Seq<char>)
    ensures
        exists|select: Seq<char>, objects: Seq<char>, schemas: Seq<char>, end: Seq<char>|
            frames_listings(select, objects, schemas, end),
        holds_text(list_relations_sql(database, schema), " from "@ + database + ".sys.objects o "@),
        holds_text(list_relations_sql(database, schema), " join "@ + database + ".sys.schemas s "@),
        holds_text(
            list_relations_sql(database, schema),
            " where o.type in ('U', 'V') and s.name = "@ + literal(schema) + " order by o.name"@,
        ),
{
    let select =
        "select s.name as table_schema, o.name as table_name, case o.type when 'V' then 'VIEW' else 'TABLE' end as table_type from "@;
    let select_list =
        "select s.name as table_schema, o.name as table_name, case o.type when 'V' then 'VIEW' else 'TABLE' end as table_type"@;
    let objects = ".sys.objects o with (nolock) join "@;
    let schemas =
        ".sys.schemas s with (nolock) on o.schema_id = s.schema_id where o.type in ('U', 'V') and s.name = "@;
    let end = " order by o.name"@;
    assert(frames_listings(select, objects, schemas, end));
    reveal_strlit(
        "select s.name as table_schema, o.name as table_name, case o.type when 'V' then 'VIEW' else 'TABLE' end as table_type from ",
    );
    reveal_strlit(
        "select s.name as table_schema, o.name as table_name, case o.type when 'V' then 'VIEW' else 'TABLE' end as table_type",
    );
    reveal_strlit(".sys.objects o with (nolock) join ");
    reveal_strlit(
        ".sys.schemas s with (nolock) on o.schema_id = s.schema_id where o.type in ('U', 'V') and s.name = ",
    );
    reveal_strlit(" from ");
    reveal_strlit(".sys.objects o ");
    reveal_strlit("with (nolock) join ");
    reveal_strlit("with (nolock)");
    reveal_strlit(" join ");
    reveal_strlit(".sys.schemas s ");
    reveal_strlit("with (nolock) on o.schema_id = s.schema_id where o.type in ('U', 'V') and s.name = ");
    reveal_strlit(".sys.schemas s with (nolock) on o.schema_id = s.schema_id");
    reveal_strlit(" where o.type in ('U', 'V') and s.name = ");
    assert(select =~= select_list + " from "@);
    assert(objects =~= ".sys.objects o "@ + "with (nolock) join "@);
    assert("with (nolock) join "@ =~= "with (nolock)"@ + " join "@);
    assert(schemas =~= ".sys.schemas s "@
        + "with (nolock) on o.schema_id = s.schema_id where o.type in ('U', 'V') and s.name = "@);
    assert(schemas =~= ".sys.schemas s with (nolock) on o.schema_id = s.schema_id"@
        + " where o.type in ('U', 'V') and s.name = "@);
    let query = list_relations_sql(database, schema);
    let from = " from "@ + database + ".sys.objects o "@;
    let behind_from = "with (nolock) join "@ + database + schemas + literal(schema) + end;
    assert(query =~= select_list + from + behind_from);
    lemma_holds_text(select_list, from, behind_from);
    let join = " join "@ + database + ".sys.schemas s "@;
    let before_join = select + database + ".sys.objects o "@ + "with (nolock)"@;
    let behind_join =
        "with (nolock) on o.schema_id = s.schema_id where o.type in ('U', 'V') and s.name = "@
        + literal(schema) + end;
    assert(query =~= before_join + join + behind_join);
    lemma_holds_text(before_join, join, behind_join);
    let filter = " where o.type in ('U', 'V') and s.name = "@ + literal(schema) + end;
    let before_filter = select + database + objects + database
        + ".sys.schemas s with (nolock) on o.schema_id = s.schema_id"@;
    assert(query =~= before_filter + filter + Seq::empty());
    lemma_holds_text(before_filter, filter, Seq::empty());
}

/// Whether every lookup is these texts with the names between them.
pub open spec fn frames_lookups(
    select: Seq<char>,
    objects: Seq<char>,
    schemas: Seq<char>,
    name: Seq<char>,
    end: Seq<char>,
) -> bool {
    forall|database: Seq<char>, schema: Seq<char>, identifier: Seq<char>| #[trigger]
        get_relation_sql(database, schema, identifier) == select + database + objects + database
            + schemas + literal(schema) + name + literal(identifier) + end
}

/// Law: two lookups differ in their names alone. A lookup reads the database's own catalog views for
/// the table or view of exactly that schema and exactly that name.
pub proof fn law_lookups_read_the_catalog(
    database: Seq<char>,
    schema: Seq<char>,
    identifier: Seq<char>,
)
    ensures
        exists|
            select: Seq<char>,
            objects: Seq<char>,
            schemas: Seq<char>,
            name: Seq<char>,
            end: Seq<char>,
        |
            frames_lookups(select, objects, schemas, name, end),
        holds_text(
            get_relation_sql(database, schema, identifier),
            " from "@ + database + ".sys.objects o "@,
        ),
        holds_text(
            get_relation_sql(database, schema, identifier),
            " where s.name = "@ + literal(schema) + " and o.name = "@ + literal(identifier)
                + " and o.type in ('U', 'V')"@,
        ),
{
    let select = "select case o.type when 'V' then 'VIEW' else 'TABLE' end as table_type from "@;
    let select_list = "select case o.type when 'V' then 'VIEW' else 'TABLE' end as table_type"@;
    let objects = ".sys.objects o with (nolock) join "@;
    let schemas = ".sys.schemas s with (nolock) on o.schema_id = s.schema_id where s.name = "@;
    let name = " and o.name = "@;
    let end = " and o.type in ('U', 'V')"@;
    assert(frames_lookups(select, objects, schemas, name, end));
    reveal_strlit("select case o.type when 'V' then 'VIEW' else 'TABLE' end as table_type from ");
    reveal_strlit("select case o.type when 'V' then 'VIEW' else 'TABLE' end as table_type");
    reveal_strlit(".sys.objects o with (nolock) join ");
    reveal_strlit(".sys.schemas s with (nolock) on o.schema_id = s.schema_id where s.name = ");
    reveal_strlit(".sys.schemas s with (nolock) on o.schema_id = s.schema_id");
    reveal_strlit(" from ");
    reveal_strlit(".sys.objects o ");
    reveal_strlit("with (nolock) join ");
    reveal_strlit(" where s.name = ");
    assert(select =~= select_list + " from "@);
    assert(objects =~= ".sys.objects o "@ + "with (nolock) join "@);
    assert(schemas =~= ".sys.schemas s with (nolock) on o.schema_id = s.schema_id"@
        + " where s.name = "@);
    let query = get_relation_sql(database, schema, identifier);
    let from = " from "@ + database + ".sys.objects o "@;
    let behind_from = "with (nolock) join "@ + database + schemas + literal(schema) + name + literal(
        identifier,
    ) + end;
    assert(query =~= select_list + from + behind_from);
    lemma_holds_text(select_list, from, behind_from);
    let filter = " where s.name = "@ + literal(schema) + name + literal(identifier) + end;
    let before_filter = select + database + objects + database
        + ".sys.schemas s with (nolock) on o.schema_id = s.schema_id"@;
    assert(query =~= before_filter + filter + Seq::empty());
    lemma_holds_text(before_filter, filter, Seq::empty());
}

/// Whether every query for columns is these texts with the names between them.
pub open spec fn frames_column_queries(
    select: Seq<char>,
    columns: Seq<char>,
    objects: Seq<char>,
    schemas: Seq<char>,
    types: Seq<char>,
    name: Seq<char>,
    end: Seq<char>,
) -> bool {
    forall|database: Seq<char>, schema: Seq<char>, identifier: Seq<char>| #[trigger]
        columns_sql(database, schema, identifier) == select + database + columns + database
            + objects + database + schemas + database + types + literal(schema) + name + literal(
            identifier,
        ) + end
}

/// Law: two queries for columns differ in their names alone. Such a query reads the columns of
/// exactly that schema's relation of exactly that name, in the order in which they were declared.
pub proof fn law_column_queries_read_the_catalog(
    database: Seq<char>,
    schema: Seq<char>,
    identifier: Seq<char>,
)
    ensures
        exists|
            select: Seq<char>,
            columns: Seq<char>,
            objects: Seq<char>,
            schemas: Seq<char>,
            types: Seq<char>,
            name: Seq<char>,
            end: Seq<char>,
        |
            frames_column_queries(select, columns, objects, schemas, types, name, end),
        holds_text(
            columns_sql(database, schema, identifier),
            " where s.name = "@ + literal(schema) + " and o.name = "@ + literal(identifier)
                + " order by c.column_id"@,
        ),
{
    let select =
        "select c.name collate database_default as column_name, t.name collate database_default as data_type, cast(c.max_length as int) as max_length, cast(c.precision as int) as numeric_precision, cast(c.scale as int) as numeric_scale, case when c.is_nullable = 1 then 'YES' else 'NO' end as is_nullable from "@;
    let columns = ".sys.columns c with (nolock) join "@;
    let objects = ".sys.objects o with (nolock) on c.object_id = o.object_id join "@;
    let schemas = ".sys.schemas s with (nolock) on o.schema_id = s.schema_id join "@;
    let types = ".sys.types t with (nolock) on c.user_type_id = t.user_type_id where s.name = "@;
    let name = " and o.name = "@;
    let end = " order by c.column_id"@;
    assert(frames_column_queries(select, columns, objects, schemas, types, name, end));
    reveal_strlit(".sys.types t with (nolock) on c.user_type_id = t.user_type_id where s.name = ");
    reveal_strlit(".sys.types t with (nolock) on c.user_type_id = t.user_type_id");
    reveal_strlit(" where s.name = ");
    assert(types =~= ".sys.types t with (nolock) on c.user_type_id = t.user_type_id"@
        + " where s.name = "@);
    let query = columns_sql(database, schema, identifier);
    let filter = " where s.name = "@ + literal(schema) + name + literal(identifier) + end;
    let before_filter = select + database + columns + database + objects + database + schemas
        + database + ".sys.types t with (nolock) on c.user_type_id = t.user_type_id"@;
    assert(query =~= before_filter + filter + Seq::empty());
    lemma_holds_text(before_filter, filter, Seq::empty());
}

} // verus!
