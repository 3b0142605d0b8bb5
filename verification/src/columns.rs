//! The schema of a relation, from the rows of the query for its columns.

use arrow_schema::{Field, Schema};
use std::sync::Arc;
use vstd::prelude::*;

use crate::batch::{
    bad_column, batch_ints, batch_rows, batch_strings, int_values, num_rows, number_column,
    string_values, text_column, ResultBatch,
};
use crate::relation::{AdapterError, AdapterFault};
use crate::sql::{compose_type_text, type_text};
use crate::text::str_eq;

verus! {

#[verifier::external_type_specification]
#[verifier::external_body]
pub struct ExField(Field);

#[verifier::external_type_specification]
#[verifier::external_body]
pub struct ExSchema(Schema);

/// The fields of a schema.
pub uninterp spec fn schema_fields(schema: Schema) -> Seq<Field>;

/// The metadata of a schema.
pub uninterp spec fn schema_metadata(schema: Schema) -> Map<Seq<char>, Seq<char>>;

/// [`Schema::new`]: a schema with these fields, in their order, and without metadata.
#[verifier::external_body]
fn new_schema(fields: Vec<Field>) -> (schema: Schema)
    ensures
        schema_fields(schema) == fields@,
        schema_metadata(schema).dom() == Set::<Seq<char>>::empty(),
{
    Schema::new(fields)
}

/// A column of a relation, with its type as it was declared.
#[derive(Debug)]
pub struct ColumnField {
    pub name: String,
    pub type_text: String,
    pub nullable: bool,
}

/// The content of a [`ColumnField`].
pub struct ColumnFieldView {
    pub name: Seq<char>,
    pub type_text: Seq<char>,
    pub nullable: bool,
}

impl View for ColumnField {
    type V = ColumnFieldView;

    open spec fn view(&self) -> ColumnFieldView {
        ColumnFieldView {
            name: self.name@,
            type_text: self.type_text@,
            nullable: self.nullable,
        }
    }
}

pub open spec fn column_fields_view(columns: Seq<ColumnField>) -> Seq<ColumnFieldView> {
    Seq::new(columns.len(), |i: int| columns[i]@)
}

/// The columns in a result of the query for them, or the first column that the result lacks.
pub open spec fn column_fields(batch: ResultBatch) -> Result<Seq<ColumnFieldView>, AdapterFault> {
    match text_column(batch, "column_name"@) {
        Err(e) => Err(e),
        Ok(names) => match text_column(batch, "data_type"@) {
            Err(e) => Err(e),
            Ok(types) => match number_column(batch, "max_length"@) {
                Err(e) => Err(e),
                Ok(lengths) => match number_column(batch, "numeric_precision"@) {
                    Err(e) => Err(e),
                    Ok(precisions) => match number_column(batch, "numeric_scale"@) {
                        Err(e) => Err(e),
                        Ok(scales) => match text_column(batch, "is_nullable"@) {
                            Err(e) => Err(e),
                            Ok(nullability) => Ok(
                                Seq::new(
                                    batch_rows(batch),
                                    |i: int|
                                        ColumnFieldView {
                                            name: names[i],
                                            type_text: type_text(
                                                types[i],
                                                lengths[i] as int,
                                                precisions[i] as int,
                                                scales[i] as int,
                                            ),
                                            nullable: nullability[i] == "YES"@,
                                        },
                                ),
                            ),
                        },
                    },
                },
            },
        },
    }
}

/// The columns in a result of the query for them.
pub fn read_column_fields(batch: &ResultBatch) -> (r: Result<Vec<ColumnField>, AdapterError>)
    ensures
        match r {
            Ok(columns) => column_fields(*batch) == Ok::<Seq<ColumnFieldView>, AdapterFault>(
                column_fields_view(columns@),
            ),
            Err(e) => column_fields(*batch) == Err::<Seq<ColumnFieldView>, AdapterFault>(e@),
        },
{
    let names = match string_values(batch, "column_name") {
        Ok(list) => list,
        Err(e) => return Err(e),
    };
    let types = match string_values(batch, "data_type") {
        Ok(list) => list,
        Err(e) => return Err(e),
    };
    let lengths = match int_values(batch, "max_length") {
        Ok(list) => list,
        Err(e) => return Err(e),
    };
    let precisions = match int_values(batch, "numeric_precision") {
        Ok(list) => list,
        Err(e) => return Err(e),
    };
    let scales = match int_values(batch, "numeric_scale") {
        Ok(list) => list,
        Err(e) => return Err(e),
    };
    let nullability = match string_values(batch, "is_nullable") {
        Ok(list) => list,
        Err(e) => return Err(e),
    };
    let ghost expected = column_fields(*batch)->Ok_0;
    let n: usize = num_rows(batch);
    let mut columns: Vec<ColumnField> = Vec::new();
    let mut i: usize = 0;
    while i < n
        invariant
            i <= n,
            columns@.len() == i,
            names@.len() == n,
            types@.len() == n,
            lengths@.len() == n,
            precisions@.len() == n,
            scales@.len() == n,
            nullability@.len() == n,
            expected.len() == n,
            forall|k: int|
                0 <= k < n ==> #[trigger] expected[k] == (ColumnFieldView {
                    name: names@[k]@,
                    type_text: type_text(
                        types@[k]@,
                        lengths@[k] as int,
                        precisions@[k] as int,
                        scales@[k] as int,
                    ),
                    nullable: nullability@[k]@ == "YES"@,
                }),
            forall|k: int| 0 <= k < i ==> (#[trigger] columns@[k])@ == expected[k],
        decreases n - i,
    {
        let column = ColumnField {
            name: names[i].clone(),
            type_text: compose_type_text(types[i].as_str(), lengths[i], precisions[i], scales[i]),
            nullable: str_eq(nullability[i].as_str(), "YES"),
        };
        assert(column@ == expected[i as int]);
        columns.push(column);
        i += 1;
    }
    assert(column_fields_view(columns@) =~= expected);
    Ok(columns)
}

/// Whether making a field of each column gave `fields`.
pub open spec fn all_made<F: Fn(&ColumnField) -> Result<Field, AdapterError>>(
    make_field: F,
    columns: Seq<ColumnField>,
    fields: Seq<Field>,
) -> bool {
    fields.len() == columns.len() && forall|i: int|
        0 <= i < columns.len() ==> call_ensures(
            make_field,
            (&columns[i],),
            Ok::<Field, AdapterError>(#[trigger] fields[i]),
        )
}

/// Whether the columns before the place `fields.len()` gave `fields` and the column there gave
/// the error.
pub open spec fn made_up_to_error<F: Fn(&ColumnField) -> Result<Field, AdapterError>>(
    make_field: F,
    columns: Seq<ColumnField>,
    fields: Seq<Field>,
    e: AdapterError,
) -> bool {
    &&& fields.len() < columns.len()
    &&& all_made(make_field, columns.take(fields.len() as int), fields)
    &&& call_ensures(
        make_field,
        (&columns[fields.len() as int],),
        Err::<Field, AdapterError>(e),
    )
}

/// Whether `made` is what comes of making a field of each column in turn, up to the first error.
pub open spec fn are_made<F: Fn(&ColumnField) -> Result<Field, AdapterError>>(
    make_field: F,
    columns: Seq<ColumnField>,
    made: Result<Seq<Field>, AdapterError>,
) -> bool {
    match made {
        Ok(fields) => all_made(make_field, columns, fields),
        Err(e) => exists|fields: Seq<Field>| #[trigger]
            made_up_to_error(make_field, columns, fields, e),
    }
}

/// Makes a field of each column, up to the first error.
pub fn make_fields<F: Fn(&ColumnField) -> Result<Field, AdapterError>>(
    columns: &Vec<ColumnField>,
    make_field: F,
) -> (r: Result<Vec<Field>, AdapterError>)
    requires
        forall|i: int|
            0 <= i < columns@.len() ==> call_requires(make_field, (#[trigger] &columns@[i],)),
    ensures
        match r {
            Ok(fields) => are_made(make_field, columns@, Ok(fields@)),
            Err(e) => are_made(make_field, columns@, Err(e)),
        },
{
    let mut fields: Vec<Field> = Vec::new();
    let mut i: usize = 0;
    while i < columns.len()
        invariant
            i <= columns.len(),
            fields@.len() == i,
            forall|k: int|
                0 <= k < columns@.len() ==> call_requires(make_field, (#[trigger] &columns@[k],)),
            forall|k: int|
                0 <= k < i ==> call_ensures(
                    make_field,
                    (&columns@[k],),
                    Ok::<Field, AdapterError>(#[trigger] fields@[k]),
                ),
        decreases columns.len() - i,
    {
        match make_field(&columns[i]) {
            Ok(field) => {
                fields.push(field);
            },
            Err(e) => {
                proof {
                    assert(made_up_to_error(make_field, columns@, fields@, e));
                }
                return Err(e);
            },
        }
        i += 1;
    }
    Ok(fields)
}

/// Whether `r` is the schema that `make_field` gives of the columns in a result.
pub open spec fn is_schema_of<F: Fn(&ColumnField) -> Result<Field, AdapterError>>(
    batch: ResultBatch,
    make_field: F,
    r: Result<Arc<Schema>, AdapterError>,
) -> bool {
    match column_fields(batch) {
        Err(fault) => r matches Err(e) && e@ == fault,
        Ok(views) => exists|columns: Seq<ColumnField>, made: Result<Seq<Field>, AdapterError>|
            {
                &&& column_fields_view(columns) == views
                &&& #[trigger] are_made(make_field, columns, made)
                &&& match made {
                    Ok(fields) => r matches Ok(schema) && schema_fields(*schema) == fields
                        && schema_metadata(*schema).dom() == Set::<Seq<char>>::empty(),
                    Err(e) => r == Err::<Arc<Schema>, AdapterError>(e),
                }
            },
    }
}

/// Whether a column is among those in a result of the query for them.
pub open spec fn is_column_of(batch: ResultBatch, column: ColumnFieldView) -> bool {
    column_fields(batch) matches Ok(columns) && columns.contains(column)
}

/// The schema of a relation: `make_field` turns each column, with its declared type, into a
/// field, and the first error that it gives is the result.
pub fn build_schema_from_columns<F: Fn(&ColumnField) -> Result<Field, AdapterError>>(
    columns_result: &ResultBatch,
    make_field: F,
) -> (r: Result<Arc<Schema>, AdapterError>)
    requires
        forall|column: &ColumnField|
            is_column_of(*columns_result, column@) ==> #[trigger] call_requires(
                make_field,
                (column,),
            ),
    ensures
        is_schema_of(*columns_result, make_field, r),
{
    let columns = match read_column_fields(columns_result) {
        Ok(columns) => columns,
        Err(e) => return Err(e),
    };
    proof {
        assert forall|i: int| 0 <= i < columns@.len() implies call_requires(
            make_field,
            (#[trigger] &columns@[i],),
        ) by {
            assert(column_fields_view(columns@)[i] == columns@[i]@);
        }
    }
    match make_fields(&columns, make_field) {
        Ok(fields) => {
            assert(are_made(make_field, columns@, Ok(fields@)));
            Ok(Arc::new(new_schema(fields)))
        },
        Err(e) => {
            assert(are_made(make_field, columns@, Err(e)));
            Err(e)
        },
    }
}

/// Law: each row of a result is one column, in the order of the rows. Its name is the text of
/// `column_name`, it takes nulls exactly where `is_nullable` says `YES`, and its type is declared
/// with the name, length, precision and scale of its own row.
pub proof fn law_columns_come_from_their_rows(
    batch: ResultBatch,
    columns: Seq<ColumnField>,
    i: int,
)
    requires
        column_fields(batch) == Ok::<Seq<ColumnFieldView>, AdapterFault>(
            column_fields_view(columns),
        ),
        0 <= i < batch_rows(batch),
    ensures
        columns.len() == batch_rows(batch),
        columns[i].name@ == batch_strings(batch)["column_name"@][i],
        columns[i].nullable <==> batch_strings(batch)["is_nullable"@][i] == "YES"@,
        columns[i].type_text@ == type_text(
            batch_strings(batch)["data_type"@][i],
            batch_ints(batch)["max_length"@][i] as int,
            batch_ints(batch)["numeric_precision"@][i] as int,
            batch_ints(batch)["numeric_scale"@][i] as int,
        ),
{
    let views = column_fields_view(columns);
    assert(views.len() == batch_rows(batch));
    assert(views[i] == columns[i]@);
}

/// Law: the columns can be read exactly where all six columns of the result are there, with or
/// without rows; otherwise the first that is missing is named.
pub proof fn law_no_column_of_the_result_may_be_missing(batch: ResultBatch)
    ensures
        column_fields(batch) is Ok <==> batch_strings(batch).contains_key("column_name"@)
            && batch_strings(batch).contains_key("data_type"@) && batch_ints(batch).contains_key(
            "max_length"@,
        ) && batch_ints(batch).contains_key("numeric_precision"@) && batch_ints(batch).contains_key(
            "numeric_scale"@,
        ) && batch_strings(batch).contains_key("is_nullable"@),
        column_fields(batch) matches Err(fault) ==> fault == bad_column(
            if !batch_strings(batch).contains_key("column_name"@) {
                "column_name"@
            } else if !batch_strings(batch).contains_key("data_type"@) {
                "data_type"@
            } else if !batch_ints(batch).contains_key("max_length"@) {
                "max_length"@
            } else if !batch_ints(batch).contains_key("numeric_precision"@) {
                "numeric_precision"@
            } else if !batch_ints(batch).contains_key("numeric_scale"@) {
                "numeric_scale"@
            } else {
                "is_nullable"@
            },
        ),
{
}

/// Law: a schema has one field for each row, in the order of the rows, and the field at a place is
/// one that `make_field` gave for the column in that row. It has no metadata.
pub proof fn law_schemas_have_the_fields_of_their_rows<
    F: Fn(&ColumnField) -> Result<Field, AdapterError>,
>(batch: ResultBatch, make_field: F, schema: Arc<Schema>, i: int)
    requires
        is_schema_of(batch, make_field, Ok(schema)),
        0 <= i < batch_rows(batch),
    ensures
        schema_fields(*schema).len() == batch_rows(batch),
        schema_metadata(*schema).dom() == Set::<Seq<char>>::empty(),
        exists|column: ColumnField|
            {
                &&& column.name@ == batch_strings(batch)["column_name"@][i]
                &&& column.nullable <==> batch_strings(batch)["is_nullable"@][i] == "YES"@
                &&& column.type_text@ == type_text(
                    batch_strings(batch)["data_type"@][i],
                    batch_ints(batch)["max_length"@][i] as int,
                    batch_ints(batch)["numeric_precision"@][i] as int,
                    batch_ints(batch)["numeric_scale"@][i] as int,
                )
                &&& #[trigger] call_ensures(
                    make_field,
                    (&column,),
                    Ok::<Field, AdapterError>(schema_fields(*schema)[i]),
                )
            },
{
    let views = column_fields(batch)->Ok_0;
    let (columns, made) = choose|columns: Seq<ColumnField>, made: Result<Seq<Field>, AdapterError>|
        {
            &&& column_fields_view(columns) == views
            &&& #[trigger] are_made(make_field, columns, made)
            &&& match made {
                Ok(fields) => schema_fields(*schema) == fields && schema_metadata(*schema).dom()
                    == Set::<Seq<char>>::empty(),
                Err(_) => false,
            }
        };
    law_columns_come_from_their_rows(batch, columns, i);
    assert(schema_fields(*schema)[i] == made->Ok_0[i]);
    assert(call_ensures(
        make_field,
        (&columns[i],),
        Ok::<Field, AdapterError>(schema_fields(*schema)[i]),
    ));
}

/// Law: where the columns are there and `make_field` refuses none of them, there is a schema; and an
/// error is either the one for a missing column or one that `make_field` gave for a column of the
/// result.
pub proof fn law_schemas_fail_for_a_reason<F: Fn(&ColumnField) -> Result<Field, AdapterError>>(
    batch: ResultBatch,
    make_field: F,
    r: Result<Arc<Schema>, AdapterError>,
)
    requires
        is_schema_of(batch, make_field, r),
    ensures
        r matches Err(e) ==> (match column_fields(batch) {
            Err(fault) => e.kind == fault.kind && e.message@ == fault.message,
            Ok(views) => exists|column: ColumnField|
                views.contains(column@) && #[trigger] call_ensures(
                    make_field,
                    (&column,),
                    Err::<Field, AdapterError>(e),
                ),
        }),
        column_fields(batch) is Err ==> r is Err,
{
    if r is Err && column_fields(batch) is Ok {
        let e = r->Err_0;
        let views = column_fields(batch)->Ok_0;
        let (columns, made) = choose|
            columns: Seq<ColumnField>,
            made: Result<Seq<Field>, AdapterError>,
        |
            {
                &&& column_fields_view(columns) == views
                &&& #[trigger] are_made(make_field, columns, made)
                &&& match made {
                    Ok(_) => false,
                    Err(error) => error == e,
                }
            };
        let fields = choose|fields: Seq<Field>| #[trigger]
            made_up_to_error(make_field, columns, fields, e);
        let i = fields.len() as int;
        assert(views[i] == columns[i]@);
        assert(views.contains(columns[i]@));
        assert(call_ensures(make_field, (&columns[i],), Err::<Field, AdapterError>(e)));
    }
}

} // verus!
