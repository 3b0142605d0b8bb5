//! Query results: the columns of an Arrow record batch, read as lists of plain values.

use arrow_array::{Array, Int32Array, RecordBatch, StringArray};
use vstd::prelude::*;

use crate::relation::{unexpected, AdapterError, AdapterErrorKind, AdapterFault};

verus! {

/// The number of rows of a batch.
pub uninterp spec fn batch_rows(batch: ResultBatch) -> nat;

/// The columns of UTF-8 strings of a batch, by name. Where several columns share a name, the
/// first of them counts, and where that is of another type, the name has no column here.
pub uninterp spec fn batch_strings(batch: ResultBatch) -> Map<Seq<char>, Seq<Seq<char>>>;

/// The columns of 32-bit integers of a batch, by name, found in the same way.
pub uninterp spec fn batch_ints(batch: ResultBatch) -> Map<Seq<char>, Seq<i32>>;

/// The result of a query: an Arrow [`RecordBatch`].
#[verifier::external_body]
#[derive(Debug)]
pub struct ResultBatch {
    pub record_batch: RecordBatch,
}

/// The contents of a list of strings.
pub open spec fn strings(list: Seq<String>) -> Seq<Seq<char>> {
    Seq::new(list.len(), |i: int| list[i]@)
}

/// [`RecordBatch::num_rows`].
#[verifier::external_body]
pub(crate) fn num_rows(batch: &ResultBatch) -> (n: usize)
    ensures
        n == batch_rows(*batch),
{
    batch.record_batch.num_rows()
}

/// [`RecordBatch::column_by_name`], as a [`StringArray`]: the values of the column, one for each
/// row of the batch. `StringArray::value` does not look at the null mask, so a null has whatever
/// text the array holds in its place.
#[verifier::external_body]
fn string_column(batch: &ResultBatch, name: &str) -> (values: Option<Vec<String>>)
    ensures
        match values {
            Some(list) => batch_strings(*batch).contains_key(name@) && strings(list@)
                == batch_strings(*batch)[name@] && list@.len() == batch_rows(*batch),
            None => !batch_strings(*batch).contains_key(name@),
        },
{
    let column = batch.record_batch.column_by_name(name)?.as_any().downcast_ref::<StringArray>()?;
    Some((0..column.len()).map(|i| column.value(i).to_owned()).collect())
}

/// [`RecordBatch::column_by_name`], as an [`Int32Array`]: the values of the column, one for each
/// row of the batch, nulls read as whatever number the array holds in their place.
#[verifier::external_body]
fn int_column(batch: &ResultBatch, name: &str) -> (values: Option<Vec<i32>>)
    ensures
        match values {
            Some(list) => batch_ints(*batch).contains_key(name@) && list@
                == batch_ints(*batch)[name@] && list@.len() == batch_rows(*batch),
            None => !batch_ints(*batch).contains_key(name@),
        },
{
    let column = batch.record_batch.column_by_name(name)?.as_any().downcast_ref::<Int32Array>()?;
    Some((0..column.len()).map(|i| column.value(i)).collect())
}

/// The error for a column that is not there, or not of the type it has to be.
pub open spec fn bad_column(name: Seq<char>) -> AdapterFault {
    unexpected("The result has no column of the expected type named "@ + name)
}

/// The strings in a column.
pub open spec fn text_column(batch: ResultBatch, name: Seq<char>) -> Result<
    Seq<Seq<char>>,
    AdapterFault,
> {
    if batch_strings(batch).contains_key(name) {
        Ok(batch_strings(batch)[name])
    } else {
        Err(bad_column(name))
    }
}

/// The integers in a column.
pub open spec fn number_column(batch: ResultBatch, name: Seq<char>) -> Result<
    Seq<i32>,
    AdapterFault,
> {
    if batch_ints(batch).contains_key(name) {
        Ok(batch_ints(batch)[name])
    } else {
        Err(bad_column(name))
    }
}

fn bad_column_error(name: &str) -> (e: AdapterError)
    ensures
        e@ == bad_column(name@),
{
    let mut message = "The result has no column of the expected type named ".to_owned();
    message.append(name);
    AdapterError { kind: AdapterErrorKind::UnexpectedResult, message }
}

/// The strings in a column, or the error that names the column.
pub fn string_values(batch: &ResultBatch, name: &str) -> (r: Result<Vec<String>, AdapterError>)
    ensures
        match r {
            Ok(list) => text_column(*batch, name@) == Ok::<Seq<Seq<char>>, AdapterFault>(
                strings(list@),
            ) && list@.len() == batch_rows(*batch),
            Err(e) => text_column(*batch, name@) == Err::<Seq<Seq<char>>, AdapterFault>(e@),
        },
{
    match string_column(batch, name) {
        Some(list) => Ok(list),
        None => Err(bad_column_error(name)),
    }
}

/// The integers in a column, or the error that names the column.
pub fn int_values(batch: &ResultBatch, name: &str) -> (r: Result<Vec<i32>, AdapterError>)
    ensures
        match r {
            Ok(list) => number_column(*batch, name@) == Ok::<Seq<i32>, AdapterFault>(list@)
                && list@.len() == batch_rows(*batch),
            Err(e) => number_column(*batch, name@) == Err::<Seq<i32>, AdapterFault>(e@),
        },
{
    match int_column(batch, name) {
        Some(list) => Ok(list),
        None => Err(bad_column_error(name)),
    }
}

/// Law: a column that is there, with values of the type asked for, is read as it is; any other is
/// refused, with an error that names it.
pub proof fn law_columns_are_read_as_they_are(batch: ResultBatch, name: Seq<char>)
    ensures
        batch_strings(batch).contains_key(name) ==> text_column(batch, name) == Ok::<
            Seq<Seq<char>>,
            AdapterFault,
        >(batch_strings(batch)[name]),
        batch_ints(batch).contains_key(name) ==> number_column(batch, name) == Ok::<
            Seq<i32>,
            AdapterFault,
        >(batch_ints(batch)[name]),
        !batch_strings(batch).contains_key(name) ==> text_column(batch, name) == Err::<
            Seq<Seq<char>>,
            AdapterFault,
        >(bad_column(name)),
        !batch_ints(batch).contains_key(name) ==> number_column(batch, name) == Err::<
            Seq<i32>,
            AdapterFault,
        >(bad_column(name)),
        bad_column(name).kind == AdapterErrorKind::UnexpectedResult,
        bad_column(name).message.len() >= name.len() && bad_column(name).message.skip(
            bad_column(name).message.len() - name.len(),
        ) == name,
{
    let message = bad_column(name).message;
    assert(message.skip(message.len() - name.len()) =~= name);
}

} // verus!
