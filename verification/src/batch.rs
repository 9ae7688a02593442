//! Record batches: the tabular form in which listings leave the library.
//!
//! The batches, their columns and the builders of columns are those of the
//! `arrow` crate. The functions that call into it are marked as trusted: what
//! they state of `arrow` is believed, not proved.

use vstd::prelude::*;
use vstd::utf8::encode_utf8;
use std::sync::Arc;
use arrow::array::{
    ArrayRef, BooleanArray, Int64Builder, StringArray, StringBuilder, StructArray,
};
use arrow::datatypes::{DataType, Field, Schema};
use arrow::error::ArrowError;
use arrow::record_batch::RecordBatch;
use crate::catalog::texts;

verus! {

/// A record batch of `arrow`: columns of equal length under a schema.
#[verifier::external_body]
pub struct Batch {
    pub inner: RecordBatch,
}

/// A column of `arrow` that was built and no longer changes.
#[verifier::external_body]
pub struct Column {
    inner: ArrayRef,
}

/// A `StringBuilder` of `arrow`: a column of text that grows at its end.
#[verifier::external_body]
#[derive(Debug)]
pub struct TextColumnBuilder {
    inner: StringBuilder,
}

/// An `Int64Builder` of `arrow`: a column of 64-bit integers and nulls that
/// grows at its end.
#[verifier::external_body]
#[derive(Debug)]
pub struct NumberColumnBuilder {
    inner: Int64Builder,
}

/// `arrow::error::ArrowError`: why `arrow` refused to build a value.
#[verifier::external_type_specification]
#[verifier::external_body]
pub struct ExArrowError(ArrowError);

/// The names of the columns of a batch, in the order of its schema.
pub uninterp spec fn batch_column_names(batch: Batch) -> Seq<Seq<char>>;

/// For each column of a batch, whether its schema allows nulls in it.
pub uninterp spec fn batch_nullable(batch: Batch) -> Seq<bool>;

/// The columns of a batch that hold text, each under its position, from the
/// first row to the last.
pub uninterp spec fn batch_text_columns(batch: Batch) -> Map<int, Seq<Seq<char>>>;

/// The columns of a batch that hold booleans, each under its position.
pub uninterp spec fn batch_flag_columns(batch: Batch) -> Map<int, Seq<bool>>;

/// The columns of a batch that hold 64-bit integers or nulls, each under its
/// position.
pub uninterp spec fn batch_number_columns(batch: Batch) -> Map<int, Seq<Option<i64>>>;

/// The texts that a builder holds, from the first that was appended to the last.
pub uninterp spec fn text_builder_values(builder: TextColumnBuilder) -> Seq<Seq<char>>;

/// The integers and nulls that a builder holds, from the first that was
/// appended to the last.
pub uninterp spec fn number_builder_values(builder: NumberColumnBuilder) -> Seq<Option<i64>>;

/// The texts of a column, if it holds text and no null.
pub uninterp spec fn column_texts(column: Column) -> Option<Seq<Seq<char>>>;

/// The integers and nulls of a column, if it holds 64-bit integers.
pub uninterp spec fn column_numbers(column: Column) -> Option<Seq<Option<i64>>>;

/// The number of bytes that the given texts take together in UTF-8.
pub open spec fn text_bytes(values: Seq<Seq<char>>) -> nat
    decreases values.len(),
{
    if values.len() == 0 {
        0
    } else {
        text_bytes(values.drop_last()) + encode_utf8(values.last()).len()
    }
}

/// Whether the given texts fit into one column of text: a column addresses
/// its bytes with 32-bit offsets.
pub open spec fn fits_text_column(values: Seq<Seq<char>>) -> bool {
    text_bytes(values) <= i32::MAX
}

/// The first texts of a sequence take no more bytes than all of them.
pub proof fn lemma_text_bytes_prefix(values: Seq<Seq<char>>, n: int)
    requires
        0 <= n <= values.len(),
    ensures
        text_bytes(values.take(n)) <= text_bytes(values),
    decreases values.len(),
{
    if n < values.len() {
        assert(values.drop_last().take(n) =~= values.take(n));
        lemma_text_bytes_prefix(values.drop_last(), n);
    } else {
        assert(values.take(n) =~= values);
    }
}

/// Calls `ArrowError::to_string`. Nothing is claimed of the text.
#[verifier::external_body]
pub(crate) fn arrow_error_text(error: &ArrowError) -> (text: String) {
    error.to_string()
}

/// Calls `StringArray::from` and `RecordBatch::try_new` with one column of text
/// that allows no null.
///
/// The first call panics if the texts do not fit into one column. Claims that
/// the second call succeeds, as there is one field for one column, and that
/// the batch holds that column under the given name, with a schema that
/// allows no null in it.
#[verifier::external_body]
pub(crate) fn text_batch(field: &str, values: &Vec<String>) -> (res: Result<Batch, ArrowError>)
    requires
        fits_text_column(texts(values@)),
    ensures
        res.is_ok(),
        res matches Ok(batch) ==> batch_column_names(batch) == seq![field@],
        res matches Ok(batch) ==> batch_nullable(batch) == seq![false],
        res matches Ok(batch) ==> batch_text_columns(batch) == map![0int => texts(values@)],
        res matches Ok(batch) ==> batch_flag_columns(batch).dom() == Set::<int>::empty(),
        res matches Ok(batch) ==> batch_number_columns(batch).dom() == Set::<int>::empty(),
{
    let schema = Schema::new(vec![Field::new(field, DataType::Utf8, false)]);
    let values: Vec<&str> = values.iter().map(|s| s.as_str()).collect();
    let column: ArrayRef = Arc::new(StringArray::from(values));
    RecordBatch::try_new(Arc::new(schema), vec![column]).map(|inner| Batch { inner })
}

/// Calls `StringArray::from`, `BooleanArray::from` and `RecordBatch::try_new`
/// with a column of text and a column of booleans, neither of which allows a
/// null.
///
/// The first call panics if the texts do not fit into one column. Claims that
/// the last call succeeds if and only if the two columns have the same length,
/// and that the batch then holds the two columns under the given names, with
/// a schema that allows no null in either.
#[verifier::external_body]
pub(crate) fn text_and_flag_batch(
    text_field: &str,
    values: &Vec<String>,
    flag_field: &str,
    flags: &Vec<bool>,
) -> (res: Result<Batch, ArrowError>)
    requires
        fits_text_column(texts(values@)),
    ensures
        res.is_ok() <==> values@.len() == flags@.len(),
        res matches Ok(batch) ==> batch_column_names(batch) == seq![text_field@, flag_field@],
        res matches Ok(batch) ==> batch_nullable(batch) == seq![false, false],
        res matches Ok(batch) ==> batch_text_columns(batch) == map![0int => texts(values@)],
        res matches Ok(batch) ==> batch_flag_columns(batch) == map![1int => flags@],
        res matches Ok(batch) ==> batch_number_columns(batch).dom() == Set::<int>::empty(),
{
    let schema = Schema::new(
        vec![
            Field::new(text_field, DataType::Utf8, false),
            Field::new(flag_field, DataType::Boolean, false),
        ],
    );
    let values: Vec<&str> = values.iter().map(|s| s.as_str()).collect();
    let texts: ArrayRef = Arc::new(StringArray::from(values));
    let flags: ArrayRef = Arc::new(BooleanArray::from(flags.clone()));
    RecordBatch::try_new(Arc::new(schema), vec![texts, flags]).map(|inner| Batch { inner })
}

/// Calls `StringBuilder::new`. The new builder holds nothing.
#[verifier::external_body]
pub(crate) fn new_text_builder() -> (builder: TextColumnBuilder)
    ensures
        text_builder_values(builder) == Seq::<Seq<char>>::empty(),
{
    TextColumnBuilder { inner: StringBuilder::new() }
}

/// Calls `StringBuilder::values_slice` and takes the length of the slice: the
/// number of bytes of the texts that the builder holds.
#[verifier::external_body]
pub(crate) fn text_builder_bytes(builder: &TextColumnBuilder) -> (n: usize)
    ensures
        n == text_bytes(text_builder_values(*builder)),
{
    builder.inner.values_slice().len()
}

/// Calls `StringBuilder::append_value`, which puts the text at the end of the
/// builder. It panics if the texts then no longer fit into one column.
#[verifier::external_body]
pub(crate) fn append_text(builder: &mut TextColumnBuilder, value: &str)
    requires
        fits_text_column(text_builder_values(*old(builder)).push(value@)),
    ensures
        text_builder_values(*final(builder)) == text_builder_values(*old(builder)).push(value@),
{
    builder.inner.append_value(value);
}

/// Calls `StringBuilder::finish`, which builds a column of the texts that the
/// builder holds and leaves the builder empty. The column has no null, as none
/// was appended.
#[verifier::external_body]
pub(crate) fn finish_text(builder: &mut TextColumnBuilder) -> (column: Column)
    ensures
        column_texts(column) == Some(text_builder_values(*old(builder))),
        text_builder_values(*final(builder)) == Seq::<Seq<char>>::empty(),
{
    Column { inner: Arc::new(builder.inner.finish()) }
}

/// Calls `Int64Builder::new`. The new builder holds nothing.
#[verifier::external_body]
pub(crate) fn new_number_builder() -> (builder: NumberColumnBuilder)
    ensures
        number_builder_values(builder) == Seq::<Option<i64>>::empty(),
{
    NumberColumnBuilder { inner: Int64Builder::new() }
}

/// Calls `Int64Builder::append_option`, which puts the integer, or a null for
/// `None`, at the end of the builder.
#[verifier::external_body]
pub(crate) fn append_number(builder: &mut NumberColumnBuilder, value: Option<i64>)
    ensures
        number_builder_values(*final(builder)) == number_builder_values(*old(builder)).push(value),
{
    builder.inner.append_option(value);
}

/// Calls `Int64Builder::finish`, which builds a column of what the builder
/// holds and leaves the builder empty.
#[verifier::external_body]
pub(crate) fn finish_numbers(builder: &mut NumberColumnBuilder) -> (column: Column)
    ensures
        column_numbers(column) == Some(number_builder_values(*old(builder))),
        number_builder_values(*final(builder)) == Seq::<Option<i64>>::empty(),
{
    Column { inner: Arc::new(builder.inner.finish()) }
}

/// Calls `StructArray::from` with two columns of text that allow no null and a
/// column of integers that does, and `RecordBatch::from` with the result.
///
/// The first call panics if a column does not hold what its field says, or if
/// the columns differ in length. Claims that the batch holds the three columns
/// under the given names, with a schema that allows nulls in the last only.
#[verifier::external_body]
pub(crate) fn policy_batch(
    fields: (&str, &str, &str),
    databases: Column,
    names: Column,
    durations: Column,
) -> (batch: Batch)
    requires
        column_texts(databases).is_some(),
        column_texts(names).is_some(),
        column_numbers(durations).is_some(),
        column_texts(databases).unwrap().len() == column_texts(names).unwrap().len(),
        column_texts(names).unwrap().len() == column_numbers(durations).unwrap().len(),
    ensures
        batch_column_names(batch) == seq![fields.0@, fields.1@, fields.2@],
        batch_nullable(batch) == seq![false, false, true],
        batch_text_columns(batch) == map![
            0int => column_texts(databases).unwrap(),
            1int => column_texts(names).unwrap(),
        ],
        batch_flag_columns(batch).dom() == Set::<int>::empty(),
        batch_number_columns(batch) == map![2int => column_numbers(durations).unwrap()],
{
    let columns = StructArray::from(
        vec![
            (Arc::new(Field::new(fields.0, DataType::Utf8, false)), databases.inner),
            (Arc::new(Field::new(fields.1, DataType::Utf8, false)), names.inner),
            (Arc::new(Field::new(fields.2, DataType::Int64, true)), durations.inner),
        ],
    );
    Batch { inner: RecordBatch::from(&columns) }
}

} // verus!
