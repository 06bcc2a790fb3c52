//! Handing a batch to the columnar file writer, column by column in
//! declared order.

use crate::batch::kinds_of;
use crate::batch::ColumnBatch;
use crate::column::bytes_views;
use crate::column::Column;
use crate::column::ColumnKind;
use crate::column::ColumnView;
use crate::error::ErrorKind;
use crate::schema::is_message_type;
use crate::schema::Output;
use crate::schema::Report;
use parquet::basic::Type as PhysicalType;
use parquet::data_type::BoolType;
use parquet::data_type::ByteArray;
use parquet::data_type::ByteArrayType;
use parquet::data_type::Int32Type;
use parquet::data_type::Int64Type;
use parquet::errors::ParquetError;
use parquet::file::properties::WriterProperties;
use parquet::file::writer::SerializedFileWriter;
use parquet::file::writer::SerializedRowGroupWriter;
use parquet::schema::parser::parse_message_type;
use std::sync::Arc;
use vstd::prelude::*;

verus! {

/// The error type of the `parquet` crate.
#[verifier::external_type_specification]
#[verifier::external_body]
pub struct ExParquetError(ParquetError);

/// A `parquet` file writer that writes into memory. It is kept opaque: the
/// crate's `SerializedFileWriter` is bounded by `std::io::Write`, which
/// cannot be declared to the verifier.
#[verifier::external_body]
pub struct FileSink {
    inner: SerializedFileWriter<Vec<u8>>,
}

/// The `parquet` row group writer of a [`FileSink`], opaque for the same
/// reason. It borrows the file writer until it is closed.
#[verifier::external_body]
pub struct GroupSink<'a> {
    inner: SerializedRowGroupWriter<'a, Vec<u8>>,
}

/// Whether the `parquet` crate makes a file writer for a message type:
/// whether it parses the text and accepts the schema.
pub uninterp spec fn message_opens(text: Seq<char>) -> bool;

/// The physical types of the leaf columns that the `parquet` crate reads
/// out of a message type, in schema order; `None` stands for a physical
/// type that no [`ColumnKind`] names.
pub uninterp spec fn message_kinds(text: Seq<char>) -> Seq<Option<ColumnKind>>;

/// Whether a row group writer for a message type writes and closes
/// `column` as its next column, once it holds the columns `before`.
pub uninterp spec fn column_takes(
    text: Seq<char>,
    before: Seq<ColumnView>,
    column: ColumnView,
) -> bool;

/// Whether a row group writer for a message type closes once it holds
/// `columns`.
pub uninterp spec fn group_closes(text: Seq<char>, columns: Seq<ColumnView>) -> bool;

/// The bytes that a file writer for a message type hands back when it is
/// finished, holding one closed row group of `columns` or, for `None`, no
/// row group; no bytes where finishing fails.
pub uninterp spec fn parquet_file(text: Seq<char>, columns: Option<Seq<ColumnView>>) -> Option<
    Seq<u8>,
>;

/// The message type a file writer was opened with.
pub uninterp spec fn file_text(file: FileSink) -> Seq<char>;

/// Whether a file writer is free of unfinished work: no row group writer
/// of it was left unclosed or failed to close.
pub uninterp spec fn file_settled(file: FileSink) -> bool;

/// The columns of the row group that a file writer has taken over from a
/// row group writer that closed; `None` where it has taken over none.
pub uninterp spec fn file_columns(file: FileSink) -> Option<Seq<ColumnView>>;

/// The message type of the file writer that a row group writer borrows.
pub uninterp spec fn group_text(group: GroupSink<'_>) -> Seq<char>;

/// The columns that have been written to a row group and closed, in the
/// order in which they were written.
pub uninterp spec fn group_columns(group: GroupSink<'_>) -> Seq<ColumnView>;

/// What a row group writer leaves to the file writer it borrows, once
/// that borrow has ended: the columns it closed with, or `None` where it
/// did not close. The borrow is part of the row group writer, so this
/// belongs to its value from the start; it is known only when the row
/// group writer closes, and writing a column does not change it.
pub uninterp spec fn group_closing(group: GroupSink<'_>) -> Option<Seq<ColumnView>>;

/// The kinds of a batch as a file writer would report them.
pub open spec fn declared(kinds: Seq<ColumnKind>) -> Seq<Option<ColumnKind>> {
    Seq::new(kinds.len(), |j: int| Some(kinds[j]))
}

/// Whether a row group writer takes the first `n` of `columns`, one after
/// the other in their order.
pub open spec fn columns_taken(text: Seq<char>, columns: Seq<ColumnView>, n: int) -> bool {
    forall|j: int| 0 <= j < n ==> #[trigger] column_takes(text, columns.take(j), columns[j])
}

/// The file that the column writer makes of a message type and of columns
/// handed to it in their order: the writer must open, read the kinds of
/// these very columns out of the message type, take each column in turn
/// and close the row group. Where any of this fails there is no file.
pub open spec fn file_of(text: Seq<char>, columns: Seq<ColumnView>) -> Option<Seq<u8>> {
    if message_opens(text) && message_kinds(text) == declared(kinds_of(columns)) && columns_taken(
        text,
        columns,
        columns.len() as int,
    ) && group_closes(text, columns) {
        parquet_file(text, Some(columns))
    } else {
        None
    }
}

/// Calls `parquet::schema::parser::parse_message_type` on one of this
/// library's message types and `SerializedFileWriter::new` on the
/// result, with an empty buffer and default writer properties. Whether
/// that succeeds depends on the text alone. A writer it returns is for
/// that text, is settled and holds no row group.
#[verifier::external_body]
fn open_file(text: &str) -> (r: Result<FileSink, ParquetError>)
    requires
        is_message_type(text@),
    ensures
        r is Ok == message_opens(text@),
        r matches Ok(file) ==> file_text(file) == text@ && file_settled(file) && file_columns(
            file,
        ) is None,
{
    let schema = Arc::new(parse_message_type(text)?);
    let properties = Arc::new(WriterProperties::builder().build());
    Ok(FileSink { inner: SerializedFileWriter::new(Vec::new(), schema, properties)? })
}

/// Calls `SchemaDescriptor::num_columns` on the writer's schema: the
/// number of its leaf columns.
#[verifier::external_body]
fn column_count(file: &FileSink) -> (n: usize)
    ensures
        n == message_kinds(file_text(*file)).len(),
{
    file.inner.schema_descr().num_columns()
}

/// Calls `SchemaDescriptor::column` and `ColumnDescriptor::physical_type`
/// on the writer's schema: the physical type of leaf column `j`. The
/// index must be in range, as `column` panics otherwise.
#[verifier::external_body]
fn column_kind(file: &FileSink, j: usize) -> (kind: Option<ColumnKind>)
    requires
        j < message_kinds(file_text(*file)).len(),
    ensures
        kind == message_kinds(file_text(*file))[j as int],
{
    match file.inner.schema_descr().column(j).physical_type() {
        PhysicalType::BYTE_ARRAY => Some(ColumnKind::Bytes),
        PhysicalType::INT64 => Some(ColumnKind::Int64),
        PhysicalType::INT32 => Some(ColumnKind::Int32),
        PhysicalType::BOOLEAN => Some(ColumnKind::Bool),
        _ => None,
    }
}

/// Calls `SerializedFileWriter::next_row_group` for the first row group
/// of a settled writer, where the call does not fail. The row group
/// writer it returns is for the file's message type and holds no column
/// yet. When its borrow ends the file writer is still for the same
/// message type; it holds what the row group writer closed with, and is
/// settled exactly if that one closed.
#[verifier::external_body]
fn next_row_group<'a>(file: &'a mut FileSink) -> (r: Result<GroupSink<'a>, ParquetError>)
    requires
        file_settled(*old(file)),
        file_columns(*old(file)) is None,
    ensures
        r is Ok,
        r matches Ok(group) ==> group_text(group) == file_text(*old(file)),
        r matches Ok(group) ==> group_columns(group) == Seq::<ColumnView>::empty(),
        r matches Ok(group) ==> file_text(*final(file)) == file_text(*old(file)),
        r matches Ok(group) ==> file_columns(*final(file)) == group_closing(group),
        r matches Ok(group) ==> file_settled(*final(file)) == group_closing(group) is Some,
{
    Ok(GroupSink { inner: file.inner.next_row_group()? })
}

/// Writes the next column of a row group as byte arrays: calls
/// `SerializedRowGroupWriter::next_column`, then `typed::<ByteArrayType>`
/// and `write_batch` without levels on the column writer, then its
/// `close`. The row group must expect a byte array column next, as
/// `typed` panics on any other. Whether the calls succeed depends on the
/// message type, the columns written before and this column; on success
/// the column has been added.
#[verifier::external_body]
fn write_bytes_column(group: &mut GroupSink<'_>, values: &Vec<Vec<u8>>) -> (r: Result<
    (),
    ParquetError,
>)
    requires
        group_columns(*old(group)).len() < message_kinds(group_text(*old(group))).len(),
        message_kinds(group_text(*old(group)))[group_columns(*old(group)).len() as int] == Some(
            ColumnKind::Bytes,
        ),
    ensures
        r is Ok == column_takes(
            group_text(*old(group)),
            group_columns(*old(group)),
            ColumnView::Bytes(bytes_views(values@)),
        ),
        r is Ok ==> group_columns(*final(group)) == group_columns(*old(group)).push(
            ColumnView::Bytes(bytes_views(values@)),
        ),
        group_text(*final(group)) == group_text(*old(group)),
        group_closing(*final(group)) == group_closing(*old(group)),
{
    let arrays: Vec<ByteArray> = values.iter().map(|v| ByteArray::from(v.clone())).collect();
    let mut column = group.inner.next_column()?.unwrap();
    column.typed::<ByteArrayType>().write_batch(&arrays, None, None)?;
    column.close()
}

/// Writes the next column of a row group as 64-bit integers, through the
/// same calls as [`write_bytes_column`] with `typed::<Int64Type>`.
#[verifier::external_body]
fn write_int64_column(group: &mut GroupSink<'_>, values: &Vec<i64>) -> (r: Result<
    (),
    ParquetError,
>)
    requires
        group_columns(*old(group)).len() < message_kinds(group_text(*old(group))).len(),
        message_kinds(group_text(*old(group)))[group_columns(*old(group)).len() as int] == Some(
            ColumnKind::Int64,
        ),
    ensures
        r is Ok == column_takes(
            group_text(*old(group)),
            group_columns(*old(group)),
            ColumnView::Int64(values@),
        ),
        r is Ok ==> group_columns(*final(group)) == group_columns(*old(group)).push(
            ColumnView::Int64(values@),
        ),
        group_text(*final(group)) == group_text(*old(group)),
        group_closing(*final(group)) == group_closing(*old(group)),
{
    let mut column = group.inner.next_column()?.unwrap();
    column.typed::<Int64Type>().write_batch(values, None, None)?;
    column.close()
}

/// Writes the next column of a row group as 32-bit integers, through the
/// same calls as [`write_bytes_column`] with `typed::<Int32Type>`.
#[verifier::external_body]
fn write_int32_column(group: &mut GroupSink<'_>, values: &Vec<i32>) -> (r: Result<
    (),
    ParquetError,
>)
    requires
        group_columns(*old(group)).len() < message_kinds(group_text(*old(group))).len(),
        message_kinds(group_text(*old(group)))[group_columns(*old(group)).len() as int] == Some(
            ColumnKind::Int32,
        ),
    ensures
        r is Ok == column_takes(
            group_text(*old(group)),
            group_columns(*old(group)),
            ColumnView::Int32(values@),
        ),
        r is Ok ==> group_columns(*final(group)) == group_columns(*old(group)).push(
            ColumnView::Int32(values@),
        ),
        group_text(*final(group)) == group_text(*old(group)),
        group_closing(*final(group)) == group_closing(*old(group)),
{
    let mut column = group.inner.next_column()?.unwrap();
    column.typed::<Int32Type>().write_batch(values, None, None)?;
    column.close()
}

/// Writes the next column of a row group as booleans, through the same
/// calls as [`write_bytes_column`] with `typed::<BoolType>`.
#[verifier::external_body]
fn write_bool_column(group: &mut GroupSink<'_>, values: &Vec<bool>) -> (r: Result<
    (),
    ParquetError,
>)
    requires
        group_columns(*old(group)).len() < message_kinds(group_text(*old(group))).len(),
        message_kinds(group_text(*old(group)))[group_columns(*old(group)).len() as int] == Some(
            ColumnKind::Bool,
        ),
    ensures
        r is Ok == column_takes(
            group_text(*old(group)),
            group_columns(*old(group)),
            ColumnView::Bool(values@),
        ),
        r is Ok ==> group_columns(*final(group)) == group_columns(*old(group)).push(
            ColumnView::Bool(values@),
        ),
        group_text(*final(group)) == group_text(*old(group)),
        group_closing(*final(group)) == group_closing(*old(group)),
{
    let mut column = group.inner.next_column()?.unwrap();
    column.typed::<BoolType>().write_batch(values, None, None)?;
    column.close()
}

/// Calls `SerializedRowGroupWriter::close` and drops the metadata it
/// returns. Whether it succeeds depends on the message type and the
/// columns written; on success the file writer takes those columns over,
/// on failure it takes nothing over.
#[verifier::external_body]
fn close_row_group(group: GroupSink<'_>) -> (r: Result<(), ParquetError>)
    ensures
        r is Ok == group_closes(group_text(group), group_columns(group)),
        r is Ok ==> group_closing(group) == Some(group_columns(group)),
        r is Err ==> group_closing(group) is None,
{
    group.inner.close().map(|_| ())
}

/// Calls `SerializedFileWriter::into_inner` on a settled writer: writes
/// the footer and hands back the buffer. What comes back depends on the
/// message type and on the columns the writer holds.
#[verifier::external_body]
fn into_bytes(file: FileSink) -> (r: Result<Vec<u8>, ParquetError>)
    requires
        file_settled(file),
    ensures
        r matches Ok(bytes) ==> parquet_file(file_text(file), file_columns(file)) == Some(bytes@),
        r is Err ==> parquet_file(file_text(file), file_columns(file)) is None,
{
    file.inner.into_inner()
}

/// The physical types a file writer reports for its columns, in schema
/// order.
fn reported_kinds(file: &FileSink) -> (kinds: Vec<Option<ColumnKind>>)
    ensures
        kinds@ == message_kinds(file_text(*file)),
{
    let n = column_count(file);
    let mut kinds: Vec<Option<ColumnKind>> = Vec::new();
    let mut j: usize = 0;
    while j < n
        invariant
            n == message_kinds(file_text(*file)).len(),
            j <= n,
            kinds@ == message_kinds(file_text(*file)).subrange(0, j as int),
        decreases n - j,
    {
        kinds.push(column_kind(file, j));
        assert(kinds@ =~= message_kinds(file_text(*file)).subrange(0, j + 1));
        j = j + 1;
    }
    assert(kinds@ =~= message_kinds(file_text(*file)));
    kinds
}

/// Whether the kinds a writer reports are exactly the kinds of the
/// batch's columns, in the same order.
pub fn agrees(reported: &Vec<Option<ColumnKind>>, batch: &ColumnBatch) -> (ok: bool)
    ensures
        ok == (reported@ == declared(kinds_of(batch@))),
{
    if reported.len() != batch.width() {
        assert(declared(kinds_of(batch@)).len() == batch@.len());
        return false;
    }
    let mut j: usize = 0;
    while j < reported.len()
        invariant
            j <= reported.len(),
            reported.len() == batch@.len(),
            forall|k: int| 0 <= k < j ==> (#[trigger] reported[k]) == Some(batch@[k].kind()),
        decreases reported.len() - j,
    {
        let same = match (reported[j], batch.column(j)) {
            (Some(kind), Some(column)) => kind == column.kind(),
            _ => false,
        };
        if !same {
            assert(declared(kinds_of(batch@))[j as int] == Some(batch@[j as int].kind()));
            return false;
        }
        j = j + 1;
    }
    assert(reported@ =~= declared(kinds_of(batch@)));
    true
}

/// Writes every column of `batch` to a fresh row group, walking the
/// columns in declared order and giving each to the writer in its own
/// type. It succeeds exactly when the writer takes each column in turn,
/// and then the row group holds exactly the batch's columns, in that
/// order.
pub fn write_columns(group: &mut GroupSink<'_>, batch: &ColumnBatch) -> (r: Result<(), ErrorKind>)
    requires
        group_columns(*old(group)).len() == 0,
        message_kinds(group_text(*old(group))) == declared(kinds_of(batch@)),
    ensures
        r is Ok == columns_taken(group_text(*old(group)), batch@, batch@.len() as int),
        r is Ok ==> group_columns(*final(group)) == batch@,
        r is Err ==> r == Err::<(), ErrorKind>(ErrorKind::SchemaWrite),
        group_text(*final(group)) == group_text(*old(group)),
        group_closing(*final(group)) == group_closing(*old(group)),
{
    let n = batch.width();
    let ghost text = group_text(*group);
    let mut j: usize = 0;
    while j < n
        invariant
            n == batch@.len(),
            j <= n,
            text == group_text(*old(group)),
            group_text(*group) == text,
            group_closing(*group) == group_closing(*old(group)),
            message_kinds(text) == declared(kinds_of(batch@)),
            group_columns(*group) == batch@.take(j as int),
            columns_taken(text, batch@, j as int),
        decreases n - j,
    {
        assert(declared(kinds_of(batch@))[j as int] == Some(batch@[j as int].kind()));
        let written = match batch.column(j) {
            Some(Column::Bytes(values)) => write_bytes_column(group, values).is_ok(),
            Some(Column::Int64(values)) => write_int64_column(group, values).is_ok(),
            Some(Column::Int32(values)) => write_int32_column(group, values).is_ok(),
            Some(Column::Bool(values)) => write_bool_column(group, values).is_ok(),
            None => false,
        };
        assert(written == column_takes(text, batch@.take(j as int), batch@[j as int]));
        if !written {
            return Err(ErrorKind::SchemaWrite);
        }
        assert(group_columns(*group) =~= batch@.take(j + 1));
        j = j + 1;
    }
    assert(batch@.take(n as int) =~= batch@);
    Ok(())
}

/// Serializes a batch through a message type of this library whose
/// columns are of the given kinds.
fn write_file(batch: &ColumnBatch, text: &str, kinds: &Vec<ColumnKind>) -> (r: Result<
    Vec<u8>,
    ErrorKind,
>)
    requires
        is_message_type(text@),
    ensures
        r is Err ==> r == Err::<Vec<u8>, ErrorKind>(ErrorKind::SchemaWrite),
        kinds_of(batch@) != kinds@ ==> r is Err,
        kinds_of(batch@) == kinds@ ==> (r is Ok) == (file_of(text@, batch@) is Some),
        r matches Ok(bytes) ==> file_of(text@, batch@) == Some(bytes@),
{
    if !agrees(&as_declared(kinds), batch) {
        proof {
            if kinds_of(batch@) == kinds@ {
                assert(declared(kinds@) == declared(kinds_of(batch@)));
            }
        }
        return Err(ErrorKind::SchemaWrite);
    }
    proof {
        lemma_declared_injective(kinds@, kinds_of(batch@));
    }
    let mut file = match open_file(text) {
        Ok(file) => file,
        Err(_) => {
            return Err(ErrorKind::SchemaWrite);
        },
    };
    let reported = reported_kinds(&file);
    if !agrees(&reported, batch) {
        return Err(ErrorKind::SchemaWrite);
    }
    let mut group = match next_row_group(&mut file) {
        Ok(group) => group,
        Err(_) => {
            return Err(ErrorKind::SchemaWrite);
        },
    };
    match write_columns(&mut group, batch) {
        Ok(()) => {},
        Err(e) => {
            return Err(e);
        },
    }
    if close_row_group(group).is_err() {
        return Err(ErrorKind::SchemaWrite);
    }
    match into_bytes(file) {
        Ok(bytes) => Ok(bytes),
        Err(_) => Err(ErrorKind::SchemaWrite),
    }
}

/// Serializes a batch through the schema of `output`: one file with one
/// row group, its columns in declared order.
///
/// A batch whose columns are not those that `output` declares is refused
/// before the writer is touched. Any other batch gives the file that the
/// column writer makes of the message type and of the batch's columns in
/// their order, [`file_of`]; where the writer makes none, the error is
/// [`ErrorKind::SchemaWrite`].
pub fn serialize(batch: &ColumnBatch, output: Output) -> (r: Result<Vec<u8>, ErrorKind>)
    ensures
        r is Err ==> r == Err::<Vec<u8>, ErrorKind>(ErrorKind::SchemaWrite),
        kinds_of(batch@) != output.column_kinds() ==> r is Err,
        kinds_of(batch@) == output.column_kinds() ==> (r is Ok) == (file_of(
            output.message_text(),
            batch@,
        ) is Some),
        r matches Ok(bytes) ==> file_of(output.message_text(), batch@) == Some(bytes@),
{
    write_file(batch, output.message_type(), &output.kinds())
}

/// Serializes a batch through the schema of `report`, as [`serialize`]
/// does through that of an output.
pub fn serialize_report(batch: &ColumnBatch, report: Report) -> (r: Result<Vec<u8>, ErrorKind>)
    ensures
        r is Err ==> r == Err::<Vec<u8>, ErrorKind>(ErrorKind::SchemaWrite),
        kinds_of(batch@) != report.column_kinds() ==> r is Err,
        kinds_of(batch@) == report.column_kinds() ==> (r is Ok) == (file_of(
            report.message_text(),
            batch@,
        ) is Some),
        r matches Ok(bytes) ==> file_of(report.message_text(), batch@) == Some(bytes@),
{
    write_file(batch, report.message_type(), &report.kinds())
}

/// Where there is a file, its columns stand in the order of the batch:
/// the message type declares column `j` of the batch's kind at place `j`,
/// and the writer took column `j` after exactly the columns before it.
pub proof fn lemma_file_keeps_declared_order(text: Seq<char>, columns: Seq<ColumnView>, j: int)
    requires
        file_of(text, columns) is Some,
        0 <= j < columns.len(),
    ensures
        message_kinds(text).len() == columns.len(),
        message_kinds(text)[j] == Some(columns[j].kind()),
        column_takes(text, columns.take(j), columns[j]),
{
    assert(declared(kinds_of(columns)).len() == columns.len());
    assert(declared(kinds_of(columns))[j] == Some(kinds_of(columns)[j]));
}

/// Two lists of kinds that a writer would report alike are the same list.
proof fn lemma_declared_injective(a: Seq<ColumnKind>, b: Seq<ColumnKind>)
    requires
        declared(a) == declared(b),
    ensures
        a == b,
{
    assert(declared(a).len() == a.len());
    assert(declared(b).len() == b.len());
    assert forall|j: int| 0 <= j < a.len() implies a[j] == b[j] by {
        assert(declared(a)[j] == Some(a[j]));
        assert(declared(b)[j] == Some(b[j]));
    }
    assert(a =~= b);
}

/// The kinds of a schema as a file writer would report them.
fn as_declared(kinds: &Vec<ColumnKind>) -> (reported: Vec<Option<ColumnKind>>)
    ensures
        reported@ == declared(kinds@),
{
    let mut reported: Vec<Option<ColumnKind>> = Vec::new();
    let mut j: usize = 0;
    while j < kinds.len()
        invariant
            j <= kinds.len(),
            reported@ == declared(kinds@).subrange(0, j as int),
        decreases kinds.len() - j,
    {
        reported.push(Some(kinds[j]));
        assert(reported@ =~= declared(kinds@).subrange(0, j + 1));
        j = j + 1;
    }
    assert(reported@ =~= declared(kinds@));
    reported
}

} // verus!
