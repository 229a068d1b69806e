//! Tabular export: from a result set to the bytes of a delimited text file.

use vstd::prelude::*;
use vstd::string::*;
use crate::decimal::{i32_to_string, i64_to_string, int_text, lemma_int_text_round_trip, parse_int};
use crate::destination::{join_path, parent_of};
use crate::record::{csv_record, encode_record, error_text, texts};
use crate::table::{Batch, Column, ColumnType, Field, ResultSet, TimeUnit, TypeTag};

verus! {

/// Why an export did not produce a file.
#[derive(Clone, Debug, PartialEq, Eq)]
pub enum ExportError {
    /// The destination path has no parent directory.
    InvalidPath,
    /// Creating the directory or writing the file failed; the cause as text.
    FileSystem(String),
    /// A column's type has no text form; the type's name.
    UnsupportedType(String),
}

/// An [`ExportError`] as contracts see it.
pub enum Failure {
    InvalidPath,
    FileSystem(Seq<char>),
    UnsupportedType(Seq<char>),
}

impl View for ExportError {
    type V = Failure;

    open spec fn view(&self) -> Failure {
        match self {
            ExportError::InvalidPath => Failure::InvalidPath,
            ExportError::FileSystem(cause) => Failure::FileSystem(cause@),
            ExportError::UnsupportedType(name) => Failure::UnsupportedType(name@),
        }
    }
}

/// The text of the field at `row` of a column of a supported type: empty for
/// a null, the text itself for text and for floating-point values, the
/// canonical decimal form for integers, and the plain tick count for
/// timestamps of every resolution.
pub open spec fn field_text(column: &Column, row: int) -> Seq<char> {
    match column {
        Column::Utf8(values) => match values@[row] {
            None => Seq::empty(),
            Some(text) => text@,
        },
        Column::Int32(values) => match values@[row] {
            None => Seq::empty(),
            Some(v) => int_text(v as int),
        },
        Column::Int64(values) => match values@[row] {
            None => Seq::empty(),
            Some(v) => int_text(v as int),
        },
        Column::Float64(values) => match values@[row] {
            None => Seq::empty(),
            Some(text) => text@,
        },
        Column::Timestamp(_, values) => match values@[row] {
            None => Seq::empty(),
            Some(ticks) => int_text(ticks as int),
        },
        Column::Other(_, _) => Seq::empty(),
    }
}

/// The declared types of a schema, in order.
pub open spec fn schema_tags(schema: Seq<Field>) -> Seq<TypeTag> {
    Seq::new(schema.len(), |c: int| schema[c].data_type@)
}

/// The column names of a schema, in order.
pub open spec fn schema_names(schema: Seq<Field>) -> Seq<Seq<char>> {
    Seq::new(schema.len(), |c: int| schema[c].name@)
}

/// Every type of `tags` has a text form.
pub open spec fn all_supported(tags: Seq<TypeTag>) -> bool {
    forall|c: int| 0 <= c < tags.len() ==> (#[trigger] tags[c]).supported()
}

/// `at` is the position of the first type of `tags` without a text form.
pub open spec fn first_unsupported_at(tags: Seq<TypeTag>, at: int) -> bool {
    &&& 0 <= at < tags.len()
    &&& !tags[at].supported()
    &&& forall|c: int| 0 <= c < at ==> (#[trigger] tags[c]).supported()
}

/// `failure` is `UnsupportedType` with the name of the first type of `tags`
/// that has no text form.
pub open spec fn names_first_unsupported(tags: Seq<TypeTag>, failure: Failure) -> bool {
    match failure {
        Failure::UnsupportedType(name) => exists|at: int|
            first_unsupported_at(tags, at) && #[trigger] tags[at] == TypeTag::Other(name),
        _ => false,
    }
}

/// The types of a batch's columns, in order.
pub open spec fn column_tags(columns: Seq<Column>) -> Seq<TypeTag> {
    Seq::new(columns.len(), |c: int| columns[c].tag())
}

/// The fields of one row of a batch, in column order.
pub open spec fn row_texts(batch: &Batch, row: int) -> Seq<Seq<char>> {
    Seq::new(batch.columns@.len(), |c: int| field_text(&batch.columns@[c], row))
}

/// The rows of one batch, in order.
pub open spec fn batch_records(batch: &Batch) -> Seq<Seq<Seq<char>>> {
    Seq::new(batch.num_rows as nat, |row: int| row_texts(batch, row))
}

/// The rows of a sequence of batches: batch after batch, row after row.
pub open spec fn rows_of(batches: Seq<Batch>) -> Seq<Seq<Seq<char>>>
    decreases batches.len(),
{
    if batches.len() == 0 {
        Seq::empty()
    } else {
        rows_of(batches.drop_last()) + batch_records(&batches.last())
    }
}

/// The records of the exported file: none for a result set without batches,
/// else the column names followed by every row.
pub open spec fn export_records(result: &ResultSet) -> Seq<Seq<Seq<char>>> {
    if result.batches@.len() == 0 {
        Seq::empty()
    } else {
        seq![schema_names(result.schema@)] + rows_of(result.batches@)
    }
}

/// The bytes of a sequence of records, each encoded on its own and laid end
/// to end.
pub open spec fn encode(records: Seq<Seq<Seq<char>>>) -> Seq<u8>
    decreases records.len(),
{
    if records.len() == 0 {
        Seq::empty()
    } else {
        encode(records.drop_last()) + csv_record(records.last())
    }
}

/// The exact contents of the file that exporting `result` writes.
pub open spec fn export_text(result: &ResultSet) -> Seq<u8> {
    encode(export_records(result))
}

/// The text of the value at `row` of `column`.
///
/// A null gives the empty string, text gives itself, integers and
/// timestamps give their decimal form. A column of a type without a text
/// form gives `UnsupportedType` with the type's name, whatever the row.
pub fn array_value_to_string(column: &Column, row: usize) -> (r: Result<String, ExportError>)
    requires
        row < column.rows(),
    ensures
        match column.tag() {
            TypeTag::Other(name) => r matches Err(e) && e@ == Failure::UnsupportedType(name),
            _ => r matches Ok(text) && text@ == field_text(column, row as int),
        },
{
    match column {
        Column::Utf8(values) => match &values[row] {
            None => Ok(String::new()),
            Some(text) => Ok(text.clone()),
        },
        Column::Int32(values) => match values[row] {
            None => Ok(String::new()),
            Some(v) => Ok(i32_to_string(v)),
        },
        Column::Int64(values) => match values[row] {
            None => Ok(String::new()),
            Some(v) => Ok(i64_to_string(v)),
        },
        Column::Float64(values) => match &values[row] {
            None => Ok(String::new()),
            Some(text) => Ok(text.clone()),
        },
        Column::Timestamp(_, values) => match values[row] {
            None => Ok(String::new()),
            Some(ticks) => Ok(i64_to_string(ticks)),
        },
        Column::Other(name, _) => Err(ExportError::UnsupportedType(name.clone())),
    }
}

/// The name of the first type in `schema` that has no text form, if any.
pub fn first_unsupported(schema: &Vec<Field>) -> (r: Option<String>)
    ensures
        match r {
            None => all_supported(schema_tags(schema@)),
            Some(name) => names_first_unsupported(
                schema_tags(schema@),
                Failure::UnsupportedType(name@),
            ),
        },
{
    let mut c: usize = 0;
    while c < schema.len()
        invariant
            c <= schema@.len(),
            forall|k: int| 0 <= k < c ==> (#[trigger] schema_tags(schema@)[k]).supported(),
        decreases schema@.len() - c,
    {
        assert(schema_tags(schema@)[c as int] == schema@[c as int].data_type@);
        match &schema[c].data_type {
            ColumnType::Other(name) => {
                assert(first_unsupported_at(schema_tags(schema@), c as int));
                return Some(name.clone());
            },
            _ => {},
        }
        c += 1;
    }
    None
}

/// The column names of `schema`, in order.
pub fn header_fields(schema: &Vec<Field>) -> (names: Vec<String>)
    ensures
        texts(names@) == schema_names(schema@),
{
    let mut names: Vec<String> = Vec::new();
    let mut c: usize = 0;
    while c < schema.len()
        invariant
            c <= schema@.len(),
            names@.len() == c,
            forall|k: int| 0 <= k < c ==> (#[trigger] names@[k])@ == schema@[k].name@,
        decreases schema@.len() - c,
    {
        names.push(schema[c].name.clone());
        c += 1;
    }
    assert(texts(names@) =~= schema_names(schema@));
    names
}

/// The fields of row `row` of `batch`, in column order, or the first column
/// whose type has no text form.
pub fn row_fields(batch: &Batch, row: usize) -> (r: Result<Vec<String>, ExportError>)
    requires
        batch.wf(),
        row < batch.num_rows,
    ensures
        match r {
            Ok(fields) => all_supported(column_tags(batch.columns@)) && texts(fields@) == row_texts(
                batch,
                row as int,
            ),
            Err(e) => names_first_unsupported(column_tags(batch.columns@), e@),
        },
{
    let ghost tags = column_tags(batch.columns@);
    let mut fields: Vec<String> = Vec::new();
    let mut c: usize = 0;
    while c < batch.columns.len()
        invariant
            c <= batch.columns@.len(),
            batch.wf(),
            row < batch.num_rows,
            tags == column_tags(batch.columns@),
            fields@.len() == c,
            forall|k: int| 0 <= k < c ==> (#[trigger] tags[k]).supported(),
            forall|k: int|
                0 <= k < c ==> (#[trigger] fields@[k])@ == field_text(
                    &batch.columns@[k],
                    row as int,
                ),
        decreases batch.columns@.len() - c,
    {
        assert(batch.columns@[c as int].rows() == batch.num_rows);
        assert(tags[c as int] == batch.columns@[c as int].tag());
        match array_value_to_string(&batch.columns[c], row) {
            Ok(text) => {
                fields.push(text);
            },
            Err(e) => {
                assert(first_unsupported_at(tags, c as int));
                return Err(e);
            },
        }
        c += 1;
    }
    assert(texts(fields@) =~= row_texts(batch, row as int));
    Ok(fields)
}

/// Appends one encoded record to `out`, or turns the writer's failure into
/// a `FileSystem` error and leaves `out` as it was.
pub fn append_encoded(out: &mut Vec<u8>, encoded: Result<Vec<u8>, String>) -> (r: Result<
    (),
    ExportError,
>)
    ensures
        match encoded {
            Ok(line) => r is Ok && final(out)@ == old(out)@ + line@,
            Err(cause) => r matches Err(e) && e@ == Failure::FileSystem(cause@) && final(out)@
                == old(out)@,
        },
{
    match encoded {
        Ok(line) => {
            let mut line = line;
            out.append(&mut line);
            Ok(())
        },
        Err(cause) => Err(ExportError::FileSystem(cause)),
    }
}

/// Encodes `fields` as one record and appends it to `out`. Encoding into
/// memory does not fail, so the record is always appended.
pub fn push_record(out: &mut Vec<u8>, fields: &Vec<String>) -> (r: Result<(), ExportError>)
    ensures
        r is Ok,
        final(out)@ == old(out)@ + csv_record(texts(fields@)),
{
    let encoded = match encode_record(fields) {
        Ok(line) => Ok(line),
        Err(error) => Err(error_text(&error)),
    };
    append_encoded(out, encoded)
}

/// Whether exporting `result` is defined: it has no batches, or every type
/// of its schema has a text form.
pub open spec fn exportable(result: &ResultSet) -> bool {
    result.batches@.len() == 0 || all_supported(schema_tags(result.schema@))
}

/// Whether `failure` is the one that serializing `result` ends in: with at
/// least one batch, `UnsupportedType` with the name of the first type of
/// the schema that has no text form.
pub open spec fn export_failure(result: &ResultSet, failure: Failure) -> bool {
    result.batches@.len() > 0 && names_first_unsupported(schema_tags(result.schema@), failure)
}

/// Encoding one more record appends its bytes.
pub proof fn lemma_encode_push(records: Seq<Seq<Seq<char>>>, record: Seq<Seq<char>>)
    ensures
        encode(records.push(record)) == encode(records) + csv_record(record),
{
    assert(records.push(record).drop_last() =~= records);
}

/// The rows of the first `n + 1` batches are those of the first `n`
/// followed by those of batch `n`.
pub proof fn lemma_rows_of_take(batches: Seq<Batch>, n: int)
    requires
        0 <= n < batches.len(),
    ensures
        rows_of(batches.take(n + 1)) == rows_of(batches.take(n)) + batch_records(&batches[n]),
{
    assert(batches.take(n + 1).drop_last() =~= batches.take(n));
    assert(batches.take(n + 1).last() == batches[n]);
}

/// The contents of the file for `result`: nothing for a result set without
/// batches; else one record of column names, then one record per row, batch
/// after batch.
///
/// With at least one batch, a schema that holds a type without a text form
/// fails the whole export with `UnsupportedType` and the name of the first
/// such type. Every other result set is serialized: this function has no
/// other failure.
pub fn export_bytes(result: &ResultSet) -> (r: Result<Vec<u8>, ExportError>)
    requires
        result.wf(),
    ensures
        exportable(result) ==> r is Ok,
        match r {
            Ok(bytes) => exportable(result) && bytes@ == export_text(result),
            Err(e) => export_failure(result, e@),
        },
        result.batches@.len() == 0 ==> (r matches Ok(bytes) && bytes@.len() == 0),
        result.batches@.len() > 0 && !all_supported(schema_tags(result.schema@)) ==> (r matches Err(
            e,
        ) && e@ is UnsupportedType),
{
    let mut out: Vec<u8> = Vec::new();
    if result.batches.len() == 0 {
        return Ok(out);
    }
    match first_unsupported(&result.schema) {
        Some(name) => {
            return Err(ExportError::UnsupportedType(name));
        },
        None => {},
    }
    let names = header_fields(&result.schema);
    let ghost header = seq![schema_names(result.schema@)];
    match push_record(&mut out, &names) {
        Ok(_) => {},
        Err(e) => {
            return Err(e);
        },
    }
    proof {
        lemma_encode_push(Seq::empty(), schema_names(result.schema@));
        assert(Seq::<Seq<Seq<char>>>::empty().push(schema_names(result.schema@)) =~= header);
        assert(result.batches@.take(0) =~= Seq::<Batch>::empty());
        assert(header + rows_of(result.batches@.take(0)) =~= header);
    }
    let mut b: usize = 0;
    while b < result.batches.len()
        invariant
            b <= result.batches@.len(),
            result.batches@.len() > 0,
            result.wf(),
            all_supported(schema_tags(result.schema@)),
            header == seq![schema_names(result.schema@)],
            out@ == encode(header + rows_of(result.batches@.take(b as int))),
        decreases result.batches@.len() - b,
    {
        let batch = &result.batches[b];
        let ghost before = header + rows_of(result.batches@.take(b as int));
        assert(batch.wf() && batch.fits(result.schema@));
        let mut row: usize = 0;
        while row < batch.num_rows
            invariant
                row <= batch.num_rows,
                result.batches@.len() > 0,
                batch.wf(),
                batch.fits(result.schema@),
                all_supported(schema_tags(result.schema@)),
                out@ == encode(before + batch_records(batch).take(row as int)),
            decreases batch.num_rows - row,
        {
            match row_fields(batch, row) {
                Ok(fields) => {
                    match push_record(&mut out, &fields) {
                        Ok(_) => {},
                        Err(e) => {
                            return Err(e);
                        },
                    }
                    proof {
                        let written = before + batch_records(batch).take(row as int);
                        lemma_encode_push(written, row_texts(batch, row as int));
                        assert(written.push(row_texts(batch, row as int)) =~= before
                            + batch_records(batch).take(row + 1));
                    }
                },
                Err(e) => {
                    proof {
                        let tags = column_tags(batch.columns@);
                        let at = choose|at: int|
                            first_unsupported_at(tags, at) && #[trigger] tags[at]
                                == TypeTag::Other(e@->UnsupportedType_0);
                        assert(schema_tags(result.schema@)[at].supported());
                        assert(batch.columns@[at].tag() == result.schema@[at].data_type@);
                        assert(false);
                    }
                    return Err(e);
                },
            }
            row += 1;
        }
        proof {
            assert(batch_records(batch).take(batch.num_rows as int) =~= batch_records(batch));
            lemma_rows_of_take(result.batches@, b as int);
            assert(before + batch_records(batch) =~= header + rows_of(
                result.batches@.take(b + 1),
            ));
        }
        b += 1;
    }
    assert(result.batches@.take(b as int) =~= result.batches@);
    Ok(out)
}

/// A file to write: where, under which directory, and with what contents.
#[derive(Clone, Debug, PartialEq, Eq)]
pub struct ExportFile {
    /// The path of the file.
    pub path: String,
    /// The directory that must exist before the file is created.
    pub directory: String,
    /// The exact bytes of the file.
    pub contents: Vec<u8>,
}

/// The file to write for `result` at `path`, whose parent directory is
/// `parent`.
///
/// A path without a parent is `InvalidPath`, whatever the result set holds.
/// Otherwise the outcome is that of [`export_bytes`]. Nothing is handed
/// back on failure, so no partial file is ever written as a success.
pub fn plan_export(result: &ResultSet, path: String, parent: Option<String>) -> (r: Result<
    ExportFile,
    ExportError,
>)
    requires
        result.wf(),
    ensures
        parent is Some && exportable(result) ==> r is Ok,
        match parent {
            None => r matches Err(e) && e@ == Failure::InvalidPath,
            Some(directory) => match r {
                Ok(file) => {
                    &&& file.path == path
                    &&& file.directory == directory
                    &&& exportable(result)
                    &&& file.contents@ == export_text(result)
                },
                Err(e) => export_failure(result, e@),
            },
        },
        parent is Some && result.batches@.len() == 0 ==> (r matches Ok(file)
            && file.contents@.len() == 0),
        parent is Some && result.batches@.len() > 0 && !all_supported(
            schema_tags(result.schema@),
        ) ==> (r matches Err(e) && e@ is UnsupportedType),
{
    match parent {
        None => Err(ExportError::InvalidPath),
        Some(directory) => match export_bytes(result) {
            Ok(contents) => Ok(ExportFile { path, directory, contents }),
            Err(e) => Err(e),
        },
    }
}

/// The file to write for `result` under `directory_path` with the name
/// `file_name`: its path, the directory to create first, and its contents.
///
/// The path is `directory_path` joined with `file_name` by the platform's
/// rules; if that path has no parent, the export fails with `InvalidPath`.
/// Every other outcome is that of [`export_bytes`]: for a result set that
/// can be serialized, a missing parent is the only failure.
pub fn write_to_csv(result: &ResultSet, directory_path: &str, file_name: &str) -> (r: Result<
    ExportFile,
    ExportError,
>)
    requires
        result.wf(),
    ensures
        match r {
            Ok(file) => exportable(result) && file.contents@ == export_text(result),
            Err(e) => e@ is InvalidPath || export_failure(result, e@),
        },
        exportable(result) ==> (r is Ok || (r matches Err(e) && e@ is InvalidPath)),
{
    let path = join_path(directory_path, file_name);
    let parent = parent_of(path.as_str());
    plan_export(result, path, parent)
}

impl ExportError {
    /// The text of the message for this error.
    pub open spec fn message_text(failure: Failure) -> Seq<char> {
        match failure {
            Failure::InvalidPath => "Invalid file path"@,
            Failure::FileSystem(cause) => cause,
            Failure::UnsupportedType(name) => "Unsupported data type: "@ + name,
        }
    }

    /// A message that describes the error.
    pub fn message(&self) -> (text: String)
        ensures
            text@ == Self::message_text(self@),
    {
        match self {
            ExportError::InvalidPath => String::from_str("Invalid file path"),
            ExportError::FileSystem(cause) => cause.clone(),
            ExportError::UnsupportedType(name) => String::from_str(
                "Unsupported data type: ",
            ).concat(name.as_str()),
        }
    }
}

/// A result set without batches exports as an empty file: no header and no
/// rows.
pub proof fn lemma_no_batches_empty_file(result: &ResultSet)
    requires
        result.batches@.len() == 0,
    ensures
        export_text(result) == Seq::<u8>::empty(),
{
}

/// The encoding of a non-empty sequence of records begins with the encoding
/// of its first record.
pub proof fn lemma_encode_starts_with_first(records: Seq<Seq<Seq<char>>>)
    requires
        records.len() > 0,
    ensures
        csv_record(records[0]).is_prefix_of(encode(records)),
    decreases records.len(),
{
    if records.len() == 1 {
        assert(records.drop_last() =~= Seq::empty());
        assert(encode(records.drop_last()) =~= Seq::<u8>::empty());
        assert(encode(records) =~= csv_record(records[0]));
    } else {
        lemma_encode_starts_with_first(records.drop_last());
        assert(records.drop_last()[0] == records[0]);
        let first = csv_record(records[0]);
        let shorter = encode(records.drop_last());
        assert(first =~= shorter.subrange(0, first.len() as int));
        assert(first =~= encode(records).subrange(0, first.len() as int));
    }
}

/// For a result set with at least one batch, the exported file begins with
/// the record of the schema's column names, in schema order.
pub proof fn lemma_header_comes_first(result: &ResultSet)
    requires
        result.batches@.len() > 0,
    ensures
        csv_record(schema_names(result.schema@)).is_prefix_of(export_text(result)),
{
    lemma_encode_starts_with_first(export_records(result));
}

/// The number of rows in a sequence of batches.
pub open spec fn total_rows(batches: Seq<Batch>) -> nat
    decreases batches.len(),
{
    if batches.len() == 0 {
        0
    } else {
        total_rows(batches.drop_last()) + batches.last().num_rows as nat
    }
}

/// Batches of `width` columns give one record per row, each of `width`
/// fields.
pub proof fn lemma_rows_of_shape(batches: Seq<Batch>, width: nat)
    requires
        forall|b: int| 0 <= b < batches.len() ==> (#[trigger] batches[b]).columns@.len() == width,
    ensures
        rows_of(batches).len() == total_rows(batches),
        forall|i: int|
            0 <= i < rows_of(batches).len() ==> (#[trigger] rows_of(batches)[i]).len() == width,
    decreases batches.len(),
{
    if batches.len() > 0 {
        let earlier = batches.drop_last();
        lemma_rows_of_shape(earlier, width);
        let last = batches.last();
        assert forall|i: int| 0 <= i < rows_of(batches).len() implies (#[trigger] rows_of(
            batches,
        )[i]).len() == width by {
            if i >= rows_of(earlier).len() {
                let row = i - rows_of(earlier).len();
                assert(rows_of(batches)[i] == batch_records(&last)[row]);
                assert(batch_records(&last)[row] == row_texts(&last, row));
            } else {
                assert(rows_of(batches)[i] == rows_of(earlier)[i]);
            }
        }
    }
}

/// For a result set with at least one batch, the exported file holds
/// exactly one record of column names and one record per row, and every
/// record has one field per schema column.
pub proof fn lemma_one_record_per_row(result: &ResultSet)
    requires
        result.wf(),
        result.batches@.len() > 0,
    ensures
        export_records(result).len() == 1 + total_rows(result.batches@),
        export_records(result)[0] == schema_names(result.schema@),
        forall|i: int|
            0 <= i < export_records(result).len() ==> (#[trigger] export_records(result)[i]).len()
                == result.schema@.len(),
{
    let width = result.schema@.len();
    assert forall|b: int| 0 <= b < result.batches@.len() implies (#[trigger] result.batches@[b])
        .columns@.len() == width by {
        assert(result.batches@[b].fits(result.schema@));
    }
    lemma_rows_of_shape(result.batches@, width);
    let rows = rows_of(result.batches@);
    assert forall|i: int| 0 <= i < export_records(result).len() implies (#[trigger] export_records(
        result,
    )[i]).len() == width by {
        if i > 0 {
            assert(export_records(result)[i] == rows[i - 1]);
        }
    }
}

/// A null in a column of any supported type exports as the empty string.
pub proof fn lemma_null_is_empty(column: &Column, row: int)
    requires
        0 <= row < column.rows(),
        column.tag().supported(),
        column.is_null(row),
    ensures
        field_text(column, row) == Seq::<char>::empty(),
{
}

/// A non-null integer exports as text that parses back to the same integer.
pub proof fn lemma_integer_round_trip(column: &Column, row: int)
    requires
        0 <= row < column.rows(),
        !column.is_null(row),
    ensures
        column matches Column::Int32(values) ==> parse_int(field_text(column, row)) == Some(
            values@[row]->Some_0 as int,
        ),
        column matches Column::Int64(values) ==> parse_int(field_text(column, row)) == Some(
            values@[row]->Some_0 as int,
        ),
{
    match column {
        Column::Int32(values) => lemma_int_text_round_trip(values@[row]->Some_0 as int),
        Column::Int64(values) => lemma_int_text_round_trip(values@[row]->Some_0 as int),
        _ => {},
    }
}

/// A non-null text value, and a floating-point value given in its decimal
/// form, export unchanged.
pub proof fn lemma_text_unchanged(column: &Column, row: int)
    requires
        0 <= row < column.rows(),
        !column.is_null(row),
    ensures
        column matches Column::Utf8(values) ==> field_text(column, row) == values@[row]->Some_0@,
        column matches Column::Float64(values) ==> field_text(column, row)
            == values@[row]->Some_0@,
{
}

/// A non-null timestamp exports as its tick count in decimal, whatever the
/// resolution, and the text parses back to the tick count.
pub proof fn lemma_timestamp_is_tick_count(unit: TimeUnit, values: Vec<Option<i64>>, row: int)
    requires
        0 <= row < values@.len(),
        values@[row] is Some,
    ensures
        field_text(&Column::Timestamp(unit, values), row) == int_text(values@[row]->Some_0 as int),
        parse_int(field_text(&Column::Timestamp(unit, values), row)) == Some(
            values@[row]->Some_0 as int,
        ),
{
    lemma_int_text_round_trip(values@[row]->Some_0 as int);
}

} // verus!
