//! One record of delimited text, as the `csv` crate's writer encodes it.

use vstd::prelude::*;

verus! {

/// The error type of the `csv` crate, carried through as an opaque value.
#[verifier::external_type_specification]
#[verifier::external_body]
pub struct ExCsvError(csv::Error);

/// The bytes that a fresh `csv::Writer` with default settings emits for one
/// record with the given fields: the fields separated by commas, quoted
/// where the format requires it, and the record terminator.
pub uninterp spec fn csv_record(fields: Seq<Seq<char>>) -> Seq<u8>;

/// The text of each string of a sequence.
pub open spec fn texts(fields: Seq<String>) -> Seq<Seq<char>> {
    Seq::new(fields.len(), |i: int| fields[i]@)
}

/// Calls `csv::Writer::write_record` on a new writer over an empty byte
/// buffer and flushes it. Trusted: the call succeeds, and the buffer then
/// holds exactly the bytes named by [`csv_record`] for these fields. The
/// writer's only failures are a failed write to what it writes into, which
/// a byte buffer in memory never reports, and a record whose field count
/// differs from that of the writer's first record, which a first record
/// cannot be.
#[verifier::external_body]
pub(crate) fn encode_record(fields: &Vec<String>) -> (r: Result<Vec<u8>, csv::Error>)
    ensures
        r is Ok,
        r matches Ok(bytes) ==> bytes@ == csv_record(texts(fields@)),
{
    let mut bytes = Vec::new();
    let mut writer = csv::Writer::from_writer(&mut bytes);
    writer.write_record(fields)?;
    writer.flush()?;
    drop(writer);
    Ok(bytes)
}

/// Calls `to_string` on a `csv::Error`: the error's display text. Trusted,
/// with nothing claimed about the text.
#[verifier::external_body]
pub(crate) fn error_text(error: &csv::Error) -> (text: String) {
    error.to_string()
}

} // verus!
