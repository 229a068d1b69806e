//! Row-oriented delimited text from column-major query results.
//!
//! A [`table::ResultSet`] is a schema and a sequence of batches of typed
//! columns. [`export::write_to_csv`] turns one into the destination path and
//! the exact bytes of the file to write there: a header line and one line per
//! row, every field produced by the per-type rule of
//! [`export::array_value_to_string`]. The bytes are complete before anything
//! is handed back, so a caller never writes part of an export as a success.
//!
//! [`driver::Driver`] holds the decisions of a run over a catalog of
//! queries: entries are processed in order, and only a failure to register
//! the source ends the run early.

pub mod decimal;
pub mod destination;
pub mod driver;
pub mod export;
pub mod record;
pub mod table;
