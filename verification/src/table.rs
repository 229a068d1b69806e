//! The data model: a schema of named, typed columns and batches of
//! column-major values that share it.

use vstd::prelude::*;

verus! {

/// The resolution at which a timestamp column counts ticks since the epoch.
#[derive(Clone, Copy, Debug, PartialEq, Eq, Structural)]
pub enum TimeUnit {
    Second,
    Millisecond,
    Microsecond,
    Nanosecond,
}

/// The declared type of a column, as contracts see it.
pub enum TypeTag {
    Utf8,
    Int32,
    Int64,
    Float64,
    Timestamp(TimeUnit),
    /// A type for which no text form is defined, by its name.
    Other(Seq<char>),
}

impl TypeTag {
    /// Whether values of this type have a defined text form.
    pub open spec fn supported(self) -> bool {
        !(self is Other)
    }
}

/// The declared type of a column.
#[derive(Clone, Debug, PartialEq, Eq)]
pub enum ColumnType {
    Utf8,
    Int32,
    Int64,
    Float64,
    Timestamp(TimeUnit),
    /// A type for which no text form is defined, by its name.
    Other(String),
}

impl View for ColumnType {
    type V = TypeTag;

    open spec fn view(&self) -> TypeTag {
        match self {
            ColumnType::Utf8 => TypeTag::Utf8,
            ColumnType::Int32 => TypeTag::Int32,
            ColumnType::Int64 => TypeTag::Int64,
            ColumnType::Float64 => TypeTag::Float64,
            ColumnType::Timestamp(unit) => TypeTag::Timestamp(*unit),
            ColumnType::Other(name) => TypeTag::Other(name@),
        }
    }
}

/// One entry of a schema: a column's name and declared type.
#[derive(Clone, Debug, PartialEq, Eq)]
pub struct Field {
    pub name: String,
    pub data_type: ColumnType,
}

/// The values of one column for a contiguous run of rows. `None` is a null.
#[derive(Clone, Debug, PartialEq, Eq)]
pub enum Column {
    Utf8(Vec<Option<String>>),
    Int32(Vec<Option<i32>>),
    Int64(Vec<Option<i64>>),
    /// 64-bit floating-point values, each already in its decimal text form.
    Float64(Vec<Option<String>>),
    /// Tick counts since the epoch at the given resolution.
    Timestamp(TimeUnit, Vec<Option<i64>>),
    /// A column of a type without a text form: the type's name and the
    /// number of rows.
    Other(String, usize),
}

impl Column {
    /// The number of rows the column holds.
    pub open spec fn rows(&self) -> nat {
        match self {
            Column::Utf8(values) => values@.len(),
            Column::Int32(values) => values@.len(),
            Column::Int64(values) => values@.len(),
            Column::Float64(values) => values@.len(),
            Column::Timestamp(_, values) => values@.len(),
            Column::Other(_, count) => *count as nat,
        }
    }

    /// The column's type.
    pub open spec fn tag(&self) -> TypeTag {
        match self {
            Column::Utf8(_) => TypeTag::Utf8,
            Column::Int32(_) => TypeTag::Int32,
            Column::Int64(_) => TypeTag::Int64,
            Column::Float64(_) => TypeTag::Float64,
            Column::Timestamp(unit, _) => TypeTag::Timestamp(*unit),
            Column::Other(name, _) => TypeTag::Other(name@),
        }
    }

    /// Whether the value at `row` is null. A column without a text form
    /// exposes no values, so none of its rows is reported null.
    pub open spec fn is_null(&self, row: int) -> bool {
        match self {
            Column::Utf8(values) => values@[row] is None,
            Column::Int32(values) => values@[row] is None,
            Column::Int64(values) => values@[row] is None,
            Column::Float64(values) => values@[row] is None,
            Column::Timestamp(_, values) => values@[row] is None,
            Column::Other(_, _) => false,
        }
    }

    /// The number of rows the column holds.
    pub fn num_rows(&self) -> (n: usize)
        ensures
            n == self.rows(),
    {
        match self {
            Column::Utf8(values) => values.len(),
            Column::Int32(values) => values.len(),
            Column::Int64(values) => values.len(),
            Column::Float64(values) => values.len(),
            Column::Timestamp(_, values) => values.len(),
            Column::Other(_, count) => *count,
        }
    }

    /// Whether the column's type is `data_type`.
    pub fn has_type(&self, data_type: &ColumnType) -> (r: bool)
        ensures
            r == (self.tag() == data_type@),
    {
        match (self, data_type) {
            (Column::Utf8(_), ColumnType::Utf8) => true,
            (Column::Int32(_), ColumnType::Int32) => true,
            (Column::Int64(_), ColumnType::Int64) => true,
            (Column::Float64(_), ColumnType::Float64) => true,
            (Column::Timestamp(a, _), ColumnType::Timestamp(b)) => *a == *b,
            (Column::Other(a, _), ColumnType::Other(b)) => *a == *b,
            _ => false,
        }
    }
}

/// A chunk of a result set: one column per schema entry, all of the same
/// number of rows.
#[derive(Clone, Debug, PartialEq, Eq)]
pub struct Batch {
    pub columns: Vec<Column>,
    pub num_rows: usize,
}

impl Batch {
    /// Every column holds exactly `num_rows` rows.
    pub open spec fn wf(&self) -> bool {
        forall|c: int|
            0 <= c < self.columns@.len() ==> (#[trigger] self.columns@[c]).rows() == self.num_rows
    }

    /// The batch's columns have the types that `schema` declares, in order.
    pub open spec fn fits(&self, schema: Seq<Field>) -> bool {
        &&& self.columns@.len() == schema.len()
        &&& forall|c: int|
            0 <= c < schema.len() ==> (#[trigger] self.columns@[c]).tag() == schema[c].data_type@
    }

    /// Whether every column holds exactly `num_rows` rows.
    pub fn is_well_formed(&self) -> (r: bool)
        ensures
            r == self.wf(),
    {
        let mut c: usize = 0;
        while c < self.columns.len()
            invariant
                c <= self.columns@.len(),
                forall|k: int| 0 <= k < c ==> (#[trigger] self.columns@[k]).rows() == self.num_rows,
            decreases self.columns@.len() - c,
        {
            if self.columns[c].num_rows() != self.num_rows {
                return false;
            }
            c += 1;
        }
        true
    }

    /// A batch of `num_rows` rows, if every column holds that many.
    pub fn new(columns: Vec<Column>, num_rows: usize) -> (r: Option<Batch>)
        ensures
            r is Some <==> (Batch { columns, num_rows }).wf(),
            r matches Some(batch) ==> batch.columns == columns && batch.num_rows == num_rows,
    {
        let batch = Batch { columns, num_rows };
        if batch.is_well_formed() {
            Some(batch)
        } else {
            None
        }
    }

    /// Whether the batch's columns have the types that `schema` declares.
    pub fn matches_schema(&self, schema: &Vec<Field>) -> (r: bool)
        ensures
            r == self.fits(schema@),
    {
        if self.columns.len() != schema.len() {
            return false;
        }
        let mut c: usize = 0;
        while c < schema.len()
            invariant
                c <= schema@.len(),
                self.columns@.len() == schema@.len(),
                forall|k: int|
                    0 <= k < c ==> (#[trigger] self.columns@[k]).tag() == schema@[k].data_type@,
            decreases schema@.len() - c,
        {
            if !self.columns[c].has_type(&schema[c].data_type) {
                return false;
            }
            c += 1;
        }
        true
    }
}

/// What a query returned: a schema and the batches that share it, in order.
#[derive(Clone, Debug, PartialEq, Eq)]
pub struct ResultSet {
    pub schema: Vec<Field>,
    pub batches: Vec<Batch>,
}

impl ResultSet {
    /// Every batch is well formed and has the schema's columns.
    pub open spec fn wf(&self) -> bool {
        forall|b: int|
            0 <= b < self.batches@.len() ==> (#[trigger] self.batches@[b]).wf()
                && self.batches@[b].fits(self.schema@)
    }

    /// Whether every batch is well formed and has the schema's columns.
    pub fn is_well_formed(&self) -> (r: bool)
        ensures
            r == self.wf(),
    {
        let mut b: usize = 0;
        while b < self.batches.len()
            invariant
                b <= self.batches@.len(),
                forall|k: int|
                    0 <= k < b ==> (#[trigger] self.batches@[k]).wf() && self.batches@[k].fits(
                        self.schema@,
                    ),
            decreases self.batches@.len() - b,
        {
            if !self.batches[b].is_well_formed() || !self.batches[b].matches_schema(&self.schema) {
                return false;
            }
            b += 1;
        }
        true
    }

    /// A result set of `batches` under `schema`, if every batch is well
    /// formed and agrees with the schema.
    pub fn new(schema: Vec<Field>, batches: Vec<Batch>) -> (r: Option<ResultSet>)
        ensures
            r is Some <==> (ResultSet { schema, batches }).wf(),
            r matches Some(result) ==> result.schema == schema && result.batches == batches,
    {
        let result = ResultSet { schema, batches };
        if result.is_well_formed() {
            Some(result)
        } else {
            None
        }
    }
}

} // verus!
