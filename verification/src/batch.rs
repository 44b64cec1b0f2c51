use crate::error::Error;
use vstd::prelude::*;

verus! {

/// The closed set of primitive column types a batch can hold.
#[derive(Clone, Copy, Debug, PartialEq, Eq, Structural)]
pub enum PrimType {
    Int32,
    Utf8,
    TimestampMicros,
    TimestampMillis,
}

/// One column's metadata: its name and primitive type.
#[derive(Debug)]
pub struct ColumnMeta {
    pub name: String,
    pub ty: PrimType,
}

/// Mathematical image of a `ColumnMeta`.
pub struct MetaView {
    pub name: Seq<char>,
    pub ty: PrimType,
}

impl View for ColumnMeta {
    type V = MetaView;

    open spec fn view(&self) -> MetaView {
        MetaView { name: self.name@, ty: self.ty }
    }
}

impl ColumnMeta {
    pub fn new(name: &str, ty: PrimType) -> (r: ColumnMeta)
        ensures
            r@ == (MetaView { name: name@, ty }),
    {
        ColumnMeta { name: name.to_owned(), ty }
    }
}

/// Mathematical image of one column's cells, tagged by primitive type.
pub enum ColumnData {
    Int32(Seq<i32>),
    Utf8(Seq<Seq<char>>),
    TimestampMicros(Seq<i64>),
    TimestampMillis(Seq<i64>),
}

pub open spec fn col_ty(d: ColumnData) -> PrimType {
    match d {
        ColumnData::Int32(_) => PrimType::Int32,
        ColumnData::Utf8(_) => PrimType::Utf8,
        ColumnData::TimestampMicros(_) => PrimType::TimestampMicros,
        ColumnData::TimestampMillis(_) => PrimType::TimestampMillis,
    }
}

pub open spec fn col_len(d: ColumnData) -> nat {
    match d {
        ColumnData::Int32(c) => c.len(),
        ColumnData::Utf8(c) => c.len(),
        ColumnData::TimestampMicros(c) => c.len(),
        ColumnData::TimestampMillis(c) => c.len(),
    }
}

pub open spec fn cells_i32(d: ColumnData) -> Seq<i32> {
    match d {
        ColumnData::Int32(c) => c,
        _ => Seq::empty(),
    }
}

pub open spec fn cells_utf8(d: ColumnData) -> Seq<Seq<char>> {
    match d {
        ColumnData::Utf8(c) => c,
        _ => Seq::empty(),
    }
}

pub open spec fn cells_ts_micros(d: ColumnData) -> Seq<i64> {
    match d {
        ColumnData::TimestampMicros(c) => c,
        _ => Seq::empty(),
    }
}

pub open spec fn cells_ts_millis(d: ColumnData) -> Seq<i64> {
    match d {
        ColumnData::TimestampMillis(c) => c,
        _ => Seq::empty(),
    }
}

/// A column together with its name, as the codec's model of a batch column.
pub struct NamedColumn {
    pub name: Seq<char>,
    pub data: ColumnData,
}

/// One homogeneous, fixed-length column of values; no nulls exist in this
/// design.
#[derive(Debug)]
pub enum ColumnArray {
    Int32(Vec<i32>),
    Utf8(Vec<String>),
    TimestampMicros(Vec<i64>),
    TimestampMillis(Vec<i64>),
}

impl View for ColumnArray {
    type V = ColumnData;

    open spec fn view(&self) -> ColumnData {
        match self {
            ColumnArray::Int32(v) => ColumnData::Int32(v@),
            ColumnArray::Utf8(v) => ColumnData::Utf8(v.deep_view()),
            ColumnArray::TimestampMicros(v) => ColumnData::TimestampMicros(v@),
            ColumnArray::TimestampMillis(v) => ColumnData::TimestampMillis(v@),
        }
    }
}

impl ColumnArray {
    pub fn len(&self) -> (r: usize)
        ensures
            r == col_len(self@),
    {
        match self {
            ColumnArray::Int32(v) => v.len(),
            ColumnArray::Utf8(v) => v.len(),
            ColumnArray::TimestampMicros(v) => v.len(),
            ColumnArray::TimestampMillis(v) => v.len(),
        }
    }

    pub fn prim_type(&self) -> (r: PrimType)
        ensures
            r == col_ty(self@),
    {
        match self {
            ColumnArray::Int32(_) => PrimType::Int32,
            ColumnArray::Utf8(_) => PrimType::Utf8,
            ColumnArray::TimestampMicros(_) => PrimType::TimestampMicros,
            ColumnArray::TimestampMillis(_) => PrimType::TimestampMillis,
        }
    }
}

/// Does a schema/column pairing satisfy the batch shape invariant: one meta
/// per column, at least one column, matching types, and equal lengths?
pub open spec fn shape_ok(ms: Seq<MetaView>, cs: Seq<ColumnData>) -> bool {
    &&& ms.len() == cs.len()
    &&& cs.len() >= 1
    &&& forall|i: int| 0 <= i < cs.len() ==> col_ty(#[trigger] cs[i]) == ms[i].ty
    &&& forall|i: int| 0 <= i < cs.len() ==> col_len(#[trigger] cs[i]) == col_len(cs[0])
}

/// A columnar batch: an ordered schema, one column array per schema entry,
/// and a row count every column agrees with.
#[derive(Debug)]
pub struct ColumnarBatch {
    pub(crate) schema: Vec<ColumnMeta>,
    pub(crate) columns: Vec<ColumnArray>,
    pub(crate) row_count: usize,
}

impl ColumnarBatch {
    pub closed spec fn schema_view(self) -> Seq<MetaView> {
        self.schema@.map_values(|m: ColumnMeta| m@)
    }

    pub closed spec fn columns_view(self) -> Seq<ColumnData> {
        self.columns@.map_values(|c: ColumnArray| c@)
    }

    pub closed spec fn spec_rows(self) -> nat {
        self.row_count as nat
    }

    /// The batch as the codec sees it: named columns, in schema order.
    pub open spec fn named_columns(self) -> Seq<NamedColumn> {
        Seq::new(
            self.columns_view().len(),
            |i: int| NamedColumn { name: self.schema_view()[i].name, data: self.columns_view()[i] },
        )
    }

    /// The batch shape invariant; `try_new` establishes it and every method
    /// preserves it.
    pub open spec fn wf(self) -> bool {
        &&& self.schema_view().len() == self.columns_view().len()
        &&& self.columns_view().len() >= 1
        &&& forall|i: int|
            0 <= i < self.columns_view().len() ==> col_ty(#[trigger] self.columns_view()[i])
                == self.schema_view()[i].ty
        &&& forall|i: int|
            0 <= i < self.columns_view().len() ==> col_len(#[trigger] self.columns_view()[i])
                == self.spec_rows()
    }

    /// Builds a batch, checking the shape invariant; a mismatch is the fatal
    /// construction error.
    pub fn try_new(schema: Vec<ColumnMeta>, columns: Vec<ColumnArray>) -> (r: Result<
        ColumnarBatch,
        Error,
    >)
        ensures
            r is Ok <==> shape_ok(
                schema@.map_values(|m: ColumnMeta| m@),
                columns@.map_values(|c: ColumnArray| c@),
            ),
            r matches Ok(b) ==> {
                &&& b.wf()
                &&& b.schema_view() == schema@.map_values(|m: ColumnMeta| m@)
                &&& b.columns_view() == columns@.map_values(|c: ColumnArray| c@)
                &&& b.spec_rows() == col_len(columns@.map_values(|c: ColumnArray| c@)[0])
            },
            r matches Err(e) ==> e == Error::Construction,
    {
        let ghost ms = schema@.map_values(|m: ColumnMeta| m@);
        let ghost cs = columns@.map_values(|c: ColumnArray| c@);
        if columns.len() == 0 || schema.len() != columns.len() {
            return Err(Error::Construction);
        }
        let rows = columns[0].len();
        let n = columns.len();
        let mut i: usize = 0;
        while i < n
            invariant
                n == cs.len(),
                ms.len() == cs.len(),
                cs.len() >= 1,
                i <= n,
                n == columns@.len(),
                schema@.len() == n,
                ms == schema@.map_values(|m: ColumnMeta| m@),
                cs == columns@.map_values(|c: ColumnArray| c@),
                rows == col_len(cs[0]),
                forall|j: int| 0 <= j < i ==> col_ty(#[trigger] cs[j]) == ms[j].ty,
                forall|j: int| 0 <= j < i ==> col_len(#[trigger] cs[j]) == col_len(cs[0]),
            decreases n - i,
        {
            proof {
                assert(cs[i as int] == columns@[i as int]@);
                assert(ms[i as int] == schema@[i as int]@);
            }
            if !(columns[i].prim_type() == schema[i].ty) {
                return Err(Error::Construction);
            }
            if columns[i].len() != rows {
                return Err(Error::Construction);
            }
            i += 1;
        }
        Ok(ColumnarBatch { schema, columns, row_count: rows })
    }

    pub fn num_rows(&self) -> (r: usize)
        ensures
            r == self.spec_rows(),
    {
        self.row_count
    }

    pub fn num_columns(&self) -> (r: usize)
        ensures
            r == self.columns_view().len(),
    {
        self.columns.len()
    }

    pub fn column_name(&self, i: usize) -> (r: String)
        requires
            i < self.schema_view().len(),
        ensures
            r@ == self.schema_view()[i as int].name,
    {
        self.schema[i].name.clone()
    }

    pub fn column_type(&self, i: usize) -> (r: PrimType)
        requires
            i < self.schema_view().len(),
        ensures
            r == self.schema_view()[i as int].ty,
    {
        self.schema[i].ty
    }

    /// Borrows column `i`.
    pub fn column_at(&self, i: usize) -> (r: &ColumnArray)
        requires
            i < self.columns_view().len(),
        ensures
            r@ == self.columns_view()[i as int],
    {
        &self.columns[i]
    }

    /// Reads one `Int32` cell.
    pub fn i32_at(&self, col: usize, row: usize) -> (r: i32)
        requires
            col < self.columns_view().len(),
            self.columns_view()[col as int] is Int32,
            row < col_len(self.columns_view()[col as int]),
        ensures
            r == cells_i32(self.columns_view()[col as int])[row as int],
    {
        match &self.columns[col] {
            ColumnArray::Int32(v) => v[row],
            _ => {
                proof {
                    assert(false);
                }
                unreached()
            },
        }
    }

    /// Reads one `Utf8` cell.
    pub fn str_at(&self, col: usize, row: usize) -> (r: String)
        requires
            col < self.columns_view().len(),
            self.columns_view()[col as int] is Utf8,
            row < col_len(self.columns_view()[col as int]),
        ensures
            r@ == cells_utf8(self.columns_view()[col as int])[row as int],
    {
        match &self.columns[col] {
            ColumnArray::Utf8(v) => v[row].clone(),
            _ => {
                proof {
                    assert(false);
                }
                unreached()
            },
        }
    }

    /// Reads one `TimestampMicros` cell.
    pub fn ts_micros_at(&self, col: usize, row: usize) -> (r: i64)
        requires
            col < self.columns_view().len(),
            self.columns_view()[col as int] is TimestampMicros,
            row < col_len(self.columns_view()[col as int]),
        ensures
            r == cells_ts_micros(self.columns_view()[col as int])[row as int],
    {
        match &self.columns[col] {
            ColumnArray::TimestampMicros(v) => v[row],
            _ => {
                proof {
                    assert(false);
                }
                unreached()
            },
        }
    }

    /// Reads one `TimestampMillis` cell.
    pub fn ts_millis_at(&self, col: usize, row: usize) -> (r: i64)
        requires
            col < self.columns_view().len(),
            self.columns_view()[col as int] is TimestampMillis,
            row < col_len(self.columns_view()[col as int]),
        ensures
            r == cells_ts_millis(self.columns_view()[col as int])[row as int],
    {
        match &self.columns[col] {
            ColumnArray::TimestampMillis(v) => v[row],
            _ => {
                proof {
                    assert(false);
                }
                unreached()
            },
        }
    }
}

} // verus!
