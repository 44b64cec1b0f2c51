use crate::batch::{
    cells_i32, cells_ts_micros, cells_ts_millis, cells_utf8, col_len, col_ty, shape_ok,
    ColumnArray, ColumnData, ColumnMeta, ColumnarBatch, NamedColumn, PrimType,
};
use crate::error::Error;
use arrow::array::{Int32Array, RecordBatch, StringArray, TimestampMicrosecondArray, TimestampMillisecondArray};
use arrow::datatypes::{DataType, Field, Schema, TimeUnit};
use parquet::arrow::arrow_reader::ParquetRecordBatchReaderBuilder;
use parquet::arrow::ArrowWriter;
use std::sync::Arc;
use vstd::prelude::*;

verus! {

/// One set of named arrow columns, the staging area between this crate's
/// batches and the parquet encoder. Arrow keeps each column behind a shared
/// array trait object, whose declaration the verifier refuses, so the
/// collection stays in an opaque struct and is reasoned about only through
/// `cs_columns`.
#[verifier::external_body]
pub struct ColumnSet {
    fields: Vec<arrow::datatypes::FieldRef>,
    arrays: Vec<arrow::array::ArrayRef>,
}

/// The named columns a `ColumnSet` holds, in order.
pub uninterp spec fn cs_columns(cs: ColumnSet) -> Seq<NamedColumn>;

/// The parquet encoding of a set of named columns under this crate's fixed
/// writer configuration: one batch, default writer properties. The encoding
/// takes pages to state, so it only carries a name; the codec's contracts
/// relate it to what the reader yields.
pub uninterp spec fn parquet_of(cols: Seq<NamedColumn>) -> Seq<u8>;

/// Is a column set shaped exactly as the push methods build one: every
/// column one of the codec's four arrow array types, behind a non-nullable,
/// timezone-free, metadata-free field, so that `cs_columns` lists it
/// faithfully and its parquet encoding is determined by `cs_columns` alone?
/// Sets decoded from arbitrary files need not satisfy this.
pub uninterp spec fn cs_decodable(cs: ColumnSet) -> bool;

/// Is a column set encodable: at least one column, all of equal length?
pub open spec fn cs_wf(cols: Seq<NamedColumn>) -> bool {
    &&& cols.len() >= 1
    &&& forall|i: int|
        0 <= i < cols.len() ==> col_len((#[trigger] cols[i]).data) == col_len(cols[0].data)
}

/// Does `r` hold the decoded form of every encodable column-set model whose
/// encoding `bytes` is? Decoded batches carry at most the reader's default
/// 1024 rows, so only models in that range are claimed.
pub open spec fn decodes_all_encodings(bytes: Seq<u8>, r: Result<ColumnSet, Error>) -> bool {
    forall|m: Seq<NamedColumn>|
        (cs_wf(m) && 1 <= col_len(m[0].data) <= 1024 && bytes == #[trigger] parquet_of(m)) ==> (
        r matches Ok(c) && cs_columns(c) == m && cs_decodable(c))
}

/// Does `r` report the end of the file wherever `bytes` encode a zero-row
/// column set? The writer emits no batch at all for zero rows, so the reader
/// finds none.
pub open spec fn empty_encodings_are_eof(bytes: Seq<u8>, r: Result<ColumnSet, Error>) -> bool {
    forall|m: Seq<NamedColumn>|
        (cs_wf(m) && col_len(m[0].data) == 0 && bytes == #[trigger] parquet_of(m)) ==> r == Err::<
            ColumnSet,
            Error,
        >(Error::EndOfParquetFile)
}

impl ColumnSet {
    /// Builds an empty column set.
    #[verifier::external_body]
    pub(crate) fn new() -> (r: ColumnSet)
        ensures
            cs_columns(r) == Seq::<NamedColumn>::empty(),
            cs_decodable(r),
    {
        ColumnSet { fields: Vec::new(), arrays: Vec::new() }
    }

    /// Relies on arrow's `Int32Array::from`: appends a 32-bit integer column
    /// holding exactly the given values.
    #[verifier::external_body]
    pub(crate) fn push_i32(&mut self, name: &str, v: &Vec<i32>)
        ensures
            cs_columns(*final(self)) == cs_columns(*old(self)).push(
                NamedColumn { name: name@, data: ColumnData::Int32(v@) },
            ),
            cs_decodable(*final(self)) == cs_decodable(*old(self)),
    {
        self.fields.push(Arc::new(Field::new(name, DataType::Int32, false)));
        self.arrays.push(Arc::new(Int32Array::from(v.clone())));
    }

    /// Relies on arrow's `StringArray::from`: appends a string column
    /// holding exactly the given values.
    #[verifier::external_body]
    pub(crate) fn push_utf8(&mut self, name: &str, v: &Vec<String>)
        ensures
            cs_columns(*final(self)) == cs_columns(*old(self)).push(
                NamedColumn { name: name@, data: ColumnData::Utf8(v.deep_view()) },
            ),
            cs_decodable(*final(self)) == cs_decodable(*old(self)),
    {
        self.fields.push(Arc::new(Field::new(name, DataType::Utf8, false)));
        self.arrays.push(Arc::new(StringArray::from(v.clone())));
    }

    /// Relies on arrow's `TimestampMicrosecondArray::from`: appends a
    /// microsecond-timestamp column holding exactly the given values.
    #[verifier::external_body]
    pub(crate) fn push_ts_micros(&mut self, name: &str, v: &Vec<i64>)
        ensures
            cs_columns(*final(self)) == cs_columns(*old(self)).push(
                NamedColumn { name: name@, data: ColumnData::TimestampMicros(v@) },
            ),
            cs_decodable(*final(self)) == cs_decodable(*old(self)),
    {
        self.fields.push(
            Arc::new(Field::new(name, DataType::Timestamp(TimeUnit::Microsecond, None), false)),
        );
        self.arrays.push(Arc::new(TimestampMicrosecondArray::from(v.clone())));
    }

    /// Relies on arrow's `TimestampMillisecondArray::from`: appends a
    /// millisecond-timestamp column holding exactly the given values.
    #[verifier::external_body]
    pub(crate) fn push_ts_millis(&mut self, name: &str, v: &Vec<i64>)
        ensures
            cs_columns(*final(self)) == cs_columns(*old(self)).push(
                NamedColumn { name: name@, data: ColumnData::TimestampMillis(v@) },
            ),
            cs_decodable(*final(self)) == cs_decodable(*old(self)),
    {
        self.fields.push(
            Arc::new(Field::new(name, DataType::Timestamp(TimeUnit::Millisecond, None), false)),
        );
        self.arrays.push(Arc::new(TimestampMillisecondArray::from(v.clone())));
    }

    /// How many columns the set holds.
    #[verifier::external_body]
    pub(crate) fn len(&self) -> (r: usize)
        ensures
            r == cs_columns(*self).len(),
    {
        self.arrays.len()
    }

    /// Relies on arrow's `Field::name`: the name of column `i`.
    #[verifier::external_body]
    pub(crate) fn name_at(&self, i: usize) -> (r: String)
        requires
            i < cs_columns(*self).len(),
        ensures
            r@ == cs_columns(*self)[i as int].name,
    {
        self.fields[i].name().clone()
    }

    /// Relies on arrow's array downcast: the values of column `i` where it
    /// is a 32-bit integer column, and `None` otherwise.
    #[verifier::external_body]
    pub(crate) fn i32_at(&self, i: usize) -> (r: Option<Vec<i32>>)
        requires
            i < cs_columns(*self).len(),
        ensures
            cs_decodable(*self) ==> (r is Some <==> cs_columns(*self)[i as int].data is Int32),
            r matches Some(v) ==> (cs_columns(*self)[i as int].data is Int32 && v@ == cells_i32(
                cs_columns(*self)[i as int].data,
            )),
    {
        self.arrays[i].as_any().downcast_ref::<Int32Array>().map(|a| a.values().to_vec())
    }

    /// Relies on arrow's array downcast: the values of column `i` where it
    /// is a string column, and `None` otherwise.
    #[verifier::external_body]
    pub(crate) fn utf8_at(&self, i: usize) -> (r: Option<Vec<String>>)
        requires
            i < cs_columns(*self).len(),
        ensures
            cs_decodable(*self) ==> (r is Some <==> cs_columns(*self)[i as int].data is Utf8),
            r matches Some(v) ==> (cs_columns(*self)[i as int].data is Utf8 && v.deep_view() == cells_utf8(
                cs_columns(*self)[i as int].data,
            )),
    {
        self.arrays[i].as_any().downcast_ref::<StringArray>().map(
            |a| a.iter().map(|s| s.unwrap_or_default().to_string()).collect(),
        )
    }

    /// Relies on arrow's array downcast: the values of column `i` where it
    /// is a microsecond-timestamp column, and `None` otherwise.
    #[verifier::external_body]
    pub(crate) fn ts_micros_at(&self, i: usize) -> (r: Option<Vec<i64>>)
        requires
            i < cs_columns(*self).len(),
        ensures
            cs_decodable(*self) ==> (r is Some <==> cs_columns(*self)[i as int].data is TimestampMicros),
            r matches Some(v) ==> (cs_columns(*self)[i as int].data is TimestampMicros && v@ == cells_ts_micros(
                cs_columns(*self)[i as int].data,
            )),
    {
        self.arrays[i].as_any().downcast_ref::<TimestampMicrosecondArray>().map(
            |a| a.values().to_vec(),
        )
    }

    /// Relies on arrow's array downcast: the values of column `i` where it
    /// is a millisecond-timestamp column, and `None` otherwise.
    #[verifier::external_body]
    pub(crate) fn ts_millis_at(&self, i: usize) -> (r: Option<Vec<i64>>)
        requires
            i < cs_columns(*self).len(),
        ensures
            cs_decodable(*self) ==> (r is Some <==> cs_columns(*self)[i as int].data is TimestampMillis),
            r matches Some(v) ==> (cs_columns(*self)[i as int].data is TimestampMillis && v@ == cells_ts_millis(
                cs_columns(*self)[i as int].data,
            )),
    {
        self.arrays[i].as_any().downcast_ref::<TimestampMillisecondArray>().map(
            |a| a.values().to_vec(),
        )
    }

    /// Relies on arrow's `RecordBatch::try_new` and parquet's `ArrowWriter`
    /// over an in-memory buffer: a push-shaped, encodable column set (at
    /// least one column, equal lengths, types from this codec's closed set)
    /// writes successfully, and what such a set writes is the encoding of
    /// exactly its columns — for other sets the encoding may also depend on
    /// field details the model does not carry, so nothing is claimed of it.
    #[verifier::external_body]
    pub(crate) fn to_parquet_bytes(&self) -> (r: Result<Vec<u8>, Error>)
        ensures
            (cs_decodable(*self) && cs_wf(cs_columns(*self))) ==> r is Ok,
            r matches Ok(out) ==> (cs_decodable(*self) ==> out@ == parquet_of(
                cs_columns(*self),
            )),
            r matches Err(e) ==> e == Error::WriteParquetFile,
    {
        let schema = Arc::new(Schema::new(self.fields.clone()));
        let batch = RecordBatch::try_new(schema.clone(), self.arrays.clone())
            .map_err(|_| Error::WriteParquetFile)?;
        let mut writer = ArrowWriter::try_new(Vec::new(), schema, None)
            .map_err(|_| Error::WriteParquetFile)?;
        writer.write(&batch).map_err(|_| Error::WriteParquetFile)?;
        writer.into_inner().map_err(|_| Error::WriteParquetFile)
    }

    /// Relies on parquet's `ParquetRecordBatchReaderBuilder` over in-memory
    /// bytes: reads the first batch a parquet file holds. The reader yields
    /// batches of at most its default 1024 rows, so bytes that encode an
    /// encodable column set of one to 1024 rows decode to exactly that set;
    /// a file with no batch is the end-of-file error, and undecodable bytes
    /// are the corrupt-format error.
    #[verifier::external_body]
    pub(crate) fn from_parquet_bytes(data: &Vec<u8>) -> (r: Result<ColumnSet, Error>)
        ensures
            decodes_all_encodings(data@, r),
            empty_encodings_are_eof(data@, r),
            r matches Err(e) ==> (e == Error::ReadParquetFile || e == Error::EndOfParquetFile),
    {
        let builder = ParquetRecordBatchReaderBuilder::try_new(bytes::Bytes::from(data.clone()))
            .map_err(|_| Error::ReadParquetFile)?;
        let mut reader = builder.build().map_err(|_| Error::ReadParquetFile)?;
        match reader.next() {
            None => Err(Error::EndOfParquetFile),
            Some(Err(_)) => Err(Error::ReadParquetFile),
            Some(Ok(rb)) => Ok(
                ColumnSet { fields: rb.schema().fields().to_vec(), arrays: rb.columns().to_vec() },
            ),
        }
    }
}

/// Encodes one batch as a parquet file held in memory. Every well-formed
/// batch encodes; the bytes are the encoding of exactly the batch's named
/// columns.
pub fn write_batch_to_bytes(batch: &ColumnarBatch) -> (r: Result<Vec<u8>, Error>)
    requires
        batch.wf(),
    ensures
        r is Ok,
        r matches Ok(bytes) ==> bytes@ == parquet_of(batch.named_columns()),
{
    let ghost target = batch.named_columns();
    let n = batch.num_columns();
    let mut cs = ColumnSet::new();
    let mut j: usize = 0;
    while j < n
        invariant
            j <= n,
            batch.wf(),
            n == batch.columns_view().len(),
            target == batch.named_columns(),
            cs_columns(cs) == target.take(j as int),
            cs_decodable(cs),
        decreases n - j,
    {
        let name = batch.column_name(j);
        match batch.column_at(j) {
            ColumnArray::Int32(v) => cs.push_i32(name.as_str(), v),
            ColumnArray::Utf8(v) => cs.push_utf8(name.as_str(), v),
            ColumnArray::TimestampMicros(v) => cs.push_ts_micros(name.as_str(), v),
            ColumnArray::TimestampMillis(v) => cs.push_ts_millis(name.as_str(), v),
        }
        proof {
            assert(cs_columns(cs) =~= target.take(j as int + 1));
        }
        j += 1;
    }
    proof {
        assert(cs_columns(cs) =~= target);
        assert(cs_wf(target));
    }
    match cs.to_parquet_bytes() {
        Ok(bytes) => Ok(bytes),
        Err(_) => {
            proof {
                assert(false);
            }
            unreached()
        },
    }
}

/// Decodes the first batch embedded in an in-memory parquet file. Bytes
/// that `write_batch_to_bytes` produced from a well-formed batch of one to
/// 1024 rows decode to a batch with the same named columns; a file holding
/// no batch yields the end-of-file error, and anything undecodable into the
/// codec's closed column type set yields the corrupt-format error.
pub fn read_batch_from_bytes(data: Vec<u8>) -> (r: Result<ColumnarBatch, Error>)
    ensures
        r matches Ok(b) ==> b.wf(),
        forall|m: Seq<NamedColumn>|
            (cs_wf(m) && 1 <= col_len(m[0].data) <= 1024 && data@ == #[trigger] parquet_of(m))
                ==> (r matches Ok(b) && b.wf() && b.named_columns() == m),
        forall|m: Seq<NamedColumn>|
            (cs_wf(m) && col_len(m[0].data) == 0 && data@ == #[trigger] parquet_of(m)) ==> r
                == Err::<ColumnarBatch, Error>(Error::EndOfParquetFile),
        r matches Err(e) ==> (e == Error::ReadParquetFile || e == Error::EndOfParquetFile),
{
    let ghost bytes = data@;
    let cs = match ColumnSet::from_parquet_bytes(&data) {
        Ok(c) => c,
        Err(e) => {
            return Err(e);
        },
    };
    let n = cs.len();
    if n == 0 {
        return Err(Error::ReadParquetFile);
    }
    let mut schema: Vec<ColumnMeta> = Vec::new();
    let mut columns: Vec<ColumnArray> = Vec::new();
    let mut i: usize = 0;
    while i < n
        invariant
            i <= n,
            n == cs_columns(cs).len(),
            bytes == data@,
            decodes_all_encodings(bytes, Ok::<ColumnSet, Error>(cs)),
            empty_encodings_are_eof(bytes, Ok::<ColumnSet, Error>(cs)),
            schema@.len() == i,
            columns@.len() == i,
            forall|k: int|
                0 <= k < i ==> #[trigger] columns@[k]@ == cs_columns(cs)[k].data,
            forall|k: int|
                0 <= k < i ==> #[trigger] schema@[k]@.name == cs_columns(cs)[k].name,
            forall|k: int| 0 <= k < i ==> #[trigger] schema@[k]@.ty == col_ty(columns@[k]@),
        decreases n - i,
    {
        let name = cs.name_at(i);
        if let Some(v) = cs.i32_at(i) {
            schema.push(ColumnMeta::new(name.as_str(), PrimType::Int32));
            columns.push(ColumnArray::Int32(v));
        } else if let Some(v) = cs.utf8_at(i) {
            schema.push(ColumnMeta::new(name.as_str(), PrimType::Utf8));
            columns.push(ColumnArray::Utf8(v));
        } else if let Some(v) = cs.ts_micros_at(i) {
            schema.push(ColumnMeta::new(name.as_str(), PrimType::TimestampMicros));
            columns.push(ColumnArray::TimestampMicros(v));
        } else if let Some(v) = cs.ts_millis_at(i) {
            schema.push(ColumnMeta::new(name.as_str(), PrimType::TimestampMillis));
            columns.push(ColumnArray::TimestampMillis(v));
        } else {
            proof {
                assert forall|m: Seq<NamedColumn>|
                    !(cs_wf(m) && 1 <= col_len(m[0].data) <= 1024 && bytes
                        == #[trigger] parquet_of(m)) by {
                    if cs_wf(m) && 1 <= col_len(m[0].data) <= 1024 && bytes == parquet_of(m) {
                        assert(cs_decodable(cs));
                        assert(!(cs_columns(cs)[i as int].data is Int32));
                        assert(!(cs_columns(cs)[i as int].data is Utf8));
                        assert(!(cs_columns(cs)[i as int].data is TimestampMicros));
                        assert(!(cs_columns(cs)[i as int].data is TimestampMillis));
                        assert(false);
                    }
                }
                assert forall|m: Seq<NamedColumn>|
                    !(cs_wf(m) && col_len(m[0].data) == 0 && bytes
                        == #[trigger] parquet_of(m)) by {
                    if cs_wf(m) && col_len(m[0].data) == 0 && bytes == parquet_of(m) {
                        assert(Ok::<ColumnSet, Error>(cs) == Err::<ColumnSet, Error>(
                            Error::EndOfParquetFile,
                        ));
                        assert(false);
                    }
                }
            }
            return Err(Error::ReadParquetFile);
        }
        i += 1;
    }
    let ghost ms = schema@.map_values(|m: ColumnMeta| m@);
    let ghost cls = columns@.map_values(|c: ColumnArray| c@);
    match ColumnarBatch::try_new(schema, columns) {
        Ok(b) => {
            proof {
                assert forall|m: Seq<NamedColumn>|
                    (cs_wf(m) && 1 <= col_len(m[0].data) <= 1024 && bytes == #[trigger] parquet_of(
                        m,
                    )) implies (b.wf() && b.named_columns() == m) by {
                    assert(cs_columns(cs) == m);
                    assert(b.named_columns() =~= m);
                }
            }
            Ok(b)
        },
        Err(_) => {
            proof {
                assert forall|m: Seq<NamedColumn>|
                    !(cs_wf(m) && 1 <= col_len(m[0].data) <= 1024 && bytes == #[trigger] parquet_of(
                        m,
                    )) by {
                    if cs_wf(m) && 1 <= col_len(m[0].data) <= 1024 && bytes == parquet_of(m) {
                        assert(cs_columns(cs) == m);
                        assert(forall|k: int|
                            0 <= k < n ==> col_len(#[trigger] cls[k]) == col_len(m[k].data));
                        assert(shape_ok(ms, cls));
                        assert(false);
                    }
                }
            }
            Err(Error::ReadParquetFile)
        },
    }
}

} // verus!
