use crate::batch::{col_len, col_ty, cells_i32, cells_ts_micros, cells_utf8, ColumnData, ColumnarBatch, NamedColumn, PrimType};
use crate::codec::{cs_wf, parquet_of, read_batch_from_bytes};
use crate::error::Error;
use crate::generator::log_data_generator::{wire_schema_spec, LogDataGenerator};
use crate::generator::data_generator::UseCase;
use crate::loader::data_loader::DataLoaderConfig;
use crate::loader::{
    i32_value, string_value, timestamp_microsecond_value, WireColumnSchema, WireInsertRequest,
    WireRow, WireValue, WireValueData,
};
use vstd::prelude::*;

verus! {

/// The loader that converts columnar batches into wire insert requests; the
/// network client that sends them lives outside the library.
pub struct GreptimeDataLoader {
    pub config: DataLoaderConfig,
}

impl GreptimeDataLoader {
    pub fn new(use_case: UseCase) -> (r: GreptimeDataLoader)
        ensures
            r.config.use_case == use_case,
    {
        GreptimeDataLoader { config: DataLoaderConfig { use_case } }
    }

    pub fn config(&self) -> (r: &DataLoaderConfig)
        ensures
            r.use_case == self.config.use_case,
    {
        &self.config
    }
}

/// The data of each named column, dropping the names.
pub open spec fn col_datas(m: Seq<NamedColumn>) -> Seq<ColumnData> {
    m.map_values(|nc: NamedColumn| nc.data)
}

/// Builds one table's wire insert request from the bytes of its parquet
/// file: decodes the file's first batch and converts it against the
/// catalog's wire schema for that table. Bytes encoding a well-formed,
/// wire-supported batch of one to 1024 rows yield exactly that batch's
/// conversion.
pub fn load_table_request(table_name: &str, file_bytes: Vec<u8>) -> (r: Result<
    WireInsertRequest,
    Error,
>)
    ensures
        r matches Ok(req) ==> {
            &&& req.table_name@ == table_name@
            &&& req.schema_view() == wire_schema_spec(table_name@)
        },
        forall|m: Seq<NamedColumn>|
            (cs_wf(m) && 1 <= col_len(m[0].data) <= 1024 && supported_cols(col_datas(m))
                && wire_schema_spec(table_name@).len() == m.len() && file_bytes@
                == #[trigger] parquet_of(m)) ==> (r matches Ok(req) && req.rows_view()
                == wire_rows_of(col_datas(m), col_len(m[0].data))),
        forall|m: Seq<NamedColumn>|
            (cs_wf(m) && col_len(m[0].data) == 0 && file_bytes@ == #[trigger] parquet_of(m)) ==> r
                == Err::<WireInsertRequest, Error>(Error::EndOfParquetFile),
        r matches Err(e) ==> (e == Error::ReadParquetFile || e == Error::EndOfParquetFile || e
            == Error::UnsupportedColumnType),
{
    let ghost bytes = file_bytes@;
    let record_batch = match read_batch_from_bytes(file_bytes) {
        Ok(b) => b,
        Err(e) => {
            return Err(e);
        },
    };
    let schema = LogDataGenerator::schema(table_name);
    if schema.len() != record_batch.num_columns() {
        return Err(Error::UnsupportedColumnType);
    }
    proof {
        assert forall|m: Seq<NamedColumn>|
            (cs_wf(m) && 1 <= col_len(m[0].data) <= 1024 && bytes == #[trigger] parquet_of(m))
                implies (record_batch.named_columns() == m && record_batch.columns_view()
            =~= col_datas(m) && record_batch.spec_rows() == col_len(m[0].data)) by {
            assert(record_batch.named_columns() == m);
            assert forall|j: int| 0 <= j < m.len() implies record_batch.columns_view()[j]
                == col_datas(m)[j] by {
                assert(record_batch.named_columns()[j] == m[j]);
            }
            assert(record_batch.named_columns()[0] == m[0]);
        }
    }
    match record_batch_to_insert_request(&record_batch, table_name, schema) {
        Ok(req) => Ok(req),
        Err(e) => {
            proof {
                assert(!supported_cols(record_batch.columns_view()));
            }
            Err(e)
        },
    }
}

/// Is a column of this shape one the wire protocol can carry?
pub open spec fn supported_col(d: ColumnData) -> bool {
    !(d is TimestampMillis)
}

/// Are all columns of a batch supported by the wire protocol?
pub open spec fn supported_cols(cols: Seq<ColumnData>) -> bool {
    forall|j: int| 0 <= j < cols.len() ==> supported_col(#[trigger] cols[j])
}

/// The wire value of row `i` of a supported column.
pub open spec fn wire_cell(d: ColumnData, i: int) -> WireValueData {
    match d {
        ColumnData::Int32(c) => WireValueData::I32(c[i]),
        ColumnData::Utf8(c) => WireValueData::Str(c[i]),
        ColumnData::TimestampMicros(c) => WireValueData::TimestampMicros(c[i]),
        ColumnData::TimestampMillis(_) => arbitrary(),
    }
}

/// The full row-major conversion of a batch: one wire row per batch row,
/// one typed value per column, preserving row and column order.
pub open spec fn wire_rows_of(cols: Seq<ColumnData>, nrows: nat) -> Seq<Seq<WireValueData>> {
    Seq::new(nrows, |i: int| Seq::new(cols.len(), |j: int| wire_cell(cols[j], i)))
}

/// Converts a batch into one table's wire insert request, walking the
/// columns row by row and dispatching on each column's primitive type.
/// Exactly the batches whose columns all lie in the wire protocol's closed
/// type set convert; any other column is a fatal schema mismatch. The
/// caller-supplied wire schema is paired with the rows unchanged.
pub fn record_batch_to_insert_request(
    record_batch: &ColumnarBatch,
    table_name: &str,
    schema: Vec<WireColumnSchema>,
) -> (r: Result<WireInsertRequest, Error>)
    requires
        record_batch.wf(),
        schema@.len() == record_batch.columns_view().len(),
    ensures
        r is Ok <==> supported_cols(record_batch.columns_view()),
        r matches Ok(req) ==> {
            &&& req.table_name@ == table_name@
            &&& req.schema_view() == schema@.map_values(|c: WireColumnSchema| c@)
            &&& req.rows_view() == wire_rows_of(
                record_batch.columns_view(),
                record_batch.spec_rows(),
            )
        },
        r matches Err(e) ==> e == Error::UnsupportedColumnType,
{
    let ghost cols = record_batch.columns_view();
    let ncols = record_batch.num_columns();
    let nrows = record_batch.num_rows();

    let mut j: usize = 0;
    while j < ncols
        invariant
            j <= ncols,
            ncols == cols.len(),
            record_batch.wf(),
            cols == record_batch.columns_view(),
            forall|k: int| 0 <= k < j ==> supported_col(#[trigger] cols[k]),
        decreases ncols - j,
    {
        if record_batch.column_type(j) == PrimType::TimestampMillis {
            proof {
                assert(col_ty(record_batch.columns_view()[j as int]) == record_batch.schema_view()[
                    j as int
                ].ty);
                assert(!supported_col(record_batch.columns_view()[j as int]));
            }
            return Err(Error::UnsupportedColumnType);
        }
        j += 1;
    }

    let mut rows: Vec<WireRow> = Vec::new();
    let mut i: usize = 0;
    while i < nrows
        invariant
            i <= nrows,
            ncols == cols.len(),
            nrows == record_batch.spec_rows(),
            record_batch.wf(),
            cols == record_batch.columns_view(),
            supported_cols(cols),
            rows@.len() == i,
            forall|a: int|
                0 <= a < i ==> #[trigger] rows@[a]@ == Seq::new(
                    cols.len(),
                    |b: int| wire_cell(cols[b], a),
                ),
        decreases nrows - i,
    {
        let mut values: Vec<WireValue> = Vec::new();
        let mut c: usize = 0;
        while c < ncols
            invariant
                c <= ncols,
                i < nrows,
                ncols == cols.len(),
                nrows == record_batch.spec_rows(),
                record_batch.wf(),
                cols == record_batch.columns_view(),
                supported_cols(cols),
                values@.len() == c,
                forall|b: int|
                    0 <= b < c ==> #[trigger] values@[b]@ == wire_cell(cols[b], i as int),
            decreases ncols - c,
        {
            let v = match record_batch.column_type(c) {
                PrimType::Int32 => i32_value(record_batch.i32_at(c, i)),
                PrimType::Utf8 => string_value(record_batch.str_at(c, i)),
                PrimType::TimestampMicros => timestamp_microsecond_value(
                    record_batch.ts_micros_at(c, i),
                ),
                PrimType::TimestampMillis => {
                    proof {
                        assert(!supported_col(cols[c as int]));
                    }
                    unreached()
                },
            };
            values.push(v);
            c += 1;
        }
        let row = WireRow { values };
        proof {
            assert(row@ =~= Seq::new(cols.len(), |b: int| wire_cell(cols[b], i as int)));
        }
        rows.push(row);
        i += 1;
    }

    let req = WireInsertRequest { table_name: table_name.to_owned(), schema, rows };
    proof {
        assert(req.rows_view() =~~= wire_rows_of(cols, record_batch.spec_rows()));
    }
    Ok(req)
}

} // verus!
