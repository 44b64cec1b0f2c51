use vstd::prelude::*;

verus! {

/// Errors of the generation, codec and conversion pipeline.
///
/// `ParseDate` and `TimeOutOfRange` reject a malformed or extreme
/// configuration; `RowCountOverflow` rejects a time range that asks for more
/// rows than an `i32` id column can number; `Construction` is the fatal batch
/// shape error; the parquet variants mirror the codec's failure modes; and
/// `UnsupportedColumnType` is the converter's fatal schema-drift error.
#[derive(Clone, Copy, Debug, PartialEq, Eq, Structural)]
pub enum Error {
    ParseDate,
    TimeOutOfRange,
    RowCountOverflow,
    Construction,
    WriteParquetFile,
    ReadParquetFile,
    EndOfParquetFile,
    UnsupportedColumnType,
}

} // verus!
