use greptime_bench::batch::{ColumnArray, ColumnMeta, ColumnarBatch, PrimType};
use greptime_bench::codec::{read_batch_from_bytes, write_batch_to_bytes};
use greptime_bench::error::Error;
use greptime_bench::generator::data_generator::{DataGeneratorConfig, UseCase};
use greptime_bench::generator::log_data_generator::{LogConfig, LogData, LogDataGenerator};

fn sample_batch() -> ColumnarBatch {
    let schema = vec![
        ColumnMeta::new("id", PrimType::Int32),
        ColumnMeta::new("name", PrimType::Utf8),
        ColumnMeta::new("at_us", PrimType::TimestampMicros),
        ColumnMeta::new("at_ms", PrimType::TimestampMillis),
    ];
    let columns = vec![
        ColumnArray::Int32(vec![1, -2, i32::MAX]),
        ColumnArray::Utf8(vec!["a".to_string(), "b'c".to_string(), String::new()]),
        ColumnArray::TimestampMicros(vec![1_548_114_974_000_000, 0, -5]),
        ColumnArray::TimestampMillis(vec![7, 8, 9]),
    ];
    ColumnarBatch::try_new(schema, columns).unwrap()
}

#[test]
fn test_parquet_round_trip() {
    // Reading back what was written yields the same row count, column
    // count, and cell values, for every supported primitive type.
    let batch = sample_batch();
    let bytes = write_batch_to_bytes(&batch).unwrap();
    let back = read_batch_from_bytes(bytes).unwrap();

    assert_eq!(back.num_rows(), batch.num_rows());
    assert_eq!(back.num_columns(), batch.num_columns());
    for j in 0..batch.num_columns() {
        assert_eq!(back.column_name(j), batch.column_name(j));
        assert_eq!(back.column_type(j), batch.column_type(j));
    }
    for r in 0..batch.num_rows() {
        assert_eq!(back.i32_at(0, r), batch.i32_at(0, r));
        assert_eq!(back.str_at(1, r), batch.str_at(1, r));
        assert_eq!(back.ts_micros_at(2, r), batch.ts_micros_at(2, r));
        assert_eq!(back.ts_millis_at(3, r), batch.ts_millis_at(3, r));
    }
}

#[test]
fn test_round_trip_of_generated_tables() {
    let generator = LogDataGenerator {
        generator_config: DataGeneratorConfig {
            interval: 60 * 60 * 1_000_000,
            time_start: "2023-01-01T00:00:00Z".to_string(),
            time_end: "2023-01-02T00:00:00Z".to_string(),
            seed: 42,
            limit: 10,
            use_case: UseCase::Log,
        },
        log_config: LogConfig {
            num_of_users: 10,
            num_of_pages: 5,
        },
        log_data: LogData::new(),
    };
    let batches = generator.generate().unwrap();
    let files = generator.write(&batches).unwrap();
    assert_eq!(files.len(), 7);
    let expected_names = [
        "users.parquet",
        "pages.parquet",
        "devices.parquet",
        "web_logs.parquet",
        "requests.parquet",
        "responses.parquet",
        "error_logs.parquet",
    ];
    for (i, (name, bytes)) in files.into_iter().enumerate() {
        assert_eq!(name, expected_names[i]);
        let back = read_batch_from_bytes(bytes).unwrap();
        assert_eq!(back.num_rows(), batches[i].num_rows());
        assert_eq!(back.num_columns(), batches[i].num_columns());
    }
}

#[test]
fn test_read_rejects_garbage() {
    let r = read_batch_from_bytes(vec![1, 2, 3, 4, 5]);
    assert_eq!(r.unwrap_err(), Error::ReadParquetFile);
}

#[test]
fn test_read_rejects_column_outside_type_set() {
    // A valid parquet file whose column type lies outside the codec's
    // closed set is the corrupt-format error, not a panic.
    let arrow_schema = std::sync::Arc::new(arrow::datatypes::Schema::new(vec![
        arrow::datatypes::Field::new("big", arrow::datatypes::DataType::Int64, false),
    ]));
    let array: arrow::array::ArrayRef =
        std::sync::Arc::new(arrow::array::Int64Array::from(vec![1i64, 2, 3]));
    let rb = arrow::array::RecordBatch::try_new(arrow_schema.clone(), vec![array]).unwrap();
    let mut writer = parquet::arrow::ArrowWriter::try_new(Vec::new(), arrow_schema, None).unwrap();
    writer.write(&rb).unwrap();
    let bytes = writer.into_inner().unwrap();
    assert_eq!(read_batch_from_bytes(bytes).unwrap_err(), Error::ReadParquetFile);
}

#[test]
fn test_read_of_empty_file_is_end_of_file() {
    // A zero-row batch writes a file holding no batch at all, and reading
    // it back reports the end of the file.
    let schema = vec![ColumnMeta::new("id", PrimType::Int32)];
    let columns = vec![ColumnArray::Int32(Vec::new())];
    let batch = ColumnarBatch::try_new(schema, columns).unwrap();
    let bytes = write_batch_to_bytes(&batch).unwrap();
    let r = read_batch_from_bytes(bytes);
    assert_eq!(r.unwrap_err(), Error::EndOfParquetFile);
}
