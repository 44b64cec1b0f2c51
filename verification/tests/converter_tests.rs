use greptime_bench::batch::{ColumnArray, ColumnMeta, ColumnarBatch, PrimType};
use greptime_bench::codec::write_batch_to_bytes;
use greptime_bench::error::Error;
use greptime_bench::generator::data_generator::{DataGenerator, DataGeneratorConfig, UseCase};
use greptime_bench::generator::log_data_generator::{LogConfig, LogData, LogDataGenerator};
use greptime_bench::loader::greptime_data_loader::{
    load_table_request, record_batch_to_insert_request, GreptimeDataLoader,
};
use greptime_bench::loader::{
    field, i32_value, string_value, tag, timestamp, timestamp_microsecond_value, SemanticType,
    WireDataType, WireValue,
};

#[test]
fn test_single_row_batch_converts_to_one_wire_row() {
    // A single-row batch with a microsecond timestamp and a tag converts to
    // one wire row holding a timestamp value and a string value, in order.
    let schema = vec![
        ColumnMeta::new("ts", PrimType::TimestampMicros),
        ColumnMeta::new("tag", PrimType::Utf8),
    ];
    let columns = vec![
        ColumnArray::TimestampMicros(vec![1_548_114_974_000_000]),
        ColumnArray::Utf8(vec!["c1".to_string()]),
    ];
    let batch = ColumnarBatch::try_new(schema, columns).unwrap();
    let wire_schema = vec![
        timestamp("ts", WireDataType::TimestampMicrosecond),
        tag("tag", WireDataType::Utf8),
    ];
    let req = record_batch_to_insert_request(&batch, "weather_demo", wire_schema).unwrap();
    assert_eq!(req.table_name, "weather_demo");
    assert_eq!(req.rows.len(), 1);
    assert_eq!(req.rows[0].values.len(), 2);
    assert!(matches!(
        req.rows[0].values[0],
        WireValue::TimestampMicros(v) if v == 1_548_114_974_000_000
    ));
    assert!(matches!(
        &req.rows[0].values[1],
        WireValue::Str(s) if s == "c1"
    ));
}

#[test]
fn test_conversion_preserves_row_and_column_order() {
    let schema = vec![
        ColumnMeta::new("id", PrimType::Int32),
        ColumnMeta::new("name", PrimType::Utf8),
    ];
    let columns = vec![
        ColumnArray::Int32(vec![7, 8]),
        ColumnArray::Utf8(vec!["x".to_string(), "y".to_string()]),
    ];
    let batch = ColumnarBatch::try_new(schema, columns).unwrap();
    let wire_schema = vec![
        tag("id", WireDataType::Int32),
        field("name", WireDataType::Utf8),
    ];
    let req = record_batch_to_insert_request(&batch, "t", wire_schema).unwrap();
    assert_eq!(req.rows.len(), 2);
    assert!(matches!(req.rows[0].values[0], WireValue::I32(7)));
    assert!(matches!(&req.rows[0].values[1], WireValue::Str(s) if s == "x"));
    assert!(matches!(req.rows[1].values[0], WireValue::I32(8)));
    assert!(matches!(&req.rows[1].values[1], WireValue::Str(s) if s == "y"));
}

#[test]
fn test_unsupported_column_type_is_rejected() {
    let schema = vec![ColumnMeta::new("at_ms", PrimType::TimestampMillis)];
    let columns = vec![ColumnArray::TimestampMillis(vec![1, 2])];
    let batch = ColumnarBatch::try_new(schema, columns).unwrap();
    let wire_schema = vec![field("at_ms", WireDataType::Int32)];
    let r = record_batch_to_insert_request(&batch, "t", wire_schema);
    assert_eq!(r.unwrap_err(), Error::UnsupportedColumnType);
}

#[test]
fn test_wire_value_helpers() {
    assert!(matches!(i32_value(5), WireValue::I32(5)));
    assert!(matches!(
        string_value("hi".to_string()),
        WireValue::Str(s) if s == "hi"
    ));
    assert!(matches!(
        timestamp_microsecond_value(99),
        WireValue::TimestampMicros(99)
    ));
}

#[test]
fn test_wire_schema_helpers() {
    let t = tag("k", WireDataType::Int32);
    assert_eq!(t.column_name, "k");
    assert_eq!(t.semantic_type, SemanticType::Tag);
    assert_eq!(t.datatype, WireDataType::Int32);

    let ts = timestamp("ts", WireDataType::TimestampMicrosecond);
    assert_eq!(ts.semantic_type, SemanticType::Timestamp);

    let f = field("v", WireDataType::Utf8);
    assert_eq!(f.semantic_type, SemanticType::Field);
}

#[test]
fn test_schema_catalog() {
    let users = LogDataGenerator::schema("users");
    assert_eq!(users.len(), 4);
    assert_eq!(users[0].column_name, "user_id");
    assert_eq!(users[0].semantic_type, SemanticType::Tag);
    assert_eq!(users[0].datatype, WireDataType::Int32);
    assert_eq!(users[3].column_name, "signup_date");
    assert_eq!(users[3].semantic_type, SemanticType::Timestamp);
    assert_eq!(users[3].datatype, WireDataType::TimestampMicrosecond);

    let web_logs = LogDataGenerator::schema("web_logs");
    assert_eq!(web_logs.len(), 7);
    assert_eq!(web_logs[6].column_name, "timestamp");

    assert!(LogDataGenerator::schema("nonexistent").is_empty());
}

#[test]
fn test_table_names() {
    assert_eq!(LogDataGenerator::table_name("users"), "users");
    assert_eq!(LogDataGenerator::table_name("error_logs"), "error_logs");
    assert_eq!(LogDataGenerator::table_name("whatever"), "unknown");

    let names = LogDataGenerator::table_names();
    assert_eq!(
        names,
        vec![
            "users",
            "pages",
            "devices",
            "web_logs",
            "requests",
            "responses",
            "error_logs"
        ]
    );
}

#[test]
fn test_load_table_request_from_encoded_batch() {
    let generator = LogDataGenerator {
        generator_config: DataGeneratorConfig {
            interval: 60 * 60 * 1_000_000,
            time_start: "2023-01-01T00:00:00Z".to_string(),
            time_end: "2023-01-02T00:00:00Z".to_string(),
            seed: 42,
            limit: 10,
            use_case: UseCase::Log,
        },
        log_config: LogConfig {
            num_of_users: 10,
            num_of_pages: 5,
        },
        log_data: LogData::new(),
    };
    let users = generator.generate_users_data().unwrap();
    let bytes = write_batch_to_bytes(&users).unwrap();
    let req = load_table_request("users", bytes).unwrap();
    assert_eq!(req.table_name, "users");
    assert_eq!(req.schema.len(), 4);
    assert_eq!(req.rows.len(), 10);
    assert!(matches!(req.rows[3].values[0], WireValue::I32(3)));
}

#[test]
fn test_loader_config() {
    let loader = GreptimeDataLoader::new(UseCase::Log);
    assert!(matches!(loader.config().use_case, UseCase::Log));
}

#[test]
fn test_generator_trait_boundary() {
    let names = <LogDataGenerator as DataGenerator>::table_names();
    assert_eq!(names.len(), 7);
    let schema = <LogDataGenerator as DataGenerator>::schema("devices");
    assert_eq!(schema.len(), 2);
    assert_eq!(
        <LogDataGenerator as DataGenerator>::table_name("pages"),
        "pages"
    );
}

#[test]
fn test_log_data_default() {
    let d = LogData::default();
    assert_eq!(d.users_schema.len(), 4);
    assert_eq!(d.devices_schema.len(), 2);
    assert_eq!(d.web_logs_schema.len(), 7);
}
