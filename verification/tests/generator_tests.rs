use greptime_bench::batch::{ColumnArray, ColumnMeta, ColumnarBatch, PrimType};
use greptime_bench::error::Error;
use greptime_bench::generator::data_generator::{DataGeneratorConfig, UseCase};
use greptime_bench::generator::log_data_generator::{LogConfig, LogData, LogDataGenerator};

fn create_log_data_generator() -> LogDataGenerator {
    let log_data = LogData::new();
    let log_config = LogConfig {
        num_of_users: 10,
        num_of_pages: 5,
    };

    let generator_config = DataGeneratorConfig {
        interval: 60 * 60 * 1_000_000,
        time_start: "2023-01-01T00:00:00Z".to_string(),
        time_end: "2023-01-02T00:00:00Z".to_string(),
        seed: 42,
        limit: 10,
        use_case: UseCase::Log,
    };

    LogDataGenerator {
        generator_config,
        log_config,
        log_data,
    }
}

fn assert_batches_equal(a: &ColumnarBatch, b: &ColumnarBatch) {
    assert_eq!(a.num_rows(), b.num_rows());
    assert_eq!(a.num_columns(), b.num_columns());
    for j in 0..a.num_columns() {
        assert_eq!(a.column_name(j), b.column_name(j));
        assert_eq!(a.column_type(j), b.column_type(j));
        for r in 0..a.num_rows() {
            match a.column_type(j) {
                PrimType::Int32 => assert_eq!(a.i32_at(j, r), b.i32_at(j, r)),
                PrimType::Utf8 => assert_eq!(a.str_at(j, r), b.str_at(j, r)),
                PrimType::TimestampMicros => assert_eq!(a.ts_micros_at(j, r), b.ts_micros_at(j, r)),
                PrimType::TimestampMillis => assert_eq!(a.ts_millis_at(j, r), b.ts_millis_at(j, r)),
            }
        }
    }
}

#[test]
fn test_generate() {
    let generator = create_log_data_generator();
    let result = generator.generate();

    assert!(result.is_ok());
    let batches = result.unwrap();

    assert_eq!(batches.len(), 7);

    let users_batch = &batches[0];
    assert_eq!(users_batch.num_columns(), 4);
    assert_eq!(users_batch.num_rows(), 10);

    let pages_batch = &batches[1];
    assert_eq!(pages_batch.num_columns(), 4);
    assert_eq!(pages_batch.num_rows(), 5);

    let devices_batch = &batches[2];
    assert_eq!(devices_batch.num_columns(), 2);
    assert_eq!(devices_batch.num_rows(), 10);

    let web_logs_batch = &batches[3];
    assert_eq!(web_logs_batch.num_columns(), 7);
    assert!(web_logs_batch.num_rows() > 0);

    let requests_batch = &batches[4];
    assert_eq!(requests_batch.num_columns(), 5);
    assert_eq!(requests_batch.num_rows(), web_logs_batch.num_rows());

    let responses_batch = &batches[5];
    assert_eq!(responses_batch.num_columns(), 5);
    assert_eq!(responses_batch.num_rows(), web_logs_batch.num_rows());

    let error_logs_batch = &batches[6];
    assert_eq!(error_logs_batch.num_columns(), 5);
    assert!(error_logs_batch.num_rows() <= web_logs_batch.num_rows() * 3);
}

#[test]
fn test_row_counts_match_config() {
    // devices row count == users row count == num_of_users, and the
    // dependent tables pair 1:1 with web_logs.
    let generator = create_log_data_generator();
    let batches = generator.generate().unwrap();
    assert_eq!(batches[0].num_rows(), 10);
    assert_eq!(batches[2].num_rows(), 10);
    assert_eq!(batches[1].num_rows(), 5);
    assert_eq!(batches[4].num_rows(), batches[3].num_rows());
    assert_eq!(batches[5].num_rows(), batches[3].num_rows());
    assert!(batches[6].num_rows() <= 3 * batches[3].num_rows());
}

#[test]
fn test_web_logs_row_count_scenario() {
    // A one-hour inclusive window stepped hourly yields exactly two rows.
    let generator = LogDataGenerator {
        generator_config: DataGeneratorConfig {
            interval: 3_600_000_000,
            time_start: "2021-01-01T00:00:00Z".to_string(),
            time_end: "2021-01-01T01:00:00Z".to_string(),
            seed: 123,
            limit: 10,
            use_case: UseCase::Log,
        },
        log_config: LogConfig {
            num_of_users: 10,
            num_of_pages: 5,
        },
        log_data: LogData::new(),
    };
    let batches = generator.generate().unwrap();
    assert_eq!(batches[3].num_rows(), 2);
}

#[test]
fn test_generate_is_deterministic() {
    let a = create_log_data_generator().generate().unwrap();
    let b = create_log_data_generator().generate().unwrap();
    assert_eq!(a.len(), b.len());
    for i in 0..a.len() {
        assert_batches_equal(&a[i], &b[i]);
    }
}

#[test]
fn test_web_log_timestamps_jitter_around_schedule() {
    let generator = create_log_data_generator();
    let batches = generator.generate().unwrap();
    let web_logs = &batches[3];
    // 2023-01-01T00:00:00Z in microseconds since the epoch.
    let start_us: i64 = 1_672_531_200 * 1_000_000;
    let interval: i64 = 60 * 60 * 1_000_000;
    for k in 0..web_logs.num_rows() {
        let nominal = start_us + (k as i64) * interval;
        let ts = web_logs.ts_micros_at(6, k);
        assert!((ts - nominal).abs() <= 500_000);
    }
}

#[test]
fn test_web_log_ids_and_keys() {
    let generator = create_log_data_generator();
    let batches = generator.generate().unwrap();
    let web_logs = &batches[3];
    for k in 0..web_logs.num_rows() {
        assert_eq!(web_logs.i32_at(0, k), k as i32);
        assert_eq!(web_logs.i32_at(1, k), (k % 10) as i32);
        assert_eq!(web_logs.i32_at(2, k), (k % 5) as i32);
        assert_eq!(web_logs.i32_at(3, k), (k % 10) as i32);
        let runtime = web_logs.i32_at(4, k);
        assert!((50..300).contains(&runtime));
        let ip = web_logs.str_at(5, k);
        let octets: Vec<&str> = ip.split('.').collect();
        assert_eq!(octets.len(), 4);
        for o in octets {
            o.parse::<u8>().unwrap();
        }
    }
}

#[test]
fn test_error_log_timestamps_follow_triggering_rows() {
    let generator = create_log_data_generator();
    let batches = generator.generate().unwrap();
    let web_logs = &batches[3];
    let error_logs = &batches[6];
    for j in 0..error_logs.num_rows() {
        let log_id = error_logs.i32_at(1, j);
        assert!(log_id >= 0 && (log_id as usize) < web_logs.num_rows());
        let web_ts = web_logs.ts_micros_at(6, log_id as usize);
        let err_ts = error_logs.ts_micros_at(4, j);
        assert!(err_ts >= web_ts);
        assert!(err_ts < web_ts + 500_000);
    }
}

#[test]
fn test_error_logs_group_by_triggering_row() {
    // Triggering rows are processed in order, each emitting a run of at
    // most three consecutive error rows.
    let generator = create_log_data_generator();
    let batches = generator.generate().unwrap();
    let error_logs = &batches[6];
    let mut run_len = 0usize;
    for j in 0..error_logs.num_rows() {
        let log_id = error_logs.i32_at(1, j);
        if j > 0 {
            let prev = error_logs.i32_at(1, j - 1);
            assert!(log_id >= prev);
            if log_id == prev {
                run_len += 1;
            } else {
                run_len = 1;
            }
        } else {
            run_len = 1;
        }
        assert!(run_len <= 3);
    }
}

#[test]
fn test_error_log_codes_and_messages() {
    let generator = create_log_data_generator();
    let batches = generator.generate().unwrap();
    let error_logs = &batches[6];
    for j in 0..error_logs.num_rows() {
        let code = error_logs.str_at(2, j);
        let n: i32 = code.parse().unwrap();
        assert!((500..510).contains(&n));
        let msg = error_logs.str_at(3, j);
        assert_eq!(msg, format!("Error message {}", code));
    }
}

#[test]
fn test_users_signup_dates_precede_start() {
    let generator = create_log_data_generator();
    let users = generator.generate_users_data().unwrap();
    let start_us: i64 = 1_672_531_200 * 1_000_000;
    for k in 0..users.num_rows() {
        assert_eq!(users.i32_at(0, k), k as i32);
        let signup = users.ts_micros_at(3, k);
        // At least one minute before the window start, at most a million.
        assert!(signup <= start_us - 60_000_000);
        assert!(signup >= start_us - 59_999_940_000_000);
    }
}

#[test]
fn test_pages_created_dates_fixed_at_start() {
    let generator = create_log_data_generator();
    let pages = generator.generate_pages_data().unwrap();
    let start_us: i64 = 1_672_531_200 * 1_000_000;
    assert_eq!(pages.num_rows(), 5);
    for k in 0..pages.num_rows() {
        assert_eq!(pages.i32_at(0, k), k as i32);
        assert_eq!(pages.ts_micros_at(3, k), start_us);
        let url = pages.str_at(1, k);
        assert!(url.starts_with("https://www."));
        assert!(url[12..].contains('.'));
        assert!(!pages.str_at(2, k).is_empty());
    }
}

#[test]
fn test_request_methods_and_versions_from_fixed_sets() {
    let generator = create_log_data_generator();
    let batches = generator.generate().unwrap();
    let requests = &batches[4];
    let methods = ["GET", "POST", "PUT", "DELETE", "PATCH"];
    let versions = ["HTTP/1.1", "HTTP/2", "HTTP/3"];
    let pages = &batches[1];
    for k in 0..requests.num_rows() {
        assert_eq!(requests.i32_at(1, k), k as i32);
        assert!(methods.contains(&requests.str_at(2, k).as_str()));
        assert_eq!(requests.str_at(3, k), pages.str_at(1, k % pages.num_rows()));
        assert!(versions.contains(&requests.str_at(4, k).as_str()));
    }
}

#[test]
fn test_status_code_distribution() {
    // Over a large sample, each status code's frequency approaches its
    // weight over the total weight of 102.
    let n: usize = 100_000;
    let ids: Vec<i32> = (0..n).map(|i| i as i32).collect();
    let schema = vec![ColumnMeta::new("log_id", PrimType::Int32)];
    let columns = vec![ColumnArray::Int32(ids)];
    let web_logs = ColumnarBatch::try_new(schema, columns).unwrap();

    let generator = create_log_data_generator();
    let responses = generator.generate_responses_data(&web_logs, n).unwrap();

    let expected = [
        ("200", 40u64),
        ("201", 20),
        ("202", 10),
        ("204", 10),
        ("400", 5),
        ("401", 2),
        ("403", 2),
        ("404", 5),
        ("500", 3),
        ("502", 2),
        ("503", 1),
    ];
    let mut counts = std::collections::HashMap::new();
    for k in 0..n {
        *counts.entry(responses.str_at(2, k)).or_insert(0u64) += 1;
    }
    let mut total: u64 = 0;
    for (_, c) in counts.iter() {
        total += c;
    }
    assert_eq!(total, n as u64);
    for (code, weight) in expected.iter() {
        let count = *counts.get(*code).unwrap_or(&0);
        let freq = count as f64 / n as f64;
        let target = *weight as f64 / 102.0;
        assert!(
            (freq - target).abs() < 0.01,
            "status {} frequency {} too far from {}",
            code,
            freq,
            target
        );
    }
}

#[test]
fn test_generate_rejects_bad_dates() {
    let mut generator = create_log_data_generator();
    generator.generator_config.time_start = "not a date".to_string();
    assert_eq!(generator.generate().unwrap_err(), Error::ParseDate);

    let mut generator = create_log_data_generator();
    generator.generator_config.time_end = "2023-99-99T00:00:00Z".to_string();
    assert_eq!(generator.generate().unwrap_err(), Error::ParseDate);
}

#[test]
fn test_generate_rejects_out_of_range_start() {
    // The ISO-8601 parser accepts offsets that push the instant past the
    // time crate's maximum epoch second; such a start is rejected, not fed
    // to the signup faker.
    let mut generator = create_log_data_generator();
    generator.generator_config.time_start = "9999-12-31T23:59:59-23:00".to_string();
    assert_eq!(generator.generate().unwrap_err(), Error::TimeOutOfRange);
}

#[test]
fn test_generate_rejects_oversized_row_counts() {
    let mut generator = create_log_data_generator();
    // A one-hour window stepped every microsecond asks for more rows than
    // an i32 id column can number.
    generator.generator_config.interval = 1;
    assert_eq!(generator.generate().unwrap_err(), Error::RowCountOverflow);
}

#[test]
fn test_batch_construction_rejects_bad_shapes() {
    let schema = vec![
        ColumnMeta::new("a", PrimType::Int32),
        ColumnMeta::new("b", PrimType::Utf8),
    ];
    let columns = vec![
        ColumnArray::Int32(vec![1, 2, 3]),
        ColumnArray::Utf8(vec!["x".to_string()]),
    ];
    assert_eq!(
        ColumnarBatch::try_new(schema, columns).unwrap_err(),
        Error::Construction
    );

    let schema = vec![ColumnMeta::new("a", PrimType::Int32)];
    let columns = vec![ColumnArray::Utf8(vec!["x".to_string()])];
    assert_eq!(
        ColumnarBatch::try_new(schema, columns).unwrap_err(),
        Error::Construction
    );

    let no_cols: Vec<ColumnArray> = Vec::new();
    assert_eq!(
        ColumnarBatch::try_new(Vec::new(), no_cols).unwrap_err(),
        Error::Construction
    );
}
