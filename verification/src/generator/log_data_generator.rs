use crate::batch::{
    cells_i32, cells_ts_micros, cells_utf8, col_len, col_ty, shape_ok, ColumnArray, ColumnMeta,
    ColumnData, ColumnarBatch, MetaView, PrimType,
};
use crate::codec::{parquet_of, write_batch_to_bytes};
use crate::text::{ipv4_text, is_ipv4_text, str_eq};
use crate::dates::{iso_datetime_of, parse_iso_datetime};
use crate::error::Error;
use crate::generator::data_generator::{DataGenerator, DataGeneratorConfig};
use crate::loader::{field, tag, timestamp, SemanticType, WireColumnSchema, WireColumnView, WireDataType};
use crate::rng::{
    choose_str, fake_datetime_before, fake_domain_suffix, fake_free_email, fake_i32,
    fake_sentence, fake_user_agent, fake_username, format_ipv4, gen_range_i32,
    gen_range_i32_inclusive, gen_range_i64, rng_from_seed, weighted_index_new, weighted_sample,
    wi_weights,
};
use vstd::arithmetic::div_mod::lemma_remainder_lower;
use vstd::arithmetic::mul::{lemma_mul_inequality, lemma_mul_nonnegative};
use vstd::prelude::*;

verus! {

// ---------------------------------------------------------------------------
// Columnar schema catalog (one entry per table).
// ---------------------------------------------------------------------------

pub open spec fn users_schema_spec() -> Seq<MetaView> {
    seq![
        MetaView { name: "user_id"@, ty: PrimType::Int32 },
        MetaView { name: "username"@, ty: PrimType::Utf8 },
        MetaView { name: "email"@, ty: PrimType::Utf8 },
        MetaView { name: "signup_date"@, ty: PrimType::TimestampMicros },
    ]
}

pub open spec fn pages_schema_spec() -> Seq<MetaView> {
    seq![
        MetaView { name: "page_id"@, ty: PrimType::Int32 },
        MetaView { name: "page_url"@, ty: PrimType::Utf8 },
        MetaView { name: "page_title"@, ty: PrimType::Utf8 },
        MetaView { name: "created_date"@, ty: PrimType::TimestampMicros },
    ]
}

pub open spec fn devices_schema_spec() -> Seq<MetaView> {
    seq![
        MetaView { name: "device_id"@, ty: PrimType::Int32 },
        MetaView { name: "browser"@, ty: PrimType::Utf8 },
    ]
}

pub open spec fn web_logs_schema_spec() -> Seq<MetaView> {
    seq![
        MetaView { name: "log_id"@, ty: PrimType::Int32 },
        MetaView { name: "user_id"@, ty: PrimType::Int32 },
        MetaView { name: "page_id"@, ty: PrimType::Int32 },
        MetaView { name: "device_id"@, ty: PrimType::Int32 },
        MetaView { name: "runtime"@, ty: PrimType::Int32 },
        MetaView { name: "ip_address"@, ty: PrimType::Utf8 },
        MetaView { name: "timestamp"@, ty: PrimType::TimestampMicros },
    ]
}

pub open spec fn requests_schema_spec() -> Seq<MetaView> {
    seq![
        MetaView { name: "request_id"@, ty: PrimType::Int32 },
        MetaView { name: "log_id"@, ty: PrimType::Int32 },
        MetaView { name: "method"@, ty: PrimType::Utf8 },
        MetaView { name: "url"@, ty: PrimType::Utf8 },
        MetaView { name: "http_version"@, ty: PrimType::Utf8 },
    ]
}

pub open spec fn responses_schema_spec() -> Seq<MetaView> {
    seq![
        MetaView { name: "response_id"@, ty: PrimType::Int32 },
        MetaView { name: "log_id"@, ty: PrimType::Int32 },
        MetaView { name: "status_code"@, ty: PrimType::Utf8 },
        MetaView { name: "response_size"@, ty: PrimType::Int32 },
        MetaView { name: "response_time"@, ty: PrimType::Int32 },
    ]
}

pub open spec fn error_logs_schema_spec() -> Seq<MetaView> {
    seq![
        MetaView { name: "error_log_id"@, ty: PrimType::Int32 },
        MetaView { name: "log_id"@, ty: PrimType::Int32 },
        MetaView { name: "error_code"@, ty: PrimType::Utf8 },
        MetaView { name: "error_message"@, ty: PrimType::Utf8 },
        MetaView { name: "timestamp"@, ty: PrimType::TimestampMicros },
    ]
}

pub open spec fn metas_view(v: Seq<ColumnMeta>) -> Seq<MetaView> {
    v.map_values(|m: ColumnMeta| m@)
}

fn users_schema_cols() -> (v: Vec<ColumnMeta>)
    ensures
        metas_view(v@) == users_schema_spec(),
{
    let mut v: Vec<ColumnMeta> = Vec::new();
    v.push(ColumnMeta::new("user_id", PrimType::Int32));
    v.push(ColumnMeta::new("username", PrimType::Utf8));
    v.push(ColumnMeta::new("email", PrimType::Utf8));
    v.push(ColumnMeta::new("signup_date", PrimType::TimestampMicros));
    proof {
        assert(metas_view(v@) =~= users_schema_spec());
    }
    v
}

fn pages_schema_cols() -> (v: Vec<ColumnMeta>)
    ensures
        metas_view(v@) == pages_schema_spec(),
{
    let mut v: Vec<ColumnMeta> = Vec::new();
    v.push(ColumnMeta::new("page_id", PrimType::Int32));
    v.push(ColumnMeta::new("page_url", PrimType::Utf8));
    v.push(ColumnMeta::new("page_title", PrimType::Utf8));
    v.push(ColumnMeta::new("created_date", PrimType::TimestampMicros));
    proof {
        assert(metas_view(v@) =~= pages_schema_spec());
    }
    v
}

fn devices_schema_cols() -> (v: Vec<ColumnMeta>)
    ensures
        metas_view(v@) == devices_schema_spec(),
{
    let mut v: Vec<ColumnMeta> = Vec::new();
    v.push(ColumnMeta::new("device_id", PrimType::Int32));
    v.push(ColumnMeta::new("browser", PrimType::Utf8));
    proof {
        assert(metas_view(v@) =~= devices_schema_spec());
    }
    v
}

fn web_logs_schema_cols() -> (v: Vec<ColumnMeta>)
    ensures
        metas_view(v@) == web_logs_schema_spec(),
{
    let mut v: Vec<ColumnMeta> = Vec::new();
    v.push(ColumnMeta::new("log_id", PrimType::Int32));
    v.push(ColumnMeta::new("user_id", PrimType::Int32));
    v.push(ColumnMeta::new("page_id", PrimType::Int32));
    v.push(ColumnMeta::new("device_id", PrimType::Int32));
    v.push(ColumnMeta::new("runtime", PrimType::Int32));
    v.push(ColumnMeta::new("ip_address", PrimType::Utf8));
    v.push(ColumnMeta::new("timestamp", PrimType::TimestampMicros));
    proof {
        assert(metas_view(v@) =~= web_logs_schema_spec());
    }
    v
}

fn requests_schema_cols() -> (v: Vec<ColumnMeta>)
    ensures
        metas_view(v@) == requests_schema_spec(),
{
    let mut v: Vec<ColumnMeta> = Vec::new();
    v.push(ColumnMeta::new("request_id", PrimType::Int32));
    v.push(ColumnMeta::new("log_id", PrimType::Int32));
    v.push(ColumnMeta::new("method", PrimType::Utf8));
    v.push(ColumnMeta::new("url", PrimType::Utf8));
    v.push(ColumnMeta::new("http_version", PrimType::Utf8));
    proof {
        assert(metas_view(v@) =~= requests_schema_spec());
    }
    v
}

fn responses_schema_cols() -> (v: Vec<ColumnMeta>)
    ensures
        metas_view(v@) == responses_schema_spec(),
{
    let mut v: Vec<ColumnMeta> = Vec::new();
    v.push(ColumnMeta::new("response_id", PrimType::Int32));
    v.push(ColumnMeta::new("log_id", PrimType::Int32));
    v.push(ColumnMeta::new("status_code", PrimType::Utf8));
    v.push(ColumnMeta::new("response_size", PrimType::Int32));
    v.push(ColumnMeta::new("response_time", PrimType::Int32));
    proof {
        assert(metas_view(v@) =~= responses_schema_spec());
    }
    v
}

fn error_logs_schema_cols() -> (v: Vec<ColumnMeta>)
    ensures
        metas_view(v@) == error_logs_schema_spec(),
{
    let mut v: Vec<ColumnMeta> = Vec::new();
    v.push(ColumnMeta::new("error_log_id", PrimType::Int32));
    v.push(ColumnMeta::new("log_id", PrimType::Int32));
    v.push(ColumnMeta::new("error_code", PrimType::Utf8));
    v.push(ColumnMeta::new("error_message", PrimType::Utf8));
    v.push(ColumnMeta::new("timestamp", PrimType::TimestampMicros));
    proof {
        assert(metas_view(v@) =~= error_logs_schema_spec());
    }
    v
}

/// The columnar schema of every table, one field per table.
pub struct LogData {
    pub users_schema: Vec<ColumnMeta>,
    pub pages_schema: Vec<ColumnMeta>,
    pub devices_schema: Vec<ColumnMeta>,
    pub web_logs_schema: Vec<ColumnMeta>,
    pub requests_schema: Vec<ColumnMeta>,
    pub responses_schema: Vec<ColumnMeta>,
    pub error_logs_schema: Vec<ColumnMeta>,
}

impl LogData {
    /// Every field holds exactly its table's cataloged schema.
    pub open spec fn wf(self) -> bool {
        &&& metas_view(self.users_schema@) == users_schema_spec()
        &&& metas_view(self.pages_schema@) == pages_schema_spec()
        &&& metas_view(self.devices_schema@) == devices_schema_spec()
        &&& metas_view(self.web_logs_schema@) == web_logs_schema_spec()
        &&& metas_view(self.requests_schema@) == requests_schema_spec()
        &&& metas_view(self.responses_schema@) == responses_schema_spec()
        &&& metas_view(self.error_logs_schema@) == error_logs_schema_spec()
    }

    pub fn new() -> (r: LogData)
        ensures
            r.wf(),
    {
        LogData {
            users_schema: users_schema_cols(),
            pages_schema: pages_schema_cols(),
            devices_schema: devices_schema_cols(),
            web_logs_schema: web_logs_schema_cols(),
            requests_schema: requests_schema_cols(),
            responses_schema: responses_schema_cols(),
            error_logs_schema: error_logs_schema_cols(),
        }
    }
}

impl Default for LogData {
    fn default() -> (r: LogData)
        ensures
            r.wf(),
    {
        LogData::new()
    }
}

/// Table sizing: how many users and pages to generate.
pub struct LogConfig {
    pub num_of_users: usize,
    pub num_of_pages: usize,
}

/// The correlated log-data generator: one batch per table, with synthetic
/// foreign keys threaded between the tables.
///
/// Randomness policy: every table generator derives its own stream by
/// seeding afresh from `generator_config.seed`, so each table's content is
/// a function of the configuration alone and whole runs reproduce.
pub struct LogDataGenerator {
    pub generator_config: DataGeneratorConfig,
    pub log_config: LogConfig,
    pub log_data: LogData,
}

// ---------------------------------------------------------------------------
// Shared generation helpers.
// ---------------------------------------------------------------------------

/// The lowest epoch second the signup-date faker accepts as an anchor: the
/// time crate's minimum instant plus one million minutes of headroom for the
/// faker's backward step.
pub const MIN_FAKE_ANCHOR_SECS: i64 = -377_645_116_800;

/// The highest epoch second the signup-date faker accepts as an anchor: the
/// time crate's maximum instant. A parsed text can exceed it by up to its
/// UTC offset, so the generator checks both sides.
pub const MAX_FAKE_ANCHOR_SECS: i64 = 253_402_300_799;

/// The id column of a table with `n` rows: `0, 1, ..., n - 1`.
pub open spec fn seq_ids(n: nat) -> Seq<i32> {
    Seq::new(n, |i: int| i as i32)
}

pub open spec fn parsed_start(cfg: DataGeneratorConfig) -> Option<(i64, u32)> {
    iso_datetime_of(cfg.time_start@)
}

pub open spec fn parsed_end(cfg: DataGeneratorConfig) -> Option<(i64, u32)> {
    iso_datetime_of(cfg.time_end@)
}

/// A parsed instant as microseconds since the epoch.
pub open spec fn anchor_us(t: (i64, u32)) -> int {
    t.0 * 1_000_000 + t.1
}

/// The configured window start in microseconds, dropping the sub-second
/// part, as the web-log schedule does.
pub open spec fn cfg_start_us(cfg: DataGeneratorConfig) -> int {
    match iso_datetime_of(cfg.time_start@) {
        Some(t) => t.0 * 1_000_000,
        None => 0,
    }
}

/// The configured window end in microseconds, dropping the sub-second part.
pub open spec fn cfg_end_us(cfg: DataGeneratorConfig) -> int {
    match iso_datetime_of(cfg.time_end@) {
        Some(t) => t.0 * 1_000_000,
        None => 0,
    }
}

/// How many web-log rows an inclusive scan of `[start, end]` stepping by
/// `interval` emits.
pub open spec fn web_rows(start_us: int, end_us: int, interval: int) -> int
    recommends
        interval >= 1,
{
    if start_us <= end_us {
        (end_us - start_us) / interval + 1
    } else {
        0
    }
}

/// The web-log row count a configuration asks for.
pub open spec fn web_count(cfg: DataGeneratorConfig) -> int {
    web_rows(cfg_start_us(cfg), cfg_end_us(cfg), cfg.interval as int)
}

/// Law: a key column filled by cyclic reuse of an id table whose ids are
/// `0..n-1` only ever holds ids that exist in that table, so the generated
/// references are valid without a join step. `generate` establishes both
/// premises for the user, page and device keys of every web-log row.
pub proof fn lemma_cyclic_keys_reference_ids(keys: Seq<i32>, ids: Seq<i32>, n: nat)
    requires
        n >= 1,
        ids == seq_ids(n),
        forall|k: int| 0 <= k < keys.len() ==> #[trigger] keys[k] == ids[k % (n as int)],
    ensures
        forall|k: int| 0 <= k < keys.len() ==> ids.contains(#[trigger] keys[k]),
{
    assert forall|k: int| 0 <= k < keys.len() implies ids.contains(#[trigger] keys[k]) by {
        let i = k % (n as int);
        assert(0 <= i < n);
        assert(ids[i] == keys[k]);
    }
}

/// Is `s` a synthesized page url: the fixed prefix, a domain name, a dot
/// and a suffix?
pub open spec fn is_page_url(s: Seq<char>) -> bool {
    exists|n: Seq<char>, x: Seq<char>| #![auto] s == "https://www."@ + n + "."@ + x
}

/// Do an error batch's observable columns arise from an ordered walk of the
/// web logs: each row tied to a source row index in `[0, n)` whose log id it
/// copies and whose timestamp it trails by less than half a second, source
/// indices non-decreasing (triggering rows processed in order), and no
/// source index spanning more than three rows (each trigger emits at most
/// three consecutive error rows)?
pub open spec fn error_rows_witness(
    src: Seq<int>,
    n: int,
    web0: Seq<i32>,
    web6: Seq<i64>,
    lids: Seq<i32>,
    tss: Seq<i64>,
) -> bool {
    &&& src.len() == lids.len()
    &&& src.len() == tss.len()
    &&& forall|j: int| 0 <= j < src.len() ==> 0 <= #[trigger] src[j] < n
    &&& forall|j: int|
        0 <= j < src.len() ==> lids[j] == web0[#[trigger] src[j]] && web6[src[j]] <= tss[j]
            < web6[src[j]] + 500_000
    &&& forall|a: int, b: int| 0 <= a <= b < src.len() ==> #[trigger] src[a] <= #[trigger] src[b]
    &&& forall|a: int, b: int|
        (0 <= a <= b < src.len() && #[trigger] src[a] == #[trigger] src[b]) ==> b - a <= 2
}

/// Is `s` one of the request methods the generator draws from?
pub open spec fn is_http_method(s: Seq<char>) -> bool {
    s == "GET"@ || s == "POST"@ || s == "PUT"@ || s == "DELETE"@ || s == "PATCH"@
}

/// Is `s` one of the protocol versions the generator draws from?
pub open spec fn is_http_version(s: Seq<char>) -> bool {
    s == "HTTP/1.1"@ || s == "HTTP/2"@ || s == "HTTP/3"@
}

/// Is `s` one of the status codes the generator draws from?
pub open spec fn is_status_code(s: Seq<char>) -> bool {
    ||| s == "200"@
    ||| s == "201"@
    ||| s == "202"@
    ||| s == "204"@
    ||| s == "400"@
    ||| s == "401"@
    ||| s == "403"@
    ||| s == "404"@
    ||| s == "500"@
    ||| s == "502"@
    ||| s == "503"@
}

/// The unnormalized weight of each status code, aligned with the code list;
/// the weights sum to 102 and are relative weights, not percentages.
pub open spec fn status_weights_spec() -> Seq<u64> {
    seq![40u64, 20u64, 10u64, 10u64, 5u64, 2u64, 2u64, 5u64, 3u64, 2u64, 1u64]
}

fn status_weight_vec() -> (v: Vec<u64>)
    ensures
        v@ == status_weights_spec(),
{
    let mut v: Vec<u64> = Vec::new();
    v.push(40);
    v.push(20);
    v.push(10);
    v.push(10);
    v.push(5);
    v.push(2);
    v.push(2);
    v.push(5);
    v.push(3);
    v.push(2);
    v.push(1);
    proof {
        assert(v@ =~= status_weights_spec());
    }
    v
}

/// The decimal text of an error code in `[500, 510)`.
pub open spec fn err_code_str(c: int) -> Seq<char> {
    if c == 500 {
        "500"@
    } else if c == 501 {
        "501"@
    } else if c == 502 {
        "502"@
    } else if c == 503 {
        "503"@
    } else if c == 504 {
        "504"@
    } else if c == 505 {
        "505"@
    } else if c == 506 {
        "506"@
    } else if c == 507 {
        "507"@
    } else if c == 508 {
        "508"@
    } else {
        "509"@
    }
}

fn err_code_to_str(c: i32) -> (r: &'static str)
    requires
        500 <= c < 510,
    ensures
        r@ == err_code_str(c as int),
{
    if c == 500 {
        "500"
    } else if c == 501 {
        "501"
    } else if c == 502 {
        "502"
    } else if c == 503 {
        "503"
    } else if c == 504 {
        "504"
    } else if c == 505 {
        "505"
    } else if c == 506 {
        "506"
    } else if c == 507 {
        "507"
    } else if c == 508 {
        "508"
    } else {
        "509"
    }
}

/// Can a full generation run succeed on this configuration: both window
/// bounds parse, the start leaves the signup faker its headroom, and the
/// asked-for web-log row count leaves room for three error rows per log in
/// an `i32` id column.
pub open spec fn generation_admissible(cfg: DataGeneratorConfig) -> bool {
    &&& iso_datetime_of(cfg.time_start@) matches Some(t) && MIN_FAKE_ANCHOR_SECS <= t.0
        <= MAX_FAKE_ANCHOR_SECS
    &&& iso_datetime_of(cfg.time_end@) is Some
    &&& web_count(cfg) <= 715_827_882
}

/// Does an error row reference some web-log row, with a timestamp at or
/// after the triggering row's and less than half a second later?
pub open spec fn error_row_keyed(web0: Seq<i32>, web6: Seq<i64>, lid: i32, ts: i64) -> bool {
    exists|t: int|
        #![auto]
        0 <= t < web0.len() && lid == web0[t] && web6[t] <= ts < web6[t] + 500_000
}

/// Do an error-code cell and its message cell agree on one code in
/// `[500, 510)`, the message embedding the code's text?
pub open spec fn error_code_formatted(code: Seq<char>, msg: Seq<char>) -> bool {
    exists|c: int|
        #![auto]
        500 <= c < 510 && code == err_code_str(c) && msg == "Error message "@ + err_code_str(c)
}

/// Builds a batch whose shape is already known to be sound.
fn build_batch(schema: Vec<ColumnMeta>, columns: Vec<ColumnArray>) -> (b: ColumnarBatch)
    requires
        shape_ok(metas_view(schema@), columns@.map_values(|c: ColumnArray| c@)),
    ensures
        b.wf(),
        b.schema_view() == metas_view(schema@),
        b.columns_view() == columns@.map_values(|c: ColumnArray| c@),
        b.spec_rows() == col_len(columns@.map_values(|c: ColumnArray| c@)[0]),
{
    match ColumnarBatch::try_new(schema, columns) {
        Ok(b) => b,
        Err(_) => {
            proof {
                assert(false);
            }
            unreached()
        },
    }
}

// ---------------------------------------------------------------------------
// Wire schema catalog and table names.
// ---------------------------------------------------------------------------

pub open spec fn users_wire_schema_spec() -> Seq<WireColumnView> {
    seq![
        WireColumnView { name: "user_id"@, semantic_type: SemanticType::Tag, datatype: WireDataType::Int32 },
        WireColumnView { name: "username"@, semantic_type: SemanticType::Field, datatype: WireDataType::Utf8 },
        WireColumnView { name: "email"@, semantic_type: SemanticType::Field, datatype: WireDataType::Utf8 },
        WireColumnView { name: "signup_date"@, semantic_type: SemanticType::Timestamp, datatype: WireDataType::TimestampMicrosecond },
    ]
}

pub open spec fn pages_wire_schema_spec() -> Seq<WireColumnView> {
    seq![
        WireColumnView { name: "page_id"@, semantic_type: SemanticType::Tag, datatype: WireDataType::Int32 },
        WireColumnView { name: "page_url"@, semantic_type: SemanticType::Field, datatype: WireDataType::Utf8 },
        WireColumnView { name: "page_title"@, semantic_type: SemanticType::Field, datatype: WireDataType::Utf8 },
        WireColumnView { name: "created_date"@, semantic_type: SemanticType::Timestamp, datatype: WireDataType::TimestampMicrosecond },
    ]
}

pub open spec fn devices_wire_schema_spec() -> Seq<WireColumnView> {
    seq![
        WireColumnView { name: "device_id"@, semantic_type: SemanticType::Tag, datatype: WireDataType::Int32 },
        WireColumnView { name: "browser"@, semantic_type: SemanticType::Field, datatype: WireDataType::Utf8 },
    ]
}

pub open spec fn web_logs_wire_schema_spec() -> Seq<WireColumnView> {
    seq![
        WireColumnView { name: "log_id"@, semantic_type: SemanticType::Tag, datatype: WireDataType::Int32 },
        WireColumnView { name: "user_id"@, semantic_type: SemanticType::Field, datatype: WireDataType::Int32 },
        WireColumnView { name: "page_id"@, semantic_type: SemanticType::Field, datatype: WireDataType::Int32 },
        WireColumnView { name: "device_id"@, semantic_type: SemanticType::Field, datatype: WireDataType::Int32 },
        WireColumnView { name: "runtime"@, semantic_type: SemanticType::Field, datatype: WireDataType::Int32 },
        WireColumnView { name: "ip_address"@, semantic_type: SemanticType::Field, datatype: WireDataType::Utf8 },
        WireColumnView { name: "timestamp"@, semantic_type: SemanticType::Timestamp, datatype: WireDataType::TimestampMicrosecond },
    ]
}

pub open spec fn requests_wire_schema_spec() -> Seq<WireColumnView> {
    seq![
        WireColumnView { name: "request_id"@, semantic_type: SemanticType::Tag, datatype: WireDataType::Int32 },
        WireColumnView { name: "log_id"@, semantic_type: SemanticType::Field, datatype: WireDataType::Int32 },
        WireColumnView { name: "method"@, semantic_type: SemanticType::Field, datatype: WireDataType::Utf8 },
        WireColumnView { name: "url"@, semantic_type: SemanticType::Field, datatype: WireDataType::Utf8 },
        WireColumnView { name: "http_version"@, semantic_type: SemanticType::Field, datatype: WireDataType::Utf8 },
    ]
}

pub open spec fn responses_wire_schema_spec() -> Seq<WireColumnView> {
    seq![
        WireColumnView { name: "response_id"@, semantic_type: SemanticType::Tag, datatype: WireDataType::Int32 },
        WireColumnView { name: "log_id"@, semantic_type: SemanticType::Field, datatype: WireDataType::Int32 },
        WireColumnView { name: "status_code"@, semantic_type: SemanticType::Field, datatype: WireDataType::Utf8 },
        WireColumnView { name: "response_size"@, semantic_type: SemanticType::Field, datatype: WireDataType::Int32 },
        WireColumnView { name: "response_time"@, semantic_type: SemanticType::Field, datatype: WireDataType::Int32 },
    ]
}

pub open spec fn error_logs_wire_schema_spec() -> Seq<WireColumnView> {
    seq![
        WireColumnView { name: "error_log_id"@, semantic_type: SemanticType::Tag, datatype: WireDataType::Int32 },
        WireColumnView { name: "log_id"@, semantic_type: SemanticType::Field, datatype: WireDataType::Int32 },
        WireColumnView { name: "error_code"@, semantic_type: SemanticType::Field, datatype: WireDataType::Utf8 },
        WireColumnView { name: "error_message"@, semantic_type: SemanticType::Field, datatype: WireDataType::Utf8 },
        WireColumnView { name: "timestamp"@, semantic_type: SemanticType::Timestamp, datatype: WireDataType::TimestampMicrosecond },
    ]
}

/// The wire schema of a table by name; an unrecognized name yields the empty
/// schema, a recognized edge case rather than an error.
pub open spec fn wire_schema_spec(name: Seq<char>) -> Seq<WireColumnView> {
    if name == "users"@ {
        users_wire_schema_spec()
    } else if name == "pages"@ {
        pages_wire_schema_spec()
    } else if name == "devices"@ {
        devices_wire_schema_spec()
    } else if name == "web_logs"@ {
        web_logs_wire_schema_spec()
    } else if name == "requests"@ {
        requests_wire_schema_spec()
    } else if name == "responses"@ {
        responses_wire_schema_spec()
    } else if name == "error_logs"@ {
        error_logs_wire_schema_spec()
    } else {
        Seq::empty()
    }
}

/// The canonical table name: known names map to themselves, anything else to
/// `unknown`.
pub open spec fn table_name_spec(name: Seq<char>) -> Seq<char> {
    if name == "users"@ || name == "pages"@ || name == "devices"@ || name == "web_logs"@ || name
        == "requests"@ || name == "responses"@ || name == "error_logs"@ {
        name
    } else {
        "unknown"@
    }
}

pub open spec fn table_names_spec() -> Seq<Seq<char>> {
    seq!["users"@, "pages"@, "devices"@, "web_logs"@, "requests"@, "responses"@, "error_logs"@]
}

pub open spec fn wire_cols_view(v: Seq<WireColumnSchema>) -> Seq<WireColumnView> {
    v.map_values(|c: WireColumnSchema| c@)
}

impl LogDataGenerator {
    /// The wire schema of `table_name`, per the catalog.
    pub fn schema(table_name: &str) -> (r: Vec<WireColumnSchema>)
        ensures
            wire_cols_view(r@) == wire_schema_spec(table_name@),
    {
        let mut v: Vec<WireColumnSchema> = Vec::new();
        if str_eq(table_name, "users") {
            v.push(tag("user_id", WireDataType::Int32));
            v.push(field("username", WireDataType::Utf8));
            v.push(field("email", WireDataType::Utf8));
            v.push(timestamp("signup_date", WireDataType::TimestampMicrosecond));
            proof {
                assert(wire_cols_view(v@) =~= users_wire_schema_spec());
            }
        } else if str_eq(table_name, "pages") {
            v.push(tag("page_id", WireDataType::Int32));
            v.push(field("page_url", WireDataType::Utf8));
            v.push(field("page_title", WireDataType::Utf8));
            v.push(timestamp("created_date", WireDataType::TimestampMicrosecond));
            proof {
                assert(wire_cols_view(v@) =~= pages_wire_schema_spec());
            }
        } else if str_eq(table_name, "devices") {
            v.push(tag("device_id", WireDataType::Int32));
            v.push(field("browser", WireDataType::Utf8));
            proof {
                assert(wire_cols_view(v@) =~= devices_wire_schema_spec());
            }
        } else if str_eq(table_name, "web_logs") {
            v.push(tag("log_id", WireDataType::Int32));
            v.push(field("user_id", WireDataType::Int32));
            v.push(field("page_id", WireDataType::Int32));
            v.push(field("device_id", WireDataType::Int32));
            v.push(field("runtime", WireDataType::Int32));
            v.push(field("ip_address", WireDataType::Utf8));
            v.push(timestamp("timestamp", WireDataType::TimestampMicrosecond));
            proof {
                assert(wire_cols_view(v@) =~= web_logs_wire_schema_spec());
            }
        } else if str_eq(table_name, "requests") {
            v.push(tag("request_id", WireDataType::Int32));
            v.push(field("log_id", WireDataType::Int32));
            v.push(field("method", WireDataType::Utf8));
            v.push(field("url", WireDataType::Utf8));
            v.push(field("http_version", WireDataType::Utf8));
            proof {
                assert(wire_cols_view(v@) =~= requests_wire_schema_spec());
            }
        } else if str_eq(table_name, "responses") {
            v.push(tag("response_id", WireDataType::Int32));
            v.push(field("log_id", WireDataType::Int32));
            v.push(field("status_code", WireDataType::Utf8));
            v.push(field("response_size", WireDataType::Int32));
            v.push(field("response_time", WireDataType::Int32));
            proof {
                assert(wire_cols_view(v@) =~= responses_wire_schema_spec());
            }
        } else if str_eq(table_name, "error_logs") {
            v.push(tag("error_log_id", WireDataType::Int32));
            v.push(field("log_id", WireDataType::Int32));
            v.push(field("error_code", WireDataType::Utf8));
            v.push(field("error_message", WireDataType::Utf8));
            v.push(timestamp("timestamp", WireDataType::TimestampMicrosecond));
            proof {
                assert(wire_cols_view(v@) =~= error_logs_wire_schema_spec());
            }
        } else {
            proof {
                assert(wire_cols_view(v@) =~= Seq::<WireColumnView>::empty());
            }
        }
        v
    }

    /// The canonical name of a table; unknown names yield `unknown`.
    pub fn table_name(table_name: &str) -> (r: &'static str)
        ensures
            r@ == table_name_spec(table_name@),
    {
        if str_eq(table_name, "users") {
            "users"
        } else if str_eq(table_name, "pages") {
            "pages"
        } else if str_eq(table_name, "devices") {
            "devices"
        } else if str_eq(table_name, "web_logs") {
            "web_logs"
        } else if str_eq(table_name, "requests") {
            "requests"
        } else if str_eq(table_name, "responses") {
            "responses"
        } else if str_eq(table_name, "error_logs") {
            "error_logs"
        } else {
            "unknown"
        }
    }

    /// Generates one batch per table, in the catalog's table order, threading
    /// the synthetic keys between the tables: devices pair one-to-one with
    /// users, web logs reference users, pages and devices cyclically, and
    /// requests, responses and error logs reference web logs.
    pub fn generate(&self) -> (r: Result<Vec<ColumnarBatch>, Error>)
        requires
            1 <= self.log_config.num_of_users <= 0x7fff_ffff,
            1 <= self.log_config.num_of_pages <= 0x7fff_ffff,
            self.generator_config.interval >= 1,
        ensures
            r is Ok <==> generation_admissible(self.generator_config),
            parsed_start(self.generator_config) is None ==> r == Err::<Vec<ColumnarBatch>, Error>(
                Error::ParseDate,
            ),
            (parsed_start(self.generator_config) matches Some(t) && (t.0 < MIN_FAKE_ANCHOR_SECS
                || t.0 > MAX_FAKE_ANCHOR_SECS)) ==> r == Err::<Vec<ColumnarBatch>, Error>(
                Error::TimeOutOfRange,
            ),
            (parsed_start(self.generator_config) matches Some(t) && MIN_FAKE_ANCHOR_SECS <= t.0
                <= MAX_FAKE_ANCHOR_SECS && parsed_end(self.generator_config) is None) ==> r
                == Err::<Vec<ColumnarBatch>, Error>(Error::ParseDate),
            (parsed_start(self.generator_config) matches Some(t) && MIN_FAKE_ANCHOR_SECS <= t.0
                <= MAX_FAKE_ANCHOR_SECS && parsed_end(self.generator_config) is Some && web_count(
                self.generator_config,
            ) > 715_827_882) ==> r == Err::<Vec<ColumnarBatch>, Error>(Error::RowCountOverflow),
            r matches Ok(v) ==> {
                let nu = self.log_config.num_of_users as int;
                let np = self.log_config.num_of_pages as int;
                let start = cfg_start_us(self.generator_config);
                let ivl = self.generator_config.interval as int;
                &&& v@.len() == 7
                &&& forall|t: int| 0 <= t < 7 ==> (#[trigger] v@[t]).wf()
                &&& v@[0].schema_view() == users_schema_spec()
                &&& v@[1].schema_view() == pages_schema_spec()
                &&& v@[2].schema_view() == devices_schema_spec()
                &&& v@[3].schema_view() == web_logs_schema_spec()
                &&& v@[4].schema_view() == requests_schema_spec()
                &&& v@[5].schema_view() == responses_schema_spec()
                &&& v@[6].schema_view() == error_logs_schema_spec()
                &&& v@[0].spec_rows() == nu
                &&& v@[1].spec_rows() == np
                &&& v@[2].spec_rows() == nu
                &&& v@[3].spec_rows() == web_count(self.generator_config)
                &&& v@[4].spec_rows() == v@[3].spec_rows()
                &&& v@[5].spec_rows() == v@[3].spec_rows()
                &&& v@[6].spec_rows() <= 3 * v@[3].spec_rows()
                &&& cells_i32(v@[0].columns_view()[0]) == seq_ids(nu as nat)
                &&& cells_i32(v@[1].columns_view()[0]) == seq_ids(np as nat)
                &&& cells_i32(v@[2].columns_view()[0]) == seq_ids(nu as nat)
                &&& cells_i32(v@[3].columns_view()[0]) == seq_ids(v@[3].spec_rows())
                &&& cells_i32(v@[4].columns_view()[1]) == cells_i32(v@[3].columns_view()[0])
                &&& cells_i32(v@[5].columns_view()[1]) == cells_i32(v@[3].columns_view()[0])
                &&& forall|k: int|
                    0 <= k < v@[3].spec_rows() ==> #[trigger] cells_i32(v@[3].columns_view()[1])[k]
                        == ((k % nu) as i32)
                &&& forall|k: int|
                    0 <= k < v@[3].spec_rows() ==> #[trigger] cells_i32(v@[3].columns_view()[2])[k]
                        == ((k % np) as i32)
                &&& forall|k: int|
                    0 <= k < v@[3].spec_rows() ==> #[trigger] cells_i32(v@[3].columns_view()[3])[k]
                        == ((k % nu) as i32)
                &&& forall|k: int|
                    0 <= k < v@[3].spec_rows() ==> start + k * ivl - 500_000
                        <= #[trigger] cells_ts_micros(v@[3].columns_view()[6])[k] < start + k * ivl
                        + 500_000
                &&& forall|j: int|
                    0 <= j < v@[6].spec_rows() ==> error_row_keyed(
                        cells_i32(v@[3].columns_view()[0]),
                        cells_ts_micros(v@[3].columns_view()[6]),
                        #[trigger] cells_i32(v@[6].columns_view()[1])[j],
                        cells_ts_micros(v@[6].columns_view()[4])[j],
                    )
                &&& forall|k: int|
                    0 <= k < v@[3].spec_rows() ==> is_ipv4_text(
                        #[trigger] cells_utf8(v@[3].columns_view()[5])[k],
                    )
            },
    {
        let users_batch = match self.generate_users_data() {
            Ok(b) => b,
            Err(e) => {
                return Err(e);
            },
        };
        let pages_batch = match self.generate_pages_data() {
            Ok(b) => b,
            Err(e) => {
                return Err(e);
            },
        };
        let devices_batch = match self.generate_devices_data() {
            Ok(b) => b,
            Err(e) => {
                return Err(e);
            },
        };
        let (web_logs_batch, num_of_logs) = match self.generate_web_logs_data(
            &users_batch,
            &pages_batch,
            &devices_batch,
        ) {
            Ok(p) => p,
            Err(e) => {
                return Err(e);
            },
        };
        if num_of_logs > 715_827_882 {
            return Err(Error::RowCountOverflow);
        }
        let requests_batch = match self.generate_requests_data(
            &web_logs_batch,
            &pages_batch,
            num_of_logs,
        ) {
            Ok(b) => b,
            Err(e) => {
                return Err(e);
            },
        };
        let responses_batch = match self.generate_responses_data(&web_logs_batch, num_of_logs) {
            Ok(b) => b,
            Err(e) => {
                return Err(e);
            },
        };
        let error_logs_batch = match self.generate_error_logs_data(&web_logs_batch, num_of_logs) {
            Ok(b) => b,
            Err(e) => {
                return Err(e);
            },
        };

        let ghost gb0 = users_batch;
        let ghost gb1 = pages_batch;
        let ghost gb2 = devices_batch;
        let ghost gb3 = web_logs_batch;
        let ghost gb4 = requests_batch;
        let ghost gb5 = responses_batch;
        let ghost gb6 = error_logs_batch;
        let mut result: Vec<ColumnarBatch> = Vec::new();
        result.push(users_batch);
        result.push(pages_batch);
        result.push(devices_batch);
        result.push(web_logs_batch);
        result.push(requests_batch);
        result.push(responses_batch);
        result.push(error_logs_batch);
        proof {
            assert(result@ =~= seq![gb0, gb1, gb2, gb3, gb4, gb5, gb6]);
        }
        Ok(result)
    }

    /// Encodes the generated batches for persistence: pairs each batch with
    /// its table's file name, in the catalog's table order, and encodes it
    /// as an in-memory parquet file. Batches beyond the seven tables have
    /// no name to pair with and are ignored. The caller persists each pair
    /// to disk.
    pub fn write(&self, to_write: &Vec<ColumnarBatch>) -> (r: Result<
        Vec<(String, Vec<u8>)>,
        Error,
    >)
        requires
            forall|i: int| 0 <= i < to_write@.len() ==> (#[trigger] to_write@[i]).wf(),
        ensures
            r is Ok,
            r matches Ok(files) ==> {
                &&& files@.len() == (if to_write@.len() <= 7 {
                    to_write@.len() as int
                } else {
                    7
                })
                &&& forall|i: int|
                    0 <= i < files@.len() ==> (#[trigger] files@[i]).0@ == table_names_spec()[i]
                        + ".parquet"@
                &&& forall|i: int|
                    0 <= i < files@.len() ==> (#[trigger] files@[i]).1@ == parquet_of(
                        to_write@[i].named_columns(),
                    )
            },
    {
        let names = Self::table_names();
        proof {
            assert(names@.map_values(|s: &str| s@).len() == names@.len());
            assert(table_names_spec().len() == 7);
        }
        let n = if to_write.len() <= 7 {
            to_write.len()
        } else {
            7
        };
        let mut files: Vec<(String, Vec<u8>)> = Vec::new();
        let mut i: usize = 0;
        while i < n
            invariant
                i <= n,
                n <= to_write@.len(),
                n <= 7,
                n == (if to_write@.len() <= 7 {
                    to_write@.len() as int
                } else {
                    7
                }),
                names@.len() == 7,
                names@.map_values(|s: &str| s@) == table_names_spec(),
                forall|j: int| 0 <= j < to_write@.len() ==> (#[trigger] to_write@[j]).wf(),
                files@.len() == i,
                forall|j: int|
                    0 <= j < i ==> (#[trigger] files@[j]).0@ == table_names_spec()[j]
                        + ".parquet"@,
                forall|j: int|
                    0 <= j < i ==> (#[trigger] files@[j]).1@ == parquet_of(
                        to_write@[j].named_columns(),
                    ),
            decreases n - i,
        {
            let mut file_name = names[i].to_owned();
            file_name.append(".parquet");
            proof {
                assert(names@.map_values(|s: &str| s@)[i as int] == names@[i as int]@);
            }
            let bytes = match write_batch_to_bytes(&to_write[i]) {
                Ok(b) => b,
                Err(_) => {
                    proof {
                        assert(false);
                    }
                    unreached()
                },
            };
            files.push((file_name, bytes));
            i += 1;
        }
        Ok(files)
    }

    /// Generates the `users` batch: sequential ids, synthetic identities,
    /// and signup instants sampled before the configured start of time.
    pub fn generate_users_data(&self) -> (r: Result<ColumnarBatch, Error>)
        requires
            self.log_config.num_of_users <= 0x7fff_ffff,
        ensures
            r is Ok <==> (parsed_start(self.generator_config) matches Some(t)
                && MIN_FAKE_ANCHOR_SECS <= t.0 <= MAX_FAKE_ANCHOR_SECS),
            parsed_start(self.generator_config) is None ==> r == Err::<ColumnarBatch, Error>(
                Error::ParseDate,
            ),
            (parsed_start(self.generator_config) matches Some(t) && (t.0 < MIN_FAKE_ANCHOR_SECS
                || t.0 > MAX_FAKE_ANCHOR_SECS)) ==> r == Err::<ColumnarBatch, Error>(
                Error::TimeOutOfRange,
            ),
            r matches Ok(b) ==> {
                &&& b.wf()
                &&& b.schema_view() == users_schema_spec()
                &&& b.spec_rows() == self.log_config.num_of_users
                &&& cells_i32(b.columns_view()[0]) == seq_ids(
                    self.log_config.num_of_users as nat,
                )
                &&& (parsed_start(self.generator_config) matches Some(t) && forall|k: int|
                    0 <= k < b.spec_rows() ==> anchor_us(t) - 59_999_940_000_000
                        <= #[trigger] cells_ts_micros(b.columns_view()[3])[k] <= anchor_us(t)
                        - 60_000_000)
            },
    {
        let n = self.log_config.num_of_users;
        let parsed = parse_iso_datetime(self.generator_config.time_start.as_str());
        let (secs, micro) = match parsed {
            Some(t) => t,
            None => {
                return Err(Error::ParseDate);
            },
        };
        if secs < MIN_FAKE_ANCHOR_SECS || secs > MAX_FAKE_ANCHOR_SECS {
            return Err(Error::TimeOutOfRange);
        }
        let ghost anchor: int = secs * 1_000_000 + micro;
        let mut rng = rng_from_seed(self.generator_config.seed);
        let mut user_ids: Vec<i32> = Vec::new();
        let mut usernames: Vec<String> = Vec::new();
        let mut emails: Vec<String> = Vec::new();
        let mut signup_dates: Vec<i64> = Vec::new();
        let mut i: usize = 0;
        while i < n
            invariant
                i <= n,
                n <= 0x7fff_ffff,
                -377_645_116_800 <= secs <= 253_402_300_799,
                micro < 1_000_000,
                anchor == secs * 1_000_000 + micro,
                user_ids@.len() == i,
                usernames@.len() == i,
                emails@.len() == i,
                signup_dates@.len() == i,
                forall|k: int| 0 <= k < i ==> #[trigger] user_ids@[k] == k as i32,
                forall|k: int|
                    0 <= k < i ==> anchor - 59_999_940_000_000 <= #[trigger] signup_dates@[k]
                        <= anchor - 60_000_000,
            decreases n - i,
        {
            user_ids.push(i as i32);
            usernames.push(fake_username(&mut rng));
            emails.push(fake_free_email(&mut rng));
            let d = fake_datetime_before(&mut rng, secs, micro);
            signup_dates.push(d.0 * 1_000_000 + (d.1 as i64));
            i += 1;
        }
        let ghost uids = user_ids@;
        let ghost sdates = signup_dates@;
        let schema = users_schema_cols();
        let mut columns: Vec<ColumnArray> = Vec::new();
        columns.push(ColumnArray::Int32(user_ids));
        columns.push(ColumnArray::Utf8(usernames));
        columns.push(ColumnArray::Utf8(emails));
        columns.push(ColumnArray::TimestampMicros(signup_dates));
        proof {
            let ms = metas_view(schema@);
            let cs = columns@.map_values(|c: ColumnArray| c@);
            assert(cs[0] == ColumnData::Int32(uids));
            assert(cs[3] == ColumnData::TimestampMicros(sdates));
            assert(col_ty(cs[0]) == ms[0].ty && col_len(cs[0]) == n);
            assert(col_ty(cs[1]) == ms[1].ty && col_len(cs[1]) == n);
            assert(col_ty(cs[2]) == ms[2].ty && col_len(cs[2]) == n);
            assert(col_ty(cs[3]) == ms[3].ty && col_len(cs[3]) == n);
            assert(shape_ok(ms, cs));
            assert(uids =~= seq_ids(n as nat));
        }
        let batch = build_batch(schema, columns);
        Ok(batch)
    }

    /// Generates the `pages` batch: sequential ids, synthetic urls and
    /// titles, and a creation instant fixed at the configured start of time
    /// for every row (a deliberately preserved quirk of the design).
    pub fn generate_pages_data(&self) -> (r: Result<ColumnarBatch, Error>)
        requires
            self.log_config.num_of_pages <= 0x7fff_ffff,
        ensures
            r is Ok <==> parsed_start(self.generator_config) is Some,
            r is Err ==> r == Err::<ColumnarBatch, Error>(Error::ParseDate),
            r matches Ok(b) ==> {
                &&& b.wf()
                &&& b.schema_view() == pages_schema_spec()
                &&& b.spec_rows() == self.log_config.num_of_pages
                &&& cells_i32(b.columns_view()[0]) == seq_ids(
                    self.log_config.num_of_pages as nat,
                )
                &&& (parsed_start(self.generator_config) matches Some(t) && forall|k: int|
                    0 <= k < b.spec_rows() ==> #[trigger] cells_ts_micros(b.columns_view()[3])[k]
                        == anchor_us(t))
                &&& forall|k: int|
                    0 <= k < b.spec_rows() ==> is_page_url(
                        #[trigger] cells_utf8(b.columns_view()[1])[k],
                    )
                &&& forall|k: int|
                    0 <= k < b.spec_rows() ==> (#[trigger] cells_utf8(b.columns_view()[2])[k]).len()
                        >= 1
            },
    {
        let n = self.log_config.num_of_pages;
        let parsed = parse_iso_datetime(self.generator_config.time_start.as_str());
        let (secs, micro) = match parsed {
            Some(t) => t,
            None => {
                return Err(Error::ParseDate);
            },
        };
        let created: i64 = secs * 1_000_000 + (micro as i64);
        let mut rng = rng_from_seed(self.generator_config.seed);
        let mut page_ids: Vec<i32> = Vec::new();
        let mut page_urls: Vec<String> = Vec::new();
        let mut page_titles: Vec<String> = Vec::new();
        let mut created_dates: Vec<i64> = Vec::new();
        let mut i: usize = 0;
        while i < n
            invariant
                i <= n,
                n <= 0x7fff_ffff,
                page_ids@.len() == i,
                page_urls@.len() == i,
                page_titles@.len() == i,
                created_dates@.len() == i,
                forall|k: int| 0 <= k < i ==> #[trigger] page_ids@[k] == k as i32,
                forall|k: int| 0 <= k < i ==> #[trigger] created_dates@[k] == created,
                forall|k: int| 0 <= k < i ==> is_page_url(#[trigger] page_urls@[k]@),
                forall|k: int| 0 <= k < i ==> (#[trigger] page_titles@[k]@).len() >= 1,
            decreases n - i,
        {
            page_ids.push(i as i32);
            let domain_name = fake_username(&mut rng);
            let domain_suffix = fake_domain_suffix(&mut rng);
            let mut url = String::from_str("https://www.");
            url.append(domain_name.as_str());
            url.append(".");
            url.append(domain_suffix.as_str());
            proof {
                assert(url@ == "https://www."@ + domain_name@ + "."@ + domain_suffix@);
                assert(is_page_url(url@));
            }
            page_urls.push(url);
            page_titles.push(fake_sentence(&mut rng, 3, 6));
            created_dates.push(created);
            i += 1;
        }
        let ghost pids = page_ids@;
        let ghost cdates = created_dates@;
        let schema = pages_schema_cols();
        let mut columns: Vec<ColumnArray> = Vec::new();
        columns.push(ColumnArray::Int32(page_ids));
        columns.push(ColumnArray::Utf8(page_urls));
        columns.push(ColumnArray::Utf8(page_titles));
        columns.push(ColumnArray::TimestampMicros(created_dates));
        proof {
            let ms = metas_view(schema@);
            let cs = columns@.map_values(|c: ColumnArray| c@);
            assert(cs[0] == ColumnData::Int32(pids));
            assert(cs[3] == ColumnData::TimestampMicros(cdates));
            assert(col_ty(cs[0]) == ms[0].ty && col_len(cs[0]) == n);
            assert(col_ty(cs[1]) == ms[1].ty && col_len(cs[1]) == n);
            assert(col_ty(cs[2]) == ms[2].ty && col_len(cs[2]) == n);
            assert(col_ty(cs[3]) == ms[3].ty && col_len(cs[3]) == n);
            assert(shape_ok(ms, cs));
            assert(pids =~= seq_ids(n as nat));
        }
        let batch = build_batch(schema, columns);
        Ok(batch)
    }

    /// Generates the `devices` batch: one device per user, with sequential
    /// ids and synthetic browser identifiers.
    pub fn generate_devices_data(&self) -> (r: Result<ColumnarBatch, Error>)
        requires
            self.log_config.num_of_users <= 0x7fff_ffff,
        ensures
            r is Ok,
            r matches Ok(b) ==> {
                &&& b.wf()
                &&& b.schema_view() == devices_schema_spec()
                &&& b.spec_rows() == self.log_config.num_of_users
                &&& cells_i32(b.columns_view()[0]) == seq_ids(
                    self.log_config.num_of_users as nat,
                )
            },
    {
        let n = self.log_config.num_of_users;
        let mut rng = rng_from_seed(self.generator_config.seed);
        let mut device_ids: Vec<i32> = Vec::new();
        let mut browsers: Vec<String> = Vec::new();
        let mut i: usize = 0;
        while i < n
            invariant
                i <= n,
                n <= 0x7fff_ffff,
                device_ids@.len() == i,
                browsers@.len() == i,
                forall|k: int| 0 <= k < i ==> #[trigger] device_ids@[k] == k as i32,
            decreases n - i,
        {
            device_ids.push(i as i32);
            browsers.push(fake_user_agent(&mut rng));
            i += 1;
        }
        let ghost dids = device_ids@;
        let schema = devices_schema_cols();
        let mut columns: Vec<ColumnArray> = Vec::new();
        columns.push(ColumnArray::Int32(device_ids));
        columns.push(ColumnArray::Utf8(browsers));
        proof {
            let ms = metas_view(schema@);
            let cs = columns@.map_values(|c: ColumnArray| c@);
            assert(cs[0] == ColumnData::Int32(dids));
            assert(col_ty(cs[0]) == ms[0].ty && col_len(cs[0]) == n);
            assert(col_ty(cs[1]) == ms[1].ty && col_len(cs[1]) == n);
            assert(shape_ok(ms, cs));
            assert(dids =~= seq_ids(n as nat));
        }
        let batch = build_batch(schema, columns);
        Ok(batch)
    }

    /// Generates the `web_logs` batch: one row per schedule step from the
    /// window start to its end inclusive, stepping by the configured
    /// interval. Ids are sequential; user, page and device keys are reused
    /// cyclically from the id tables, which keeps every reference valid
    /// without a join; timestamps jitter around their nominal schedule.
    /// Returns the batch and its row count.
    pub fn generate_web_logs_data(
        &self,
        users_batch: &ColumnarBatch,
        pages_batch: &ColumnarBatch,
        devices_batch: &ColumnarBatch,
    ) -> (r: Result<(ColumnarBatch, usize), Error>)
        requires
            self.generator_config.interval >= 1,
            users_batch.wf(),
            pages_batch.wf(),
            devices_batch.wf(),
            users_batch.schema_view()[0].ty == PrimType::Int32,
            pages_batch.schema_view()[0].ty == PrimType::Int32,
            devices_batch.schema_view()[0].ty == PrimType::Int32,
            users_batch.spec_rows() >= 1,
            pages_batch.spec_rows() >= 1,
            devices_batch.spec_rows() >= 1,
        ensures
            r is Ok <==> (parsed_start(self.generator_config) is Some && parsed_end(
                self.generator_config,
            ) is Some && web_count(self.generator_config) <= 0x7fff_ffff),
            parsed_start(self.generator_config) is None ==> r == Err::<
                (ColumnarBatch, usize),
                Error,
            >(Error::ParseDate),
            (parsed_start(self.generator_config) is Some && parsed_end(self.generator_config)
                is None) ==> r == Err::<(ColumnarBatch, usize), Error>(Error::ParseDate),
            (parsed_start(self.generator_config) is Some && parsed_end(self.generator_config)
                is Some && web_count(self.generator_config) > 0x7fff_ffff) ==> r == Err::<
                (ColumnarBatch, usize),
                Error,
            >(Error::RowCountOverflow),
            r matches Err(e) ==> (e == Error::ParseDate || e == Error::RowCountOverflow),
            r matches Ok(p) ==> {
                let b = p.0;
                let cnt = p.1 as int;
                let start = cfg_start_us(self.generator_config);
                let ivl = self.generator_config.interval as int;
                &&& cnt == web_count(self.generator_config)
                &&& b.wf()
                &&& b.schema_view() == web_logs_schema_spec()
                &&& b.spec_rows() == cnt
                &&& cells_i32(b.columns_view()[0]) == seq_ids(cnt as nat)
                &&& forall|k: int|
                    0 <= k < cnt ==> #[trigger] cells_i32(b.columns_view()[1])[k] == cells_i32(
                        users_batch.columns_view()[0],
                    )[k % (users_batch.spec_rows() as int)]
                &&& forall|k: int|
                    0 <= k < cnt ==> #[trigger] cells_i32(b.columns_view()[2])[k] == cells_i32(
                        pages_batch.columns_view()[0],
                    )[k % (pages_batch.spec_rows() as int)]
                &&& forall|k: int|
                    0 <= k < cnt ==> #[trigger] cells_i32(b.columns_view()[3])[k] == cells_i32(
                        devices_batch.columns_view()[0],
                    )[k % (devices_batch.spec_rows() as int)]
                &&& forall|k: int|
                    0 <= k < cnt ==> 50 <= #[trigger] cells_i32(b.columns_view()[4])[k] < 300
                &&& forall|k: int|
                    0 <= k < cnt ==> start + k * ivl - 500_000 <= #[trigger] cells_ts_micros(
                        b.columns_view()[6],
                    )[k] < start + k * ivl + 500_000
                &&& forall|k: int|
                    0 <= k < cnt ==> -377_705_210_900_000_000 <= #[trigger] cells_ts_micros(
                        b.columns_view()[6],
                    )[k] < 253_402_394_899_000_000
                &&& forall|k: int|
                    0 <= k < cnt ==> is_ipv4_text(#[trigger] cells_utf8(b.columns_view()[5])[k])
            },
    {
        let ghost cfg = self.generator_config;
        let ps = parse_iso_datetime(self.generator_config.time_start.as_str());
        let start_secs = match ps {
            Some(t) => t.0,
            None => {
                return Err(Error::ParseDate);
            },
        };
        let pe = parse_iso_datetime(self.generator_config.time_end.as_str());
        let end_secs = match pe {
            Some(t) => t.0,
            None => {
                return Err(Error::ParseDate);
            },
        };
        let start_us: i64 = start_secs * 1_000_000;
        let end_us: i64 = end_secs * 1_000_000;
        let interval: i64 = self.generator_config.interval;

        let steps_u: u64 = if start_us <= end_us {
            ((end_us - start_us) as u64) / (interval as u64) + 1
        } else {
            0
        };
        proof {
            assert(steps_u == web_count(cfg));
        }
        if steps_u > 0x7fff_ffff {
            return Err(Error::RowCountOverflow);
        }
        let steps: usize = steps_u as usize;

        let users_len = users_batch.num_rows();
        let pages_len = pages_batch.num_rows();
        let devices_len = devices_batch.num_rows();

        let mut rng = rng_from_seed(self.generator_config.seed);
        let mut log_ids: Vec<i32> = Vec::new();
        let mut user_ids: Vec<i32> = Vec::new();
        let mut page_ids: Vec<i32> = Vec::new();
        let mut device_ids: Vec<i32> = Vec::new();
        let mut runtimes: Vec<i32> = Vec::new();
        let mut ip_addresses: Vec<String> = Vec::new();
        let mut timestamps: Vec<i64> = Vec::new();

        let mut k: usize = 0;
        while k < steps
            invariant
                k <= steps,
                steps <= 0x7fff_ffff,
                interval >= 1,
                -377_705_210_399 <= start_secs <= 253_402_394_398,
                -377_705_210_399 <= end_secs <= 253_402_394_398,
                start_us == start_secs * 1_000_000,
                end_us == end_secs * 1_000_000,
                steps == web_rows(start_us as int, end_us as int, interval as int),
                steps >= 1 ==> start_us <= end_us,
                users_batch.wf(),
                pages_batch.wf(),
                devices_batch.wf(),
                users_batch.schema_view()[0].ty == PrimType::Int32,
                pages_batch.schema_view()[0].ty == PrimType::Int32,
                devices_batch.schema_view()[0].ty == PrimType::Int32,
                users_len == users_batch.spec_rows(),
                pages_len == pages_batch.spec_rows(),
                devices_len == devices_batch.spec_rows(),
                1 <= users_len,
                1 <= pages_len,
                1 <= devices_len,
                log_ids@.len() == k,
                user_ids@.len() == k,
                page_ids@.len() == k,
                device_ids@.len() == k,
                runtimes@.len() == k,
                ip_addresses@.len() == k,
                timestamps@.len() == k,
                forall|j: int| 0 <= j < k ==> #[trigger] log_ids@[j] == j as i32,
                forall|j: int|
                    0 <= j < k ==> #[trigger] user_ids@[j] == cells_i32(
                        users_batch.columns_view()[0],
                    )[j % (users_len as int)],
                forall|j: int|
                    0 <= j < k ==> #[trigger] page_ids@[j] == cells_i32(
                        pages_batch.columns_view()[0],
                    )[j % (pages_len as int)],
                forall|j: int|
                    0 <= j < k ==> #[trigger] device_ids@[j] == cells_i32(
                        devices_batch.columns_view()[0],
                    )[j % (devices_len as int)],
                forall|j: int| 0 <= j < k ==> 50 <= #[trigger] runtimes@[j] < 300,
                forall|j: int| 0 <= j < k ==> is_ipv4_text(#[trigger] ip_addresses@[j]@),
                forall|j: int|
                    0 <= j < k ==> start_us + j * (interval as int) - 500_000
                        <= #[trigger] timestamps@[j] < start_us + j * (interval as int) + 500_000,
                forall|j: int|
                    0 <= j < k ==> start_us - 500_000 <= #[trigger] timestamps@[j] < end_us
                        + 500_000,
            decreases steps - k,
        {
            proof {
                lemma_remainder_lower((end_us - start_us) as int, interval as int);
                lemma_mul_inequality(
                    k as int,
                    ((end_us - start_us) as int) / (interval as int),
                    interval as int,
                );
                lemma_mul_nonnegative(k as int, interval as int);
                assert((k as int) * (interval as int) <= end_us - start_us);
            }
            let nominal: i64 = start_us + (k as i64) * interval;
            log_ids.push(k as i32);
            let ui = k % users_len;
            user_ids.push(users_batch.i32_at(0, ui));
            let pi = k % pages_len;
            page_ids.push(pages_batch.i32_at(0, pi));
            let di = k % devices_len;
            device_ids.push(devices_batch.i32_at(0, di));
            runtimes.push(gen_range_i32(&mut rng, 50, 300));
            let o1 = gen_range_i32(&mut rng, 0, 256);
            let o2 = gen_range_i32(&mut rng, 0, 256);
            let o3 = gen_range_i32(&mut rng, 0, 256);
            let o4 = gen_range_i32(&mut rng, 0, 256);
            let ip = format_ipv4(o1 as u8, o2 as u8, o3 as u8, o4 as u8);
            proof {
                assert(ip@ == ipv4_text(o1 as int, o2 as int, o3 as int, o4 as int));
                assert(is_ipv4_text(ip@));
            }
            ip_addresses.push(ip);
            let jitter = gen_range_i64(&mut rng, -500_000, 500_000);
            timestamps.push(nominal + jitter);
            k += 1;
        }

        let ghost lids = log_ids@;
        let ghost tss = timestamps@;
        let schema = web_logs_schema_cols();
        let mut columns: Vec<ColumnArray> = Vec::new();
        columns.push(ColumnArray::Int32(log_ids));
        columns.push(ColumnArray::Int32(user_ids));
        columns.push(ColumnArray::Int32(page_ids));
        columns.push(ColumnArray::Int32(device_ids));
        columns.push(ColumnArray::Int32(runtimes));
        columns.push(ColumnArray::Utf8(ip_addresses));
        columns.push(ColumnArray::TimestampMicros(timestamps));
        proof {
            let ms = metas_view(schema@);
            let cs = columns@.map_values(|c: ColumnArray| c@);
            assert(cs[0] == ColumnData::Int32(lids));
            assert(cs[6] == ColumnData::TimestampMicros(tss));
            assert(col_ty(cs[0]) == ms[0].ty && col_len(cs[0]) == steps);
            assert(col_ty(cs[1]) == ms[1].ty && col_len(cs[1]) == steps);
            assert(col_ty(cs[2]) == ms[2].ty && col_len(cs[2]) == steps);
            assert(col_ty(cs[3]) == ms[3].ty && col_len(cs[3]) == steps);
            assert(col_ty(cs[4]) == ms[4].ty && col_len(cs[4]) == steps);
            assert(col_ty(cs[5]) == ms[5].ty && col_len(cs[5]) == steps);
            assert(col_ty(cs[6]) == ms[6].ty && col_len(cs[6]) == steps);
            assert(shape_ok(ms, cs));
            assert(lids =~= seq_ids(steps as nat));
        }
        let batch = build_batch(schema, columns);
        Ok((batch, steps))
    }

    /// Generates the `requests` batch, one row per web log: the log id is
    /// copied positionally, the method and protocol version are drawn from
    /// fixed finite sets, and the url is reused cyclically from the pages
    /// table.
    pub fn generate_requests_data(
        &self,
        web_logs_batch: &ColumnarBatch,
        pages_batch: &ColumnarBatch,
        num_of_logs: usize,
    ) -> (r: Result<ColumnarBatch, Error>)
        requires
            web_logs_batch.wf(),
            web_logs_batch.schema_view()[0].ty == PrimType::Int32,
            num_of_logs == web_logs_batch.spec_rows(),
            num_of_logs <= 0x7fff_ffff,
            pages_batch.wf(),
            pages_batch.schema_view().len() >= 2,
            pages_batch.schema_view()[1].ty == PrimType::Utf8,
            pages_batch.spec_rows() >= 1,
        ensures
            r is Ok,
            r matches Ok(b) ==> {
                &&& b.wf()
                &&& b.schema_view() == requests_schema_spec()
                &&& b.spec_rows() == num_of_logs
                &&& cells_i32(b.columns_view()[0]) == seq_ids(num_of_logs as nat)
                &&& cells_i32(b.columns_view()[1]) == cells_i32(web_logs_batch.columns_view()[0])
                &&& forall|k: int|
                    0 <= k < num_of_logs ==> is_http_method(
                        #[trigger] cells_utf8(b.columns_view()[2])[k],
                    )
                &&& forall|k: int|
                    0 <= k < num_of_logs ==> #[trigger] cells_utf8(b.columns_view()[3])[k]
                        == cells_utf8(pages_batch.columns_view()[1])[k % (
                        pages_batch.spec_rows() as int)]
                &&& forall|k: int|
                    0 <= k < num_of_logs ==> is_http_version(
                        #[trigger] cells_utf8(b.columns_view()[4])[k],
                    )
            },
    {
        let n = num_of_logs;
        let mut rng = rng_from_seed(self.generator_config.seed);
        let mut request_ids: Vec<i32> = Vec::new();
        let mut log_ids: Vec<i32> = Vec::new();
        let mut methods: Vec<String> = Vec::new();
        let mut urls: Vec<String> = Vec::new();
        let mut versions: Vec<String> = Vec::new();

        let mut http_methods: Vec<&str> = Vec::new();
        http_methods.push("GET");
        http_methods.push("POST");
        http_methods.push("PUT");
        http_methods.push("DELETE");
        http_methods.push("PATCH");
        let mut http_versions: Vec<&str> = Vec::new();
        http_versions.push("HTTP/1.1");
        http_versions.push("HTTP/2");
        http_versions.push("HTTP/3");

        let pages_len = pages_batch.num_rows();
        let mut i: usize = 0;
        while i < n
            invariant
                i <= n,
                n <= 0x7fff_ffff,
                web_logs_batch.wf(),
                web_logs_batch.schema_view()[0].ty == PrimType::Int32,
                n == web_logs_batch.spec_rows(),
                pages_batch.wf(),
                pages_batch.schema_view().len() >= 2,
                pages_batch.schema_view()[1].ty == PrimType::Utf8,
                pages_len == pages_batch.spec_rows(),
                1 <= pages_len,
                http_methods@.len() == 5,
                http_methods@[0]@ == "GET"@,
                http_methods@[1]@ == "POST"@,
                http_methods@[2]@ == "PUT"@,
                http_methods@[3]@ == "DELETE"@,
                http_methods@[4]@ == "PATCH"@,
                http_versions@.len() == 3,
                http_versions@[0]@ == "HTTP/1.1"@,
                http_versions@[1]@ == "HTTP/2"@,
                http_versions@[2]@ == "HTTP/3"@,
                request_ids@.len() == i,
                log_ids@.len() == i,
                methods@.len() == i,
                urls@.len() == i,
                versions@.len() == i,
                forall|k: int| 0 <= k < i ==> #[trigger] request_ids@[k] == k as i32,
                forall|k: int|
                    0 <= k < i ==> #[trigger] log_ids@[k] == cells_i32(
                        web_logs_batch.columns_view()[0],
                    )[k],
                forall|k: int| 0 <= k < i ==> is_http_method(#[trigger] methods@[k]@),
                forall|k: int|
                    0 <= k < i ==> #[trigger] urls@[k]@ == cells_utf8(
                        pages_batch.columns_view()[1],
                    )[k % (pages_len as int)],
                forall|k: int| 0 <= k < i ==> is_http_version(#[trigger] versions@[k]@),
            decreases n - i,
        {
            request_ids.push(i as i32);
            log_ids.push(web_logs_batch.i32_at(0, i));
            let method = match choose_str(&mut rng, http_methods.as_slice()) {
                Some(m) => m,
                None => {
                    proof {
                        assert(false);
                    }
                    unreached()
                },
            };
            methods.push(method.to_owned());
            urls.push(pages_batch.str_at(1, i % pages_len));
            let version = match choose_str(&mut rng, http_versions.as_slice()) {
                Some(v) => v,
                None => {
                    proof {
                        assert(false);
                    }
                    unreached()
                },
            };
            versions.push(version.to_owned());
            i += 1;
        }

        let ghost rids = request_ids@;
        let ghost lids = log_ids@;
        let schema = requests_schema_cols();
        let mut columns: Vec<ColumnArray> = Vec::new();
        columns.push(ColumnArray::Int32(request_ids));
        columns.push(ColumnArray::Int32(log_ids));
        columns.push(ColumnArray::Utf8(methods));
        columns.push(ColumnArray::Utf8(urls));
        columns.push(ColumnArray::Utf8(versions));
        proof {
            let ms = metas_view(schema@);
            let cs = columns@.map_values(|c: ColumnArray| c@);
            assert(cs[0] == ColumnData::Int32(rids));
            assert(cs[1] == ColumnData::Int32(lids));
            assert(col_ty(cs[0]) == ms[0].ty && col_len(cs[0]) == n);
            assert(col_ty(cs[1]) == ms[1].ty && col_len(cs[1]) == n);
            assert(col_ty(cs[2]) == ms[2].ty && col_len(cs[2]) == n);
            assert(col_ty(cs[3]) == ms[3].ty && col_len(cs[3]) == n);
            assert(col_ty(cs[4]) == ms[4].ty && col_len(cs[4]) == n);
            assert(shape_ok(ms, cs));
            assert(rids =~= seq_ids(n as nat));
            assert(lids =~= cells_i32(web_logs_batch.columns_view()[0]));
        }
        let batch = build_batch(schema, columns);
        Ok(batch)
    }

    /// Generates the `responses` batch, one row per web log: the log id is
    /// copied positionally, the status code is drawn from the weighted
    /// categorical distribution over the catalog's code set, and sizes and
    /// times are unconstrained random integers.
    pub fn generate_responses_data(
        &self,
        web_logs_batch: &ColumnarBatch,
        num_of_logs: usize,
    ) -> (r: Result<ColumnarBatch, Error>)
        requires
            web_logs_batch.wf(),
            web_logs_batch.schema_view()[0].ty == PrimType::Int32,
            num_of_logs == web_logs_batch.spec_rows(),
            num_of_logs <= 0x7fff_ffff,
        ensures
            r is Ok,
            r matches Ok(b) ==> {
                &&& b.wf()
                &&& b.schema_view() == responses_schema_spec()
                &&& b.spec_rows() == num_of_logs
                &&& cells_i32(b.columns_view()[0]) == seq_ids(num_of_logs as nat)
                &&& cells_i32(b.columns_view()[1]) == cells_i32(web_logs_batch.columns_view()[0])
                &&& forall|k: int|
                    0 <= k < num_of_logs ==> is_status_code(
                        #[trigger] cells_utf8(b.columns_view()[2])[k],
                    )
            },
    {
        let n = num_of_logs;
        let mut rng = rng_from_seed(self.generator_config.seed);
        let mut response_ids: Vec<i32> = Vec::new();
        let mut log_ids: Vec<i32> = Vec::new();
        let mut status_codes: Vec<String> = Vec::new();
        let mut response_sizes: Vec<i32> = Vec::new();
        let mut response_times: Vec<i32> = Vec::new();

        let mut code_strs: Vec<&str> = Vec::new();
        code_strs.push("200");
        code_strs.push("201");
        code_strs.push("202");
        code_strs.push("204");
        code_strs.push("400");
        code_strs.push("401");
        code_strs.push("403");
        code_strs.push("404");
        code_strs.push("500");
        code_strs.push("502");
        code_strs.push("503");
        let weights = status_weight_vec();
        proof {
            assert(status_weights_spec()[0] > 0);
        }
        let dist = match weighted_index_new(&weights) {
            Some(d) => d,
            None => {
                proof {
                    assert(false);
                }
                unreached()
            },
        };

        let mut i: usize = 0;
        while i < n
            invariant
                i <= n,
                n <= 0x7fff_ffff,
                web_logs_batch.wf(),
                web_logs_batch.schema_view()[0].ty == PrimType::Int32,
                n == web_logs_batch.spec_rows(),
                code_strs@.len() == 11,
                code_strs@[0]@ == "200"@,
                code_strs@[1]@ == "201"@,
                code_strs@[2]@ == "202"@,
                code_strs@[3]@ == "204"@,
                code_strs@[4]@ == "400"@,
                code_strs@[5]@ == "401"@,
                code_strs@[6]@ == "403"@,
                code_strs@[7]@ == "404"@,
                code_strs@[8]@ == "500"@,
                code_strs@[9]@ == "502"@,
                code_strs@[10]@ == "503"@,
                wi_weights(dist) == status_weights_spec(),
                response_ids@.len() == i,
                log_ids@.len() == i,
                status_codes@.len() == i,
                response_sizes@.len() == i,
                response_times@.len() == i,
                forall|k: int| 0 <= k < i ==> #[trigger] response_ids@[k] == k as i32,
                forall|k: int|
                    0 <= k < i ==> #[trigger] log_ids@[k] == cells_i32(
                        web_logs_batch.columns_view()[0],
                    )[k],
                forall|k: int| 0 <= k < i ==> is_status_code(#[trigger] status_codes@[k]@),
            decreases n - i,
        {
            response_ids.push(i as i32);
            log_ids.push(web_logs_batch.i32_at(0, i));
            let idx = weighted_sample(&dist, &mut rng);
            status_codes.push(code_strs[idx].to_owned());
            response_sizes.push(fake_i32(&mut rng));
            response_times.push(fake_i32(&mut rng));
            i += 1;
        }

        let ghost rids = response_ids@;
        let ghost lids = log_ids@;
        let schema = responses_schema_cols();
        let mut columns: Vec<ColumnArray> = Vec::new();
        columns.push(ColumnArray::Int32(response_ids));
        columns.push(ColumnArray::Int32(log_ids));
        columns.push(ColumnArray::Utf8(status_codes));
        columns.push(ColumnArray::Int32(response_sizes));
        columns.push(ColumnArray::Int32(response_times));
        proof {
            let ms = metas_view(schema@);
            let cs = columns@.map_values(|c: ColumnArray| c@);
            assert(cs[0] == ColumnData::Int32(rids));
            assert(cs[1] == ColumnData::Int32(lids));
            assert(col_ty(cs[0]) == ms[0].ty && col_len(cs[0]) == n);
            assert(col_ty(cs[1]) == ms[1].ty && col_len(cs[1]) == n);
            assert(col_ty(cs[2]) == ms[2].ty && col_len(cs[2]) == n);
            assert(col_ty(cs[3]) == ms[3].ty && col_len(cs[3]) == n);
            assert(col_ty(cs[4]) == ms[4].ty && col_len(cs[4]) == n);
            assert(shape_ok(ms, cs));
            assert(rids =~= seq_ids(n as nat));
            assert(lids =~= cells_i32(web_logs_batch.columns_view()[0]));
        }
        let batch = build_batch(schema, columns);
        Ok(batch)
    }

    /// Generates the `error_logs` batch: most web logs produce no error, but
    /// each has a one-in-five chance of producing one to three error rows,
    /// every one keyed to its triggering log and timestamped at most half a
    /// second after it.
    pub fn generate_error_logs_data(
        &self,
        web_logs_batch: &ColumnarBatch,
        num_of_logs: usize,
    ) -> (r: Result<ColumnarBatch, Error>)
        requires
            web_logs_batch.wf(),
            web_logs_batch.schema_view().len() >= 7,
            web_logs_batch.schema_view()[0].ty == PrimType::Int32,
            web_logs_batch.schema_view()[6].ty == PrimType::TimestampMicros,
            num_of_logs == web_logs_batch.spec_rows(),
            3 * num_of_logs <= 0x7fff_ffff,
            forall|k: int|
                0 <= k < num_of_logs ==> #[trigger] cells_ts_micros(
                    web_logs_batch.columns_view()[6],
                )[k] <= 9_223_372_036_854_275_807,
        ensures
            r is Ok,
            r matches Ok(b) ==> {
                &&& b.wf()
                &&& b.schema_view() == error_logs_schema_spec()
                &&& b.spec_rows() <= 3 * num_of_logs
                &&& cells_i32(b.columns_view()[0]) == seq_ids(b.spec_rows())
                &&& forall|j: int|
                    0 <= j < b.spec_rows() ==> error_row_keyed(
                        cells_i32(web_logs_batch.columns_view()[0]),
                        cells_ts_micros(web_logs_batch.columns_view()[6]),
                        #[trigger] cells_i32(b.columns_view()[1])[j],
                        cells_ts_micros(b.columns_view()[4])[j],
                    )
                &&& forall|j: int|
                    0 <= j < b.spec_rows() ==> error_code_formatted(
                        #[trigger] cells_utf8(b.columns_view()[2])[j],
                        cells_utf8(b.columns_view()[3])[j],
                    )
                &&& exists|src: Seq<int>|
                    #![auto]
                    error_rows_witness(
                        src,
                        num_of_logs as int,
                        cells_i32(web_logs_batch.columns_view()[0]),
                        cells_ts_micros(web_logs_batch.columns_view()[6]),
                        cells_i32(b.columns_view()[1]),
                        cells_ts_micros(b.columns_view()[4]),
                    )
            },
    {
        let n = num_of_logs;
        let ghost web0 = cells_i32(web_logs_batch.columns_view()[0]);
        let ghost web6 = cells_ts_micros(web_logs_batch.columns_view()[6]);
        let mut rng = rng_from_seed(self.generator_config.seed);
        let mut error_log_ids: Vec<i32> = Vec::new();
        let mut log_ids: Vec<i32> = Vec::new();
        let mut error_codes: Vec<String> = Vec::new();
        let mut error_messages: Vec<String> = Vec::new();
        let mut timestamps: Vec<i64> = Vec::new();
        let ghost mut src: Seq<int> = Seq::empty();
        let ghost mut codes: Seq<int> = Seq::empty();

        let mut i: usize = 0;
        while i < n
            invariant
                i <= n,
                n == web_logs_batch.spec_rows(),
                3 * n <= 0x7fff_ffff,
                web_logs_batch.wf(),
                web_logs_batch.schema_view().len() >= 7,
                web_logs_batch.schema_view()[0].ty == PrimType::Int32,
                web_logs_batch.schema_view()[6].ty == PrimType::TimestampMicros,
                web0 == cells_i32(web_logs_batch.columns_view()[0]),
                web6 == cells_ts_micros(web_logs_batch.columns_view()[6]),
                forall|k: int| 0 <= k < n ==> #[trigger] web6[k] <= 9_223_372_036_854_275_807,
                error_log_ids@.len() <= 3 * i,
                log_ids@.len() == error_log_ids@.len(),
                error_codes@.len() == error_log_ids@.len(),
                error_messages@.len() == error_log_ids@.len(),
                timestamps@.len() == error_log_ids@.len(),
                src.len() == error_log_ids@.len(),
                codes.len() == error_log_ids@.len(),
                forall|j: int|
                    0 <= j < error_log_ids@.len() ==> #[trigger] error_log_ids@[j] == j as i32,
                forall|j: int|
                    0 <= j < src.len() ==> 0 <= #[trigger] src[j] < n && log_ids@[j]
                        == web0[src[j]] && web6[src[j]] <= timestamps@[j] < web6[src[j]] + 500_000,
                forall|j: int|
                    0 <= j < codes.len() ==> 500 <= #[trigger] codes[j] < 510 && error_codes@[j]@
                        == err_code_str(codes[j]) && error_messages@[j]@ == "Error message "@
                        + err_code_str(codes[j]),
                forall|j: int| 0 <= j < src.len() ==> #[trigger] src[j] < i,
                forall|a: int, b2: int|
                    0 <= a <= b2 < src.len() ==> #[trigger] src[a] <= #[trigger] src[b2],
                forall|a: int, b2: int|
                    (0 <= a <= b2 < src.len() && #[trigger] src[a] == #[trigger] src[b2]) ==> b2
                        - a <= 2,
            decreases n - i,
        {
            let log_id = web_logs_batch.i32_at(0, i);
            let base_timestamp = web_logs_batch.ts_micros_at(6, i);
            if gen_range_i32(&mut rng, 0, 100) < 20 {
                let num_of_errors = gen_range_i32_inclusive(&mut rng, 1, 3);
                let ghost rs = src.len() as int;
                let mut e: i32 = 0;
                while e < num_of_errors
                    invariant
                        0 <= e <= num_of_errors,
                        1 <= num_of_errors <= 3,
                        i < n,
                        n == web_logs_batch.spec_rows(),
                        3 * n <= 0x7fff_ffff,
                        web_logs_batch.wf(),
                        web_logs_batch.schema_view().len() >= 7,
                        web_logs_batch.schema_view()[0].ty == PrimType::Int32,
                        web_logs_batch.schema_view()[6].ty == PrimType::TimestampMicros,
                        web0 == cells_i32(web_logs_batch.columns_view()[0]),
                        web6 == cells_ts_micros(web_logs_batch.columns_view()[6]),
                        forall|k: int|
                            0 <= k < n ==> #[trigger] web6[k] <= 9_223_372_036_854_275_807,
                        log_id == web0[i as int],
                        base_timestamp == web6[i as int],
                        error_log_ids@.len() <= 3 * i + e,
                        log_ids@.len() == error_log_ids@.len(),
                        error_codes@.len() == error_log_ids@.len(),
                        error_messages@.len() == error_log_ids@.len(),
                        timestamps@.len() == error_log_ids@.len(),
                        src.len() == error_log_ids@.len(),
                        codes.len() == error_log_ids@.len(),
                        forall|j: int|
                            0 <= j < error_log_ids@.len() ==> #[trigger] error_log_ids@[j]
                                == j as i32,
                        forall|j: int|
                            0 <= j < src.len() ==> 0 <= #[trigger] src[j] < n && log_ids@[j]
                                == web0[src[j]] && web6[src[j]] <= timestamps@[j] < web6[src[j]]
                                + 500_000,
                        forall|j: int|
                            0 <= j < codes.len() ==> 500 <= #[trigger] codes[j] < 510
                                && error_codes@[j]@ == err_code_str(codes[j])
                                && error_messages@[j]@ == "Error message "@ + err_code_str(
                                codes[j],
                            ),
                        0 <= rs <= src.len(),
                        src.len() - rs == e,
                        forall|j: int| 0 <= j < rs ==> #[trigger] src[j] < i,
                        forall|j: int| rs <= j < src.len() ==> #[trigger] src[j] == i,
                        forall|a: int, b2: int|
                            0 <= a <= b2 < src.len() ==> #[trigger] src[a] <= #[trigger] src[b2],
                        forall|a: int, b2: int|
                            (0 <= a <= b2 < src.len() && #[trigger] src[a] == #[trigger] src[b2])
                                ==> b2 - a <= 2,
                    decreases num_of_errors - e,
                {
                    let cur = error_log_ids.len();
                    error_log_ids.push(cur as i32);
                    log_ids.push(log_id);
                    let code = 500 + gen_range_i32(&mut rng, 0, 10);
                    let code_str = err_code_to_str(code);
                    error_codes.push(code_str.to_owned());
                    let mut msg = String::from_str("Error message ");
                    msg.append(code_str);
                    error_messages.push(msg);
                    let jitter = gen_range_i64(&mut rng, 0, 500_000);
                    timestamps.push(base_timestamp + jitter);
                    proof {
                        src = src.push(i as int);
                        codes = codes.push(code as int);
                    }
                    e += 1;
                }
            }
            i += 1;
        }

        let ghost eids = error_log_ids@;
        let ghost lids = log_ids@;
        let ghost ecs = error_codes.deep_view();
        let ghost ems = error_messages.deep_view();
        let ghost tss = timestamps@;
        let m = error_log_ids.len();
        let schema = error_logs_schema_cols();
        let mut columns: Vec<ColumnArray> = Vec::new();
        columns.push(ColumnArray::Int32(error_log_ids));
        columns.push(ColumnArray::Int32(log_ids));
        columns.push(ColumnArray::Utf8(error_codes));
        columns.push(ColumnArray::Utf8(error_messages));
        columns.push(ColumnArray::TimestampMicros(timestamps));
        proof {
            let ms = metas_view(schema@);
            let cs = columns@.map_values(|c: ColumnArray| c@);
            assert(cs[0] == ColumnData::Int32(eids));
            assert(cs[1] == ColumnData::Int32(lids));
            assert(cs[2] == ColumnData::Utf8(ecs));
            assert(cs[3] == ColumnData::Utf8(ems));
            assert(cs[4] == ColumnData::TimestampMicros(tss));
            assert(col_ty(cs[0]) == ms[0].ty && col_len(cs[0]) == m);
            assert(col_ty(cs[1]) == ms[1].ty && col_len(cs[1]) == m);
            assert(col_ty(cs[2]) == ms[2].ty && col_len(cs[2]) == m);
            assert(col_ty(cs[3]) == ms[3].ty && col_len(cs[3]) == m);
            assert(col_ty(cs[4]) == ms[4].ty && col_len(cs[4]) == m);
            assert(shape_ok(ms, cs));
            assert(eids =~= seq_ids(m as nat));
        }
        let batch = build_batch(schema, columns);
        proof {
            assert forall|j: int| 0 <= j < batch.spec_rows() implies error_row_keyed(
                cells_i32(web_logs_batch.columns_view()[0]),
                cells_ts_micros(web_logs_batch.columns_view()[6]),
                #[trigger] cells_i32(batch.columns_view()[1])[j],
                cells_ts_micros(batch.columns_view()[4])[j],
            ) by {
                let t = src[j];
                assert(0 <= t < web0.len() && cells_i32(batch.columns_view()[1])[j] == web0[t]
                    && web6[t] <= cells_ts_micros(batch.columns_view()[4])[j] < web6[t] + 500_000);
            }
            assert forall|j: int| 0 <= j < batch.spec_rows() implies error_code_formatted(
                #[trigger] cells_utf8(batch.columns_view()[2])[j],
                cells_utf8(batch.columns_view()[3])[j],
            ) by {
                let c = codes[j];
                assert(500 <= c < 510 && cells_utf8(batch.columns_view()[2])[j] == err_code_str(c)
                    && cells_utf8(batch.columns_view()[3])[j] == "Error message "@ + err_code_str(
                    c,
                ));
            }
            assert(cells_i32(batch.columns_view()[1]) =~= lids);
            assert(cells_ts_micros(batch.columns_view()[4]) =~= tss);
            assert(error_rows_witness(
                src,
                num_of_logs as int,
                cells_i32(web_logs_batch.columns_view()[0]),
                cells_ts_micros(web_logs_batch.columns_view()[6]),
                cells_i32(batch.columns_view()[1]),
                cells_ts_micros(batch.columns_view()[4]),
            ));
        }
        Ok(batch)
    }

    /// Every canonical table name, in the authoritative iteration order for
    /// writing and loading.
    pub fn table_names() -> (r: Vec<&'static str>)
        ensures
            r@.map_values(|s: &str| s@) == table_names_spec(),
    {
        let mut v: Vec<&'static str> = Vec::new();
        v.push("users");
        v.push("pages");
        v.push("devices");
        v.push("web_logs");
        v.push("requests");
        v.push("responses");
        v.push("error_logs");
        proof {
            assert(v@.map_values(|s: &str| s@) =~= table_names_spec());
        }
        v
    }
}

impl DataGenerator for LogDataGenerator {
    /// A configuration this generator accepts: at least one user and one
    /// page, both within an `i32` id column, and a positive interval.
    open spec fn config_ok(&self) -> bool {
        &&& 1 <= self.log_config.num_of_users <= 0x7fff_ffff
        &&& 1 <= self.log_config.num_of_pages <= 0x7fff_ffff
        &&& self.generator_config.interval >= 1
    }

    fn generate(&self) -> Result<Vec<ColumnarBatch>, Error> {
        LogDataGenerator::generate(self)
    }

    fn write(&self, to_write: &Vec<ColumnarBatch>) -> Result<Vec<(String, Vec<u8>)>, Error> {
        LogDataGenerator::write(self, to_write)
    }

    fn schema(table_name: &str) -> Vec<WireColumnSchema> {
        LogDataGenerator::schema(table_name)
    }

    fn table_name(table_name: &str) -> &'static str {
        LogDataGenerator::table_name(table_name)
    }

    fn table_names() -> Vec<&'static str> {
        LogDataGenerator::table_names()
    }
}

} // verus!
