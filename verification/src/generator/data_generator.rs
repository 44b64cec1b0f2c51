use crate::batch::ColumnarBatch;
use crate::error::Error;
use crate::loader::WireColumnSchema;
use vstd::prelude::*;

verus! {

/// Data use case; only log data is implemented.
#[derive(Clone, Copy, Debug, PartialEq, Eq, Structural)]
pub enum UseCase {
    Log,
    Others,
}

/// Generator configuration: the step between consecutive log rows in
/// microseconds, the inclusive time window as ISO-8601 texts, the master
/// seed every per-table random stream is derived from, and a row limit kept
/// for interface compatibility.
pub struct DataGeneratorConfig {
    pub interval: i64,
    pub time_start: String,
    pub time_end: String,
    pub seed: u64,
    pub limit: i64,
    pub use_case: UseCase,
}

/// The generator boundary the load orchestrator consumes: produce one batch
/// per table, encode batches for persistence, and expose the wire schema and
/// the authoritative table naming. Each implementation states through
/// `config_ok` which configurations its `generate` accepts.
pub trait DataGenerator {
    spec fn config_ok(&self) -> bool;

    /// Generate one batch per table, in `table_names` order.
    fn generate(&self) -> Result<Vec<ColumnarBatch>, Error>
        requires
            self.config_ok(),
    ;

    /// Encode batches for persistence, pairing each with its file name.
    fn write(&self, to_write: &Vec<ColumnarBatch>) -> Result<Vec<(String, Vec<u8>)>, Error>
        requires
            forall|i: int| 0 <= i < to_write@.len() ==> (#[trigger] to_write@[i]).wf(),
    ;

    /// The wire schema of a table by name.
    fn schema(table_name: &str) -> Vec<WireColumnSchema>;

    /// The canonical name of a table.
    fn table_name(table_name: &str) -> &'static str;

    /// Every canonical table name, in authoritative iteration order.
    fn table_names() -> Vec<&'static str>;
}

impl DataGeneratorConfig {
    pub fn new(
        interval: i64,
        time_start: String,
        time_end: String,
        seed: u64,
        limit: i64,
        use_case: UseCase,
    ) -> (r: DataGeneratorConfig)
        ensures
            r.interval == interval,
            r.time_start@ == time_start@,
            r.time_end@ == time_end@,
            r.seed == seed,
            r.limit == limit,
            r.use_case == use_case,
    {
        DataGeneratorConfig { interval, time_start, time_end, seed, limit, use_case }
    }
}

} // verus!
