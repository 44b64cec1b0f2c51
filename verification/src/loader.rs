use vstd::prelude::*;

pub mod data_loader;
pub mod greptime_data_loader;

verus! {

/// The semantic role a wire column plays: a grouping tag, the time index, or
/// a plain value field.
#[derive(Clone, Copy, Debug, PartialEq, Eq, Structural)]
pub enum SemanticType {
    Tag,
    Field,
    Timestamp,
}

/// The closed set of wire primitive types the converter emits.
#[derive(Clone, Copy, Debug, PartialEq, Eq, Structural)]
pub enum WireDataType {
    Int32,
    Utf8,
    TimestampMicrosecond,
}

/// One wire column's metadata: name, semantic role and wire primitive type.
#[derive(Debug)]
pub struct WireColumnSchema {
    pub column_name: String,
    pub semantic_type: SemanticType,
    pub datatype: WireDataType,
}

/// Mathematical image of a `WireColumnSchema`.
pub struct WireColumnView {
    pub name: Seq<char>,
    pub semantic_type: SemanticType,
    pub datatype: WireDataType,
}

impl View for WireColumnSchema {
    type V = WireColumnView;

    open spec fn view(&self) -> WireColumnView {
        WireColumnView {
            name: self.column_name@,
            semantic_type: self.semantic_type,
            datatype: self.datatype,
        }
    }
}

/// A wire column schema with the `Tag` role.
pub fn tag(name: &str, datatype: WireDataType) -> (r: WireColumnSchema)
    ensures
        r@ == (WireColumnView { name: name@, semantic_type: SemanticType::Tag, datatype }),
{
    WireColumnSchema { column_name: name.to_owned(), semantic_type: SemanticType::Tag, datatype }
}

/// A wire column schema with the `Timestamp` role.
pub fn timestamp(name: &str, datatype: WireDataType) -> (r: WireColumnSchema)
    ensures
        r@ == (WireColumnView { name: name@, semantic_type: SemanticType::Timestamp, datatype }),
{
    WireColumnSchema {
        column_name: name.to_owned(),
        semantic_type: SemanticType::Timestamp,
        datatype,
    }
}

/// A wire column schema with the `Field` role.
pub fn field(name: &str, datatype: WireDataType) -> (r: WireColumnSchema)
    ensures
        r@ == (WireColumnView { name: name@, semantic_type: SemanticType::Field, datatype }),
{
    WireColumnSchema { column_name: name.to_owned(), semantic_type: SemanticType::Field, datatype }
}

/// One typed wire value.
#[derive(Debug)]
pub enum WireValue {
    I32(i32),
    Str(String),
    TimestampMicros(i64),
}

/// Mathematical image of a `WireValue`.
pub enum WireValueData {
    I32(i32),
    Str(Seq<char>),
    TimestampMicros(i64),
}

impl View for WireValue {
    type V = WireValueData;

    open spec fn view(&self) -> WireValueData {
        match self {
            WireValue::I32(v) => WireValueData::I32(*v),
            WireValue::Str(v) => WireValueData::Str(v@),
            WireValue::TimestampMicros(v) => WireValueData::TimestampMicros(*v),
        }
    }
}

/// A wire value holding a microsecond timestamp.
pub fn timestamp_microsecond_value(v: i64) -> (r: WireValue)
    ensures
        r@ == WireValueData::TimestampMicros(v),
{
    WireValue::TimestampMicros(v)
}

/// A wire value holding a string.
pub fn string_value(v: String) -> (r: WireValue)
    ensures
        r@ == WireValueData::Str(v@),
{
    WireValue::Str(v)
}

/// A wire value holding a 32-bit integer.
pub fn i32_value(v: i32) -> (r: WireValue)
    ensures
        r@ == WireValueData::I32(v),
{
    WireValue::I32(v)
}

/// One wire row: one typed value per column, in column order.
#[derive(Debug)]
pub struct WireRow {
    pub values: Vec<WireValue>,
}

impl View for WireRow {
    type V = Seq<WireValueData>;

    open spec fn view(&self) -> Seq<WireValueData> {
        self.values@.map_values(|v: WireValue| v@)
    }
}

/// One table's bulk-insert request: the table name, the wire schema the
/// caller supplied, and the converted rows.
#[derive(Debug)]
pub struct WireInsertRequest {
    pub table_name: String,
    pub schema: Vec<WireColumnSchema>,
    pub rows: Vec<WireRow>,
}

impl WireInsertRequest {
    pub open spec fn rows_view(self) -> Seq<Seq<WireValueData>> {
        self.rows@.map_values(|r: WireRow| r@)
    }

    pub open spec fn schema_view(self) -> Seq<WireColumnView> {
        self.schema@.map_values(|c: WireColumnSchema| c@)
    }
}

} // verus!
