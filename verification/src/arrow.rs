//! The Arrow logical types that the Postgres mapping reads, held as plain
//! values.
use vstd::prelude::*;

verus! {

#[derive(Debug, Clone, Copy, PartialEq, Eq, Structural)]
pub enum TimeUnit {
    Second,
    Millisecond,
    Microsecond,
    Nanosecond,
}

#[derive(Debug, Clone, Copy, PartialEq, Eq, Structural)]
pub enum IntervalUnit {
    YearMonth,
    DayTime,
    MonthDayNano,
}

#[derive(Debug, Clone, Copy, PartialEq, Eq, Structural)]
pub enum UnionMode {
    Sparse,
    Dense,
}

/// An Arrow data type.
#[derive(Debug)]
pub enum ArrowType {
    Null,
    Boolean,
    Int8,
    Int16,
    Int32,
    Int64,
    UInt8,
    UInt16,
    UInt32,
    UInt64,
    Float16,
    Float32,
    Float64,
    /// Unit and optional time zone name.
    Timestamp(TimeUnit, Option<String>),
    Date32,
    Date64,
    Time32(TimeUnit),
    Time64(TimeUnit),
    Duration(TimeUnit),
    Interval(IntervalUnit),
    Binary,
    FixedSizeBinary(i32),
    LargeBinary,
    Utf8,
    LargeUtf8,
    List(Box<Field>),
    FixedSizeList(Box<Field>, i32),
    LargeList(Box<Field>),
    Struct(Vec<Field>),
    /// Type ids with their fields, and the union mode.
    Union(Vec<(i8, Field)>, UnionMode),
    /// Key type and value type.
    Dictionary(Box<ArrowType>, Box<ArrowType>),
    /// Precision and scale.
    Decimal128(u8, i8),
    Decimal256(u8, i8),
    /// Entries field and whether the keys are sorted.
    MapType(Box<Field>, bool),
    /// Run-ends field and values field.
    RunEndEncoded(Box<Field>, Box<Field>),
}

/// A named, typed column or child of a nested type.
#[derive(Debug)]
pub struct Field {
    pub name: String,
    pub data_type: ArrowType,
    pub nullable: bool,
}

} // verus!
